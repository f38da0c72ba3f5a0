//! Tests for the data-layout specification parser.

use llvm_model::target::layout::{AddressSpace, BitSize, Endianness, FunctionAlignmentType, Mangling};
use llvm_model::target::{Layout, ParseError};

#[test]
fn parse_little_endian() {
    let layout = Layout::try_from("e").unwrap();
    assert_eq!(layout.endianness(), Endianness::Little);
    assert_eq!(layout.endianness().symbol(), 'e');
}

#[test]
fn parse_big_endian() {
    let layout = Layout::try_from("E").unwrap();
    assert_eq!(layout.endianness(), Endianness::Big);
    assert_eq!(layout.endianness().symbol(), 'E');
}

#[test]
fn endianness_defaults_to_little() {
    let layout = Layout::try_from("S128").unwrap();
    assert_eq!(layout.endianness(), Endianness::Little);
}

#[test]
fn empty_specification_is_rejected() {
    assert!(matches!(
        Layout::try_from(""),
        Err(ParseError::EmptySpecification)
    ));
}

#[test]
fn doubled_dash_is_rejected() {
    assert!(matches!(
        Layout::try_from("e--S128"),
        Err(ParseError::EmptySpecification)
    ));
}

#[test]
fn pointer_layout_for_default_address_space() {
    let layout = Layout::try_from("p:64:64").unwrap();
    let pointer = layout.pointer_layout(AddressSpace(0));
    assert_eq!(pointer.size().bits(), 64);
    assert_eq!(pointer.alignment().abi_alignment(), 64);
    assert_eq!(pointer.alignment().preferred_alignment(), 64);
    assert_eq!(pointer.index_size().bits(), 64);
}

#[test]
fn duplicate_pointer_layout_is_rejected() {
    assert!(matches!(
        Layout::try_from("p:64:64-p:32:32"),
        Err(ParseError::DuplicatePointerLayout(a)) if a.0 == 0
    ));
}

#[test]
fn pointer_layouts_for_several_address_spaces() {
    let layout = Layout::try_from("p270:32:32-p271:32:32-p272:64:64").unwrap();
    assert_eq!(layout.pointer_layout(AddressSpace(270)).size().bits(), 32);
    assert_eq!(layout.pointer_layout(AddressSpace(271)).size().bits(), 32);
    assert_eq!(layout.pointer_layout(AddressSpace(272)).size().bits(), 64);
    // An address space without an entry uses the default 64-bit layout.
    assert_eq!(layout.pointer_layout(AddressSpace(5)).size().bits(), 64);
}

#[test]
fn pointer_index_size_is_recorded() {
    let layout = Layout::try_from("p:64:64:64:32").unwrap();
    let pointer = layout.pointer_layout(AddressSpace(0));
    assert_eq!(pointer.size().bits(), 64);
    assert_eq!(pointer.alignment().preferred_alignment(), 64);
    assert_eq!(pointer.index_size().bits(), 32);
}

#[test]
fn primitive_alignment_replaces_on_repeat() {
    let layout = Layout::try_from("i64:64-i64:32").unwrap();
    let alignment = layout.integer_alignment(BitSize::from_bits(64)).unwrap();
    assert_eq!(alignment.abi_alignment(), 32);
}

#[test]
fn zero_pointer_size_is_rejected() {
    assert!(matches!(
        Layout::try_from("p0:0:64"),
        Err(ParseError::ExpectedNonZeroSize('p'))
    ));
}

#[test]
fn zero_integer_size_is_rejected() {
    assert!(matches!(
        Layout::try_from("i0:8"),
        Err(ParseError::ExpectedNonZeroSize('i'))
    ));
}

#[test]
fn zero_vector_size_is_rejected() {
    assert!(matches!(
        Layout::try_from("v0:8"),
        Err(ParseError::ExpectedNonZeroSize('v'))
    ));
}

#[test]
fn zero_float_size_is_rejected() {
    assert!(matches!(
        Layout::try_from("f0:8"),
        Err(ParseError::ExpectedNonZeroSize('f'))
    ));
}

#[test]
fn stack_alignment_is_recorded() {
    let layout = Layout::try_from("S128").unwrap();
    assert_eq!(layout.stack_alignment().unwrap().bits(), 128);
}

#[test]
fn zero_stack_alignment_means_unspecified() {
    let layout = Layout::try_from("S0").unwrap();
    assert!(layout.stack_alignment().is_none());
}

#[test]
fn non_numeric_stack_alignment_is_rejected() {
    assert!(matches!(
        Layout::try_from("Sfoo"),
        Err(ParseError::InvalidInteger(_))
    ));
}

#[test]
fn overflowing_integer_is_rejected() {
    assert!(matches!(
        Layout::try_from("S99999999999999999999"),
        Err(ParseError::InvalidInteger(_))
    ));
}

#[test]
fn native_integer_widths_keep_their_order() {
    let layout = Layout::try_from("n8:16:32:64").unwrap();
    let widths: Vec<u32> = layout
        .native_integer_widths()
        .iter()
        .map(|w| w.bits())
        .collect();
    assert_eq!(widths, vec![8, 16, 32, 64]);
}

#[test]
fn zero_native_width_is_rejected() {
    assert!(matches!(
        Layout::try_from("n0"),
        Err(ParseError::ExpectedNonZeroSize('n'))
    ));
    assert!(matches!(
        Layout::try_from("n8:0"),
        Err(ParseError::ExpectedNonZeroSize('n'))
    ));
}

#[test]
fn mangling_without_colon_sets_elf() {
    let layout = Layout::try_from("me").unwrap();
    assert_eq!(layout.mangling(), Some(Mangling::ELF));
}

#[test]
fn mangling_with_colon_sets_scheme() {
    let layout = Layout::try_from("m:o").unwrap();
    assert_eq!(layout.mangling(), Some(Mangling::MachO));
}

#[test]
fn unknown_mangling_option_is_rejected() {
    assert!(matches!(
        Layout::try_from("mz"),
        Err(ParseError::InvalidManglingValue('z'))
    ));
}

#[test]
fn missing_mangling_option_is_rejected() {
    assert!(matches!(
        Layout::try_from("m"),
        Err(ParseError::MissingManglingValue)
    ));
    assert!(matches!(
        Layout::try_from("m:"),
        Err(ParseError::MissingManglingValue)
    ));
}

#[test]
fn last_mangling_token_wins() {
    let layout = Layout::try_from("m:e-m:w").unwrap();
    assert_eq!(layout.mangling(), Some(Mangling::WindowsCOFF));
}

#[test]
fn unknown_specifier_is_rejected() {
    assert!(matches!(
        Layout::try_from("q32"),
        Err(ParseError::InvalidSpecification('q'))
    ));
}

#[test]
fn trailing_characters_are_rejected() {
    assert!(matches!(
        Layout::try_from("ex"),
        Err(ParseError::ExpectedEnd(s)) if s == "x"
    ));
    assert!(matches!(
        Layout::try_from("i32:8q"),
        Err(ParseError::ExpectedEnd(s)) if s == "q"
    ));
}

#[test]
fn empty_sub_field_is_missing_information() {
    assert!(matches!(
        Layout::try_from("i32:"),
        Err(ParseError::MissingInformation)
    ));
    assert!(matches!(
        Layout::try_from("i32::8"),
        Err(ParseError::MissingInformation)
    ));
    assert!(matches!(
        Layout::try_from("p"),
        Err(ParseError::MissingInformation)
    ));
}

#[test]
fn address_space_tokens_are_recorded() {
    let layout = Layout::try_from("P1-G2-A3").unwrap();
    assert_eq!(layout.program_address_space.0, 1);
    assert_eq!(layout.global_address_space.0, 2);
    assert_eq!(layout.alloca_address_space.0, 3);
}

#[test]
fn aggregate_alignment_is_recorded() {
    let layout = Layout::try_from("a:0:32").unwrap();
    assert_eq!(layout.aggregate_object_alignment.abi_alignment(), 0);
    assert_eq!(layout.aggregate_object_alignment.preferred_alignment(), 32);
}

#[test]
fn function_pointer_alignment_is_recorded() {
    let layout = Layout::try_from("Fi8").unwrap();
    let alignment = layout.function_pointer_alignment.unwrap();
    assert!(matches!(
        alignment.alignment_type(),
        FunctionAlignmentType::Independent
    ));
    assert_eq!(alignment.abi_alignment().bits(), 8);

    let layout = Layout::try_from("Fn16").unwrap();
    let alignment = layout.function_pointer_alignment.unwrap();
    assert!(matches!(
        alignment.alignment_type(),
        FunctionAlignmentType::Multiple
    ));
    assert_eq!(alignment.abi_alignment().bits(), 16);
}

#[test]
fn zero_function_pointer_alignment_is_rejected() {
    assert!(matches!(
        Layout::try_from("Fi0"),
        Err(ParseError::ExpectedNonZeroSize('F'))
    ));
}

#[test]
fn untouched_properties_keep_their_defaults() {
    let layout = Layout::try_from("S32").unwrap();
    assert_eq!(layout.endianness(), Endianness::Little);
    assert!(layout.mangling().is_none());
    assert_eq!(layout.program_address_space.0, 0);
    assert_eq!(layout.global_address_space.0, 0);
    assert_eq!(layout.alloca_address_space.0, 0);
    assert!(layout.function_pointer_alignment.is_none());
    assert!(layout.native_integer_widths().is_empty());
    // The alignment tables keep the documented defaults.
    let i32_alignment = layout.integer_alignment(BitSize::from_bits(32)).unwrap();
    assert_eq!(i32_alignment.abi_alignment(), 32);
    let f128_alignment = layout.float_alignment(BitSize::from_bits(128)).unwrap();
    assert_eq!(f128_alignment.abi_alignment(), 128);
    let v64_alignment = layout.vector_alignment(BitSize::from_bits(64)).unwrap();
    assert_eq!(v64_alignment.abi_alignment(), 64);
    assert_eq!(layout.aggregate_object_alignment.abi_alignment(), 0);
    assert_eq!(layout.aggregate_object_alignment.preferred_alignment(), 64);
}

#[test]
fn full_specification_string_parses() {
    let layout = Layout::try_from(
        "e-m:e-p:64:64-i1:8:8-i8:8:8-i16:16:16-i32:32:32-i64:64:64-f80:128-n8:16:32:64-S128",
    )
    .unwrap();
    assert_eq!(layout.endianness(), Endianness::Little);
    assert_eq!(layout.mangling(), Some(Mangling::ELF));
    let pointer = layout.pointer_layout(AddressSpace(0));
    assert_eq!(pointer.size().bits(), 64);
    assert_eq!(pointer.alignment().abi_alignment(), 64);
    let f80_alignment = layout.float_alignment(BitSize::from_bits(80)).unwrap();
    assert_eq!(f80_alignment.abi_alignment(), 128);
    let widths: Vec<u32> = layout
        .native_integer_widths()
        .iter()
        .map(|w| w.bits())
        .collect();
    assert_eq!(widths, vec![8, 16, 32, 64]);
    assert_eq!(layout.stack_alignment().unwrap().bits(), 128);
    let i64_alignment = layout.integer_alignment(BitSize::from_bits(64)).unwrap();
    assert_eq!(i64_alignment.abi_alignment(), 64);
    assert_eq!(i64_alignment.preferred_alignment(), 64);
}

#[test]
fn parse_errors_describe_themselves() {
    let error = Layout::try_from("").unwrap_err();
    assert_eq!(error.message(), "specifications must not be empty");
    let error = Layout::try_from("q1").unwrap_err();
    assert_eq!(error.message(), "'q' is not a valid specification");
    let error = Layout::try_from("Sfoo").unwrap_err();
    assert_eq!(error.message(), "could not parse integer from 'foo'");
    let error = Layout::try_from("i32:").unwrap_err();
    assert_eq!(error.message(), "missing information after colon");
    let error = Layout::try_from("ex").unwrap_err();
    assert_eq!(error.message(), "expected end, but got x");
    let error = Layout::try_from("p:64:64-p:32:32").unwrap_err();
    assert_eq!(
        error.message(),
        "duplicate pointer layout specified for address space 0"
    );
    let error = Layout::try_from("p0:0:64").unwrap_err();
    assert_eq!(
        error.message(),
        "expected non-zero size value in specification 'p'"
    );
    let error = Layout::try_from("m").unwrap_err();
    assert_eq!(
        error.message(),
        "a mangling specification exists but did not specify any option"
    );
    let error = Layout::try_from("mz").unwrap_err();
    assert_eq!(error.message(), "z is not a valid mangling specification option");
    let error = ParseError::DuplicatePrimitiveAlignment {
        specification: 'i',
        size: BitSize::from_bits(32),
    };
    assert_eq!(error.message(), "duplicate 'i' specification for size 32");
}
