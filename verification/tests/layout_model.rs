//! Tests for the layout value types, the alignment tables, and the canonical
//! rendering of layouts.

use llvm_model::target::layout::{
    float_alignment_defaults, integer_alignment_defaults, vector_alignment_defaults, AddressSpace,
    AlignmentPair, BitSize, Endianness, Layout, Mangling, PointerLayout, PointerLayoutMap,
    PrimitiveAlignmentMap,
};

#[test]
fn bit_size_rejects_zero() {
    assert!(BitSize::new(0).is_none());
    assert_eq!(BitSize::new(64).unwrap().bits(), 64);
    assert_eq!(BitSize::from_bytes(2).bits(), 16);
}

#[test]
fn alignment_pair_fallback_chain() {
    let abi_only = AlignmentPair::new(BitSize::from_bits(16));
    assert_eq!(abi_only.abi_alignment(), 16);
    assert_eq!(abi_only.preferred_alignment(), 16);
    assert!(abi_only.is_preferred_omitted());

    let both = AlignmentPair::with_preferred_alignment(BitSize::from_bits(16), BitSize::from_bits(32));
    assert_eq!(both.abi_alignment(), 16);
    assert_eq!(both.preferred_alignment(), 32);
    assert!(!both.is_preferred_omitted());

    let preferred_only = AlignmentPair::with_preferred_only(BitSize::from_bits(64));
    assert_eq!(preferred_only.abi_alignment(), 0);
    assert_eq!(preferred_only.preferred_alignment(), 64);

    let wholly_unset = AlignmentPair::from_options(None, None);
    assert_eq!(wholly_unset.abi_alignment(), 0);
    assert_eq!(wholly_unset.preferred_alignment(), 0);
}

#[test]
fn pointer_layout_index_size_defaults_to_size() {
    let layout = PointerLayout::new(
        AddressSpace(0),
        BitSize::from_bits(32),
        AlignmentPair::new(BitSize::from_bits(32)),
        None,
    );
    assert_eq!(layout.index_size().bits(), 32);
    let layout = PointerLayout::new(
        AddressSpace(0),
        BitSize::from_bits(64),
        AlignmentPair::new(BitSize::from_bits(64)),
        Some(BitSize::from_bits(32)),
    );
    assert_eq!(layout.index_size().bits(), 32);
}

#[test]
fn pointer_layout_map_insert_rejects_duplicates() {
    let mut map = PointerLayoutMap::all_default();
    assert!(map.is_all_default());
    let first = PointerLayout::new(
        AddressSpace(1),
        BitSize::from_bits(32),
        AlignmentPair::new(BitSize::from_bits(32)),
        None,
    );
    assert!(map.insert(first).is_ok());
    assert!(!map.is_all_default());
    assert_eq!(map.len(), 1);
    let second = PointerLayout::new(
        AddressSpace(1),
        BitSize::from_bits(64),
        AlignmentPair::new(BitSize::from_bits(64)),
        None,
    );
    let existing = map.insert(second).unwrap_err();
    assert_eq!(existing.size().bits(), 32);
    assert_eq!(map.len(), 1);
}

#[test]
fn pointer_layout_map_falls_back_to_default() {
    let map = PointerLayoutMap::all_default();
    let fallback = map.get_or_default(AddressSpace(7));
    assert_eq!(fallback.size().bits(), 64);
    assert_eq!(fallback.alignment().abi_alignment(), 64);
    assert_eq!(fallback.index_size().bits(), 64);
    assert!(map.get(AddressSpace(7)).is_none());
}

#[test]
fn primitive_alignment_map_try_insert_reports_existing() {
    let mut map = PrimitiveAlignmentMap::new();
    assert!(map
        .try_insert(BitSize::from_bits(8), AlignmentPair::new(BitSize::from_bits(8)))
        .is_ok());
    let existing = map
        .try_insert(BitSize::from_bits(8), AlignmentPair::new(BitSize::from_bits(16)))
        .unwrap_err();
    assert_eq!(existing.abi_alignment(), 8);
    assert_eq!(map.len(), 1);
    // Replacement is explicit.
    map.insert_or_replace(BitSize::from_bits(8), AlignmentPair::new(BitSize::from_bits(16)));
    assert_eq!(map.len(), 1);
    assert_eq!(map.get(BitSize::from_bits(8)).unwrap().abi_alignment(), 16);
}

#[test]
fn default_alignment_tables_match_the_documented_values() {
    let integers = integer_alignment_defaults();
    for (size, abi) in [(1u32, 8u32), (8, 8), (16, 16), (32, 32), (64, 64)] {
        let pair = integers.get(BitSize::from_bits(size)).unwrap();
        assert_eq!(pair.abi_alignment(), abi);
        assert!(pair.is_preferred_omitted());
    }
    assert_eq!(integers.len(), 5);

    let floats = float_alignment_defaults();
    for size in [16u32, 32, 64, 128] {
        assert_eq!(floats.get(BitSize::from_bits(size)).unwrap().abi_alignment(), size);
    }
    assert_eq!(floats.len(), 4);

    let vectors = vector_alignment_defaults();
    for size in [64u32, 128] {
        assert_eq!(vectors.get(BitSize::from_bits(size)).unwrap().abi_alignment(), size);
    }
    assert_eq!(vectors.len(), 2);
}

#[test]
fn default_layout_has_the_documented_defaults() {
    let layout = Layout::default();
    assert_eq!(layout.endianness(), Endianness::Little);
    assert!(layout.stack_alignment().is_none());
    assert_eq!(layout.program_address_space.0, 0);
    assert!(layout.mangling().is_none());
    assert!(layout.function_pointer_alignment.is_none());
    assert!(layout.native_integer_widths().is_empty());
    assert_eq!(layout.pointer_layout(AddressSpace(0)).size().bits(), 64);
}

#[test]
fn default_layout_renders_canonically() {
    let layout = Layout::default();
    assert_eq!(
        layout.layout_string(),
        "e-i1:8-i8:8-i16:16-i32:32-i64:64-v64:64-v128:128-f16:16-f32:32-f64:64-f128:128-a:0:64"
    );
}

#[test]
fn parsed_layout_renders_its_recorded_properties() {
    let layout = Layout::try_from("E-m:o-p1:32:32:64:16-n8:16-S64").unwrap();
    let rendered = layout.layout_string();
    assert_eq!(
        rendered,
        "E-m:o-p1:32:32:64:16-i1:8-i8:8-i16:16-i32:32-i64:64-v64:64-v128:128-f16:16-f32:32-f64:64-f128:128-a:0:64-n8:16-S64"
    );
}

#[test]
fn canonical_rendering_round_trips() {
    let layout = Layout::try_from("e-m:e-p:64:64-i64:64-f80:128-n32:64-S128").unwrap();
    let rendered = layout.layout_string();
    let reparsed = Layout::try_from(rendered.as_str()).unwrap();
    assert_eq!(reparsed.layout_string(), rendered);
}

#[test]
fn rendering_covers_every_token_family() {
    let layout = Layout::try_from("E-m:a-P1-G2-A3-p:32:32-a:8:16-Fn8-n16-S32").unwrap();
    let rendered = layout.layout_string();
    assert_eq!(
        rendered,
        "E-m:a-P1-G2-A3-p:32:32-i1:8-i8:8-i16:16-i32:32-i64:64-v64:64-v128:128-f16:16-f32:32-f64:64-f128:128-a:8:16-Fn8-n16-S32"
    );
    let reparsed = Layout::try_from(rendered.as_str()).unwrap();
    assert_eq!(reparsed.layout_string(), rendered);
}

#[test]
fn single_entry_pointer_map() {
    let map = PointerLayoutMap::from_layout(PointerLayout::new(
        AddressSpace::von_neumann_default(),
        BitSize::from_bits(16),
        AlignmentPair::new(BitSize::from_bits(16)),
        None,
    ));
    assert_eq!(map.len(), 1);
    assert_eq!(map.get(AddressSpace(0)).unwrap().size().bits(), 16);
    assert_eq!(map.get_or_default(AddressSpace(0)).size().bits(), 16);
}

#[test]
fn mangling_symbols_match_their_tokens() {
    for (scheme, symbol) in [
        (Mangling::ELF, 'e'),
        (Mangling::GOFF, 'l'),
        (Mangling::MIPS, 'm'),
        (Mangling::MachO, 'o'),
        (Mangling::WindowsX86COFF, 'x'),
        (Mangling::WindowsCOFF, 'w'),
        (Mangling::XCOFF, 'a'),
    ] {
        assert_eq!(scheme.symbol(), symbol);
    }
}
