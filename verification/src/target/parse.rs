//! The parser for LLVM data-layout specification strings.
//!
//! A specification string is a sequence of tokens separated by `-`; each token
//! names one property of the layout with a leading specifier character and
//! `:`-separated numeric sub-fields, as in `e-m:e-p:64:64-i64:64-n32:64-S128`.
//!
//! The grammar and its error behaviour are written down once, as the
//! specification functions in this module, and [`Layout::try_from`] is proved
//! to return exactly what those functions describe on every input.

use crate::target::layout::{
    AddressSpace, AlignmentPair, AlignmentPairModel, BitSize, Endianness, FunctionAlignment,
    FunctionAlignmentModel, FunctionAlignmentType, Layout, LayoutModel, Mangling, PointerLayout,
    PointerLayoutModel, align_entries_set, ptr_entries_contains,
    spec_default_layout, spec_opt_bits,
};
use crate::text::{str_to_chars, string_of_range};
use vstd::prelude::*;

verus! {

/// The mathematical content of a [`ParseError`].
pub enum ParseErrorModel {
    /// An unrecognized leading specifier character.
    InvalidSpecification(char),
    /// A numeric sub-field did not parse as a non-negative integer or
    /// overflowed; carries the unparsed text from where the number was
    /// expected.
    InvalidInteger(Seq<char>),
    /// A `:`-delimited sub-field was expected but the token ended or the
    /// field was empty.
    MissingInformation,
    /// Characters remained after all expected sub-fields were consumed.
    ExpectedEnd(Seq<char>),
    /// A second pointer layout targeted an address space already configured.
    DuplicatePointerLayout(u32),
    /// A size sub-field of the named specifier was zero.
    ExpectedNonZeroSize(char),
    /// A mangling token named no scheme at all.
    MissingManglingValue,
    /// A mangling token named an unknown scheme.
    InvalidManglingValue(char),
    /// A primitive alignment was given twice for one size, at a call site
    /// that rejects duplicates instead of replacing them.
    DuplicatePrimitiveAlignment(char, u32),
    /// A token between two `-` separators was empty.
    EmptySpecification,
}

/// Error used when a layout could not be parsed.
#[derive(Clone, Debug)]
pub enum ParseError {
    /// An unrecognized leading specifier character.
    InvalidSpecification(char),
    /// A numeric sub-field did not parse as a non-negative integer or
    /// overflowed; carries the unparsed text from where the number was
    /// expected.
    InvalidInteger(String),
    /// A `:`-delimited sub-field was expected but the token ended or the
    /// field was empty.
    MissingInformation,
    /// Characters remained after all expected sub-fields were consumed.
    ExpectedEnd(String),
    /// A second pointer layout targeted an address space already configured.
    DuplicatePointerLayout(AddressSpace),
    /// A size sub-field of the named specifier was zero.
    ExpectedNonZeroSize(char),
    /// A mangling token named no scheme at all.
    MissingManglingValue,
    /// A mangling token named an unknown scheme.
    InvalidManglingValue(char),
    /// A primitive alignment was given twice for one size, at a call site
    /// that rejects duplicates instead of replacing them.
    DuplicatePrimitiveAlignment {
        /// The duplicated specifier character.
        specification: char,
        /// The size whose alignment was given twice.
        size: BitSize,
    },
    /// A token between two `-` separators was empty.
    EmptySpecification,
}

impl View for ParseError {
    type V = ParseErrorModel;

    open spec fn view(&self) -> ParseErrorModel {
        match self {
            ParseError::InvalidSpecification(c) => ParseErrorModel::InvalidSpecification(*c),
            ParseError::InvalidInteger(s) => ParseErrorModel::InvalidInteger(s@),
            ParseError::MissingInformation => ParseErrorModel::MissingInformation,
            ParseError::ExpectedEnd(s) => ParseErrorModel::ExpectedEnd(s@),
            ParseError::DuplicatePointerLayout(a) => ParseErrorModel::DuplicatePointerLayout(a.0),
            ParseError::ExpectedNonZeroSize(c) => ParseErrorModel::ExpectedNonZeroSize(*c),
            ParseError::MissingManglingValue => ParseErrorModel::MissingManglingValue,
            ParseError::InvalidManglingValue(c) => ParseErrorModel::InvalidManglingValue(*c),
            ParseError::DuplicatePrimitiveAlignment { specification, size } =>
                ParseErrorModel::DuplicatePrimitiveAlignment(*specification, size@),
            ParseError::EmptySpecification => ParseErrorModel::EmptySpecification,
        }
    }
}

/// The human-readable description of a parse error.
pub open spec fn spec_error_message(e: ParseErrorModel) -> Seq<char> {
    match e {
        ParseErrorModel::InvalidSpecification(c) => seq!['\''] + seq![c]
            + "' is not a valid specification"@,
        ParseErrorModel::InvalidInteger(s) => "could not parse integer from '"@ + s + seq!['\''],
        ParseErrorModel::MissingInformation => "missing information after colon"@,
        ParseErrorModel::ExpectedEnd(s) => "expected end, but got "@ + s,
        ParseErrorModel::DuplicatePointerLayout(a) =>
            "duplicate pointer layout specified for address space "@ + crate::text::spec_decimal(
            a as nat,
        ),
        ParseErrorModel::ExpectedNonZeroSize(c) => "expected non-zero size value in specification '"@
            + seq![c] + seq!['\''],
        ParseErrorModel::MissingManglingValue =>
            "a mangling specification exists but did not specify any option"@,
        ParseErrorModel::InvalidManglingValue(c) => seq![c]
            + " is not a valid mangling specification option"@,
        ParseErrorModel::DuplicatePrimitiveAlignment(c, size) => "duplicate '"@ + seq![c]
            + "' specification for size "@ + crate::text::spec_decimal(size as nat),
        ParseErrorModel::EmptySpecification => "specifications must not be empty"@,
    }
}

impl ParseError {
    /// A human-readable description of the error.
    pub fn message(&self) -> (r: String)
        ensures
            r@ == spec_error_message(self@),
    {
        match self {
            ParseError::InvalidSpecification(c) => {
                let mut r = String::new();
                crate::text::push_char(&mut r, '\'');
                crate::text::push_char(&mut r, *c);
                r.append("' is not a valid specification");
                assert(r@ =~= spec_error_message(self@));
                r
            },
            ParseError::InvalidInteger(s) => {
                let mut r = "could not parse integer from '".to_owned();
                r.append(s.as_str());
                crate::text::push_char(&mut r, '\'');
                assert(r@ =~= spec_error_message(self@));
                r
            },
            ParseError::MissingInformation => "missing information after colon".to_owned(),
            ParseError::ExpectedEnd(s) => {
                let mut r = "expected end, but got ".to_owned();
                r.append(s.as_str());
                assert(r@ =~= spec_error_message(self@));
                r
            },
            ParseError::DuplicatePointerLayout(a) => {
                let mut r = "duplicate pointer layout specified for address space ".to_owned();
                crate::text::append_decimal(&mut r, a.0 as u64);
                assert(r@ =~= spec_error_message(self@));
                r
            },
            ParseError::ExpectedNonZeroSize(c) => {
                let mut r = "expected non-zero size value in specification '".to_owned();
                crate::text::push_char(&mut r, *c);
                crate::text::push_char(&mut r, '\'');
                assert(r@ =~= spec_error_message(self@));
                r
            },
            ParseError::MissingManglingValue => {
                "a mangling specification exists but did not specify any option".to_owned()
            },
            ParseError::InvalidManglingValue(c) => {
                let mut r = String::new();
                crate::text::push_char(&mut r, *c);
                r.append(" is not a valid mangling specification option");
                assert(r@ =~= spec_error_message(self@));
                r
            },
            ParseError::DuplicatePrimitiveAlignment { specification, size } => {
                let mut r = "duplicate '".to_owned();
                crate::text::push_char(&mut r, *specification);
                r.append("' specification for size ");
                crate::text::append_decimal(&mut r, size.bits() as u64);
                assert(r@ =~= spec_error_message(self@));
                r
            },
            ParseError::EmptySpecification => "specifications must not be empty".to_owned(),
        }
    }
}

/// True for the decimal digit characters `0` through `9`.
pub open spec fn spec_is_digit(c: char) -> bool {
    48 <= c as u32 <= 57
}

/// The numeric value of a decimal digit character.
pub open spec fn spec_digit_val(c: char) -> nat {
    (c as u32 - 48) as nat
}

/// The length of the longest prefix of decimal digits.
pub open spec fn digit_run(s: Seq<char>) -> nat
    decreases s.len(),
{
    if s.len() == 0 || !spec_is_digit(s[0]) {
        0
    } else {
        1 + digit_run(s.skip(1))
    }
}

/// The value of a sequence of decimal digits read left to right.
pub open spec fn digits_val(s: Seq<char>) -> nat
    decreases s.len(),
{
    if s.len() == 0 {
        0
    } else {
        digits_val(s.drop_last()) * 10 + spec_digit_val(s.last())
    }
}

/// Reads a decimal integer from the front of `s`. When `s` starts with no
/// digit, the error is `MissingInformation` if the token ended or the next
/// field begins immediately (an empty field), and an integer-parse error
/// otherwise; a value beyond `u32::MAX` is an integer-parse error too.
pub open spec fn spec_parse_int(s: Seq<char>) -> Result<(Seq<char>, u32), ParseErrorModel> {
    let k = digit_run(s) as int;
    if k == 0 {
        if s.len() == 0 || s[0] == ':' {
            Err(ParseErrorModel::MissingInformation)
        } else {
            Err(ParseErrorModel::InvalidInteger(s))
        }
    } else if digits_val(s.take(k)) > u32::MAX {
        Err(ParseErrorModel::InvalidInteger(s))
    } else {
        Ok((s.skip(k), digits_val(s.take(k)) as u32))
    }
}

/// Reads a bit size from the front of `s`: a decimal integer where zero
/// means "absent".
pub open spec fn spec_parse_size(s: Seq<char>) -> Result<
    (Seq<char>, Option<u32>),
    ParseErrorModel,
> {
    match spec_parse_int(s) {
        Ok((r, v)) => Ok((r, if v == 0 { None } else { Some(v) })),
        Err(e) => Err(e),
    }
}

/// Reads an optional `:`-prefixed bit-size sub-field. At the end of the token
/// the field is absent; anything other than a `:` is trailing garbage.
pub open spec fn spec_size_field(s: Seq<char>) -> Result<
    (Seq<char>, Option<Option<u32>>),
    ParseErrorModel,
> {
    if s.len() == 0 {
        Ok((s, None))
    } else if s[0] == ':' {
        match spec_parse_size(s.skip(1)) {
            Ok((r, v)) => Ok((r, Some(v))),
            Err(e) => Err(e),
        }
    } else {
        Err(ParseErrorModel::ExpectedEnd(s))
    }
}

/// Reads a required `:`-prefixed bit-size sub-field.
pub open spec fn spec_req_size_field(s: Seq<char>) -> Result<
    (Seq<char>, Option<u32>),
    ParseErrorModel,
> {
    match spec_size_field(s) {
        Ok((r, Some(v))) => Ok((r, v)),
        Ok((r, None)) => Err(ParseErrorModel::MissingInformation),
        Err(e) => Err(e),
    }
}

/// Collapses an optional optional value.
pub open spec fn opt_flatten(o: Option<Option<u32>>) -> Option<u32> {
    match o {
        Some(x) => x,
        None => None,
    }
}

/// Wraps up a token: any characters left over after all expected sub-fields
/// were consumed are an error.
pub open spec fn spec_finish(lay: LayoutModel, rest: Seq<char>) -> Result<
    LayoutModel,
    ParseErrorModel,
> {
    if rest.len() == 0 {
        Ok(lay)
    } else {
        Err(ParseErrorModel::ExpectedEnd(rest))
    }
}

/// Parses the fields of a `p` token after the leading character: an optional
/// address space, a required size, a required ABI alignment, an optional
/// preferred alignment and an optional index size. A size of zero is
/// rejected, and so is a second layout for an address space that already has
/// one.
pub open spec fn spec_parse_pointer(lay: LayoutModel, rest: Seq<char>) -> Result<
    LayoutModel,
    ParseErrorModel,
> {
    if rest.len() == 0 {
        Err(ParseErrorModel::MissingInformation)
    } else {
        let address_result = if rest[0] == ':' {
            Ok((rest, 0u32))
        } else {
            spec_parse_int(rest)
        };
        match address_result {
            Err(e) => Err(e),
            Ok((r1, address_space)) => match spec_req_size_field(r1) {
                Err(e) => Err(e),
                Ok((r2, size_opt)) => match spec_req_size_field(r2) {
                    Err(e) => Err(e),
                    Ok((r3, abi)) => match spec_size_field(r3) {
                        Err(e) => Err(e),
                        Ok((r4, pref)) => match spec_size_field(r4) {
                            Err(e) => Err(e),
                            Ok((r5, idx)) => match size_opt {
                                None => Err(ParseErrorModel::ExpectedNonZeroSize('p')),
                                Some(size) => if ptr_entries_contains(
                                    lay.pointer_layouts,
                                    address_space,
                                ) {
                                    Err(ParseErrorModel::DuplicatePointerLayout(address_space))
                                } else {
                                    spec_finish(
                                        LayoutModel {
                                            pointer_layouts: lay.pointer_layouts.push(
                                                PointerLayoutModel {
                                                    address_space,
                                                    size,
                                                    alignment: AlignmentPairModel {
                                                        abi,
                                                        preferred: opt_flatten(pref),
                                                    },
                                                    index_size: opt_flatten(idx),
                                                },
                                            ),
                                            ..lay
                                        },
                                        r5,
                                    )
                                },
                            },
                        },
                    },
                },
            },
        }
    }
}

/// Parses the fields shared by the `i`, `v` and `f` tokens: a required size,
/// a required ABI alignment, and an optional preferred alignment.
pub open spec fn spec_parse_alignment_fields(rest: Seq<char>) -> Result<
    (Seq<char>, Option<u32>, AlignmentPairModel),
    ParseErrorModel,
> {
    match spec_parse_size(rest) {
        Err(e) => Err(e),
        Ok((r1, size_opt)) => match spec_req_size_field(r1) {
            Err(e) => Err(e),
            Ok((r2, abi)) => match spec_size_field(r2) {
                Err(e) => Err(e),
                Ok((r3, pref)) => Ok(
                    (r3, size_opt, AlignmentPairModel { abi, preferred: opt_flatten(pref) }),
                ),
            },
        },
    }
}

/// Parses an `i`, `v` or `f` token after the leading character. A size of
/// zero is rejected; a size already present in the table has its alignment
/// replaced rather than rejected.
pub open spec fn spec_parse_primitive(lay: LayoutModel, kind: char, rest: Seq<char>) -> Result<
    LayoutModel,
    ParseErrorModel,
> {
    match spec_parse_alignment_fields(rest) {
        Err(e) => Err(e),
        Ok((r, None, _)) => Err(ParseErrorModel::ExpectedNonZeroSize(kind)),
        Ok((r, Some(size), apm)) => if kind == 'i' {
            spec_finish(
                LayoutModel {
                    integer_alignments: align_entries_set(lay.integer_alignments, size, apm),
                    ..lay
                },
                r,
            )
        } else if kind == 'v' {
            spec_finish(
                LayoutModel {
                    vector_alignments: align_entries_set(lay.vector_alignments, size, apm),
                    ..lay
                },
                r,
            )
        } else {
            spec_finish(
                LayoutModel {
                    float_alignments: align_entries_set(lay.float_alignments, size, apm),
                    ..lay
                },
                r,
            )
        },
    }
}

/// The mangling scheme denoted by an option character, if any.
pub open spec fn spec_mangling_of(c: char) -> Option<Mangling> {
    if c == 'e' {
        Some(Mangling::ELF)
    } else if c == 'l' {
        Some(Mangling::GOFF)
    } else if c == 'm' {
        Some(Mangling::MIPS)
    } else if c == 'o' {
        Some(Mangling::MachO)
    } else if c == 'x' {
        Some(Mangling::WindowsX86COFF)
    } else if c == 'w' {
        Some(Mangling::WindowsCOFF)
    } else if c == 'a' {
        Some(Mangling::XCOFF)
    } else {
        None
    }
}

/// Parses an `m` token after the leading character: one scheme character,
/// which may but need not be preceded by a `:`. The last mangling token of a
/// specification wins; repeating one is not an error, since only one scheme
/// can be active.
pub open spec fn spec_parse_mangling(lay: LayoutModel, rest: Seq<char>) -> Result<
    LayoutModel,
    ParseErrorModel,
> {
    let r = if rest.len() > 0 && rest[0] == ':' {
        rest.skip(1)
    } else {
        rest
    };
    if r.len() == 0 {
        Err(ParseErrorModel::MissingManglingValue)
    } else {
        match spec_mangling_of(r[0]) {
            Some(m) => spec_finish(LayoutModel { mangling: Some(m), ..lay }, r.skip(1)),
            None => Err(ParseErrorModel::InvalidManglingValue(r[0])),
        }
    }
}

/// The digit run is never longer than the sequence.
pub proof fn lemma_digit_run_le(s: Seq<char>)
    ensures
        digit_run(s) <= s.len(),
    decreases s.len(),
{
    if s.len() != 0 && spec_is_digit(s[0]) {
        lemma_digit_run_le(s.skip(1));
    }
}

/// A successful integer read consumes at least one character.
pub proof fn lemma_parse_int_shrinks(s: Seq<char>)
    ensures
        spec_parse_int(s) matches Ok((r, _)) ==> r.len() < s.len(),
{
    lemma_digit_run_le(s);
}

/// Parses the `:`-separated size fields that follow the first width of an
/// `n` token, appending each to the accumulated widths. A width of zero is
/// rejected.
pub open spec fn spec_parse_native(s: Seq<char>, acc: Seq<u32>) -> Result<
    (Seq<char>, Seq<u32>),
    ParseErrorModel,
>
    decreases s.len(),
    via spec_parse_native_decreases
{
    if s.len() == 0 || s[0] != ':' {
        Ok((s, acc))
    } else {
        match spec_parse_size(s.skip(1)) {
            Err(e) => Err(e),
            Ok((r, None)) => Err(ParseErrorModel::ExpectedNonZeroSize('n')),
            Ok((r, Some(v))) => spec_parse_native(r, acc.push(v)),
        }
    }
}

#[via_fn]
proof fn spec_parse_native_decreases(s: Seq<char>, acc: Seq<u32>) {
    if s.len() != 0 && s[0] == ':' {
        lemma_parse_int_shrinks(s.skip(1));
    }
}

/// Parses an `n` token after the leading character: one or more
/// `:`-separated native integer widths, appended in order.
pub open spec fn spec_parse_native_token(lay: LayoutModel, rest: Seq<char>) -> Result<
    LayoutModel,
    ParseErrorModel,
> {
    match spec_parse_size(rest) {
        Err(e) => Err(e),
        Ok((r, None)) => Err(ParseErrorModel::ExpectedNonZeroSize('n')),
        Ok((r, Some(v))) => match spec_parse_native(r, lay.native_integer_widths.push(v)) {
            Err(e) => Err(e),
            Ok((r2, widths)) => spec_finish(
                LayoutModel { native_integer_widths: widths, ..lay },
                r2,
            ),
        },
    }
}

/// Parses an `a` token after the leading character: a required ABI alignment
/// and an optional preferred alignment for aggregate types. An ABI value of
/// zero stands for an absent ABI alignment, so it is not rejected here.
pub open spec fn spec_parse_aggregate(lay: LayoutModel, rest: Seq<char>) -> Result<
    LayoutModel,
    ParseErrorModel,
> {
    match spec_req_size_field(rest) {
        Err(e) => Err(e),
        Ok((r1, abi)) => match spec_size_field(r1) {
            Err(e) => Err(e),
            Ok((r2, pref)) => spec_finish(
                LayoutModel {
                    aggregate_object_alignment: AlignmentPairModel {
                        abi,
                        preferred: opt_flatten(pref),
                    },
                    ..lay
                },
                r2,
            ),
        },
    }
}

/// Parses an `F` token after the leading character: one character choosing
/// whether function-pointer alignment is independent of (`i`) or a multiple
/// of (`n`) function alignment, followed by a non-zero ABI alignment. An
/// unrecognized choice character is reported as an invalid specification.
pub open spec fn spec_parse_function_alignment(lay: LayoutModel, rest: Seq<char>) -> Result<
    LayoutModel,
    ParseErrorModel,
> {
    if rest.len() == 0 {
        Err(ParseErrorModel::MissingInformation)
    } else if rest[0] != 'i' && rest[0] != 'n' {
        Err(ParseErrorModel::InvalidSpecification(rest[0]))
    } else {
        let alignment_type = if rest[0] == 'i' {
            FunctionAlignmentType::Independent
        } else {
            FunctionAlignmentType::Multiple
        };
        match spec_parse_size(rest.skip(1)) {
            Err(e) => Err(e),
            Ok((r, None)) => Err(ParseErrorModel::ExpectedNonZeroSize('F')),
            Ok((r, Some(v))) => spec_finish(
                LayoutModel {
                    function_pointer_alignment: Some(
                        FunctionAlignmentModel { alignment_type, abi_alignment: v },
                    ),
                    ..lay
                },
                r,
            ),
        }
    }
}

/// Parses one dash-separated token of a specification string, updating the
/// layout accordingly. An empty token and an unrecognized leading specifier
/// character are errors.
pub open spec fn spec_parse_token(lay: LayoutModel, tok: Seq<char>) -> Result<
    LayoutModel,
    ParseErrorModel,
> {
    if tok.len() == 0 {
        Err(ParseErrorModel::EmptySpecification)
    } else {
        let kind = tok[0];
        let rest = tok.skip(1);
        if kind == 'E' {
            spec_finish(LayoutModel { endianness: Endianness::Big, ..lay }, rest)
        } else if kind == 'e' {
            spec_finish(LayoutModel { endianness: Endianness::Little, ..lay }, rest)
        } else if kind == 'S' {
            match spec_parse_size(rest) {
                Err(e) => Err(e),
                Ok((r, sz)) => spec_finish(LayoutModel { stack_alignment: sz, ..lay }, r),
            }
        } else if kind == 'P' {
            match spec_parse_int(rest) {
                Err(e) => Err(e),
                Ok((r, v)) => spec_finish(LayoutModel { program_address_space: v, ..lay }, r),
            }
        } else if kind == 'G' {
            match spec_parse_int(rest) {
                Err(e) => Err(e),
                Ok((r, v)) => spec_finish(LayoutModel { global_address_space: v, ..lay }, r),
            }
        } else if kind == 'A' {
            match spec_parse_int(rest) {
                Err(e) => Err(e),
                Ok((r, v)) => spec_finish(LayoutModel { alloca_address_space: v, ..lay }, r),
            }
        } else if kind == 'p' {
            spec_parse_pointer(lay, rest)
        } else if kind == 'i' || kind == 'v' || kind == 'f' {
            spec_parse_primitive(lay, kind, rest)
        } else if kind == 'm' {
            spec_parse_mangling(lay, rest)
        } else if kind == 'n' {
            spec_parse_native_token(lay, rest)
        } else if kind == 'a' {
            spec_parse_aggregate(lay, rest)
        } else if kind == 'F' {
            spec_parse_function_alignment(lay, rest)
        } else {
            Err(ParseErrorModel::InvalidSpecification(kind))
        }
    }
}

/// Parses a sequence of tokens in order, stopping at the first error.
pub open spec fn spec_parse_tokens(lay: LayoutModel, toks: Seq<Seq<char>>) -> Result<
    LayoutModel,
    ParseErrorModel,
>
    decreases toks.len(),
{
    if toks.len() == 0 {
        Ok(lay)
    } else {
        match spec_parse_token(lay, toks[0]) {
            Err(e) => Err(e),
            Ok(l2) => spec_parse_tokens(l2, toks.skip(1)),
        }
    }
}

/// Splits the characters of a specification string on `-`, with `cur`
/// holding the token accumulated so far. An empty string yields one empty
/// token, exactly as `-`-splitting does.
pub open spec fn spec_split_rec(s: Seq<char>, cur: Seq<char>) -> Seq<Seq<char>>
    decreases s.len(),
{
    if s.len() == 0 {
        seq![cur]
    } else if s[0] == '-' {
        seq![cur] + spec_split_rec(s.skip(1), Seq::empty())
    } else {
        spec_split_rec(s.skip(1), cur.push(s[0]))
    }
}

/// The dash-separated tokens of a specification string, in order.
pub open spec fn spec_split(s: Seq<char>) -> Seq<Seq<char>> {
    spec_split_rec(s, Seq::empty())
}

/// What parsing a whole specification string returns: the default layout
/// updated by each dash-separated token in order, or the first error.
pub open spec fn spec_parse_layout(s: Seq<char>) -> Result<LayoutModel, ParseErrorModel> {
    spec_parse_tokens(spec_default_layout(), spec_split(s))
}

/// The digit run of a sequence is the position of its first non-digit.
proof fn lemma_digit_run(s: Seq<char>, k: int)
    requires
        0 <= k <= s.len(),
        forall|t: int| 0 <= t < k ==> spec_is_digit(s[t]),
        k == s.len() || !spec_is_digit(s[k]),
    ensures
        digit_run(s) == k,
    decreases k,
{
    if k == 0 {
    } else {
        assert(spec_is_digit(s[0]));
        assert(forall|t: int| 0 <= t < k - 1 ==> spec_is_digit(s.skip(1)[t]));
        assert(k - 1 == s.skip(1).len() || !spec_is_digit(s.skip(1)[k - 1]));
        lemma_digit_run(s.skip(1), k - 1);
    }
}

/// True for the decimal digit characters `0` through `9`.
fn is_digit(c: char) -> (r: bool)
    ensures
        r == spec_is_digit(c),
{
    let u = c as u32;
    48 <= u && u <= 57
}

/// The numeric value of a decimal digit character.
fn digit_val(c: char) -> (r: u32)
    requires
        spec_is_digit(c),
    ensures
        r == spec_digit_val(c),
{
    c as u32 - 48
}

/// Reads a decimal integer from the characters of `tok` starting at `pos`,
/// following [`spec_parse_int`]; a successful read returns the position
/// after the digits together with the value.
fn parse_int(tok: &Vec<char>, pos: usize) -> (r: Result<(usize, u32), ParseError>)
    requires
        pos <= tok@.len(),
    ensures
        match r {
            Ok((p, v)) => pos <= p <= tok@.len() && spec_parse_int(tok@.skip(pos as int))
                == Ok::<(Seq<char>, u32), ParseErrorModel>((tok@.skip(p as int), v)),
            Err(e) => spec_parse_int(tok@.skip(pos as int)) == Err::<
                (Seq<char>, u32),
                ParseErrorModel,
            >(e@),
        },
{
    let ghost s = tok@.skip(pos as int);
    let len = tok.len();
    let mut j = pos;
    let mut val: u64 = 0;
    let mut overflow = false;
    loop
        invariant
            pos <= j <= len,
            len == tok@.len(),
            s == tok@.skip(pos as int),
            forall|t: int| pos <= t < j ==> spec_is_digit(tok@[t]),
            !overflow ==> val == digits_val(s.take(j - pos)) && val <= u32::MAX,
            overflow ==> digits_val(s.take(j - pos)) > u32::MAX,
        ensures
            pos <= j <= len,
            j == len || !spec_is_digit(tok@[j as int]),
            forall|t: int| pos <= t < j ==> spec_is_digit(tok@[t]),
            !overflow ==> val == digits_val(s.take(j - pos)) && val <= u32::MAX,
            overflow ==> digits_val(s.take(j - pos)) > u32::MAX,
        decreases len - j,
    {
        if j == len {
            break ;
        }
        let c = tok[j];
        if !is_digit(c) {
            break ;
        }
        let d = digit_val(c);
        proof {
            assert(s.take(j - pos + 1).drop_last() =~= s.take(j - pos));
            assert(s.take(j - pos + 1).last() == s[j - pos]);
            assert(s[j - pos] == tok@[j as int]);
        }
        if !overflow {
            let next = val * 10 + (d as u64);
            if next > 0xffff_ffffu64 {
                overflow = true;
            } else {
                val = next;
            }
        } else {
            proof {
                let prev = digits_val(s.take(j - pos));
                assert(prev * 10 >= prev) by (nonlinear_arith)
                    requires
                        prev >= 0,
                ;
            }
        }
        j = j + 1;
    }
    let k = j - pos;
    proof {
        assert(forall|t: int| 0 <= t < k ==> s[t] == tok@[pos + t] && spec_is_digit(s[t]));
        if j < len {
            assert(s[k as int] == tok@[j as int]);
        }
        lemma_digit_run(s, k as int);
    }
    if k == 0 {
        if j == len {
            Err(ParseError::MissingInformation)
        } else if tok[j] == ':' {
            Err(ParseError::MissingInformation)
        } else {
            let text = string_of_range(tok, pos, len);
            proof {
                assert(tok@.subrange(pos as int, len as int) =~= s);
            }
            Err(ParseError::InvalidInteger(text))
        }
    } else if overflow {
        let text = string_of_range(tok, pos, len);
        proof {
            assert(tok@.subrange(pos as int, len as int) =~= s);
        }
        Err(ParseError::InvalidInteger(text))
    } else {
        proof {
            assert(s.skip(k as int) =~= tok@.skip(j as int));
        }
        Ok((j, val as u32))
    }
}

/// Reads a bit size (a decimal integer where zero means "absent") from the
/// characters of `tok` starting at `pos`, following [`spec_parse_size`].
fn parse_size(tok: &Vec<char>, pos: usize) -> (r: Result<(usize, Option<u32>), ParseError>)
    requires
        pos <= tok@.len(),
    ensures
        match r {
            Ok((p, o)) => pos <= p <= tok@.len() && spec_parse_size(tok@.skip(pos as int))
                == Ok::<(Seq<char>, Option<u32>), ParseErrorModel>((tok@.skip(p as int), o)) && (
            o matches Some(v) ==> v > 0),
            Err(e) => spec_parse_size(tok@.skip(pos as int)) == Err::<
                (Seq<char>, Option<u32>),
                ParseErrorModel,
            >(e@),
        },
{
    match parse_int(tok, pos) {
        Ok((p, v)) => if v == 0 {
            Ok((p, None))
        } else {
            Ok((p, Some(v)))
        },
        Err(e) => Err(e),
    }
}

/// Reads an optional `:`-prefixed bit-size sub-field starting at `pos`,
/// following [`spec_size_field`].
fn parse_size_field(tok: &Vec<char>, pos: usize) -> (r: Result<
    (usize, Option<Option<u32>>),
    ParseError,
>)
    requires
        pos <= tok@.len(),
    ensures
        match r {
            Ok((p, o)) => pos <= p <= tok@.len() && spec_size_field(tok@.skip(pos as int))
                == Ok::<(Seq<char>, Option<Option<u32>>), ParseErrorModel>((
                tok@.skip(p as int),
                o,
            )) && (o matches Some(Some(v)) ==> v > 0),
            Err(e) => spec_size_field(tok@.skip(pos as int)) == Err::<
                (Seq<char>, Option<Option<u32>>),
                ParseErrorModel,
            >(e@),
        },
{
    let len = tok.len();
    if pos == len {
        proof {
            assert(tok@.skip(pos as int).len() == 0);
        }
        Ok((pos, None))
    } else if tok[pos] == ':' {
        proof {
            assert(tok@.skip(pos as int)[0] == ':');
            assert(tok@.skip(pos as int).skip(1) =~= tok@.skip(pos as int + 1));
        }
        match parse_size(tok, pos + 1) {
            Ok((p, v)) => Ok((p, Some(v))),
            Err(e) => Err(e),
        }
    } else {
        let text = string_of_range(tok, pos, len);
        proof {
            assert(tok@.subrange(pos as int, len as int) =~= tok@.skip(pos as int));
        }
        Err(ParseError::ExpectedEnd(text))
    }
}

/// Reads a required `:`-prefixed bit-size sub-field starting at `pos`,
/// following [`spec_req_size_field`].
fn parse_req_size_field(tok: &Vec<char>, pos: usize) -> (r: Result<
    (usize, Option<u32>),
    ParseError,
>)
    requires
        pos <= tok@.len(),
    ensures
        match r {
            Ok((p, o)) => pos <= p <= tok@.len() && spec_req_size_field(tok@.skip(pos as int))
                == Ok::<(Seq<char>, Option<u32>), ParseErrorModel>((tok@.skip(p as int), o)) && (
            o matches Some(v) ==> v > 0),
            Err(e) => spec_req_size_field(tok@.skip(pos as int)) == Err::<
                (Seq<char>, Option<u32>),
                ParseErrorModel,
            >(e@),
        },
{
    match parse_size_field(tok, pos) {
        Ok((p, Some(v))) => Ok((p, v)),
        Ok((_, None)) => Err(ParseError::MissingInformation),
        Err(e) => Err(e),
    }
}

/// Copies the characters of `tok` from `pos` to the end into an owned string.
fn tail_string(tok: &Vec<char>, pos: usize) -> (r: String)
    requires
        pos <= tok@.len(),
    ensures
        r@ == tok@.skip(pos as int),
{
    let r = string_of_range(tok, pos, tok.len());
    proof {
        assert(tok@.subrange(pos as int, tok@.len() as int) =~= tok@.skip(pos as int));
    }
    r
}

/// Turns an optional positive bit count into an optional bit size.
fn opt_bits_of(o: Option<u32>) -> (r: Option<BitSize>)
    requires
        o matches Some(v) ==> v > 0,
    ensures
        spec_opt_bits(r) == o,
{
    match o {
        Some(v) => Some(BitSize::from_bits(v)),
        None => None,
    }
}

/// Collapses an optional optional value.
fn flatten_field(o: Option<Option<u32>>) -> (r: Option<u32>)
    ensures
        r == opt_flatten(o),
{
    match o {
        Some(x) => x,
        None => None,
    }
}

/// Parses the fields of a `p` token, following [`spec_parse_pointer`].
fn parse_pointer_token(layout: &mut Layout, tok: &Vec<char>) -> (r: Result<(), ParseError>)
    requires
        old(layout).wf(),
        tok@.len() >= 1,
    ensures
        final(layout).wf(),
        match r {
            Ok(()) => spec_parse_pointer(old(layout)@, tok@.skip(1)) == Ok::<
                LayoutModel,
                ParseErrorModel,
            >(final(layout)@),
            Err(e) => spec_parse_pointer(old(layout)@, tok@.skip(1)) == Err::<
                LayoutModel,
                ParseErrorModel,
            >(e@),
        },
{
    let len = tok.len();
    let ghost rest = tok@.skip(1);
    if len == 1 {
        return Err(ParseError::MissingInformation);
    }
    let p1: usize;
    let aspace: u32;
    if tok[1] == ':' {
        proof {
            assert(rest[0] == ':');
        }
        p1 = 1;
        aspace = 0;
    } else {
        proof {
            assert(rest[0] == tok@[1]);
        }
        match parse_int(tok, 1) {
            Ok((p, v)) => {
                p1 = p;
                aspace = v;
            },
            Err(e) => {
                return Err(e);
            },
        }
    }
    let (p2, size_opt) = match parse_req_size_field(tok, p1) {
        Ok(x) => x,
        Err(e) => {
            return Err(e);
        },
    };
    let (p3, abi) = match parse_req_size_field(tok, p2) {
        Ok(x) => x,
        Err(e) => {
            return Err(e);
        },
    };
    let (p4, pref) = match parse_size_field(tok, p3) {
        Ok(x) => x,
        Err(e) => {
            return Err(e);
        },
    };
    let (p5, idx) = match parse_size_field(tok, p4) {
        Ok(x) => x,
        Err(e) => {
            return Err(e);
        },
    };
    let size = match size_opt {
        Some(v) => v,
        None => {
            return Err(ParseError::ExpectedNonZeroSize('p'));
        },
    };
    let entry = PointerLayout::new(
        AddressSpace(aspace),
        BitSize::from_bits(size),
        AlignmentPair::from_options(opt_bits_of(abi), opt_bits_of(flatten_field(pref))),
        opt_bits_of(flatten_field(idx)),
    );
    proof {
        crate::target::layout::lemma_ptr_entries_get_contains(layout@.pointer_layouts, aspace);
    }
    match layout.pointer_layouts.insert(entry) {
        Err(_) => {
            return Err(ParseError::DuplicatePointerLayout(AddressSpace(aspace)));
        },
        Ok(()) => {},
    }
    if p5 == len {
        assert(layout@ =~~= (LayoutModel {
            pointer_layouts: old(layout)@.pointer_layouts.push(entry@),
            ..old(layout)@
        }));
        Ok(())
    } else {
        Err(ParseError::ExpectedEnd(tail_string(tok, p5)))
    }
}

/// Parses the fields shared by the `i`, `v` and `f` tokens, following
/// [`spec_parse_alignment_fields`].
fn parse_alignment_fields(tok: &Vec<char>, pos: usize) -> (r: Result<
    (usize, Option<u32>, AlignmentPair),
    ParseError,
>)
    requires
        pos <= tok@.len(),
    ensures
        match r {
            Ok((p, o, ap)) => pos <= p <= tok@.len() && spec_parse_alignment_fields(
                tok@.skip(pos as int),
            ) == Ok::<(Seq<char>, Option<u32>, AlignmentPairModel), ParseErrorModel>((
                tok@.skip(p as int),
                o,
                ap@,
            )) && (o matches Some(v) ==> v > 0),
            Err(e) => spec_parse_alignment_fields(tok@.skip(pos as int)) == Err::<
                (Seq<char>, Option<u32>, AlignmentPairModel),
                ParseErrorModel,
            >(e@),
        },
{
    let (p1, size_opt) = match parse_size(tok, pos) {
        Ok(x) => x,
        Err(e) => {
            return Err(e);
        },
    };
    let (p2, abi) = match parse_req_size_field(tok, p1) {
        Ok(x) => x,
        Err(e) => {
            return Err(e);
        },
    };
    let (p3, pref) = match parse_size_field(tok, p2) {
        Ok(x) => x,
        Err(e) => {
            return Err(e);
        },
    };
    let pair = AlignmentPair::from_options(opt_bits_of(abi), opt_bits_of(flatten_field(pref)));
    Ok((p3, size_opt, pair))
}

/// Parses an `i`, `v` or `f` token, following [`spec_parse_primitive`].
fn parse_primitive_token(layout: &mut Layout, tok: &Vec<char>, kind: char) -> (r: Result<
    (),
    ParseError,
>)
    requires
        old(layout).wf(),
        tok@.len() >= 1,
        kind == 'i' || kind == 'v' || kind == 'f',
    ensures
        final(layout).wf(),
        match r {
            Ok(()) => spec_parse_primitive(old(layout)@, kind, tok@.skip(1)) == Ok::<
                LayoutModel,
                ParseErrorModel,
            >(final(layout)@),
            Err(e) => spec_parse_primitive(old(layout)@, kind, tok@.skip(1)) == Err::<
                LayoutModel,
                ParseErrorModel,
            >(e@),
        },
{
    let len = tok.len();
    let (p, size_opt, pair) = match parse_alignment_fields(tok, 1) {
        Ok(x) => x,
        Err(e) => {
            return Err(e);
        },
    };
    let size = match size_opt {
        Some(v) => v,
        None => {
            return Err(ParseError::ExpectedNonZeroSize(kind));
        },
    };
    let bits = BitSize::from_bits(size);
    if kind == 'i' {
        layout.integer_alignments.insert_or_replace(bits, pair);
        assert(layout@ =~~= (LayoutModel {
            integer_alignments: align_entries_set(old(layout)@.integer_alignments, size, pair@),
            ..old(layout)@
        }));
    } else if kind == 'v' {
        layout.vector_alignments.insert_or_replace(bits, pair);
        assert(layout@ =~~= (LayoutModel {
            vector_alignments: align_entries_set(old(layout)@.vector_alignments, size, pair@),
            ..old(layout)@
        }));
    } else {
        layout.float_alignments.insert_or_replace(bits, pair);
        assert(layout@ =~~= (LayoutModel {
            float_alignments: align_entries_set(old(layout)@.float_alignments, size, pair@),
            ..old(layout)@
        }));
    }
    if p == len {
        Ok(())
    } else {
        Err(ParseError::ExpectedEnd(tail_string(tok, p)))
    }
}

/// The mangling scheme denoted by an option character, if any.
fn mangling_of(c: char) -> (r: Option<Mangling>)
    ensures
        r == spec_mangling_of(c),
{
    if c == 'e' {
        Some(Mangling::ELF)
    } else if c == 'l' {
        Some(Mangling::GOFF)
    } else if c == 'm' {
        Some(Mangling::MIPS)
    } else if c == 'o' {
        Some(Mangling::MachO)
    } else if c == 'x' {
        Some(Mangling::WindowsX86COFF)
    } else if c == 'w' {
        Some(Mangling::WindowsCOFF)
    } else if c == 'a' {
        Some(Mangling::XCOFF)
    } else {
        None
    }
}

/// Parses an `m` token, following [`spec_parse_mangling`].
fn parse_mangling_token(layout: &mut Layout, tok: &Vec<char>) -> (r: Result<(), ParseError>)
    requires
        old(layout).wf(),
        tok@.len() >= 1,
    ensures
        final(layout).wf(),
        match r {
            Ok(()) => spec_parse_mangling(old(layout)@, tok@.skip(1)) == Ok::<
                LayoutModel,
                ParseErrorModel,
            >(final(layout)@),
            Err(e) => spec_parse_mangling(old(layout)@, tok@.skip(1)) == Err::<
                LayoutModel,
                ParseErrorModel,
            >(e@),
        },
{
    let len = tok.len();
    let ghost rest = tok@.skip(1);
    let pos: usize = if len > 1 && tok[1] == ':' {
        proof {
            assert(rest[0] == ':');
            assert(rest.skip(1) =~= tok@.skip(2));
        }
        2
    } else {
        1
    };
    let ghost r = tok@.skip(pos as int);
    if pos == len {
        return Err(ParseError::MissingManglingValue);
    }
    let c = tok[pos];
    proof {
        assert(r[0] == tok@[pos as int]);
    }
    match mangling_of(c) {
        None => Err(ParseError::InvalidManglingValue(c)),
        Some(m) => {
            layout.mangling = Some(m);
            assert(layout@ =~~= (LayoutModel { mangling: Some(m), ..old(layout)@ }));
            proof {
                assert(r.skip(1) =~= tok@.skip(pos as int + 1));
            }
            if pos + 1 == len {
                Ok(())
            } else {
                Err(ParseError::ExpectedEnd(tail_string(tok, pos + 1)))
            }
        },
    }
}

/// Parses an `n` token, following [`spec_parse_native_token`].
fn parse_native_token(layout: &mut Layout, tok: &Vec<char>) -> (r: Result<(), ParseError>)
    requires
        old(layout).wf(),
        tok@.len() >= 1,
    ensures
        final(layout).wf(),
        match r {
            Ok(()) => spec_parse_native_token(old(layout)@, tok@.skip(1)) == Ok::<
                LayoutModel,
                ParseErrorModel,
            >(final(layout)@),
            Err(e) => spec_parse_native_token(old(layout)@, tok@.skip(1)) == Err::<
                LayoutModel,
                ParseErrorModel,
            >(e@),
        },
{
    let len = tok.len();
    let first = match parse_size(tok, 1) {
        Ok((p, Some(v))) => (p, v),
        Ok((_, None)) => {
            return Err(ParseError::ExpectedNonZeroSize('n'));
        },
        Err(e) => {
            return Err(e);
        },
    };
    let (p0, v0) = first;
    layout.native_integer_widths.push(BitSize::from_bits(v0));
    proof {
        assert(layout@.native_integer_widths =~= old(layout)@.native_integer_widths.push(v0));
        assert(layout@ =~~= (LayoutModel {
            native_integer_widths: old(layout)@.native_integer_widths.push(v0),
            ..old(layout)@
        }));
    }
    let ghost target = spec_parse_native(
        tok@.skip(p0 as int),
        old(layout)@.native_integer_widths.push(v0),
    );
    let mut pos = p0;
    loop
        invariant
            pos <= len,
            len == tok@.len(),
            layout.wf(),
            layout@ == (LayoutModel {
                native_integer_widths: layout@.native_integer_widths,
                ..old(layout)@
            }),
            target == spec_parse_native(tok@.skip(pos as int), layout@.native_integer_widths),
            spec_parse_native_token(old(layout)@, tok@.skip(1)) == (match target {
                Err(e) => Err::<LayoutModel, ParseErrorModel>(e),
                Ok((r2, ws)) => spec_finish(
                    LayoutModel { native_integer_widths: ws, ..old(layout)@ },
                    r2,
                ),
            }),
        ensures
            pos <= len,
            len == tok@.len(),
            layout.wf(),
            layout@ == (LayoutModel {
                native_integer_widths: layout@.native_integer_widths,
                ..old(layout)@
            }),
            target == spec_parse_native(tok@.skip(pos as int), layout@.native_integer_widths),
            pos == len || tok@[pos as int] != ':',
        decreases len - pos,
    {
        if pos == len {
            break ;
        }
        if tok[pos] != ':' {
            break ;
        }
        proof {
            assert(tok@.skip(pos as int)[0] == ':');
            assert(tok@.skip(pos as int).skip(1) =~= tok@.skip(pos as int + 1));
        }
        match parse_size(tok, pos + 1) {
            Err(e) => {
                return Err(e);
            },
            Ok((p2, None)) => {
                return Err(ParseError::ExpectedNonZeroSize('n'));
            },
            Ok((p2, Some(w))) => {
                let ghost before = layout@.native_integer_widths;
                layout.native_integer_widths.push(BitSize::from_bits(w));
                proof {
                    assert(layout@.native_integer_widths =~= before.push(w));
                    assert(layout@ =~~= (LayoutModel {
                        native_integer_widths: before.push(w),
                        ..old(layout)@
                    }));
                }
                pos = p2;
            },
        }
    }
    if pos == len {
        Ok(())
    } else {
        Err(ParseError::ExpectedEnd(tail_string(tok, pos)))
    }
}

/// Parses an `a` token, following [`spec_parse_aggregate`].
fn parse_aggregate_token(layout: &mut Layout, tok: &Vec<char>) -> (r: Result<(), ParseError>)
    requires
        old(layout).wf(),
        tok@.len() >= 1,
    ensures
        final(layout).wf(),
        match r {
            Ok(()) => spec_parse_aggregate(old(layout)@, tok@.skip(1)) == Ok::<
                LayoutModel,
                ParseErrorModel,
            >(final(layout)@),
            Err(e) => spec_parse_aggregate(old(layout)@, tok@.skip(1)) == Err::<
                LayoutModel,
                ParseErrorModel,
            >(e@),
        },
{
    let len = tok.len();
    let (p1, abi) = match parse_req_size_field(tok, 1) {
        Ok(x) => x,
        Err(e) => {
            return Err(e);
        },
    };
    let (p2, pref) = match parse_size_field(tok, p1) {
        Ok(x) => x,
        Err(e) => {
            return Err(e);
        },
    };
    layout.aggregate_object_alignment = AlignmentPair::from_options(
        opt_bits_of(abi),
        opt_bits_of(flatten_field(pref)),
    );
    assert(layout@ =~~= (LayoutModel {
        aggregate_object_alignment: AlignmentPairModel { abi, preferred: opt_flatten(pref) },
        ..old(layout)@
    }));
    if p2 == len {
        Ok(())
    } else {
        Err(ParseError::ExpectedEnd(tail_string(tok, p2)))
    }
}

/// Parses an `F` token, following [`spec_parse_function_alignment`].
fn parse_function_alignment_token(layout: &mut Layout, tok: &Vec<char>) -> (r: Result<
    (),
    ParseError,
>)
    requires
        old(layout).wf(),
        tok@.len() >= 1,
    ensures
        final(layout).wf(),
        match r {
            Ok(()) => spec_parse_function_alignment(old(layout)@, tok@.skip(1)) == Ok::<
                LayoutModel,
                ParseErrorModel,
            >(final(layout)@),
            Err(e) => spec_parse_function_alignment(old(layout)@, tok@.skip(1)) == Err::<
                LayoutModel,
                ParseErrorModel,
            >(e@),
        },
{
    let len = tok.len();
    let ghost rest = tok@.skip(1);
    if len == 1 {
        return Err(ParseError::MissingInformation);
    }
    proof {
        assert(rest[0] == tok@[1]);
        assert(rest.skip(1) =~= tok@.skip(2));
    }
    let c = tok[1];
    if c != 'i' && c != 'n' {
        return Err(ParseError::InvalidSpecification(c));
    }
    let alignment_type = if c == 'i' {
        FunctionAlignmentType::Independent
    } else {
        FunctionAlignmentType::Multiple
    };
    match parse_size(tok, 2) {
        Err(e) => Err(e),
        Ok((p, None)) => Err(ParseError::ExpectedNonZeroSize('F')),
        Ok((p, Some(v))) => {
            layout.function_pointer_alignment = Some(
                FunctionAlignment::new(alignment_type, BitSize::from_bits(v)),
            );
            assert(layout@ =~~= (LayoutModel {
                function_pointer_alignment: Some(
                    FunctionAlignmentModel { alignment_type, abi_alignment: v },
                ),
                ..old(layout)@
            }));
            if p == len {
                Ok(())
            } else {
                Err(ParseError::ExpectedEnd(tail_string(tok, p)))
            }
        },
    }
}

/// Parses one dash-separated token of a specification string, following
/// [`spec_parse_token`]. When an error is returned the layout may hold the
/// effects of this token only partially and must be discarded.
fn parse_token(layout: &mut Layout, tok: &Vec<char>) -> (r: Result<(), ParseError>)
    requires
        old(layout).wf(),
    ensures
        final(layout).wf(),
        match r {
            Ok(()) => spec_parse_token(old(layout)@, tok@) == Ok::<LayoutModel, ParseErrorModel>(
                final(layout)@,
            ),
            Err(e) => spec_parse_token(old(layout)@, tok@) == Err::<LayoutModel, ParseErrorModel>(
                e@,
            ),
        },
{
    let len = tok.len();
    if len == 0 {
        return Err(ParseError::EmptySpecification);
    }
    let kind = tok[0];
    let ghost rest = tok@.skip(1);
    if kind == 'E' {
        layout.endianness = Endianness::Big;
        assert(layout@ =~~= (LayoutModel { endianness: Endianness::Big, ..old(layout)@ }));
        if len == 1 {
            Ok(())
        } else {
            Err(ParseError::ExpectedEnd(tail_string(tok, 1)))
        }
    } else if kind == 'e' {
        layout.endianness = Endianness::Little;
        assert(layout@ =~~= (LayoutModel { endianness: Endianness::Little, ..old(layout)@ }));
        if len == 1 {
            Ok(())
        } else {
            Err(ParseError::ExpectedEnd(tail_string(tok, 1)))
        }
    } else if kind == 'S' {
        match parse_size(tok, 1) {
            Err(e) => Err(e),
            Ok((p, sz)) => {
                layout.stack_alignment = opt_bits_of(sz);
                assert(layout@ =~~= (LayoutModel { stack_alignment: sz, ..old(layout)@ }));
                if p == len {
                    Ok(())
                } else {
                    Err(ParseError::ExpectedEnd(tail_string(tok, p)))
                }
            },
        }
    } else if kind == 'P' {
        match parse_int(tok, 1) {
            Err(e) => Err(e),
            Ok((p, v)) => {
                layout.program_address_space = AddressSpace(v);
                assert(layout@ =~~= (LayoutModel { program_address_space: v, ..old(layout)@ }));
                if p == len {
                    Ok(())
                } else {
                    Err(ParseError::ExpectedEnd(tail_string(tok, p)))
                }
            },
        }
    } else if kind == 'G' {
        match parse_int(tok, 1) {
            Err(e) => Err(e),
            Ok((p, v)) => {
                layout.global_address_space = AddressSpace(v);
                assert(layout@ =~~= (LayoutModel { global_address_space: v, ..old(layout)@ }));
                if p == len {
                    Ok(())
                } else {
                    Err(ParseError::ExpectedEnd(tail_string(tok, p)))
                }
            },
        }
    } else if kind == 'A' {
        match parse_int(tok, 1) {
            Err(e) => Err(e),
            Ok((p, v)) => {
                layout.alloca_address_space = AddressSpace(v);
                assert(layout@ =~~= (LayoutModel { alloca_address_space: v, ..old(layout)@ }));
                if p == len {
                    Ok(())
                } else {
                    Err(ParseError::ExpectedEnd(tail_string(tok, p)))
                }
            },
        }
    } else if kind == 'p' {
        parse_pointer_token(layout, tok)
    } else if kind == 'i' || kind == 'v' || kind == 'f' {
        parse_primitive_token(layout, tok, kind)
    } else if kind == 'm' {
        parse_mangling_token(layout, tok)
    } else if kind == 'n' {
        parse_native_token(layout, tok)
    } else if kind == 'a' {
        parse_aggregate_token(layout, tok)
    } else if kind == 'F' {
        parse_function_alignment_token(layout, tok)
    } else {
        Err(ParseError::InvalidSpecification(kind))
    }
}

/// Splits the characters of a specification string on `-`, following
/// [`spec_split`].
pub(crate) fn split_tokens(chars: &Vec<char>) -> (toks: Vec<Vec<char>>)
    ensures
        toks@.map_values(|t: Vec<char>| t@) == spec_split(chars@),
{
    let len = chars.len();
    let mut toks: Vec<Vec<char>> = Vec::new();
    let mut cur: Vec<char> = Vec::new();
    let mut i: usize = 0;
    proof {
        assert(toks@.map_values(|t: Vec<char>| t@) =~= Seq::<Seq<char>>::empty());
        assert(chars@.skip(0) =~= chars@);
        assert(Seq::<Seq<char>>::empty() + spec_split_rec(chars@, Seq::empty()) =~= spec_split_rec(
            chars@,
            Seq::empty(),
        ));
    }
    while i < len
        invariant
            i <= len,
            len == chars@.len(),
            spec_split(chars@) == toks@.map_values(|t: Vec<char>| t@) + spec_split_rec(
                chars@.skip(i as int),
                cur@,
            ),
        decreases len - i,
    {
        proof {
            assert(chars@.skip(i as int)[0] == chars@[i as int]);
            assert(chars@.skip(i as int).skip(1) =~= chars@.skip(i as int + 1));
        }
        let c = chars[i];
        if c == '-' {
            let ghost old_toks = toks@;
            let ghost done = cur@;
            toks.push(cur);
            cur = Vec::new();
            proof {
                assert(toks@.map_values(|t: Vec<char>| t@) =~= old_toks.map_values(
                    |t: Vec<char>| t@,
                ).push(done));
                assert(old_toks.map_values(|t: Vec<char>| t@) + (seq![done] + spec_split_rec(
                    chars@.skip(i as int + 1),
                    Seq::empty(),
                )) =~= toks@.map_values(|t: Vec<char>| t@) + spec_split_rec(
                    chars@.skip(i as int + 1),
                    Seq::empty(),
                ));
            }
        } else {
            cur.push(c);
        }
        i = i + 1;
    }
    proof {
        assert(chars@.skip(len as int) =~= Seq::<char>::empty());
    }
    let ghost old_toks = toks@;
    let ghost done = cur@;
    toks.push(cur);
    proof {
        assert(toks@.map_values(|t: Vec<char>| t@) =~= old_toks.map_values(
            |t: Vec<char>| t@,
        ).push(done));
        assert(old_toks.map_values(|t: Vec<char>| t@) + seq![done] =~= toks@.map_values(
            |t: Vec<char>| t@,
        ));
    }
    toks
}

impl Layout {
    /// Parses an LLVM data-layout specification string: dash-separated
    /// tokens, each with a leading specifier character and `:`-separated
    /// numeric sub-fields, applied in order to the default layout.
    ///
    /// Returns exactly what [`spec_parse_layout`] describes: the layout with
    /// every specified property recorded and every unspecified property left
    /// at its documented default, or the first error in the string.
    pub fn try_from(s: &str) -> (r: Result<Layout, ParseError>)
        ensures
            match r {
                Ok(l) => spec_parse_layout(s@) == Ok::<LayoutModel, ParseErrorModel>(l@) && l.wf(),
                Err(e) => spec_parse_layout(s@) == Err::<LayoutModel, ParseErrorModel>(e@),
            },
    {
        let chars = str_to_chars(s);
        let toks = split_tokens(&chars);
        let mut layout = Layout::default();
        let ghost all = spec_split(chars@);
        let n = toks.len();
        let mut i: usize = 0;
        proof {
            assert(all.skip(0) =~= all);
        }
        while i < n
            invariant
                i <= n,
                n == toks@.len(),
                toks@.map_values(|t: Vec<char>| t@) == all,
                layout.wf(),
                spec_parse_layout(s@) == spec_parse_tokens(layout@, all.skip(i as int)),
            decreases n - i,
        {
            proof {
                assert(all.skip(i as int)[0] == all[i as int]);
                assert(all[i as int] == toks@[i as int]@);
                assert(all.skip(i as int).skip(1) =~= all.skip(i as int + 1));
            }
            match parse_token(&mut layout, &toks[i]) {
                Ok(()) => {},
                Err(e) => {
                    return Err(e);
                },
            }
            i = i + 1;
        }
        proof {
            assert(all.skip(n as int) =~= Seq::<Seq<char>>::empty());
        }
        Ok(layout)
    }
}

/// True when some token of the sequence begins with the given specifier
/// character.
pub open spec fn spec_has_specifier(toks: Seq<Seq<char>>, c: char) -> bool {
    exists|i: int| 0 <= i < toks.len() && toks[i].len() > 0 && toks[i][0] == c
}

/// One successfully parsed token changes only the layout properties that its
/// leading specifier character names; every other property passes through
/// unchanged.
pub proof fn lemma_token_untouched(lay: LayoutModel, tok: Seq<char>, l2: LayoutModel)
    requires
        spec_parse_token(lay, tok) == Ok::<LayoutModel, ParseErrorModel>(l2),
    ensures
        tok.len() > 0,
        tok[0] != 'E' && tok[0] != 'e' ==> l2.endianness == lay.endianness,
        tok[0] != 'S' ==> l2.stack_alignment == lay.stack_alignment,
        tok[0] != 'P' ==> l2.program_address_space == lay.program_address_space,
        tok[0] != 'G' ==> l2.global_address_space == lay.global_address_space,
        tok[0] != 'A' ==> l2.alloca_address_space == lay.alloca_address_space,
        tok[0] != 'p' ==> l2.pointer_layouts == lay.pointer_layouts,
        tok[0] != 'i' ==> l2.integer_alignments == lay.integer_alignments,
        tok[0] != 'v' ==> l2.vector_alignments == lay.vector_alignments,
        tok[0] != 'f' ==> l2.float_alignments == lay.float_alignments,
        tok[0] != 'a' ==> l2.aggregate_object_alignment == lay.aggregate_object_alignment,
        tok[0] != 'F' ==> l2.function_pointer_alignment == lay.function_pointer_alignment,
        tok[0] != 'm' ==> l2.mangling == lay.mangling,
        tok[0] != 'n' ==> l2.native_integer_widths == lay.native_integer_widths,
{
}

/// A successfully parsed token sequence changes only the layout properties
/// named by the leading specifier characters of its tokens.
pub proof fn lemma_tokens_untouched(lay: LayoutModel, toks: Seq<Seq<char>>, l2: LayoutModel)
    requires
        spec_parse_tokens(lay, toks) == Ok::<LayoutModel, ParseErrorModel>(l2),
    ensures
        !spec_has_specifier(toks, 'E') && !spec_has_specifier(toks, 'e') ==> l2.endianness
            == lay.endianness,
        !spec_has_specifier(toks, 'S') ==> l2.stack_alignment == lay.stack_alignment,
        !spec_has_specifier(toks, 'P') ==> l2.program_address_space == lay.program_address_space,
        !spec_has_specifier(toks, 'G') ==> l2.global_address_space == lay.global_address_space,
        !spec_has_specifier(toks, 'A') ==> l2.alloca_address_space == lay.alloca_address_space,
        !spec_has_specifier(toks, 'p') ==> l2.pointer_layouts == lay.pointer_layouts,
        !spec_has_specifier(toks, 'i') ==> l2.integer_alignments == lay.integer_alignments,
        !spec_has_specifier(toks, 'v') ==> l2.vector_alignments == lay.vector_alignments,
        !spec_has_specifier(toks, 'f') ==> l2.float_alignments == lay.float_alignments,
        !spec_has_specifier(toks, 'a') ==> l2.aggregate_object_alignment
            == lay.aggregate_object_alignment,
        !spec_has_specifier(toks, 'F') ==> l2.function_pointer_alignment
            == lay.function_pointer_alignment,
        !spec_has_specifier(toks, 'm') ==> l2.mangling == lay.mangling,
        !spec_has_specifier(toks, 'n') ==> l2.native_integer_widths == lay.native_integer_widths,
    decreases toks.len(),
{
    if toks.len() == 0 {
    } else {
        let mid = spec_parse_token(lay, toks[0]);
        let l1 = mid->Ok_0;
        lemma_token_untouched(lay, toks[0], l1);
        lemma_tokens_untouched(l1, toks.skip(1), l2);
        assert forall|c: char| spec_has_specifier(toks.skip(1), c) implies spec_has_specifier(
            toks,
            c,
        ) by {
            let i = choose|i: int|
                0 <= i < toks.skip(1).len() && toks.skip(1)[i].len() > 0 && toks.skip(1)[i][0]
                    == c;
            assert(toks[i + 1].len() > 0 && toks[i + 1][0] == c);
        }
        assert(toks[0].len() > 0);
        assert(spec_has_specifier(toks, toks[0][0]));
    }
}

/// Every property of a successfully parsed layout that no token of the
/// specification string names keeps its documented default: parsing touches
/// exactly the properties that the string specifies. In particular, a string
/// with no `E` or `e` token leaves the layout little-endian.
pub proof fn lemma_unspecified_fields_default(s: Seq<char>, l: LayoutModel)
    requires
        spec_parse_layout(s) == Ok::<LayoutModel, ParseErrorModel>(l),
    ensures
        !spec_has_specifier(spec_split(s), 'E') && !spec_has_specifier(spec_split(s), 'e')
            ==> l.endianness == Endianness::Little,
        !spec_has_specifier(spec_split(s), 'S') ==> l.stack_alignment is None,
        !spec_has_specifier(spec_split(s), 'P') ==> l.program_address_space == 0,
        !spec_has_specifier(spec_split(s), 'G') ==> l.global_address_space == 0,
        !spec_has_specifier(spec_split(s), 'A') ==> l.alloca_address_space == 0,
        !spec_has_specifier(spec_split(s), 'p') ==> l.pointer_layouts == Seq::<
            PointerLayoutModel,
        >::empty(),
        !spec_has_specifier(spec_split(s), 'i') ==> l.integer_alignments
            == crate::target::layout::spec_integer_alignment_defaults(),
        !spec_has_specifier(spec_split(s), 'v') ==> l.vector_alignments
            == crate::target::layout::spec_vector_alignment_defaults(),
        !spec_has_specifier(spec_split(s), 'f') ==> l.float_alignments
            == crate::target::layout::spec_float_alignment_defaults(),
        !spec_has_specifier(spec_split(s), 'a') ==> l.aggregate_object_alignment == (
        AlignmentPairModel { abi: None, preferred: Some(64u32) }),
        !spec_has_specifier(spec_split(s), 'F') ==> l.function_pointer_alignment is None,
        !spec_has_specifier(spec_split(s), 'm') ==> l.mangling is None,
        !spec_has_specifier(spec_split(s), 'n') ==> l.native_integer_widths == Seq::<u32>::empty(),
{
    lemma_tokens_untouched(spec_default_layout(), spec_split(s), l);
}

} // verus!
