//! What holds of every compilation.
//!
//! Each proof function here states one law over the functions that say what
//! the parser, the resolver and the matcher give.

use crate::args::consumes_argument;
use crate::args::consuming;
use crate::args::descriptor;
use crate::args::descriptors;
use crate::args::first_unacceptable;
use crate::args::name_at;
use crate::args::native_of;
use crate::args::spec_native_type;
use crate::args::spec_wrap_args;
use crate::args::unacceptable;
use crate::args::Descriptor;
use crate::args::NativeType;
use crate::args::SourceType;
use crate::error::Diagnostic;
use crate::parsers::spec_parse_format;
use crate::parsers::Arg;
use crate::parsers::ArgType;
use crate::spec_cuda_printf;
use crate::text::decimal;
use crate::text::lemma_decimal_injective;
use vstd::prelude::*;

verus! {

/// The native type of a conversion without a length modifier.
pub open spec fn default_native(ty: ArgType) -> NativeType
    recommends
        ty != ArgType::Literal,
{
    match ty {
        ArgType::Signed => NativeType::I32,
        ArgType::Unsigned => NativeType::U32,
        ArgType::Char => NativeType::I8,
        ArgType::Double => NativeType::F64,
        ArgType::StringPointer => NativeType::BytePointer,
        ArgType::Pointer => NativeType::BytePointer,
        ArgType::Literal => arbitrary(),
    }
}

/// The conversion type that an argument was derived from, read off the type
/// the caller passes.
pub open spec fn kind_of(d: Descriptor) -> ArgType {
    match d.inner_ty {
        SourceType::I8 | SourceType::I16 | SourceType::I32 | SourceType::I64 => ArgType::Signed,
        SourceType::U8 | SourceType::U16 | SourceType::U32 | SourceType::U64 => ArgType::Unsigned,
        SourceType::Char => ArgType::Char,
        SourceType::F64 => ArgType::Double,
        SourceType::Str => ArgType::StringPointer,
        SourceType::RawPointer => ArgType::Pointer,
    }
}

/// The first conversion type, in the order signed, unsigned, character,
/// floating point, string, pointer, that packs a native type.
pub open spec fn kind_of_native(native: NativeType) -> ArgType {
    match native {
        NativeType::I8 | NativeType::I16 | NativeType::I32 | NativeType::I64 => ArgType::Signed,
        NativeType::U8 | NativeType::U16 | NativeType::U32 | NativeType::U64 => ArgType::Unsigned,
        NativeType::F64 => ArgType::Double,
        NativeType::BytePointer => ArgType::StringPointer,
    }
}

/// The types of a list of conversions, in order.
pub open spec fn kinds(conversions: Seq<Arg>) -> Seq<ArgType> {
    conversions.map_values(|arg: Arg| arg.4)
}

/// Where some conversion carries a forbidden length modifier, one of them
/// is the first, and no other is.
pub proof fn lemma_first_unacceptable(conversions: Seq<Arg>, i: int)
    requires
        0 <= i < conversions.len(),
        unacceptable(conversions[i]),
    ensures
        exists|k: int| first_unacceptable(conversions, k),
        forall|k: int| first_unacceptable(conversions, k) ==> k <= i,
        forall|k: int, l: int|
            first_unacceptable(conversions, k) && first_unacceptable(conversions, l) ==> k == l,
    decreases i,
{
    if exists|j: int| 0 <= j < i && unacceptable(conversions[j]) {
        let j = choose|j: int| 0 <= j < i && unacceptable(conversions[j]);
        lemma_first_unacceptable(conversions, j);
    } else {
        assert(first_unacceptable(conversions, i));
    }
}

/// The match succeeds if and only if as many arguments are supplied as
/// there are conversions that consume one and none of these carries a
/// forbidden length modifier.
pub proof fn lemma_success(formatted: Seq<Arg>, supplied: nat)
    ensures
        spec_wrap_args(formatted, supplied) is Ok <==> consuming(formatted).len() == supplied
            && forall|i: int|
            0 <= i < consuming(formatted).len() ==> !unacceptable(
                #[trigger] consuming(formatted)[i],
            ),
{
    let conversions = consuming(formatted);
    if spec_wrap_args(formatted, supplied) is Ok {
        assert forall|i: int| 0 <= i < conversions.len() implies !unacceptable(
            #[trigger] conversions[i],
        ) by {
            if unacceptable(conversions[i]) {
                lemma_first_unacceptable(conversions, i);
            }
        }
    }
}

/// A successful match yields exactly one argument for each conversion that
/// consumes one, in order, which is as many as were supplied. A `%%`
/// yields none.
pub proof fn lemma_one_argument_per_conversion(formatted: Seq<Arg>, supplied: nat)
    requires
        spec_wrap_args(formatted, supplied) is Ok,
    ensures
        spec_wrap_args(formatted, supplied)->Ok_0 == descriptors(consuming(formatted)),
        spec_wrap_args(formatted, supplied)->Ok_0.len() == consuming(formatted).len(),
        spec_wrap_args(formatted, supplied)->Ok_0.len() == supplied,
        forall|i: int|
            0 <= i < consuming(formatted).len() ==> consumes_argument(
                #[trigger] consuming(formatted)[i],
            ) && !unacceptable(consuming(formatted)[i]),
{
    broadcast use vstd::seq_lib::group_filter_ensures;

    lemma_success(formatted, supplied);
}

/// A length modifier on a character, floating point, string or pointer
/// conversion is refused with the conversion's type.
pub proof fn lemma_length_only_on_integers(arg: Arg)
    requires
        arg.3 is Some,
        arg.4 == ArgType::Char || arg.4 == ArgType::Double || arg.4 == ArgType::StringPointer
            || arg.4 == ArgType::Pointer,
    ensures
        spec_native_type(arg) == Err::<NativeType, Diagnostic>(
            Diagnostic::UnacceptableLength { for_type: arg.4 },
        ),
{
}

/// Where the number of arguments is right and some conversion carries a
/// forbidden length modifier, the match fails with the type of the first
/// such conversion.
pub proof fn lemma_forbidden_length_fails(formatted: Seq<Arg>, supplied: nat, i: int)
    requires
        consuming(formatted).len() == supplied,
        0 <= i < consuming(formatted).len(),
        unacceptable(consuming(formatted)[i]),
    ensures
        exists|k: int|
            0 <= k <= i && #[trigger] first_unacceptable(consuming(formatted), k) && spec_wrap_args(
                formatted,
                supplied,
            ) == Err::<Seq<Descriptor>, Diagnostic>(
                Diagnostic::UnacceptableLength { for_type: consuming(formatted)[k].4 },
            ),
{
    let conversions = consuming(formatted);
    lemma_first_unacceptable(conversions, i);
    let first = choose|k: int| first_unacceptable(conversions, k);
    assert(first_unacceptable(conversions, first));
}

/// Flag, width and precision have no part in what is derived: conversions
/// of one type with one length modifier ask for the same argument.
pub proof fn lemma_only_length_and_type_count(a: Arg, b: Arg, index: nat)
    requires
        a.3 == b.3,
        a.4 == b.4,
    ensures
        spec_native_type(a) == spec_native_type(b),
        descriptor(a, index) == descriptor(b, index),
{
}

/// Where no conversion of a format string carries a length modifier and the
/// number of arguments is right, compilation succeeds, and the native types
/// are those of conversions without a length modifier, in the order of the
/// conversions.
pub proof fn lemma_default_lengths(format: Seq<char>, supplied: nat)
    requires
        spec_parse_format(format) is Ok,
        forall|i: int|
            0 <= i < spec_parse_format(format)->Ok_0.len() ==> (#[trigger] spec_parse_format(
                format,
            )->Ok_0[i]).3 is None,
        supplied == consuming(spec_parse_format(format)->Ok_0).len(),
    ensures
        spec_cuda_printf(format, supplied) is Ok,
        spec_cuda_printf(format, supplied)->Ok_0.len() == supplied,
        forall|i: int|
            0 <= i < supplied ==> (#[trigger] spec_cuda_printf(format, supplied)->Ok_0[i]).ffi_ty
                == default_native(consuming(spec_parse_format(format)->Ok_0)[i].4),
{
    broadcast use vstd::seq_lib::group_filter_ensures;

    let formatted = spec_parse_format(format)->Ok_0;
    let conversions = consuming(formatted);
    assert forall|i: int| 0 <= i < conversions.len() implies (#[trigger] conversions[i]).3 is None by {
        formatted.lemma_filter_contains_rev(|arg: Arg| consumes_argument(arg), conversions[i]);
    }
    lemma_success(formatted, supplied);
    lemma_one_argument_per_conversion(formatted, supplied);
}

/// The conversion types can be read back off the arguments of a successful
/// compilation: they are the types of the format string's conversions that
/// consume an argument, in order.
pub proof fn lemma_kinds_recovered(format: Seq<char>, supplied: nat)
    requires
        spec_cuda_printf(format, supplied) is Ok,
    ensures
        spec_parse_format(format) is Ok,
        spec_cuda_printf(format, supplied)->Ok_0.map_values(|d: Descriptor| kind_of(d)) == kinds(
            consuming(spec_parse_format(format)->Ok_0),
        ),
{
    let formatted = spec_parse_format(format)->Ok_0;
    lemma_one_argument_per_conversion(formatted, supplied);
    assert(spec_cuda_printf(format, supplied)->Ok_0.map_values(|d: Descriptor| kind_of(d))
        =~= kinds(consuming(formatted)));
}

/// Where the format string has no character and no pointer conversion, the
/// conversion types can be read back off the native types alone. (A
/// character is packed like an eight-bit integer and a pointer like a
/// string, so for these the native type does not tell.)
pub proof fn lemma_kinds_recovered_from_native_types(format: Seq<char>, supplied: nat)
    requires
        spec_cuda_printf(format, supplied) is Ok,
        spec_parse_format(format) is Ok ==> forall|i: int|
            0 <= i < spec_parse_format(format)->Ok_0.len() ==> (#[trigger] spec_parse_format(
                format,
            )->Ok_0[i]).4 != ArgType::Char && spec_parse_format(format)->Ok_0[i].4
                != ArgType::Pointer,
    ensures
        spec_parse_format(format) is Ok,
        spec_cuda_printf(format, supplied)->Ok_0.map_values(
            |d: Descriptor| kind_of_native(d.ffi_ty),
        ) == kinds(consuming(spec_parse_format(format)->Ok_0)),
{
    let formatted = spec_parse_format(format)->Ok_0;
    let conversions = consuming(formatted);
    lemma_one_argument_per_conversion(formatted, supplied);
    assert forall|i: int| 0 <= i < conversions.len() implies (#[trigger] conversions[i]).4
        != ArgType::Char && conversions[i].4 != ArgType::Pointer by {
        formatted.lemma_filter_contains_rev(|arg: Arg| consumes_argument(arg), conversions[i]);
    }
    assert(spec_cuda_printf(format, supplied)->Ok_0.map_values(
        |d: Descriptor| kind_of_native(d.ffi_ty),
    ) =~= kinds(conversions));
}

/// The native type always tells the conversion type up to the two pairs
/// that are packed alike: a character reads back as a signed integer and a
/// pointer as a string; every other type reads back as itself.
pub proof fn lemma_native_type_tells_kind(arg: Arg)
    requires
        consumes_argument(arg),
        !unacceptable(arg),
    ensures
        kind_of_native(native_of(arg)) == match arg.4 {
            ArgType::Char => ArgType::Signed,
            ArgType::Pointer => ArgType::StringPointer,
            ty => ty,
        },
{
}

/// The arguments of one compilation go by different names.
pub proof fn lemma_names_differ(conversions: Seq<Arg>, i: int, j: int)
    requires
        0 <= i < conversions.len(),
        0 <= j < conversions.len(),
        i != j,
    ensures
        descriptors(conversions)[i].inner_name != descriptors(conversions)[j].inner_name,
{
    if name_at(i as nat) == name_at(j as nat) {
        assert(name_at(i as nat).skip(4) =~= decimal(i as nat));
        assert(name_at(j as nat).skip(4) =~= decimal(j as nat));
        lemma_decimal_injective(i as nat, j as nat);
    }
}

} // verus!
