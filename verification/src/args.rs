//! From conversions to the arguments of the native call.
//!
//! Every conversion but `%%` consumes one argument. For each of them, in
//! order, this module derives the type the caller has to pass, the native
//! type that is packed for the print routine, and how the one becomes the
//! other.

use crate::error::Diagnostic;
use crate::error::PrintSyscallError;
use crate::parsers::Arg;
use crate::parsers::ArgLength;
use crate::parsers::ArgType;
use crate::text::decimal;
use crate::text::numbered;
use vstd::prelude::*;
use vstd::string::StringExecFns;

verus! {

/// A native scalar type, as it is packed for the print routine.
#[derive(Debug, PartialEq, Eq, Clone, Copy)]
pub enum NativeType {
    I8,
    I16,
    I32,
    I64,
    U8,
    U16,
    U32,
    U64,
    F64,
    /// A pointer to bytes.
    BytePointer,
}

/// The type an argument has at the call site.
#[derive(Debug, PartialEq, Eq, Clone, Copy)]
pub enum SourceType {
    I8,
    I16,
    I32,
    I64,
    U8,
    U16,
    U32,
    U64,
    /// A character.
    Char,
    F64,
    /// A borrowed, readable string.
    Str,
    /// A raw pointer to a type that the caller chooses.
    RawPointer,
}

/// How an argument becomes its native value.
#[derive(Debug, PartialEq, Eq, Clone, Copy)]
pub enum MarshalRule {
    /// The argument is passed as it is.
    Identity,
    /// The pointer to the bytes of a borrowed string is taken.
    PointerExtraction,
    /// A raw pointer is reinterpreted as a pointer to bytes.
    PointerCast,
}

/// One argument of the native call.
#[derive(Debug)]
pub struct WrappedArg {
    /// The name the argument goes by: `arg_` and its position.
    pub inner_name: String,
    /// The type the caller passes.
    pub inner_ty: SourceType,
    /// The name of the type parameter that a raw pointer leaves open: `T`
    /// and the argument's position.
    pub inner_generic: Option<String>,
    /// The native type that is packed.
    pub ffi_ty: NativeType,
    /// How the packed value is made.
    pub ffi_expr: MarshalRule,
}

/// A `WrappedArg` as a mathematical value.
pub struct Descriptor {
    pub inner_name: Seq<char>,
    pub inner_ty: SourceType,
    pub inner_generic: Option<Seq<char>>,
    pub ffi_ty: NativeType,
    pub ffi_expr: MarshalRule,
}

impl View for WrappedArg {
    type V = Descriptor;

    open spec fn view(&self) -> Descriptor {
        Descriptor {
            inner_name: self.inner_name@,
            inner_ty: self.inner_ty,
            inner_generic: match self.inner_generic {
                Some(name) => Some(name@),
                None => None,
            },
            ffi_ty: self.ffi_ty,
            ffi_expr: self.ffi_expr,
        }
    }
}

/// Whether a conversion consumes an argument: all do but `%%`.
pub open spec fn consumes_argument(arg: Arg) -> bool {
    arg.4 != ArgType::Literal
}

/// Whether a conversion carries a length modifier that its type forbids.
/// Only the integer conversions take one.
pub open spec fn unacceptable(arg: Arg) -> bool {
    arg.3 is Some && (arg.4 == ArgType::Char || arg.4 == ArgType::Double || arg.4
        == ArgType::StringPointer || arg.4 == ArgType::Pointer)
}

/// The native type of a conversion that consumes an argument and carries no
/// forbidden length modifier.
pub open spec fn native_of(arg: Arg) -> NativeType
    recommends
        consumes_argument(arg),
        !unacceptable(arg),
{
    match arg.4 {
        ArgType::Signed => match arg.3 {
            None => NativeType::I32,
            Some(ArgLength::I8) => NativeType::I8,
            Some(ArgLength::I16) => NativeType::I16,
            Some(ArgLength::I64) => NativeType::I64,
        },
        ArgType::Unsigned => match arg.3 {
            None => NativeType::U32,
            Some(ArgLength::I8) => NativeType::U8,
            Some(ArgLength::I16) => NativeType::U16,
            Some(ArgLength::I64) => NativeType::U64,
        },
        ArgType::Char => NativeType::I8,
        ArgType::Double => NativeType::F64,
        ArgType::StringPointer => NativeType::BytePointer,
        ArgType::Pointer => NativeType::BytePointer,
        ArgType::Literal => arbitrary(),
    }
}

/// The type the caller passes for such a conversion. It is the native type
/// but for a character, which is narrowed to eight bits when packed, and for
/// strings and pointers.
pub open spec fn source_of(arg: Arg) -> SourceType
    recommends
        consumes_argument(arg),
        !unacceptable(arg),
{
    match arg.4 {
        ArgType::Signed => match arg.3 {
            None => SourceType::I32,
            Some(ArgLength::I8) => SourceType::I8,
            Some(ArgLength::I16) => SourceType::I16,
            Some(ArgLength::I64) => SourceType::I64,
        },
        ArgType::Unsigned => match arg.3 {
            None => SourceType::U32,
            Some(ArgLength::I8) => SourceType::U8,
            Some(ArgLength::I16) => SourceType::U16,
            Some(ArgLength::I64) => SourceType::U64,
        },
        ArgType::Char => SourceType::Char,
        ArgType::Double => SourceType::F64,
        ArgType::StringPointer => SourceType::Str,
        ArgType::Pointer => SourceType::RawPointer,
        ArgType::Literal => arbitrary(),
    }
}

/// How the argument of a conversion of this type becomes its native value.
pub open spec fn marshal_of(ty: ArgType) -> MarshalRule {
    match ty {
        ArgType::StringPointer => MarshalRule::PointerExtraction,
        ArgType::Pointer => MarshalRule::PointerCast,
        _ => MarshalRule::Identity,
    }
}

/// The name of the argument at a position.
pub open spec fn name_at(index: nat) -> Seq<char> {
    seq!['a', 'r', 'g', '_'] + decimal(index)
}

/// The name of the type parameter of the argument at a position.
pub open spec fn generic_at(index: nat) -> Seq<char> {
    seq!['T'] + decimal(index)
}

/// The argument that a conversion asks for at a position.
pub open spec fn descriptor(arg: Arg, index: nat) -> Descriptor
    recommends
        consumes_argument(arg),
        !unacceptable(arg),
{
    Descriptor {
        inner_name: name_at(index),
        inner_ty: source_of(arg),
        inner_generic: if arg.4 == ArgType::Pointer {
            Some(generic_at(index))
        } else {
            None
        },
        ffi_ty: native_of(arg),
        ffi_expr: marshal_of(arg.4),
    }
}

/// What `native_type` gives for a conversion that consumes an argument.
pub open spec fn spec_native_type(arg: Arg) -> Result<NativeType, Diagnostic>
    recommends
        consumes_argument(arg),
{
    if unacceptable(arg) {
        Err(Diagnostic::UnacceptableLength { for_type: arg.4 })
    } else {
        Ok(native_of(arg))
    }
}

/// Resolves the native type of a conversion. A length modifier on a
/// conversion that is no integer is an error.
pub fn native_type(arg: &Arg) -> (r: Result<NativeType, PrintSyscallError>)
    requires
        consumes_argument(*arg),
    ensures
        match r {
            Ok(native) => spec_native_type(*arg) == Ok::<NativeType, Diagnostic>(native),
            Err(e) => spec_native_type(*arg) == Err::<NativeType, Diagnostic>(e@),
        },
{
    let ty = arg.4;
    match ty {
        ArgType::Signed => Ok(
            match &arg.3 {
                None => NativeType::I32,
                Some(ArgLength::I8) => NativeType::I8,
                Some(ArgLength::I16) => NativeType::I16,
                Some(ArgLength::I64) => NativeType::I64,
            },
        ),
        ArgType::Unsigned => Ok(
            match &arg.3 {
                None => NativeType::U32,
                Some(ArgLength::I8) => NativeType::U8,
                Some(ArgLength::I16) => NativeType::U16,
                Some(ArgLength::I64) => NativeType::U64,
            },
        ),
        _ => match &arg.3 {
            Some(_) => Err(PrintSyscallError::UnacceptableLength { for_type: ty }),
            None => Ok(
                match ty {
                    ArgType::Char => NativeType::I8,
                    ArgType::Double => NativeType::F64,
                    _ => NativeType::BytePointer,
                },
            ),
        },
    }
}

/// The type the caller passes for a conversion.
fn source_type(arg: &Arg) -> (r: SourceType)
    requires
        consumes_argument(*arg),
        !unacceptable(*arg),
    ensures
        r == source_of(*arg),
{
    match arg.4 {
        ArgType::Signed => match &arg.3 {
            None => SourceType::I32,
            Some(ArgLength::I8) => SourceType::I8,
            Some(ArgLength::I16) => SourceType::I16,
            Some(ArgLength::I64) => SourceType::I64,
        },
        ArgType::Unsigned => match &arg.3 {
            None => SourceType::U32,
            Some(ArgLength::I8) => SourceType::U8,
            Some(ArgLength::I16) => SourceType::U16,
            Some(ArgLength::I64) => SourceType::U64,
        },
        ArgType::Char => SourceType::Char,
        ArgType::StringPointer => SourceType::Str,
        ArgType::Pointer => SourceType::RawPointer,
        _ => SourceType::F64,
    }
}

/// Derives the argument that a conversion asks for at a position.
pub fn wrap_arg(arg: &Arg, index: usize) -> (r: Result<WrappedArg, PrintSyscallError>)
    requires
        consumes_argument(*arg),
    ensures
        match r {
            Ok(wrapped) => !unacceptable(*arg) && wrapped@ == descriptor(*arg, index as nat),
            Err(e) => unacceptable(*arg) && e@ == (Diagnostic::UnacceptableLength {
                for_type: arg.4,
            }),
        },
{
    let ffi_ty = match native_type(arg) {
        Ok(native) => native,
        Err(e) => {
            return Err(e);
        },
    };
    let ty = arg.4;
    proof {
        reveal_strlit("arg_");
        reveal_strlit("T");
        assert("arg_"@ =~= seq!['a', 'r', 'g', '_']);
        assert("T"@ =~= seq!['T']);
    }
    let inner_generic = match ty {
        ArgType::Pointer => Some(numbered("T", index)),
        _ => None,
    };
    let ffi_expr = match ty {
        ArgType::StringPointer => MarshalRule::PointerExtraction,
        ArgType::Pointer => MarshalRule::PointerCast,
        _ => MarshalRule::Identity,
    };
    Ok(
        WrappedArg {
            inner_name: numbered("arg_", index),
            inner_ty: source_type(arg),
            inner_generic,
            ffi_ty,
            ffi_expr,
        },
    )
}

/// The conversions that consume an argument, in order.
pub open spec fn consuming(formatted: Seq<Arg>) -> Seq<Arg> {
    formatted.filter(|arg: Arg| consumes_argument(arg))
}

/// Whether `i` is the position of the first conversion in `conversions` that
/// carries a forbidden length modifier.
pub open spec fn first_unacceptable(conversions: Seq<Arg>, i: int) -> bool {
    &&& 0 <= i < conversions.len()
    &&& unacceptable(conversions[i])
    &&& forall|j: int| 0 <= j < i ==> !unacceptable(#[trigger] conversions[j])
}

/// The arguments that a list of conversions asks for: one for each
/// conversion that consumes one, in order, numbered from zero.
pub open spec fn descriptors(conversions: Seq<Arg>) -> Seq<Descriptor> {
    Seq::new(conversions.len(), |i: int| descriptor(conversions[i], i as nat))
}

/// A list of wrapped arguments as mathematical values.
pub open spec fn views(wrapped: Seq<WrappedArg>) -> Seq<Descriptor> {
    wrapped.map_values(|w: WrappedArg| w@)
}

/// What `wrap_args` gives for the conversions `formatted` and `supplied`
/// arguments: the count error where the number of arguments is not the
/// number of conversions that consume one; else the length error of the
/// first conversion that carries a forbidden length modifier; else the
/// arguments.
pub open spec fn spec_wrap_args(formatted: Seq<Arg>, supplied: nat) -> Result<
    Seq<Descriptor>,
    Diagnostic,
> {
    let conversions = consuming(formatted);
    if conversions.len() != supplied {
        Err(Diagnostic::WrongArgumentsCount { expected: conversions.len(), got: supplied })
    } else if exists|i: int| first_unacceptable(conversions, i) {
        let first = choose|i: int| first_unacceptable(conversions, i);
        Err(Diagnostic::UnacceptableLength { for_type: conversions[first].4 })
    } else {
        Ok(descriptors(conversions))
    }
}

/// A result of wrapping as a mathematical value.
pub open spec fn wrapped_view(r: Result<Vec<WrappedArg>, PrintSyscallError>) -> Result<
    Seq<Descriptor>,
    Diagnostic,
> {
    match r {
        Ok(wrapped) => Ok(views(wrapped@)),
        Err(e) => Err(e@),
    }
}

/// Taking one more conversion either adds it to those that consume an
/// argument or changes nothing.
proof fn lemma_consuming_step(formatted: Seq<Arg>, i: int)
    requires
        0 <= i < formatted.len(),
    ensures
        consuming(formatted.take(i + 1)) == if consumes_argument(formatted[i]) {
            consuming(formatted.take(i)).push(formatted[i])
        } else {
            consuming(formatted.take(i))
        },
{
    reveal(Seq::filter);
    assert(formatted.take(i + 1).drop_last() =~= formatted.take(i));
}

/// The conversions of a prefix that consume an argument are the first of
/// those of the whole list.
proof fn lemma_consuming_prefix(formatted: Seq<Arg>, i: int)
    requires
        0 <= i <= formatted.len(),
    ensures
        consuming(formatted.take(i)).len() <= consuming(formatted).len(),
        consuming(formatted.take(i)) == consuming(formatted).take(
            consuming(formatted.take(i)).len() as int,
        ),
{
    let pred = |arg: Arg| consumes_argument(arg);
    Seq::filter_distributes_over_add(formatted.take(i), formatted.skip(i), pred);
    assert(formatted.take(i) + formatted.skip(i) =~= formatted);
    assert(consuming(formatted).take(consuming(formatted.take(i)).len() as int) =~= consuming(
        formatted.take(i),
    ));
}

/// Counts the conversions that consume an argument.
fn count_consuming(formatted: &[Arg]) -> (n: usize)
    ensures
        n == consuming(formatted@).len(),
{
    let mut n: usize = 0;
    let mut i: usize = 0;
    proof {
        reveal(Seq::filter);
        assert(formatted@.take(0) =~= Seq::<Arg>::empty());
    }
    while i < formatted.len()
        invariant
            i <= formatted.len(),
            n <= i,
            n == consuming(formatted@.take(i as int)).len(),
        decreases formatted.len() - i,
    {
        proof {
            lemma_consuming_step(formatted@, i as int);
        }
        match formatted[i].4 {
            ArgType::Literal => {},
            _ => {
                n = n + 1;
            },
        }
        i = i + 1;
    }
    assert(formatted@.take(i as int) =~= formatted@);
    n
}

/// Matches conversions and arguments.
///
/// Only the number of `exprs` counts. Every conversion but `%%` takes the
/// next of them.
pub fn wrap_args<E>(formatted: &[Arg], exprs: &[E]) -> (r: Result<
    Vec<WrappedArg>,
    PrintSyscallError,
>)
    ensures
        wrapped_view(r) == spec_wrap_args(formatted@, exprs@.len()),
{
    let expected = count_consuming(formatted);
    if exprs.len() != expected {
        return Err(PrintSyscallError::WrongArgumentsCount { expected, got: exprs.len() });
    }
    let ghost conversions = consuming(formatted@);
    let mut wrapped: Vec<WrappedArg> = Vec::new();
    let mut i: usize = 0;
    proof {
        reveal(Seq::filter);
        assert(formatted@.take(0) =~= Seq::<Arg>::empty());
    }
    while i < formatted.len()
        invariant
            i <= formatted.len(),
            exprs@.len() == conversions.len(),
            conversions == consuming(formatted@),
            wrapped@.len() == consuming(formatted@.take(i as int)).len(),
            wrapped@.len() <= i,
            wrapped@.len() <= conversions.len(),
            forall|j: int|
                0 <= j < wrapped@.len() ==> !unacceptable(#[trigger] conversions[j]) && wrapped@[j]@
                    == descriptor(conversions[j], j as nat),
        decreases formatted.len() - i,
    {
        proof {
            lemma_consuming_step(formatted@, i as int);
            lemma_consuming_prefix(formatted@, i as int + 1);
        }
        let arg = &formatted[i];
        match arg.4 {
            ArgType::Literal => {},
            _ => {
                proof {
                    let k = wrapped@.len() as int;
                    let taken = consuming(formatted@.take(i as int + 1));
                    assert(taken[k] == formatted@[i as int]);
                    assert(conversions.take(k + 1)[k] == conversions[k]);
                }
                match wrap_arg(arg, wrapped.len()) {
                    Ok(item) => {
                        wrapped.push(item);
                    },
                    Err(e) => {
                        assert(first_unacceptable(conversions, wrapped@.len() as int));
                        return Err(e);
                    },
                }
            },
        }
        i = i + 1;
    }
    proof {
        assert(formatted@.take(i as int) =~= formatted@);
        assert forall|k: int| !first_unacceptable(conversions, k) by {}
        assert(views(wrapped@) =~= descriptors(conversions));
    }
    Ok(wrapped)
}

impl NativeType {
    /// The type written in Rust, its tokens separated by single spaces.
    pub open spec fn spec_tokens(self) -> Seq<char> {
        match self {
            NativeType::I8 => "i8"@,
            NativeType::I16 => "i16"@,
            NativeType::I32 => "i32"@,
            NativeType::I64 => "i64"@,
            NativeType::U8 => "u8"@,
            NativeType::U16 => "u16"@,
            NativeType::U32 => "u32"@,
            NativeType::U64 => "u64"@,
            NativeType::F64 => "f64"@,
            NativeType::BytePointer => "* const u8"@,
        }
    }

    /// The type written in Rust, its tokens separated by single spaces.
    pub fn tokens(&self) -> (r: &'static str)
        ensures
            r@ == self.spec_tokens(),
    {
        match self {
            NativeType::I8 => "i8",
            NativeType::I16 => "i16",
            NativeType::I32 => "i32",
            NativeType::I64 => "i64",
            NativeType::U8 => "u8",
            NativeType::U16 => "u16",
            NativeType::U32 => "u32",
            NativeType::U64 => "u64",
            NativeType::F64 => "f64",
            NativeType::BytePointer => "* const u8",
        }
    }
}

impl Descriptor {
    /// The type the caller passes, written in Rust, its tokens separated by
    /// single spaces. A raw pointer points to the argument's type parameter,
    /// or to `_` where none is named.
    pub open spec fn inner_ty_tokens(self) -> Seq<char> {
        match self.inner_ty {
            SourceType::I8 => "i8"@,
            SourceType::I16 => "i16"@,
            SourceType::I32 => "i32"@,
            SourceType::I64 => "i64"@,
            SourceType::U8 => "u8"@,
            SourceType::U16 => "u16"@,
            SourceType::U32 => "u32"@,
            SourceType::U64 => "u64"@,
            SourceType::Char => "char"@,
            SourceType::F64 => "f64"@,
            SourceType::Str => "impl AsRef < str >"@,
            SourceType::RawPointer => "* const "@ + match self.inner_generic {
                Some(name) => name,
                None => "_"@,
            },
        }
    }

    /// The expression that makes the packed value from the argument,
    /// written in Rust, its tokens separated by single spaces.
    pub open spec fn ffi_expr_tokens(self) -> Seq<char> {
        match self.ffi_expr {
            MarshalRule::Identity => self.inner_name,
            MarshalRule::PointerExtraction => self.inner_name + " . as_ref ( ) . as_ptr ( )"@,
            MarshalRule::PointerCast => self.inner_name + " as * const _"@,
        }
    }
}

impl WrappedArg {
    /// The type the caller passes, written in Rust.
    pub fn inner_ty_tokens(&self) -> (r: String)
        ensures
            r@ == self@.inner_ty_tokens(),
    {
        match self.inner_ty {
            SourceType::I8 => "i8".to_owned(),
            SourceType::I16 => "i16".to_owned(),
            SourceType::I32 => "i32".to_owned(),
            SourceType::I64 => "i64".to_owned(),
            SourceType::U8 => "u8".to_owned(),
            SourceType::U16 => "u16".to_owned(),
            SourceType::U32 => "u32".to_owned(),
            SourceType::U64 => "u64".to_owned(),
            SourceType::Char => "char".to_owned(),
            SourceType::F64 => "f64".to_owned(),
            SourceType::Str => "impl AsRef < str >".to_owned(),
            SourceType::RawPointer => {
                let mut r = "* const ".to_owned();
                match &self.inner_generic {
                    Some(name) => r.append(name.as_str()),
                    None => r.append("_"),
                }
                r
            },
        }
    }

    /// The native type that is packed, written in Rust.
    pub fn ffi_ty_tokens(&self) -> (r: String)
        ensures
            r@ == self.ffi_ty.spec_tokens(),
    {
        self.ffi_ty.tokens().to_owned()
    }

    /// The expression that makes the packed value, written in Rust.
    pub fn ffi_expr_tokens(&self) -> (r: String)
        ensures
            r@ == self@.ffi_expr_tokens(),
    {
        let mut r = self.inner_name.clone();
        match self.ffi_expr {
            MarshalRule::Identity => {},
            MarshalRule::PointerExtraction => r.append(" . as_ref ( ) . as_ptr ( )"),
            MarshalRule::PointerCast => r.append(" as * const _"),
        }
        r
    }
}

/// The native types of the arguments, in order: the fields of the aggregate
/// that is handed to the print routine, which is packed in this order.
pub fn ffi_types(wrapped: &[WrappedArg]) -> (r: Vec<NativeType>)
    ensures
        r@ == views(wrapped@).map_values(|d: Descriptor| d.ffi_ty),
{
    let mut r: Vec<NativeType> = Vec::new();
    let mut i: usize = 0;
    while i < wrapped.len()
        invariant
            i <= wrapped.len(),
            r@ == views(wrapped@.take(i as int)).map_values(|d: Descriptor| d.ffi_ty),
        decreases wrapped.len() - i,
    {
        r.push(wrapped[i].ffi_ty);
        assert(r@ =~= views(wrapped@.take(i + 1)).map_values(|d: Descriptor| d.ffi_ty));
        i = i + 1;
    }
    assert(wrapped@.take(i as int) =~= wrapped@);
    r
}

/// The type parameters that the arguments leave open, in order.
pub open spec fn spec_arg_generics(wrapped: Seq<Descriptor>) -> Seq<Seq<char>> {
    wrapped.filter_map(|d: Descriptor| d.inner_generic)
}

/// The names of the type parameters that the arguments leave open, in order.
pub fn arg_generics(wrapped: &[WrappedArg]) -> (r: Vec<String>)
    ensures
        r@.map_values(|name: String| name@) == spec_arg_generics(views(wrapped@)),
{
    let mut r: Vec<String> = Vec::new();
    let mut i: usize = 0;
    let ghost pick = |d: Descriptor| d.inner_generic;
    let ghost text = |name: String| name@;
    assert(views(wrapped@.take(0)) =~= Seq::<Descriptor>::empty());
    assert(r@.map_values(text) =~= Seq::<Seq<char>>::empty());
    while i < wrapped.len()
        invariant
            i <= wrapped.len(),
            pick == |d: Descriptor| d.inner_generic,
            text == |name: String| name@,
            r@.map_values(text) == views(wrapped@.take(i as int)).filter_map(pick),
        decreases wrapped.len() - i,
    {
        proof {
            let next = views(wrapped@.take(i + 1));
            assert(next.drop_last() =~= views(wrapped@.take(i as int)));
            assert(next.last() == wrapped@[i as int]@);
        }
        let ghost before = r@;
        match &wrapped[i].inner_generic {
            Some(name) => {
                r.push(name.clone());
                assert(r@.map_values(text) =~= before.map_values(text) + seq![name@]);
            },
            None => {},
        }
        i = i + 1;
    }
    assert(wrapped@.take(i as int) =~= wrapped@);
    r
}

} // verus!
