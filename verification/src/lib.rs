//! Compiler for `printf`-style format strings into fixed-arity calls of a
//! native variadic print routine, together with the launch-grid coordinates
//! that device code reports about itself.

pub mod args;
pub mod context;
pub mod error;
pub mod laws;
pub mod panic_handler;
pub mod parsers;
pub mod text;

use crate::args::spec_wrap_args;
use crate::args::wrap_args;
use crate::args::wrapped_view;
use crate::args::Descriptor;
use crate::args::WrappedArg;
use crate::error::Diagnostic;
use crate::error::PrintSyscallError;
use crate::parsers::parse_format;
use crate::parsers::spec_parse_format;
use vstd::prelude::*;

verus! {

/// What compiling the format string `format` for `supplied` arguments
/// gives: the syntax error of the format string if it has one, else what
/// matching its conversions with the arguments gives.
pub open spec fn spec_cuda_printf(format: Seq<char>, supplied: nat) -> Result<
    Seq<Descriptor>,
    Diagnostic,
> {
    match spec_parse_format(format) {
        Ok(formatted) => spec_wrap_args(formatted, supplied),
        Err(e) => Err(e),
    }
}

/// Compiles one call of the print routine: parses the format string and
/// derives, for the arguments written after it, what the native call takes.
///
/// Only the number of `args` counts.
pub fn cuda_printf<E>(format: &str, args: &[E]) -> (r: Result<Vec<WrappedArg>, PrintSyscallError>)
    ensures
        wrapped_view(r) == spec_cuda_printf(format@, args@.len()),
{
    match parse_format(format) {
        Ok(formatted) => wrap_args(formatted.as_slice(), args),
        Err(e) => Err(e),
    }
}

} // verus!
