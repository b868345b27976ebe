//! What can go wrong while a format string is compiled.

use crate::parsers::kind_name;
use crate::parsers::ArgType;
use crate::text::decimal;
use crate::text::decimal_text;
use vstd::prelude::*;
use vstd::string::StringExecFns;

verus! {

/// Why a format string, or the arguments written after it, were rejected.
#[derive(Debug, PartialEq)]
pub enum PrintSyscallError {
    /// The format string breaks the grammar; `near` shows where.
    FormatSyntaxError { near: String },
    /// The format string was rejected at a place that cannot be shown.
    UnknownFormatSyntaxError,
    /// A length modifier stands before a conversion that takes none.
    UnacceptableLength { for_type: ArgType },
    /// The number of arguments differs from the number of conversions
    /// that consume one.
    WrongArgumentsCount { expected: usize, got: usize },
}

/// A `PrintSyscallError` as a mathematical value.
pub enum Diagnostic {
    FormatSyntaxError { near: Seq<char> },
    UnknownFormatSyntaxError,
    UnacceptableLength { for_type: ArgType },
    WrongArgumentsCount { expected: nat, got: nat },
}

impl View for PrintSyscallError {
    type V = Diagnostic;

    open spec fn view(&self) -> Diagnostic {
        match *self {
            PrintSyscallError::FormatSyntaxError { near } => Diagnostic::FormatSyntaxError {
                near: near@,
            },
            PrintSyscallError::UnknownFormatSyntaxError => Diagnostic::UnknownFormatSyntaxError,
            PrintSyscallError::UnacceptableLength { for_type } => Diagnostic::UnacceptableLength {
                for_type,
            },
            PrintSyscallError::WrongArgumentsCount { expected, got } => {
                Diagnostic::WrongArgumentsCount { expected: expected as nat, got: got as nat }
            },
        }
    }
}

/// A text in double quotes with what needs it escaped, as the `Debug`
/// formatting of a string slice writes it.
pub uninterp spec fn debug_quoted(text: Seq<char>) -> Seq<char>;

/// `format!("{:?}", text)` on a string slice: the slice's `Debug` rendering,
/// which depends on its characters alone. The contract gives that rendering
/// a name and says nothing of what it holds.
#[verifier::external_body]
fn quoted(text: &str) -> (r: String)
    ensures
        r@ == debug_quoted(text@),
{
    format!("{:?}", text)
}

/// The message of a syntax error, given the quoted context window.
pub open spec fn syntax_error_text(quoted_near: Seq<char>) -> Seq<char> {
    "Syntax error near "@ + quoted_near
}

/// The message of a syntax error whose context window, quoted, is
/// `quoted_near`.
pub fn syntax_error_message(quoted_near: &str) -> (r: String)
    ensures
        r@ == syntax_error_text(quoted_near@),
{
    let mut r = "Syntax error near ".to_owned();
    r.append(quoted_near);
    r
}

impl Diagnostic {
    /// The message that is shown for the error.
    pub open spec fn message(self) -> Seq<char> {
        match self {
            Diagnostic::FormatSyntaxError { near } => syntax_error_text(debug_quoted(near)),
            Diagnostic::UnknownFormatSyntaxError => "Unknown syntax error"@,
            Diagnostic::UnacceptableLength { for_type } => {
                "Length can't be specified for argument with type '"@ + kind_name(for_type) + "'"@
            },
            Diagnostic::WrongArgumentsCount { expected, got } => {
                "Wrong arguments count: expected "@ + decimal(expected) + ", got "@ + decimal(got)
            },
        }
    }
}

impl PrintSyscallError {
    /// The message that is shown for the error.
    pub fn to_string(&self) -> (r: String)
        ensures
            r@ == self@.message(),
    {
        match self {
            PrintSyscallError::FormatSyntaxError { near } => {
                let shown = quoted(near.as_str());
                syntax_error_message(shown.as_str())
            },
            PrintSyscallError::UnknownFormatSyntaxError => "Unknown syntax error".to_owned(),
            PrintSyscallError::UnacceptableLength { for_type } => {
                let mut r = "Length can't be specified for argument with type '".to_owned();
                r.append(for_type.name());
                r.append("'");
                r
            },
            PrintSyscallError::WrongArgumentsCount { expected, got } => {
                let mut r = "Wrong arguments count: expected ".to_owned();
                r.append(decimal_text(*expected).as_str());
                r.append(", got ");
                r.append(decimal_text(*got).as_str());
                r
            },
        }
    }
}

} // verus!
