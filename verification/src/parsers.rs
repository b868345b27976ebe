//! The grammar of format strings.
//!
//! A format string is literal text with conversions in it. A conversion is
//! `%`, then in this order and each optional: a flag, a width, a precision
//! and a length modifier; then the character that names its type.

use crate::error::Diagnostic;
use crate::error::PrintSyscallError;
use crate::text::chars_of;
use vstd::prelude::*;
use vstd::string::StrSliceExecFns;
use vstd::string::StringExecFns;

verus! {

/// One conversion: flag, width, precision, length modifier, type.
#[derive(PartialEq, Debug)]
pub struct Arg(
    pub Option<ArgFlag>,
    pub Option<ArgWidth>,
    pub Option<ArgPrecision>,
    pub Option<ArgLength>,
    pub ArgType,
);

/// A flag was written: one of `-`, `+`, `0`, `#`.
#[derive(PartialEq, Debug)]
pub struct ArgFlag;

/// A width was written: `*` or decimal digits.
#[derive(PartialEq, Debug)]
pub struct ArgWidth;

/// A precision was written: `.` and then `*` or decimal digits.
#[derive(PartialEq, Debug)]
pub struct ArgPrecision;

/// A length modifier: `hh`, `h` or `l`.
#[derive(PartialEq, Debug)]
pub enum ArgLength {
    I8,
    I16,
    I64,
}

/// What a conversion formats.
#[derive(PartialEq, Debug, Clone, Copy)]
pub enum ArgType {
    Literal,
    Signed,
    Unsigned,
    Double,
    StringPointer,
    Char,
    Pointer,
}

/// The name of a conversion type, as it is written in messages.
pub open spec fn kind_name(ty: ArgType) -> Seq<char> {
    match ty {
        ArgType::Literal => "Literal"@,
        ArgType::Signed => "Signed"@,
        ArgType::Unsigned => "Unsigned"@,
        ArgType::Double => "Double"@,
        ArgType::StringPointer => "StringPointer"@,
        ArgType::Char => "Char"@,
        ArgType::Pointer => "Pointer"@,
    }
}

impl ArgType {
    /// The name of the type, as it is written in messages.
    pub fn name(&self) -> (r: &'static str)
        ensures
            r@ == kind_name(*self),
    {
        match self {
            ArgType::Literal => "Literal",
            ArgType::Signed => "Signed",
            ArgType::Unsigned => "Unsigned",
            ArgType::Double => "Double",
            ArgType::StringPointer => "StringPointer",
            ArgType::Char => "Char",
            ArgType::Pointer => "Pointer",
        }
    }
}

/// How a rule of the grammar failed.
#[derive(PartialEq, Debug, Clone, Copy)]
pub enum ErrorKind {
    /// The input ended where a character was needed.
    Eof,
    /// The next character is not the one the rule asks for.
    Char,
    /// The next character is not in the set the rule asks for.
    OneOf,
    /// None of the rule's alternatives applies.
    Alt,
    /// A conversion in the list is malformed.
    ManyTill,
}

/// A failed rule: the input that was left when it failed, and how it failed.
#[derive(PartialEq, Debug)]
pub struct SyntaxError<'a> {
    pub rest: &'a str,
    pub kind: ErrorKind,
}

/// The outcome of a rule applied at a position of the input: the position
/// after what it took together with what it read, or the position where it
/// failed together with the way it failed.
pub type Outcome<T> = Result<(int, T), (int, ErrorKind)>;

pub open spec fn is_flag(c: char) -> bool {
    c == '-' || c == '+' || c == '0' || c == '#'
}

pub open spec fn is_digit(c: char) -> bool {
    '0' <= c && c <= '9'
}

/// The type that a character names, if it names one.
pub open spec fn type_of(c: char) -> Option<ArgType> {
    if c == '%' {
        Some(ArgType::Literal)
    } else if c == 'd' || c == 'i' {
        Some(ArgType::Signed)
    } else if c == 'u' || c == 'x' || c == 'X' || c == 'o' {
        Some(ArgType::Unsigned)
    } else if c == 'f' || c == 'F' || c == 'e' || c == 'E' || c == 'g' || c == 'G' || c == 'a' || c
        == 'A' {
        Some(ArgType::Double)
    } else if c == 's' {
        Some(ArgType::StringPointer)
    } else if c == 'c' {
        Some(ArgType::Char)
    } else if c == 'p' {
        Some(ArgType::Pointer)
    } else {
        None
    }
}

/// Whether the character at position `i` of `s` is `c`.
pub open spec fn has(s: Seq<char>, i: int, c: char) -> bool {
    0 <= i < s.len() && s[i] == c
}

/// The position after the decimal digits that start at `i`.
pub open spec fn digits_end(s: Seq<char>, i: int) -> int
    decreases s.len() - i,
{
    if 0 <= i < s.len() && is_digit(s[i]) {
        digits_end(s, i + 1)
    } else {
        i
    }
}

/// The position of the first `%` at or after `i`, or the end of the input.
pub open spec fn literal_end(s: Seq<char>, i: int) -> int
    decreases s.len() - i,
{
    if 0 <= i < s.len() && s[i] != '%' {
        literal_end(s, i + 1)
    } else {
        i
    }
}

/// The flag rule at `i`: one flag character.
pub open spec fn spec_flag(s: Seq<char>, i: int) -> Outcome<ArgFlag> {
    if i >= s.len() {
        Err((i, ErrorKind::Eof))
    } else if is_flag(s[i]) {
        Ok((i + 1, ArgFlag))
    } else {
        Err((i, ErrorKind::OneOf))
    }
}

/// The rule shared by width and precision at `i`: `*`, or one or more digits.
pub open spec fn spec_amount(s: Seq<char>, i: int) -> Outcome<()> {
    if has(s, i, '*') {
        Ok((i + 1, ()))
    } else if digits_end(s, i) > i {
        Ok((digits_end(s, i), ()))
    } else {
        Err((i, ErrorKind::Alt))
    }
}

/// The width rule at `i`.
pub open spec fn spec_width(s: Seq<char>, i: int) -> Outcome<ArgWidth> {
    match spec_amount(s, i) {
        Ok((end, _)) => Ok((end, ArgWidth)),
        Err(e) => Err(e),
    }
}

/// The precision rule at `i`: `.` and then an amount.
pub open spec fn spec_precision(s: Seq<char>, i: int) -> Outcome<ArgPrecision> {
    if i >= s.len() {
        Err((i, ErrorKind::Eof))
    } else if s[i] != '.' {
        Err((i, ErrorKind::Char))
    } else {
        match spec_amount(s, i + 1) {
            Ok((end, _)) => Ok((end, ArgPrecision)),
            Err(e) => Err(e),
        }
    }
}

/// The length rule at `i`: `hh`, else `h`, else `l`.
pub open spec fn spec_length(s: Seq<char>, i: int) -> Outcome<ArgLength> {
    if has(s, i, 'h') && has(s, i + 1, 'h') {
        Ok((i + 2, ArgLength::I8))
    } else if has(s, i, 'h') {
        Ok((i + 1, ArgLength::I16))
    } else if has(s, i, 'l') {
        Ok((i + 1, ArgLength::I64))
    } else {
        Err((i, ErrorKind::Alt))
    }
}

/// The type rule at `i`: one character that names a type.
pub open spec fn spec_type(s: Seq<char>, i: int) -> Outcome<ArgType> {
    if 0 <= i < s.len() && type_of(s[i]) is Some {
        Ok((i + 1, type_of(s[i])->0))
    } else {
        Err((i, ErrorKind::Alt))
    }
}

/// An optional rule at `i`: where the rule fails nothing is taken.
pub open spec fn optional<T>(rule: Outcome<T>, i: int) -> (int, Option<T>) {
    match rule {
        Ok((end, v)) => (end, Some(v)),
        Err(_) => (i, None),
    }
}

/// The conversion rule at `i`.
pub open spec fn spec_arg(s: Seq<char>, i: int) -> Outcome<Arg> {
    if i >= s.len() {
        Err((i, ErrorKind::Eof))
    } else if s[i] != '%' {
        Err((i, ErrorKind::Char))
    } else {
        let (f, flag) = optional(spec_flag(s, i + 1), i + 1);
        let (w, width) = optional(spec_width(s, f), f);
        let (p, precision) = optional(spec_precision(s, w), w);
        let (l, length) = optional(spec_length(s, p), p);
        match spec_type(s, l) {
            Ok((end, ty)) => Ok((end, Arg(flag, width, precision, length, ty))),
            Err(e) => Err(e),
        }
    }
}

/// The list of conversions from `i` on, where `i` is the position of a `%`
/// or the end of the input: the conversions in order, with the literal text
/// between them skipped; or the position of the first malformed conversion.
pub open spec fn spec_args_from(s: Seq<char>, i: int) -> Result<Seq<Arg>, (int, ErrorKind)>
    decreases s.len() - i,
    when 0 <= i
    via spec_args_from_decreases
{
    if i >= s.len() {
        Ok(Seq::empty())
    } else {
        match spec_arg(s, i) {
            Ok((end, arg)) => match spec_args_from(s, literal_end(s, end)) {
                Ok(rest) => Ok(seq![arg] + rest),
                Err(e) => Err(e),
            },
            Err(_) => Err((i, ErrorKind::ManyTill)),
        }
    }
}

#[via_fn]
proof fn spec_args_from_decreases(s: Seq<char>, i: int) {
    if i < s.len() {
        if let Ok((end, _)) = spec_arg(s, i) {
            lemma_arg_end(s, i);
            lemma_literal_end(s, end);
        }
    }
}

/// The whole format string: literal text, then the list of conversions up
/// to the end of the input.
pub open spec fn spec_arg_list(s: Seq<char>) -> Outcome<Seq<Arg>> {
    match spec_args_from(s, literal_end(s, 0)) {
        Ok(args) => Ok((s.len() as int, args)),
        Err(e) => Err(e),
    }
}

/// A run of digits ends at or after its start, inside the input, and before
/// a character that is no digit.
pub proof fn lemma_digits_end(s: Seq<char>, i: int)
    requires
        0 <= i <= s.len(),
    ensures
        i <= digits_end(s, i) <= s.len(),
        forall|k: int| i <= k < digits_end(s, i) ==> is_digit(#[trigger] s[k]),
        digits_end(s, i) < s.len() ==> !is_digit(s[digits_end(s, i)]),
    decreases s.len() - i,
{
    if i < s.len() && is_digit(s[i]) {
        lemma_digits_end(s, i + 1);
    }
}

/// Literal text ends at or after its start, at a `%` or at the end of the
/// input, and holds no `%`.
pub proof fn lemma_literal_end(s: Seq<char>, i: int)
    requires
        0 <= i <= s.len(),
    ensures
        i <= literal_end(s, i) <= s.len(),
        forall|k: int| i <= k < literal_end(s, i) ==> #[trigger] s[k] != '%',
        literal_end(s, i) < s.len() ==> s[literal_end(s, i)] == '%',
    decreases s.len() - i,
{
    if i < s.len() && s[i] != '%' {
        lemma_literal_end(s, i + 1);
    }
}

/// A conversion takes at least two characters and ends inside the input; a
/// failure lies after the `%`, inside the input.
pub proof fn lemma_arg_end(s: Seq<char>, i: int)
    requires
        0 <= i <= s.len(),
    ensures
        match spec_arg(s, i) {
            Ok((end, _)) => i + 2 <= end <= s.len(),
            Err((at, _)) => i <= at <= s.len(),
        },
{
    if i < s.len() && s[i] == '%' {
        let (f, _) = optional(spec_flag(s, i + 1), i + 1);
        lemma_digits_end(s, f);
        let (w, _) = optional(spec_width(s, f), f);
        if w < s.len() {
            lemma_digits_end(s, w + 1);
        }
    }
}

/// A list that starts at a `%` or at the end of the input fails only at a
/// `%` at which no conversion can be read, and then as a failure of the
/// list.
pub proof fn lemma_args_from_failure(s: Seq<char>, i: int)
    requires
        0 <= i <= s.len(),
        i < s.len() ==> s[i] == '%',
    ensures
        spec_args_from(s, i) matches Err((at, kind)) ==> i <= at < s.len() && s[at] == '%'
            && spec_arg(s, at) is Err && kind == ErrorKind::ManyTill,
    decreases s.len() - i,
{
    if i < s.len() {
        if let Ok((end, _)) = spec_arg(s, i) {
            lemma_arg_end(s, i);
            lemma_literal_end(s, end);
            lemma_args_from_failure(s, literal_end(s, end));
        }
    }
}

/// A format string is read to its end or not at all: success leaves
/// nothing over, and failure is at a `%` at which no conversion can be
/// read.
pub proof fn lemma_arg_list_outcome(s: Seq<char>)
    ensures
        match spec_arg_list(s) {
            Ok((end, _)) => end == s.len(),
            Err((at, kind)) => 0 <= at < s.len() && s[at] == '%' && spec_arg(s, at) is Err
                && kind == ErrorKind::ManyTill,
        },
{
    lemma_literal_end(s, 0);
    lemma_args_from_failure(s, literal_end(s, 0));
}

/// Positions as mathematical integers.
spec fn lifted<T>(r: Result<(usize, T), (usize, ErrorKind)>) -> Outcome<T> {
    match r {
        Ok((end, v)) => Ok((end as int, v)),
        Err((at, kind)) => Err((at as int, kind)),
    }
}

/// The flag rule at position `i` of `s`.
fn flag_at(s: &[char], i: usize) -> (r: Result<(usize, ArgFlag), (usize, ErrorKind)>)
    requires
        i <= s.len(),
    ensures
        lifted(r) == spec_flag(s@, i as int),
{
    if i >= s.len() {
        Err((i, ErrorKind::Eof))
    } else {
        let c = s[i];
        if c == '-' || c == '+' || c == '0' || c == '#' {
            Ok((i + 1, ArgFlag))
        } else {
            Err((i, ErrorKind::OneOf))
        }
    }
}

/// The rule shared by width and precision at position `i` of `s`.
fn amount_at(s: &[char], i: usize) -> (r: Result<(usize, ()), (usize, ErrorKind)>)
    requires
        i <= s.len(),
    ensures
        lifted(r) == spec_amount(s@, i as int),
{
    if i < s.len() && s[i] == '*' {
        return Ok((i + 1, ()));
    }
    let mut j: usize = i;
    while j < s.len() && '0' <= s[j] && s[j] <= '9'
        invariant
            i <= j <= s.len(),
            digits_end(s@, i as int) == digits_end(s@, j as int),
        decreases s.len() - j,
    {
        j = j + 1;
    }
    if j > i {
        Ok((j, ()))
    } else {
        Err((i, ErrorKind::Alt))
    }
}

/// The width rule at position `i` of `s`.
fn width_at(s: &[char], i: usize) -> (r: Result<(usize, ArgWidth), (usize, ErrorKind)>)
    requires
        i <= s.len(),
    ensures
        lifted(r) == spec_width(s@, i as int),
{
    match amount_at(s, i) {
        Ok((end, _)) => Ok((end, ArgWidth)),
        Err(e) => Err(e),
    }
}

/// The precision rule at position `i` of `s`.
fn precision_at(s: &[char], i: usize) -> (r: Result<(usize, ArgPrecision), (usize, ErrorKind)>)
    requires
        i <= s.len(),
    ensures
        lifted(r) == spec_precision(s@, i as int),
{
    if i >= s.len() {
        Err((i, ErrorKind::Eof))
    } else if s[i] != '.' {
        Err((i, ErrorKind::Char))
    } else {
        match amount_at(s, i + 1) {
            Ok((end, _)) => Ok((end, ArgPrecision)),
            Err(e) => Err(e),
        }
    }
}

/// The length rule at position `i` of `s`.
fn length_at(s: &[char], i: usize) -> (r: Result<(usize, ArgLength), (usize, ErrorKind)>)
    requires
        i <= s.len(),
    ensures
        lifted(r) == spec_length(s@, i as int),
{
    if i < s.len() && s[i] == 'h' {
        if i + 1 < s.len() && s[i + 1] == 'h' {
            Ok((i + 2, ArgLength::I8))
        } else {
            Ok((i + 1, ArgLength::I16))
        }
    } else if i < s.len() && s[i] == 'l' {
        Ok((i + 1, ArgLength::I64))
    } else {
        Err((i, ErrorKind::Alt))
    }
}

/// The type that a character names, if it names one.
fn type_named(c: char) -> (r: Option<ArgType>)
    ensures
        r == type_of(c),
{
    match c {
        '%' => Some(ArgType::Literal),
        'd' | 'i' => Some(ArgType::Signed),
        'u' | 'x' | 'X' | 'o' => Some(ArgType::Unsigned),
        'f' | 'F' | 'e' | 'E' | 'g' | 'G' | 'a' | 'A' => Some(ArgType::Double),
        's' => Some(ArgType::StringPointer),
        'c' => Some(ArgType::Char),
        'p' => Some(ArgType::Pointer),
        _ => None,
    }
}

/// The type rule at position `i` of `s`.
fn type_at(s: &[char], i: usize) -> (r: Result<(usize, ArgType), (usize, ErrorKind)>)
    requires
        i <= s.len(),
    ensures
        lifted(r) == spec_type(s@, i as int),
{
    if i < s.len() {
        match type_named(s[i]) {
            Some(ty) => Ok((i + 1, ty)),
            None => Err((i, ErrorKind::Alt)),
        }
    } else {
        Err((i, ErrorKind::Alt))
    }
}

/// The conversion rule at position `i` of `s`.
fn arg_at(s: &[char], i: usize) -> (r: Result<(usize, Arg), (usize, ErrorKind)>)
    requires
        i <= s.len(),
    ensures
        lifted(r) == spec_arg(s@, i as int),
{
    if i >= s.len() {
        return Err((i, ErrorKind::Eof));
    }
    if s[i] != '%' {
        return Err((i, ErrorKind::Char));
    }
    proof {
        lemma_arg_end(s@, i as int);
    }
    let (f, flag) = match flag_at(s, i + 1) {
        Ok((end, v)) => (end, Some(v)),
        Err(_) => (i + 1, None),
    };
    proof {
        lemma_digits_end(s@, f as int);
    }
    let (w, width) = match width_at(s, f) {
        Ok((end, v)) => (end, Some(v)),
        Err(_) => (f, None),
    };
    proof {
        if w < s.len() {
            lemma_digits_end(s@, w + 1);
        }
    }
    let (p, precision) = match precision_at(s, w) {
        Ok((end, v)) => (end, Some(v)),
        Err(_) => (w, None),
    };
    let (l, length) = match length_at(s, p) {
        Ok((end, v)) => (end, Some(v)),
        Err(_) => (p, None),
    };
    match type_at(s, l) {
        Ok((end, ty)) => Ok((end, Arg(flag, width, precision, length, ty))),
        Err(e) => Err(e),
    }
}

/// Skips literal text: the position of the first `%` at or after `i`.
fn skip_literal(s: &[char], i: usize) -> (j: usize)
    requires
        i <= s.len(),
    ensures
        j == literal_end(s@, i as int),
        i <= j <= s.len(),
{
    let mut j: usize = i;
    while j < s.len() && s[j] != '%'
        invariant
            i <= j <= s.len(),
            literal_end(s@, i as int) == literal_end(s@, j as int),
        decreases s.len() - j,
    {
        j = j + 1;
    }
    j
}

/// The list rule on the whole input.
fn list_of(s: &[char]) -> (r: Result<Vec<Arg>, (usize, ErrorKind)>)
    ensures
        match r {
            Ok(args) => spec_arg_list(s@) == Ok::<(int, Seq<Arg>), (int, ErrorKind)>(
                (s@.len() as int, args@),
            ),
            Err((at, kind)) => spec_arg_list(s@) == Err::<(int, Seq<Arg>), (int, ErrorKind)>(
                (at as int, kind),
            ) && at < s@.len(),
        },
{
    let mut args: Vec<Arg> = Vec::new();
    let start = skip_literal(s, 0);
    let mut i: usize = start;
    while i < s.len()
        invariant
            start == literal_end(s@, 0),
            i <= s.len(),
            match spec_args_from(s@, i as int) {
                Ok(rest) => spec_args_from(s@, start as int) == Ok::<Seq<Arg>, (int, ErrorKind)>(
                    args@ + rest,
                ),
                Err(e) => spec_args_from(s@, start as int) == Err::<Seq<Arg>, (int, ErrorKind)>(e),
            },
        decreases s.len() - i,
    {
        proof {
            lemma_arg_end(s@, i as int);
        }
        match arg_at(s, i) {
            Ok((end, arg)) => {
                let ghost before = args@;
                args.push(arg);
                let next = skip_literal(s, end);
                proof {
                    if let Ok(rest) = spec_args_from(s@, next as int) {
                        assert(before + (seq![arg] + rest) =~= args@ + rest);
                    }
                }
                i = next;
            },
            Err(_) => {
                return Err((i, ErrorKind::ManyTill));
            },
        }
    }
    assert(args@ + Seq::<Arg>::empty() =~= args@);
    Ok(args)
}

/// Whether the result of a rule on `input` is the outcome `model` of that
/// rule at the start of `input`: the text that is handed back is the input
/// from the outcome's position on.
pub open spec fn agrees<'a, T>(
    input: Seq<char>,
    r: Result<(&'a str, T), SyntaxError<'a>>,
    model: Outcome<T>,
) -> bool {
    match model {
        Ok((end, v)) => r matches Ok((rest, w)) && rest@ == input.skip(end) && w == v,
        Err((at, kind)) => r matches Err(e) && e.rest@ == input.skip(at) && e.kind == kind,
    }
}

/// Turns positions into the text that starts there.
fn located<'a, T>(input: &'a str, r: Result<(usize, T), (usize, ErrorKind)>) -> (out: Result<
    (&'a str, T),
    SyntaxError<'a>,
>)
    requires
        match r {
            Ok((end, _)) => end <= input@.len(),
            Err((at, _)) => at <= input@.len(),
        },
    ensures
        agrees(input@, out, lifted(r)),
{
    let len = input.unicode_len();
    match r {
        Ok((end, v)) => Ok((input.substring_char(end, len), v)),
        Err((at, kind)) => Err(SyntaxError { rest: input.substring_char(at, len), kind }),
    }
}

/// Reads a flag at the start of `input`.
pub fn arg_flag<'a>(input: &'a str) -> (r: Result<(&'a str, ArgFlag), SyntaxError<'a>>)
    ensures
        agrees(input@, r, spec_flag(input@, 0)),
{
    let chars = chars_of(input);
    located(input, flag_at(chars.as_slice(), 0))
}

/// Reads a width at the start of `input`.
pub fn arg_width<'a>(input: &'a str) -> (r: Result<(&'a str, ArgWidth), SyntaxError<'a>>)
    ensures
        agrees(input@, r, spec_width(input@, 0)),
{
    let chars = chars_of(input);
    proof {
        lemma_digits_end(input@, 0);
    }
    located(input, width_at(chars.as_slice(), 0))
}

/// Reads a precision at the start of `input`.
pub fn arg_precision<'a>(input: &'a str) -> (r: Result<(&'a str, ArgPrecision), SyntaxError<'a>>)
    ensures
        agrees(input@, r, spec_precision(input@, 0)),
{
    let chars = chars_of(input);
    proof {
        if input@.len() > 0 {
            lemma_digits_end(input@, 1);
        }
    }
    located(input, precision_at(chars.as_slice(), 0))
}

/// Reads a length modifier at the start of `input`.
pub fn arg_length<'a>(input: &'a str) -> (r: Result<(&'a str, ArgLength), SyntaxError<'a>>)
    ensures
        agrees(input@, r, spec_length(input@, 0)),
{
    let chars = chars_of(input);
    located(input, length_at(chars.as_slice(), 0))
}

/// Reads the character that names a type at the start of `input`.
pub fn arg_type<'a>(input: &'a str) -> (r: Result<(&'a str, ArgType), SyntaxError<'a>>)
    ensures
        agrees(input@, r, spec_type(input@, 0)),
{
    let chars = chars_of(input);
    located(input, type_at(chars.as_slice(), 0))
}

/// Reads one conversion at the start of `input`.
pub fn arg<'a>(input: &'a str) -> (r: Result<(&'a str, Arg), SyntaxError<'a>>)
    ensures
        agrees(input@, r, spec_arg(input@, 0)),
{
    let chars = chars_of(input);
    proof {
        lemma_arg_end(input@, 0);
    }
    located(input, arg_at(chars.as_slice(), 0))
}

/// Reads a whole format string: its conversions in order. What is handed
/// back beside them is the empty end of the input; after a failure, the
/// input from the malformed conversion on.
pub fn arg_list<'a>(input: &'a str) -> (r: Result<(&'a str, Vec<Arg>), SyntaxError<'a>>)
    ensures
        match spec_arg_list(input@) {
            Ok((end, args)) => r matches Ok((rest, v)) && rest@ == input@.skip(end) && v@ == args,
            Err((at, kind)) => r matches Err(e) && e.rest@ == input@.skip(at) && e.kind == kind,
        },
{
    let chars = chars_of(input);
    let len = input.unicode_len();
    match list_of(chars.as_slice()) {
        Ok(args) => Ok((input.substring_char(len, len), args)),
        Err((at, kind)) => Err(SyntaxError { rest: input.substring_char(at, len), kind }),
    }
}

/// The piece of the input that is shown for a failure: at most the first
/// five characters of what was left, with `...` before them unless the
/// failure is at the very start of the input, and `...` after them unless
/// at most five characters were left.
pub open spec fn context_window(rest: Seq<char>, at_start: bool) -> Seq<char> {
    let before = if at_start {
        Seq::<char>::empty()
    } else {
        seq!['.', '.', '.']
    };
    let after = if rest.len() <= 5 {
        Seq::<char>::empty()
    } else {
        seq!['.', '.', '.']
    };
    before + rest.take(if rest.len() <= 5 {
        rest.len() as int
    } else {
        5
    }) + after
}

/// The context window is bounded: it never holds more than eleven
/// characters, whatever was left of the input.
pub proof fn lemma_context_window_bounded(rest: Seq<char>, at_start: bool)
    ensures
        context_window(rest, at_start).len() <= 11,
        rest.len() <= 5 && at_start ==> context_window(rest, at_start) == rest,
{
    if rest.len() <= 5 && at_start {
        assert(context_window(rest, at_start) =~= rest);
    }
}

/// What `parse_format` gives for a format string.
pub open spec fn spec_parse_format(s: Seq<char>) -> Result<Seq<Arg>, Diagnostic> {
    match spec_arg_list(s) {
        Ok((_, args)) => Ok(args),
        Err((at, _)) => Err(
            Diagnostic::FormatSyntaxError { near: context_window(s.skip(at), at == 0) },
        ),
    }
}

/// Cuts the context window out of what was left of the input.
pub fn near(rest: &str, at_start: bool) -> (window: String)
    ensures
        window@ == context_window(rest@, at_start),
{
    let len = rest.unicode_len();
    let shown = if len <= 5 {
        len
    } else {
        5
    };
    proof {
        reveal_strlit("...");
        reveal_strlit("");
    }
    let dots = "...";
    assert(dots@ =~= seq!['.', '.', '.']);
    let mut window = if at_start {
        String::new()
    } else {
        dots.to_owned()
    };
    window.append(rest.substring_char(0, shown));
    if len > 5 {
        window.append(dots);
    }
    assert(window@ =~= context_window(rest@, at_start));
    window
}

/// Parses a format string into its conversions, or says near which piece of
/// it the grammar is broken.
pub fn parse_format(format: &str) -> (r: Result<Vec<Arg>, PrintSyscallError>)
    ensures
        match r {
            Ok(args) => spec_parse_format(format@) == Ok::<Seq<Arg>, Diagnostic>(args@),
            Err(e) => spec_parse_format(format@) == Err::<Seq<Arg>, Diagnostic>(e@),
        },
{
    proof {
        lemma_arg_list_outcome(format@);
    }
    match arg_list(format) {
        Ok((_, args)) => Ok(args),
        Err(e) => {
            let at_start = e.rest.unicode_len() == format.unicode_len();
            Err(PrintSyscallError::FormatSyntaxError { near: near(e.rest, at_start) })
        },
    }
}

} // verus!
