use ptx_support::args::wrap_args;
use ptx_support::args::WrappedArg;
use ptx_support::error::PrintSyscallError;
use ptx_support::parsers::Arg;
use ptx_support::parsers::ArgLength;
use ptx_support::parsers::ArgType;

fn names(wrapped: &[WrappedArg]) -> Vec<String> {
    wrapped.iter().map(|item| item.inner_name.clone()).collect()
}

fn inner_types(wrapped: &[WrappedArg]) -> Vec<String> {
    wrapped.iter().map(|item| item.inner_ty_tokens()).collect()
}

fn ffi_types(wrapped: &[WrappedArg]) -> Vec<String> {
    wrapped.iter().map(|item| item.ffi_ty_tokens()).collect()
}

fn ffi_exprs(wrapped: &[WrappedArg]) -> Vec<String> {
    wrapped.iter().map(|item| item.ffi_expr_tokens()).collect()
}

#[test]
fn test_default_length() {
    let wrapped = wrap_args(
        &[
            Arg(None, None, None, None, ArgType::Literal),
            Arg(None, None, None, None, ArgType::Signed),
            Arg(None, None, None, None, ArgType::Unsigned),
            Arg(None, None, None, None, ArgType::Char),
            Arg(None, None, None, None, ArgType::Double),
            Arg(None, None, None, None, ArgType::StringPointer),
            Arg(None, None, None, None, ArgType::Pointer),
        ],
        &["a", "a", "a", "a", "a", "a"],
    )
    .unwrap();

    assert_eq!(
        names(&wrapped),
        vec![
            "arg_0".to_owned(),
            "arg_1".to_owned(),
            "arg_2".to_owned(),
            "arg_3".to_owned(),
            "arg_4".to_owned(),
            "arg_5".to_owned(),
        ],
    );

    assert_eq!(
        inner_types(&wrapped),
        vec![
            "i32".to_owned(),
            "u32".to_owned(),
            "char".to_owned(),
            "f64".to_owned(),
            "impl AsRef < str >".to_owned(),
            "* const T5".to_owned(),
        ],
    );

    assert_eq!(
        ffi_types(&wrapped),
        vec![
            "i32".to_owned(),
            "u32".to_owned(),
            "i8".to_owned(),
            "f64".to_owned(),
            "* const u8".to_owned(),
            "* const u8".to_owned(),
        ],
    );

    assert_eq!(
        ffi_exprs(&wrapped),
        vec![
            "arg_0".to_owned(),
            "arg_1".to_owned(),
            "arg_2".to_owned(),
            "arg_3".to_owned(),
            "arg_4 . as_ref ( ) . as_ptr ( )".to_owned(),
            "arg_5 as * const _".to_owned(),
        ],
    );
}

#[test]
fn test_different_length() {
    let wrapped = wrap_args(
        &[
            Arg(None, None, None, Some(ArgLength::I8), ArgType::Signed),
            Arg(None, None, None, Some(ArgLength::I8), ArgType::Unsigned),
            Arg(None, None, None, Some(ArgLength::I16), ArgType::Signed),
            Arg(None, None, None, Some(ArgLength::I16), ArgType::Unsigned),
            Arg(None, None, None, Some(ArgLength::I64), ArgType::Signed),
            Arg(None, None, None, Some(ArgLength::I64), ArgType::Unsigned),
        ],
        &["a", "a", "a", "a", "a", "a"],
    )
    .unwrap();

    assert_eq!(
        inner_types(&wrapped),
        vec![
            "i8".to_owned(),
            "u8".to_owned(),
            "i16".to_owned(),
            "u16".to_owned(),
            "i64".to_owned(),
            "u64".to_owned(),
        ],
    );
}

#[test]
fn test_unacceptable_length() {
    assert_eq!(
        wrap_args(
            &[Arg(None, None, None, Some(ArgLength::I8), ArgType::Char)],
            &["a"],
        )
        .unwrap_err(),
        PrintSyscallError::UnacceptableLength {
            for_type: ArgType::Char
        }
    );

    assert_eq!(
        wrap_args(
            &[Arg(None, None, None, Some(ArgLength::I8), ArgType::Double)],
            &["a"],
        )
        .unwrap_err(),
        PrintSyscallError::UnacceptableLength {
            for_type: ArgType::Double
        }
    );

    assert_eq!(
        wrap_args(
            &[Arg(
                None,
                None,
                None,
                Some(ArgLength::I8),
                ArgType::StringPointer
            )],
            &["a"],
        )
        .unwrap_err(),
        PrintSyscallError::UnacceptableLength {
            for_type: ArgType::StringPointer
        }
    );

    assert_eq!(
        wrap_args(
            &[Arg(None, None, None, Some(ArgLength::I8), ArgType::Pointer)],
            &["a"],
        )
        .unwrap_err(),
        PrintSyscallError::UnacceptableLength {
            for_type: ArgType::Pointer
        }
    );
}

#[test]
fn test_extra_or_missing_args() {
    assert_eq!(
        {
            wrap_args(
                &[
                    Arg(None, None, None, None, ArgType::Literal),
                    Arg(None, None, None, None, ArgType::Signed),
                    Arg(None, None, None, None, ArgType::Unsigned),
                ],
                &["a", "a", "a"],
            )
            .unwrap_err()
        },
        PrintSyscallError::WrongArgumentsCount {
            expected: 2,
            got: 3,
        },
    );

    assert_eq!(
        {
            wrap_args(
                &[
                    Arg(None, None, None, None, ArgType::Literal),
                    Arg(None, None, None, None, ArgType::Signed),
                    Arg(None, None, None, None, ArgType::Unsigned),
                ],
                &["a"],
            )
            .unwrap_err()
        },
        PrintSyscallError::WrongArgumentsCount {
            expected: 2,
            got: 1,
        },
    );
}
