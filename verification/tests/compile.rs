use ptx_support::args::arg_generics;
use ptx_support::args::ffi_types;
use ptx_support::args::native_type;
use ptx_support::args::wrap_arg;
use ptx_support::args::wrap_args;
use ptx_support::args::MarshalRule;
use ptx_support::args::NativeType;
use ptx_support::args::SourceType;
use ptx_support::args::WrappedArg;
use ptx_support::cuda_printf;
use ptx_support::error::PrintSyscallError;
use ptx_support::panic_handler::location_or_unknown;
use ptx_support::panic_handler::PANIC_FORMAT;
use ptx_support::parsers::parse_format;
use ptx_support::parsers::Arg;
use ptx_support::parsers::ArgFlag;
use ptx_support::parsers::ArgLength;
use ptx_support::parsers::ArgPrecision;
use ptx_support::parsers::ArgType;
use ptx_support::parsers::ArgWidth;

fn compiled(format: &str, supplied: usize) -> Vec<WrappedArg> {
    cuda_printf(format, &vec![(); supplied]).unwrap()
}

fn rejected(format: &str, supplied: usize) -> PrintSyscallError {
    cuda_printf(format, &vec![(); supplied]).unwrap_err()
}

fn native_types(format: &str, supplied: usize) -> Vec<NativeType> {
    ffi_types(&compiled(format, supplied))
}

fn kind_of(source: SourceType) -> ArgType {
    match source {
        SourceType::I8 | SourceType::I16 | SourceType::I32 | SourceType::I64 => ArgType::Signed,
        SourceType::U8 | SourceType::U16 | SourceType::U32 | SourceType::U64 => ArgType::Unsigned,
        SourceType::Char => ArgType::Char,
        SourceType::F64 => ArgType::Double,
        SourceType::Str => ArgType::StringPointer,
        SourceType::RawPointer => ArgType::Pointer,
    }
}

#[test]
fn default_lengths_resolve_to_the_default_column() {
    assert_eq!(
        native_types("%d %i %u %x %X %o %c %f %F %e %E %g %G %a %A %s %p", 17),
        vec![
            NativeType::I32,
            NativeType::I32,
            NativeType::U32,
            NativeType::U32,
            NativeType::U32,
            NativeType::U32,
            NativeType::I8,
            NativeType::F64,
            NativeType::F64,
            NativeType::F64,
            NativeType::F64,
            NativeType::F64,
            NativeType::F64,
            NativeType::F64,
            NativeType::F64,
            NativeType::BytePointer,
            NativeType::BytePointer,
        ]
    );
}

#[test]
fn flags_width_and_precision_do_not_change_types() {
    assert_eq!(
        native_types("%-5.2d|%+*u|%#.*x|%08.3f|%-10s", 5),
        native_types("%d%u%x%f%s", 5)
    );
    assert_eq!(
        native_type(&Arg(
            Some(ArgFlag),
            Some(ArgWidth),
            Some(ArgPrecision),
            Some(ArgLength::I16),
            ArgType::Unsigned
        )),
        Ok(NativeType::U16)
    );
}

#[test]
fn length_modifiers_select_integer_widths() {
    assert_eq!(native_types("%hhd", 1), vec![NativeType::I8]);
    assert_eq!(native_types("%hd", 1), vec![NativeType::I16]);
    assert_eq!(native_types("%ld", 1), vec![NativeType::I64]);
    assert_eq!(native_types("%hhi", 1), vec![NativeType::I8]);
    assert_eq!(native_types("%hhu", 1), vec![NativeType::U8]);
    assert_eq!(native_types("%hu", 1), vec![NativeType::U16]);
    assert_eq!(native_types("%lu", 1), vec![NativeType::U64]);
    assert_eq!(native_types("%hhx", 1), vec![NativeType::U8]);
    assert_eq!(native_types("%hX", 1), vec![NativeType::U16]);
    assert_eq!(native_types("%lo", 1), vec![NativeType::U64]);
}

#[test]
fn length_modifier_on_other_types_is_refused() {
    let cases = [
        ("%hhc", ArgType::Char),
        ("%hhf", ArgType::Double),
        ("%hhs", ArgType::StringPointer),
        ("%hhp", ArgType::Pointer),
        ("%hc", ArgType::Char),
        ("%lf", ArgType::Double),
        ("%ls", ArgType::StringPointer),
        ("%lp", ArgType::Pointer),
        ("%hE", ArgType::Double),
    ];
    for (format, for_type) in cases {
        assert_eq!(
            rejected(format, 1),
            PrintSyscallError::UnacceptableLength { for_type },
            "{}",
            format
        );
    }
}

#[test]
fn first_refused_conversion_is_reported() {
    assert_eq!(
        rejected("%d %ls %hf", 3),
        PrintSyscallError::UnacceptableLength {
            for_type: ArgType::StringPointer
        }
    );
    assert_eq!(
        rejected("%hf %ls", 2),
        PrintSyscallError::UnacceptableLength {
            for_type: ArgType::Double
        }
    );
}

#[test]
fn count_is_checked_before_lengths() {
    assert_eq!(
        rejected("%hhc", 0),
        PrintSyscallError::WrongArgumentsCount {
            expected: 1,
            got: 0
        }
    );
    assert_eq!(
        rejected("%hhc %d", 3),
        PrintSyscallError::WrongArgumentsCount {
            expected: 2,
            got: 3
        }
    );
}

#[test]
fn syntax_is_checked_before_count() {
    assert_eq!(
        rejected("%d %", 7),
        PrintSyscallError::FormatSyntaxError {
            near: "...%".to_owned()
        }
    );
}

#[test]
fn percent_escape_takes_no_argument() {
    assert_eq!(
        parse_format("%%"),
        Ok(vec![Arg(None, None, None, None, ArgType::Literal)])
    );
    assert!(compiled("%%", 0).is_empty());
    assert_eq!(
        rejected("%%", 1),
        PrintSyscallError::WrongArgumentsCount {
            expected: 0,
            got: 1
        }
    );

    let wrapped = compiled("%d%%", 1);
    assert_eq!(wrapped.len(), 1);
    assert_eq!(wrapped[0].ffi_ty, NativeType::I32);
    assert_eq!(wrapped[0].inner_name, "arg_0");

    assert_eq!(
        native_types("100%% of %u, %l% and %s", 2),
        vec![NativeType::U32, NativeType::BytePointer]
    );
}

#[test]
fn percent_escape_does_not_shift_names() {
    let wrapped = compiled("%%%p%%%p", 2);
    assert_eq!(wrapped[0].inner_name, "arg_0");
    assert_eq!(wrapped[0].inner_generic, Some("T0".to_owned()));
    assert_eq!(wrapped[1].inner_name, "arg_1");
    assert_eq!(wrapped[1].inner_generic, Some("T1".to_owned()));
}

#[test]
fn arity_mismatch_is_reported() {
    assert_eq!(
        rejected("%d %u", 3),
        PrintSyscallError::WrongArgumentsCount {
            expected: 2,
            got: 3
        }
    );
    assert_eq!(
        rejected("%d %u", 1),
        PrintSyscallError::WrongArgumentsCount {
            expected: 2,
            got: 1
        }
    );
    assert_eq!(
        rejected("no conversions", 2),
        PrintSyscallError::WrongArgumentsCount {
            expected: 0,
            got: 2
        }
    );
}

#[test]
fn dynamic_width_and_precision_take_no_argument() {
    let wrapped = compiled("%*d %.*f %*.*s", 3);
    assert_eq!(
        ffi_types(&wrapped),
        vec![NativeType::I32, NativeType::F64, NativeType::BytePointer]
    );
    assert_eq!(
        rejected("%*d", 2),
        PrintSyscallError::WrongArgumentsCount {
            expected: 1,
            got: 2
        }
    );
}

#[test]
fn one_argument_per_consuming_conversion() {
    for (format, expected) in [
        ("", 0usize),
        ("plain", 0),
        ("%%", 0),
        ("%d", 1),
        ("%d%%%s", 2),
        ("%c%c%c%%%c", 4),
        ("a%ldb%hhuc%pd", 3),
    ] {
        let parsed = parse_format(format).unwrap();
        let consuming = parsed
            .iter()
            .filter(|arg| arg.4 != ArgType::Literal)
            .count();
        assert_eq!(consuming, expected, "{}", format);
        assert_eq!(compiled(format, expected).len(), expected, "{}", format);
    }
}

#[test]
fn kinds_are_recovered_from_the_arguments() {
    let format = "%d %hhu %c %f %s %p %% %li %hx %G";
    let parsed = parse_format(format).unwrap();
    let kinds: Vec<ArgType> = parsed
        .iter()
        .map(|arg| arg.4)
        .filter(|ty| *ty != ArgType::Literal)
        .collect();
    let wrapped = compiled(format, kinds.len());
    let recovered: Vec<ArgType> = wrapped.iter().map(|item| kind_of(item.inner_ty)).collect();
    assert_eq!(recovered, kinds);
    assert_eq!(
        kinds,
        vec![
            ArgType::Signed,
            ArgType::Unsigned,
            ArgType::Char,
            ArgType::Double,
            ArgType::StringPointer,
            ArgType::Pointer,
            ArgType::Signed,
            ArgType::Unsigned,
            ArgType::Double,
        ]
    );
}

#[test]
fn character_and_pointer_are_packed_like_their_neighbours() {
    assert_eq!(native_types("%c", 1), native_types("%hhd", 1));
    assert_eq!(native_types("%p", 1), native_types("%s", 1));
    let wrapped = compiled("%c%hhd%p%s", 4);
    assert_eq!(wrapped[0].inner_ty, SourceType::Char);
    assert_eq!(wrapped[1].inner_ty, SourceType::I8);
    assert_eq!(wrapped[2].inner_ty, SourceType::RawPointer);
    assert_eq!(wrapped[3].inner_ty, SourceType::Str);
}

#[test]
fn marshal_rules() {
    let wrapped = compiled("%d%c%f%s%p", 5);
    let rules: Vec<MarshalRule> = wrapped.iter().map(|item| item.ffi_expr).collect();
    assert_eq!(
        rules,
        vec![
            MarshalRule::Identity,
            MarshalRule::Identity,
            MarshalRule::Identity,
            MarshalRule::PointerExtraction,
            MarshalRule::PointerCast,
        ]
    );
}

#[test]
fn generics_are_those_of_the_pointers_in_order() {
    let wrapped = compiled("%p %d %p %s %p", 5);
    assert_eq!(
        arg_generics(&wrapped),
        vec!["T0".to_owned(), "T2".to_owned(), "T4".to_owned()]
    );
    assert!(arg_generics(&compiled("%d %s", 2)).is_empty());
    assert!(arg_generics(&[]).is_empty());
}

#[test]
fn aggregate_keeps_the_order_of_the_arguments() {
    assert_eq!(
        native_types("%lu%hhd%s%hd%f", 5),
        vec![
            NativeType::U64,
            NativeType::I8,
            NativeType::BytePointer,
            NativeType::I16,
            NativeType::F64,
        ]
    );
    assert!(ffi_types(&[]).is_empty());
}

#[test]
fn names_count_in_decimal() {
    let format = "%d".repeat(123);
    let wrapped = compiled(&format, 123);
    for (index, item) in wrapped.iter().enumerate() {
        assert_eq!(item.inner_name, format!("arg_{}", index));
        assert_eq!(item.ffi_expr_tokens(), format!("arg_{}", index));
    }
    let mut names: Vec<&String> = wrapped.iter().map(|item| &item.inner_name).collect();
    names.sort();
    names.dedup();
    assert_eq!(names.len(), 123);
}

#[test]
fn wrap_arg_at_large_positions() {
    let pointer = wrap_arg(&Arg(None, None, None, None, ArgType::Pointer), 1090).unwrap();
    assert_eq!(pointer.inner_name, "arg_1090");
    assert_eq!(pointer.inner_generic, Some("T1090".to_owned()));
    assert_eq!(pointer.inner_ty_tokens(), "* const T1090");
    assert_eq!(pointer.ffi_ty_tokens(), "* const u8");
    assert_eq!(pointer.ffi_expr_tokens(), "arg_1090 as * const _");

    let last = wrap_arg(&Arg(None, None, None, None, ArgType::StringPointer), usize::MAX).unwrap();
    assert_eq!(last.inner_name, format!("arg_{}", usize::MAX));
    assert_eq!(last.inner_generic, None);
    assert_eq!(
        last.ffi_expr_tokens(),
        format!("arg_{} . as_ref ( ) . as_ptr ( )", usize::MAX)
    );

    assert_eq!(
        wrap_arg(&Arg(None, None, None, Some(ArgLength::I64), ArgType::Char), 3).unwrap_err(),
        PrintSyscallError::UnacceptableLength {
            for_type: ArgType::Char
        }
    );
}

#[test]
fn tokens_of_every_native_type() {
    let all = [
        (NativeType::I8, "i8"),
        (NativeType::I16, "i16"),
        (NativeType::I32, "i32"),
        (NativeType::I64, "i64"),
        (NativeType::U8, "u8"),
        (NativeType::U16, "u16"),
        (NativeType::U32, "u32"),
        (NativeType::U64, "u64"),
        (NativeType::F64, "f64"),
        (NativeType::BytePointer, "* const u8"),
    ];
    for (native, text) in all {
        assert_eq!(native.tokens(), text);
    }
}

#[test]
fn tokens_of_a_pointer_without_a_named_parameter() {
    let item = WrappedArg {
        inner_name: "value".to_owned(),
        inner_ty: SourceType::RawPointer,
        inner_generic: None,
        ffi_ty: NativeType::BytePointer,
        ffi_expr: MarshalRule::PointerCast,
    };
    assert_eq!(item.inner_ty_tokens(), "* const _");
    assert_eq!(item.ffi_expr_tokens(), "value as * const _");
}

#[test]
fn only_the_number_of_arguments_counts() {
    let by_text = wrap_args(
        &[Arg(None, None, None, None, ArgType::Signed)],
        &["anything at all"],
    )
    .unwrap();
    let by_number = wrap_args(&[Arg(None, None, None, None, ArgType::Signed)], &[42u8]).unwrap();
    assert_eq!(by_text[0].inner_name, by_number[0].inner_name);
    assert_eq!(by_text[0].ffi_ty, by_number[0].ffi_ty);
}

#[test]
fn panic_report_compiles() {
    let wrapped = compiled(PANIC_FORMAT, 8);
    assert_eq!(
        ffi_types(&wrapped),
        vec![
            NativeType::BytePointer,
            NativeType::U32,
            NativeType::U64,
            NativeType::U64,
            NativeType::U64,
            NativeType::U64,
            NativeType::U64,
            NativeType::U64,
        ]
    );
    assert_eq!(wrapped[0].inner_ty, SourceType::Str);
    assert!(arg_generics(&wrapped).is_empty());
}

#[test]
fn panic_location_defaults() {
    assert_eq!(
        location_or_unknown(Some(("kernel.rs", 17))),
        ("kernel.rs", 17)
    );
    assert_eq!(location_or_unknown(None), ("unknown", 0));
}
