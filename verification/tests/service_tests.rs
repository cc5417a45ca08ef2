use ya_runtime_wasi::aswasm::{ArgDesc, ArgType, EntryPoint, Output};
use ya_runtime_wasi::guestmem::write_object;
use ya_runtime_wasi::service::{
    convert_arg, convert_args, output_exit_code, output_text, parse_i32, terminal_status,
    GuestArg,
};

#[test]
fn i32_parsing() {
    assert_eq!(parse_i32("0").unwrap(), 0);
    assert_eq!(parse_i32("42").unwrap(), 42);
    assert_eq!(parse_i32("-42").unwrap(), -42);
    assert_eq!(parse_i32("+7").unwrap(), 7);
    assert_eq!(parse_i32("2147483647").unwrap(), i32::MAX);
    assert_eq!(parse_i32("-2147483648").unwrap(), i32::MIN);
    assert!(parse_i32("2147483648").is_err());
    assert!(parse_i32("-2147483649").is_err());
    assert!(parse_i32("abc").is_err());
    assert!(parse_i32("").is_err());
    assert!(parse_i32("-").is_err());
    assert!(parse_i32("1 2").is_err());
}

#[test]
fn argument_conversion_per_descriptor() {
    let text = ArgDesc { name: None, arg_type: ArgType::Text };
    let bytes = ArgDesc { name: None, arg_type: ArgType::Bytes };
    let number = ArgDesc { name: None, arg_type: ArgType::I32 };

    match convert_arg(&text, "hello").unwrap() {
        GuestArg::Text(s) => assert_eq!(s, "hello"),
        other => panic!("unexpected conversion: {:?}", other),
    }
    match convert_arg(&bytes, "aea5db67524e02a263b9339fe6667d6b577f3d4c").unwrap() {
        GuestArg::Bytes(b) => {
            assert_eq!(b.len(), 20);
            assert_eq!(b[0], 0xae);
            assert_eq!(b[19], 0x4c);
        },
        other => panic!("unexpected conversion: {:?}", other),
    }
    match convert_arg(&number, "1").unwrap() {
        GuestArg::I32(v) => assert_eq!(v, 1),
        other => panic!("unexpected conversion: {:?}", other),
    }
    assert!(convert_arg(&bytes, "xyz").is_err());
    assert!(convert_arg(&number, "one").is_err());
}

#[test]
fn arguments_zip_with_descriptors() {
    let ep = EntryPoint {
        desc: None,
        args: vec![
            ArgDesc { name: None, arg_type: ArgType::Bytes },
            ArgDesc { name: None, arg_type: ArgType::I32 },
        ],
        output: Output::ExitCode,
    };
    let args = vec!["aea5db67524e02a263b9339fe6667d6b577f3d4c".to_string(), "1".to_string()];
    let converted = convert_args(&ep, &args).unwrap();
    assert_eq!(converted.len(), 2);

    let extra = vec!["00".to_string(), "2".to_string(), "ignored".to_string()];
    assert_eq!(convert_args(&ep, &extra).unwrap().len(), 2);

    let short = vec!["00".to_string()];
    assert_eq!(convert_args(&ep, &short).unwrap().len(), 1);

    let bad = vec!["zz".to_string(), "1".to_string()];
    assert!(convert_args(&ep, &bad).is_err());
}

#[test]
fn output_mapping() {
    assert_eq!(output_exit_code(&Output::ExitCode, 7), 7);
    assert_eq!(output_exit_code(&Output::Void, 7), 0);
    assert_eq!(output_exit_code(&Output::Bytes, 7), 0);
    assert_eq!(output_exit_code(&Output::Text, 7), 0);

    let mut mem = vec![0u8; 64];
    mem[12..16].copy_from_slice(&3u32.to_le_bytes());
    write_object(&mut mem, 16, &[0xca, 0xfe, 0x01]).unwrap();

    assert_eq!(output_text(&mem, &Output::ExitCode, 16).unwrap(), None);
    assert_eq!(output_text(&mem, &Output::Void, 0).unwrap(), None);
    assert_eq!(
        output_text(&mem, &Output::Bytes, 16).unwrap(),
        Some("cafe01".to_string())
    );
    assert!(output_text(&mem, &Output::Bytes, 2).is_err());
}

#[test]
fn terminal_statuses() {
    let ok = terminal_status(4, Ok(0));
    assert_eq!(ok.pid, 4);
    assert!(!ok.running);
    assert_eq!(ok.return_code, 0);
    assert!(ok.stdout.is_empty());
    assert!(ok.stderr.is_empty());

    let failed = terminal_status(5, Err("unknown entrypoint: nope".to_string()));
    assert_eq!(failed.return_code, 1);
    assert_eq!(failed.stderr, b"Fatal: unknown entrypoint: nope".to_vec());
}
