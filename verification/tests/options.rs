use ya_runtime_wasi::entrypoint::{parse_bool_flag, parse_mem_size, RuntimeOptions};

#[test]
fn test_options() {
    let max_static_memory = parse_mem_size("250m").unwrap();
    let options = RuntimeOptions::default().with_static_memory(Some(max_static_memory));

    assert_eq!(options.max_static_memory, Some(250 * 0x100_000));
}

#[test]
fn mem_size_scales() {
    assert_eq!(parse_mem_size("1k").unwrap(), 0x400);
    assert_eq!(parse_mem_size("2m").unwrap(), 2 * 0x100_000);
    assert_eq!(parse_mem_size("3g").unwrap(), 3 * 0x40_000_000);
    assert_eq!(parse_mem_size("0k").unwrap(), 0);
}

#[test]
fn mem_size_rejects_malformed_specs() {
    match parse_mem_size("250").unwrap_err() {
        ya_runtime_wasi::error::Error::ConfigInvalid(_) => {},
        other => panic!("unexpected error: {:?}", other),
    }
    assert!(parse_mem_size("m").is_err());
    assert!(parse_mem_size("").is_err());
    assert!(parse_mem_size("12x").is_err());
    assert!(parse_mem_size("1.2g").is_err());
    assert!(parse_mem_size("99999999999999999999g").is_err());
}

#[test]
fn bool_flags() {
    assert_eq!(parse_bool_flag("1").unwrap(), true);
    assert_eq!(parse_bool_flag("yes").unwrap(), true);
    assert_eq!(parse_bool_flag("0").unwrap(), false);
    assert_eq!(parse_bool_flag("no").unwrap(), false);
    assert!(parse_bool_flag("maybe").is_err());
    assert!(parse_bool_flag("").is_err());
}

#[test]
fn options_builders_and_default() {
    let o = RuntimeOptions::default();
    assert!(o.is_default());
    let o = o.with_optimize(true);
    assert!(!o.is_default());
    assert_eq!(o.optimize, Some(true));
    let o = o.with_sgx_profile(false);
    assert_eq!(o.sgx_profile, Some(false));
    assert_eq!(o.optimize, Some(true));
    let o = o.with_static_memory(None);
    assert_eq!(o.max_static_memory, None);
}
