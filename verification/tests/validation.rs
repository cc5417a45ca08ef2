use ya_runtime_wasi::cli;
use ya_runtime_wasi::entrypoint;

#[test]
fn test_mount_path_validation() {
    assert_eq!(cli::validate_mount_path("/path/path").is_err(), true);
    assert_eq!(cli::validate_mount_path("path/path/path").is_err(), false);
    assert_eq!(cli::validate_mount_path("path/../path").is_err(), true);
    assert_eq!(cli::validate_mount_path("./path/../path").is_err(), true);
    assert_eq!(cli::validate_mount_path("./path/path").is_err(), true);
}

#[test]
fn entrypoint_test_mount_path_validation() {
    assert_eq!(entrypoint::validate_mount_path("path/path/path").is_err(), false);
    assert_eq!(entrypoint::validate_mount_path("path/../path").is_err(), true);
    assert_eq!(entrypoint::validate_mount_path("./path/../path").is_err(), true);
    assert_eq!(entrypoint::validate_mount_path("./path/path").is_err(), true);
}

#[test]
fn guest_validator_accepts_absolute_paths() {
    assert!(entrypoint::validate_mount_path("/input").is_ok());
    assert!(entrypoint::validate_mount_path("/input/nested/dir").is_ok());
    assert!(entrypoint::validate_mount_path("").is_ok());
}

#[test]
fn validators_reject_drive_like_paths() {
    let err = entrypoint::validate_mount_path("C:/data").unwrap_err();
    assert!(err.is_path_unsafe());
    assert!(cli::validate_mount_path("C:/data").is_err());
}

#[test]
fn validator_rejects_trailing_dot_segments() {
    assert!(entrypoint::validate_mount_path("path/.").is_err());
    assert!(entrypoint::validate_mount_path("path/..").is_err());
    assert!(entrypoint::validate_mount_path("..").is_err());
    assert!(entrypoint::validate_mount_path(".").is_err());
}

#[test]
fn validator_allows_inner_dots_in_names() {
    assert!(entrypoint::validate_mount_path("dir/file.txt").is_ok());
    assert!(entrypoint::validate_mount_path("a.b/c.d").is_ok());
    assert!(entrypoint::validate_mount_path("...").is_ok());
}

#[test]
fn log_path_shortens_under_workdir() {
    assert_eq!(entrypoint::get_log_path("/work", "/work/pkg.zip"), "pkg.zip");
    assert_eq!(entrypoint::get_log_path("/work", "/work"), "");
    assert_eq!(entrypoint::get_log_path("/work", "/other/pkg.zip"), "pkg.zip");
    assert_eq!(entrypoint::get_log_path("/work", "bare"), "bare");
}
