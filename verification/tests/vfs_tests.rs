use ya_runtime_wasi::deploy::ContainerVolume;
use ya_runtime_wasi::vfs::{FdState, VolumeTable};

#[test]
fn issued_fds_start_at_256_and_never_repeat() {
    let mut fds = FdState::new();
    let mut seen = std::collections::HashSet::new();
    for _ in 0..512 {
        let fd = fds.add_fd();
        assert!(fd >= 256);
        assert!(seen.insert(fd), "duplicate fd issued: {}", fd);
    }
}

#[test]
fn removed_fds_can_be_reissued() {
    let mut fds = FdState::new();
    let a = fds.add_fd();
    let b = fds.add_fd();
    assert_ne!(a, b);
    assert!(fds.contains_fd(a));
    assert!(fds.remove_fd(a));
    assert!(!fds.contains_fd(a));
    assert!(!fds.remove_fd(a));
    assert!(fds.contains_fd(b));
}

#[test]
fn table_overflows_at_4096() {
    let mut fds = FdState::new();
    for _ in 0..4097 {
        assert!(fds.add_fd() >= 256);
    }
    assert_eq!(fds.add_fd(), -1);
    let some_fd = 256;
    assert!(fds.remove_fd(some_fd));
    assert!(fds.add_fd() >= 256);
}

fn table() -> VolumeTable {
    VolumeTable {
        base_dir: "/work".to_string(),
        vols: vec![
            ContainerVolume { name: "vol-a".to_string(), path: "/input/".to_string() },
            ContainerVolume { name: "vol-b".to_string(), path: "/output/".to_string() },
        ],
    }
}

#[test]
fn find_path_resolves_under_the_matching_volume() {
    let t = table();
    assert_eq!(
        t.find_path("/input/in").unwrap(),
        Some("/work/vol-a/in".to_string())
    );
    assert_eq!(
        t.find_path("/output/nested/out").unwrap(),
        Some("/work/vol-b/nested/out".to_string())
    );
    assert_eq!(t.find_path("/input/").unwrap(), Some("/work/vol-a/".to_string()));
}

#[test]
fn find_path_returns_none_without_a_match() {
    let t = table();
    assert_eq!(t.find_path("/elsewhere/x").unwrap(), None);
    assert_eq!(t.find_path("input/in").unwrap(), None);
}

#[test]
fn find_path_rejects_dots_and_colons() {
    let t = table();
    assert!(t.find_path("/input/a.b").is_err());
    assert!(t.find_path("/input/../output/x").is_err());
    assert!(t.find_path("C:/input").is_err());
}
