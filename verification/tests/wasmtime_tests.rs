use ya_runtime_wasi::cli::{entrypoint, Action, CmdArgs, Commands, RuntimeKind};
use ya_runtime_wasi::deploy::{deploy, ContainerVolume};
use ya_runtime_wasi::manifest::{EntryPoint, Manifest, MountPoint};
use ya_runtime_wasi::wasmtime_unit::{
    compute_args, compute_mounts, exit_code_for_trap, ModuleRegistry,
};

#[test]
fn argv_starts_with_the_module_path() {
    let ep = EntryPoint {
        id: "rust-wasi-tutorial".to_string(),
        wasm_path: "rust-wasi-tutorial.wasm".to_string(),
    };
    let args = vec!["/input/in".to_string(), "/output/out".to_string()];
    let argv = compute_args(&args, &ep);
    assert_eq!(
        argv,
        vec![
            "rust-wasi-tutorial.wasm".to_string(),
            "/input/in".to_string(),
            "/output/out".to_string(),
        ]
    );
}

#[test]
fn mounts_map_volumes_under_the_workdir() {
    let manifest = Manifest {
        id: "t".to_string(),
        name: "t".to_string(),
        entry_points: vec![],
        mount_points: vec![
            MountPoint::Ro("/input".to_string()),
            MountPoint::Rw("/output".to_string()),
        ],
    };
    let (file, _) = deploy(&manifest, "pkg.zip", false).unwrap();
    let vols = file.container_vols();
    let mounts = compute_mounts("/work", &vols).unwrap();
    assert_eq!(mounts.len(), 2);
    assert_eq!(mounts[0].guest, "/input");
    assert_eq!(mounts[0].host, format!("/work/{}", vols[0].name));
    assert_eq!(mounts[1].guest, "/output");
}

#[test]
fn mounts_reject_escaping_guest_paths() {
    let vols = vec![ContainerVolume { name: "vol-x".to_string(), path: "/a/../b".to_string() }];
    assert!(compute_mounts("/work", &vols).is_err());
}

#[test]
fn trap_exit_codes() {
    assert_eq!(exit_code_for_trap(Some(0), false), 0);
    assert_eq!(exit_code_for_trap(Some(7), false), 7);
    assert_eq!(exit_code_for_trap(Some(2), true), 2);
    assert_eq!(exit_code_for_trap(Some(3), true), 1);
    assert_eq!(exit_code_for_trap(Some(200), true), 1);
    assert_eq!(exit_code_for_trap(None, true), 3);
    assert_eq!(exit_code_for_trap(None, false), 134);
}

#[test]
fn duplicate_modules_are_fatal() {
    let mut registry = ModuleRegistry::new();
    registry.register("main").unwrap();
    registry.register("other").unwrap();
    let err = registry.register("main").unwrap_err();
    match err {
        ya_runtime_wasi::error::Error::ModuleInvalid(_) => {},
        other => panic!("unexpected error: {:?}", other),
    }
}

fn run_cmdline() -> CmdArgs {
    CmdArgs {
        workdir: Some("/work".to_string()),
        task_package: Some("pkg.zip".to_string()),
        debug: false,
        command: Commands::Run {
            entrypoint: "hello".to_string(),
            args: vec!["a".to_string(), "b".to_string()],
        },
    }
}

#[test]
fn dispatch_decides_per_command_and_engine() {
    let deploy_cmd = CmdArgs {
        workdir: Some("/work".to_string()),
        task_package: Some("pkg.zip".to_string()),
        debug: false,
        command: Commands::Deploy,
    };
    match entrypoint(&deploy_cmd, RuntimeKind::Wasi).unwrap() {
        Action::Deploy { workdir, task_package, kind } => {
            assert_eq!(workdir, "/work");
            assert_eq!(task_package, "pkg.zip");
            assert_eq!(kind, RuntimeKind::Wasi);
        },
        other => panic!("unexpected action: {:?}", other),
    }

    match entrypoint(&run_cmdline(), RuntimeKind::Wasi).unwrap() {
        Action::Run { workdir, entrypoint: e, args } => {
            assert_eq!(workdir, "/work");
            assert_eq!(e, "hello");
            assert_eq!(args, vec!["a".to_string(), "b".to_string()]);
        },
        other => panic!("unexpected action: {:?}", other),
    }
}

#[test]
fn run_is_refused_for_the_blocking_engine() {
    assert!(entrypoint(&run_cmdline(), RuntimeKind::Aswasm).is_err());
}

#[test]
fn missing_arguments_are_refused() {
    let cmd = CmdArgs {
        workdir: None,
        task_package: Some("pkg.zip".to_string()),
        debug: false,
        command: Commands::Deploy,
    };
    assert!(entrypoint(&cmd, RuntimeKind::Wasi).is_err());
    assert!(cmd.workdir().is_err());
    assert_eq!(cmd.task_package().unwrap(), "pkg.zip");

    let test_cmd = CmdArgs { workdir: None, task_package: None, debug: false, command: Commands::Test };
    match entrypoint(&test_cmd, RuntimeKind::Wasi).unwrap() {
        Action::Test => {},
        other => panic!("unexpected action: {:?}", other),
    }
}
