use ya_runtime_wasi::aswasm;
use ya_runtime_wasi::deploy::{absolute_path, deploy, deploy_path, StartMode};
use ya_runtime_wasi::manifest::{EntryPoint, Manifest, MountPoint};

fn tutorial_manifest() -> Manifest {
    Manifest {
        id: "rust-wasi-tutorial".to_string(),
        name: "rust-wasi-tutorial".to_string(),
        entry_points: vec![EntryPoint {
            id: "rust-wasi-tutorial".to_string(),
            wasm_path: "rust-wasi-tutorial.wasm".to_string(),
        }],
        mount_points: vec![
            MountPoint::Ro("/input".to_string()),
            MountPoint::Rw("/output".to_string()),
        ],
    }
}

#[test]
fn deploy_creates_one_volume_per_mount_point() {
    let manifest = tutorial_manifest();
    let (file, result) = deploy(&manifest, "/tmp/pkg.zip", false).unwrap();

    assert_eq!(file.image_path, "/tmp/pkg.zip");
    assert_eq!(file.vols.len(), 2);
    for (private, vol) in &file.vols {
        assert!(!private);
        assert_eq!(vol.name.len(), 40);
        assert!(vol.name.starts_with("vol-"));
        assert!(vol.path.starts_with("/"));
    }
    assert_eq!(file.vols[0].1.path, "/input");
    assert_eq!(file.vols[1].1.path, "/output");

    assert_eq!(result.valid, Ok(String::new()));
    assert_eq!(result.start_mode, StartMode::Blocking);
    assert_eq!(result.vols.len(), 2);
    assert_eq!(result.vols[0].name, file.vols[0].1.name);
    assert_eq!(result.vols[0].path, "/input");
    assert_eq!(result.vols[1].path, "/output");
}

#[test]
fn deploy_hides_private_volumes() {
    let manifest = Manifest {
        id: "app".to_string(),
        name: "app".to_string(),
        entry_points: vec![],
        mount_points: vec![
            MountPoint::Private("scratch".to_string()),
            MountPoint::Wo("out".to_string()),
        ],
    };
    let (file, result) = deploy(&manifest, "img.zip", false).unwrap();
    assert_eq!(file.vols.len(), 2);
    assert!(file.vols[0].0);
    assert_eq!(file.vols[0].1.path, "/scratch");
    assert_eq!(result.vols.len(), 1);
    assert_eq!(result.vols[0].path, "/out");
}

#[test]
fn deploy_is_not_idempotent() {
    let manifest = tutorial_manifest();
    assert!(deploy(&manifest, "pkg.zip", false).is_ok());
    let second = deploy(&manifest, "pkg.zip", true);
    match second.unwrap_err() {
        ya_runtime_wasi::error::Error::PackageInvalid(_) => {},
        other => panic!("unexpected error: {:?}", other),
    }
}

#[test]
fn deploy_rejects_escaping_mount_point() {
    let manifest = Manifest {
        id: "app".to_string(),
        name: "app".to_string(),
        entry_points: vec![],
        mount_points: vec![MountPoint::Rw("../escape".to_string())],
    };
    let err = deploy(&manifest, "pkg.zip", false).unwrap_err();
    assert!(err.is_path_unsafe());
}

#[test]
fn deploy_file_accessors() {
    let manifest = tutorial_manifest();
    let (file, _) = deploy(&manifest, "pkg.zip", false).unwrap();
    assert_eq!(file.image_path().as_str(), "pkg.zip");
    let all = file.container_vols();
    assert_eq!(all.len(), 2);
    let public = file.public_vols();
    assert_eq!(public.len(), 2);
    assert_eq!(all[0].path, "/input");
}

#[test]
fn paths_and_normalisation() {
    assert_eq!(deploy_path("/work"), "/work/deploy.json");
    assert_eq!(absolute_path("input"), "/input");
    assert_eq!(absolute_path("/input"), "/input");
    assert_eq!(absolute_path(""), "/");
}

#[test]
fn find_entrypoint_names_the_missing_id() {
    let manifest = tutorial_manifest();
    let found = manifest.find_entrypoint("rust-wasi-tutorial").unwrap();
    assert_eq!(found.wasm_path, "rust-wasi-tutorial.wasm");

    let err = manifest.find_entrypoint("nope").unwrap_err();
    match err {
        ya_runtime_wasi::error::Error::ModuleInvalid(msg) => {
            assert_eq!(msg, "Entrypoint nope not found.");
        },
        other => panic!("unexpected error: {:?}", other),
    }
}

fn aswasm_manifest() -> aswasm::Manifest {
    aswasm::Manifest {
        id: "trusted-voting-mgr".to_string(),
        name: "trusted-voting-mgr".to_string(),
        runtime: "aswasm".to_string(),
        entry_points: vec![(
            "init".to_string(),
            aswasm::EntryPoint {
                desc: None,
                args: vec![
                    aswasm::ArgDesc { name: None, arg_type: aswasm::ArgType::Bytes },
                    aswasm::ArgDesc { name: None, arg_type: aswasm::ArgType::I32 },
                ],
                output: aswasm::Output::ExitCode,
            },
        )],
        main: aswasm::MainEntry { wasm_path: "app.wasm".to_string() },
        mount_points: vec![
            aswasm::MountPoint::Rw("/data".to_string()),
            aswasm::MountPoint::Private("tmp".to_string()),
        ],
    }
}

#[test]
fn aswasm_deploy_normalises_volume_paths() {
    let (deployment, result) = aswasm::deploy(aswasm_manifest(), "pkg.ywasi", false).unwrap();
    assert_eq!(deployment.image_path, "pkg.ywasi");
    assert_eq!(deployment.main_entry().wasm_path, "app.wasm");
    assert_eq!(deployment.vols.len(), 2);
    assert_eq!(deployment.vols[0].path, "/data/");
    assert_eq!(deployment.vols[1].path, "/tmp/");
    assert!(deployment.vols[0].name.starts_with("vol-"));

    assert_eq!(result.vols.len(), 1);
    assert_eq!(result.vols[0].path, "/data/");
    assert_eq!(result.start_mode, StartMode::Blocking);
    assert_eq!(result.valid, Ok(String::new()));
}

#[test]
fn aswasm_deploy_fails_when_descriptor_exists() {
    assert!(aswasm::deploy(aswasm_manifest(), "pkg.ywasi", true).is_err());
}

#[test]
fn aswasm_entry_point_lookup() {
    let (deployment, _) = aswasm::deploy(aswasm_manifest(), "pkg.ywasi", false).unwrap();
    let ep = deployment.entry_point("init").unwrap();
    assert_eq!(ep.args.len(), 2);
    assert!(deployment.entry_point("nope").is_none());
    let vols = deployment.vols();
    assert_eq!(vols.len(), 2);
    assert_eq!(vols[0].path, "/data/");
}
