use cargo_nx::args::{is_supported_edition, CargoNxBuild, PackageKind, DEFAULT_EDITION, DEFAULT_PACKAGE_TYPE};
use cargo_nx::driver::{build_banner, compiler_args, exit_code, target_search_path, target_triple, DEFAULT_TARGET_TRIPLE, FAILURE_EXIT_CODE};
use cargo_nx::events::{dispatch, handle_line, is_qualifying, plan_nro, plan_nsp, Action, BuildError, BuildEvent, NpdmSource};
use cargo_nx::resolve::{resolve, select_package, ConfigError, NroSpec, NspSpec, PackageEntry, PackagingDirective};

fn entry(name: &str, nro: Option<NroSpec>, nsp: Option<NspSpec>) -> PackageEntry {
    PackageEntry { name: name.to_string(), manifest_dir: format!("/work/{}", name), nro, nsp }
}

fn nro(romfs: Option<&str>, icon: Option<&str>) -> NroSpec {
    NroSpec { romfs: romfs.map(|s| s.to_string()), icon: icon.map(|s| s.to_string()) }
}

fn nsp(npdm_json: Option<&str>, has_npdm: bool) -> NspSpec {
    NspSpec { npdm_json: npdm_json.map(|s| s.to_string()), has_npdm }
}

fn build_args(release: bool, target: Option<&str>, package: Option<&str>) -> CargoNxBuild {
    CargoNxBuild {
        release,
        path: ".".to_string(),
        target: target.map(|s| s.to_string()),
        package: package.map(|s| s.to_string()),
        verbose: false,
    }
}

const TARGET_JSON: &str = r#"{"name":"app","kind":["bin"],"crate_types":["bin"],"src_path":"/work/app/src/main.rs"}"#;

fn artifact_line(kind: &str, filename: &str) -> String {
    format!(
        r#"{{"reason":"compiler-artifact","package_id":"app 0.1.0","manifest_path":"/work/app/Cargo.toml","target":{{"name":"app","kind":["{}"],"crate_types":["{}"],"src_path":"/work/app/src/main.rs"}},"profile":{{"opt_level":"0","debuginfo":2,"debug_assertions":true,"overflow_checks":true,"test":false}},"features":[],"filenames":["{}"],"executable":null,"fresh":false}}"#,
        kind, kind, filename
    )
}

fn diagnostic_line(rendered: Option<&str>) -> String {
    let rendered = match rendered {
        Some(r) => format!("\"{}\"", r),
        None => "null".to_string(),
    };
    format!(
        r#"{{"reason":"compiler-message","package_id":"app 0.1.0","target":{},"message":{{"message":"unused variable","code":null,"level":"warning","spans":[],"children":[],"rendered":{}}}}}"#,
        TARGET_JSON, rendered
    )
}

#[test]
fn package_kind_names() {
    assert_eq!(PackageKind::Lib.name(), "lib");
    assert_eq!(PackageKind::Nro.to_string(), "nro");
    assert_eq!(PackageKind::Nsp.to_string(), "nsp");
    assert_eq!(PackageKind::from_name("nsp"), Some(PackageKind::Nsp));
    assert_eq!(PackageKind::from_name(DEFAULT_PACKAGE_TYPE), Some(PackageKind::Nro));
    assert_eq!(PackageKind::from_name("exe"), None);
}

#[test]
fn editions() {
    assert!(is_supported_edition("2015"));
    assert!(is_supported_edition("2018"));
    assert!(is_supported_edition(DEFAULT_EDITION));
    assert!(!is_supported_edition("2024"));
    assert!(!is_supported_edition(""));
}

#[test]
fn select_requested_package() {
    let pkgs = vec![entry("a", None, None), entry("b", None, None), entry("b", None, None)];
    assert_eq!(select_package(&pkgs, &Some("b".to_string())), Ok(1));
    assert_eq!(select_package(&pkgs, &Some("c".to_string())), Err(ConfigError::PackageNotFound));
}

#[test]
fn select_without_request() {
    assert_eq!(select_package(&vec![entry("a", None, None)], &None), Ok(0));
    assert_eq!(select_package(&vec![], &None), Err(ConfigError::NoPackage));
    let two = vec![entry("a", None, None), entry("b", None, None)];
    assert_eq!(select_package(&two, &None), Err(ConfigError::AmbiguousPackage));
}

#[test]
fn resolve_several_packages_without_selector_fails() {
    let pkgs = vec![entry("a", Some(nro(None, None)), None), entry("b", None, None)];
    assert!(matches!(resolve(pkgs, &None), Err(ConfigError::AmbiguousPackage)));
}

#[test]
fn resolve_conflicting_formats_fails() {
    let pkgs = vec![entry("a", Some(nro(None, None)), Some(nsp(None, true)))];
    assert!(matches!(resolve(pkgs, &None), Err(ConfigError::ConflictingFormats)));
    let pkgs = vec![entry("a", None, None), entry("b", Some(nro(None, None)), Some(nsp(None, true)))];
    assert!(matches!(resolve(pkgs, &Some("b".to_string())), Err(ConfigError::ConflictingFormats)));
}

#[test]
fn resolve_reads_directive() {
    let pkgs = vec![entry("a", None, None), entry("b", None, Some(nsp(Some("npdm.json"), false)))];
    let sel = resolve(pkgs, &Some("b".to_string())).unwrap();
    assert_eq!(sel.index, 1);
    assert_eq!(sel.manifest_dir, "/work/b");
    match sel.directive {
        PackagingDirective::Nsp(s) => assert_eq!(s.npdm_json.as_deref(), Some("npdm.json")),
        _ => panic!("expected an NSP directive"),
    }
    let sel = resolve(vec![entry("a", None, None)], &None).unwrap();
    assert!(sel.directive.is_plain());
    assert!(matches!(resolve(vec![entry("a", None, None)], &Some("z".to_string())), Err(ConfigError::PackageNotFound)));
}

#[test]
fn compiler_command_line() {
    assert_eq!(
        compiler_args(&build_args(false, None, None)),
        vec![
            "build".to_string(),
            "--target=aarch64-nintendo-switch-freestanding".to_string(),
            "--message-format=json-diagnostic-rendered-ansi".to_string(),
        ]
    );
    assert_eq!(
        compiler_args(&build_args(true, Some("aarch64-custom"), Some("app"))),
        vec![
            "build".to_string(),
            "--target=aarch64-custom".to_string(),
            "--message-format=json-diagnostic-rendered-ansi".to_string(),
            "--release".to_string(),
            "--package".to_string(),
            "app".to_string(),
        ]
    );
    assert_eq!(target_triple(&build_args(false, None, None)), DEFAULT_TARGET_TRIPLE);
}

#[test]
fn target_path_prefers_environment() {
    assert_eq!(target_search_path(Some("/targets".to_string()), "/work".to_string()), "/targets");
    assert_eq!(target_search_path(None, "/work".to_string()), "/work");
}

#[test]
fn exit_code_follows_compiler() {
    assert_eq!(exit_code(Some(0)), 0);
    assert_eq!(exit_code(Some(101)), 101);
    assert_eq!(exit_code(None), FAILURE_EXIT_CODE);
    assert_eq!(FAILURE_EXIT_CODE, 1);
}

#[test]
fn banners() {
    assert_eq!(build_banner(&PackagingDirective::Plain), "Building...");
    assert_eq!(build_banner(&PackagingDirective::Nro(nro(None, None))), "Building and generating NRO...");
    assert_eq!(build_banner(&PackagingDirective::Nsp(nsp(None, true))), "Building and generating NSP...");
}

#[test]
fn qualifying_kinds() {
    assert!(is_qualifying(&vec!["bin".to_string()]));
    assert!(is_qualifying(&vec!["lib".to_string(), "cdylib".to_string()]));
    assert!(!is_qualifying(&vec!["custom-build".to_string()]));
    assert!(!is_qualifying(&vec![]));
}

#[test]
fn nro_default_icon_is_written_beside_artifact() {
    let plan = plan_nro("/work/app", "/work/app/target/debug/app.elf", &nro(None, None)).unwrap();
    assert_eq!(plan.output, "/work/app/target/debug/app.nro");
    assert_eq!(plan.icon, "/work/app/target/debug/app.jpg");
    assert!(plan.write_default_icon);
    assert_eq!(plan.romfs_dir, None);
}

#[test]
fn nro_given_icon_is_used() {
    let plan = plan_nro("/work/app", "/work/app/target/debug/app.elf", &nro(Some("romfs"), Some("icon.jpg"))).unwrap();
    assert_eq!(plan.icon, "/work/app/icon.jpg");
    assert!(!plan.write_default_icon);
    assert_eq!(plan.romfs_dir.as_deref(), Some("/work/app/romfs"));
    assert_eq!(plan.elf, "/work/app/target/debug/app.elf");
}

#[test]
fn nro_without_file_name_fails() {
    assert_eq!(plan_nro("/work/app", "/", &nro(None, None)).err(), Some(BuildError::BadArtifactPath));
}

#[test]
fn nsp_file_descriptor_wins() {
    let plan = plan_nsp("/work/app", "/work/app/target/debug/app.elf", &nsp(Some("app.json"), true)).unwrap();
    match plan.npdm {
        NpdmSource::File(f) => assert_eq!(f, "/work/app/app.json"),
        NpdmSource::Inline => panic!("the file descriptor must be used"),
    }
    assert_eq!(plan.staging_dir, "/work/app/target/debug/exefs");
    assert_eq!(plan.npdm_out, "/work/app/target/debug/exefs/main.npdm");
    assert_eq!(plan.exe_out, "/work/app/target/debug/exefs/main");
    assert_eq!(plan.output, "/work/app/target/debug/app.nsp");
}

#[test]
fn nsp_inline_descriptor() {
    let plan = plan_nsp("/work/app", "/work/app/target/debug/app.elf", &nsp(None, true)).unwrap();
    assert!(matches!(plan.npdm, NpdmSource::Inline));
}

#[test]
fn nsp_without_descriptor_fails() {
    assert_eq!(
        plan_nsp("/work/app", "/work/app/target/debug/app.elf", &nsp(None, false)).err(),
        Some(BuildError::Config(ConfigError::NoProcessMetadata))
    );
}

#[test]
fn nsp_without_parent_fails() {
    assert_eq!(plan_nsp("/work/app", "/", &nsp(None, true)).err(), Some(BuildError::BadArtifactPath));
}

#[test]
fn dispatch_artifact_without_files() {
    let ev = BuildEvent::Artifact { kinds: vec!["bin".to_string()], filenames: vec![] };
    let d = PackagingDirective::Nro(nro(None, None));
    assert_eq!(dispatch("/work/app", &d, ev).err(), Some(BuildError::NoOutputFile));
}

#[test]
fn line_artifact_packaged_as_nro() {
    let d = PackagingDirective::Nro(nro(None, None));
    match handle_line("/work/app", &d, &artifact_line("bin", "/work/app/target/debug/app.elf")) {
        Ok(Action::BuildNro(p)) => {
            assert_eq!(p.output, "/work/app/target/debug/app.nro");
            assert_eq!(p.icon, "/work/app/target/debug/app.jpg");
        }
        _ => panic!("expected an NRO packaging"),
    }
}

#[test]
fn line_artifact_packaged_as_nsp() {
    let d = PackagingDirective::Nsp(nsp(Some("npdm.json"), false));
    match handle_line("/work/app", &d, &artifact_line("cdylib", "/work/app/target/debug/app.so")) {
        Ok(Action::BuildNsp(p)) => assert_eq!(p.output, "/work/app/target/debug/app.nsp"),
        _ => panic!("expected an NSP packaging"),
    }
}

#[test]
fn line_nsp_without_descriptor_fails() {
    let d = PackagingDirective::Nsp(nsp(None, false));
    let r = handle_line("/work/app", &d, &artifact_line("bin", "/work/app/target/debug/app.elf"));
    assert!(matches!(r, Err(BuildError::Config(ConfigError::NoProcessMetadata))));
}

#[test]
fn line_build_script_not_packaged() {
    let d = PackagingDirective::Nro(nro(None, None));
    let r = handle_line("/work/app", &d, &artifact_line("custom-build", "/work/app/target/debug/build-script-build"));
    assert!(matches!(r, Ok(Action::Nothing)));
}

#[test]
fn line_plain_directive_never_packages() {
    let r = handle_line("/work/app", &PackagingDirective::Plain, &artifact_line("bin", "/work/app/target/debug/app.elf"));
    assert!(matches!(r, Ok(Action::Nothing)));
    assert_eq!(exit_code(Some(3)), 3);
}

#[test]
fn line_diagnostic_printed() {
    let d = PackagingDirective::Plain;
    match handle_line("/work/app", &d, &diagnostic_line(Some("warning: unused variable"))) {
        Ok(Action::Print(t)) => assert_eq!(t, "warning: unused variable"),
        _ => panic!("expected a diagnostic"),
    }
    match handle_line("/work/app", &d, &diagnostic_line(None)) {
        Ok(Action::Print(t)) => assert!(t.contains("unused variable")),
        _ => panic!("expected a diagnostic"),
    }
}

#[test]
fn line_other_message_ignored() {
    let d = PackagingDirective::Nro(nro(None, None));
    let r = handle_line("/work/app", &d, r#"{"reason":"build-finished","success":true}"#);
    assert!(matches!(r, Ok(Action::Nothing)));
}

#[test]
fn line_malformed_aborts() {
    let d = PackagingDirective::Nro(nro(None, None));
    assert!(matches!(handle_line("/work/app", &d, "not json at all"), Err(BuildError::MalformedMessage)));
    assert!(matches!(handle_line("/work/app", &d, r#"{"reason":"compiler-artifact"}"#), Err(BuildError::MalformedMessage)));
}
