use rustbasic_cli::packages::{
    cargo_add_package, cargo_has_package, cargo_remove_package, cargo_toml_path,
    extract_version_from_line, is_manual_source, known_packages, plan_install, plan_uninstall,
    record_install, record_install_now, record_uninstall, setup_local_dir, setup_script,
    sync_manual_packages, CargoAdd, InstallPlan, InstalledPackage, PackageManifest, UninstallPlan,
    BREEZE_DESCRIPTION, BREEZE_INSTALL_SCRIPT, JWT_REMOVE_SCRIPT, MANIFEST_FILE,
};

fn names(m: &PackageManifest) -> Vec<String> {
    m.packages.iter().map(|p| p.name.clone()).collect()
}

#[test]
fn registry_entries() {
    let breeze = known_packages("rustbasic-breeze").unwrap();
    assert_eq!(breeze.version, "0.0");
    assert_eq!(breeze.description, BREEZE_DESCRIPTION);
    assert_eq!(breeze.setup_command, Some("breeze:install"));
    assert_eq!(breeze.remove_command, Some("breeze:remove"));
    let jwt = known_packages("rustbasic-jwt").unwrap();
    assert_eq!(jwt.setup_command, None);
    assert_eq!(jwt.remove_command, Some("jwt:remove"));
    let webp = known_packages("rustbasic-webp").unwrap();
    assert_eq!((webp.setup_command, webp.remove_command), (None, None));
    assert!(known_packages("rustbasic-unknown").is_none());
    assert!(known_packages("").is_none());
}

#[test]
fn file_names() {
    assert_eq!(cargo_toml_path(), "Cargo.toml");
    assert_eq!(MANIFEST_FILE, ".rustbasic_packages.json");
}

#[test]
fn install_plan_for_a_known_package() {
    let m = PackageManifest::new();
    match plan_install(&m, "rustbasic-breeze") {
        InstallPlan::Proceed { version, description, setup_command } => {
            assert_eq!(version, "0.0");
            assert_eq!(description, BREEZE_DESCRIPTION);
            assert_eq!(setup_command.as_deref(), Some("breeze:install"));
        }
        _ => panic!("expected to proceed"),
    }
    match plan_install(&m, "rustbasic-medialibrary") {
        InstallPlan::Proceed { setup_command, .. } => assert!(setup_command.is_none()),
        _ => panic!("expected to proceed"),
    }
}

#[test]
fn install_plan_refuses_unknown_packages() {
    let m = PackageManifest::new();
    assert!(matches!(plan_install(&m, "rustbasic-nope"), InstallPlan::Unknown));
}

#[test]
fn installing_twice_is_refused() {
    let mut m = PackageManifest::new();
    record_install(
        &mut m,
        "rustbasic-jwt",
        "0.0".to_string(),
        "2024-01-01T00:00:00".to_string(),
        "d".to_string(),
    );
    assert!(matches!(plan_install(&m, "rustbasic-jwt"), InstallPlan::AlreadyInstalled));
    let p = &m.packages[0];
    assert_eq!(p.source, "install");
    assert_eq!(p.installed_at, "2024-01-01T00:00:00");
}

#[test]
fn recorded_now_packages_are_installed_entries() {
    let mut m = PackageManifest::new();
    record_install_now(&mut m, "rustbasic-webp", "0.0".to_string(), "w".to_string());
    assert_eq!(names(&m), vec!["rustbasic-webp".to_string()]);
    assert_eq!(m.packages[0].source, "install");
    assert_eq!(m.packages[0].installed_at.len(), 19);
    let at: Vec<char> = m.packages[0].installed_at.chars().collect();
    for (i, c) in at.iter().enumerate() {
        match i {
            4 | 7 => assert_eq!(*c, '-'),
            10 => assert_eq!(*c, 'T'),
            13 | 16 => assert_eq!(*c, ':'),
            _ => assert!(c.is_ascii_digit()),
        }
    }
}

#[test]
fn install_then_uninstall_restores_the_manifest() {
    let mut m = PackageManifest::new();
    record_install(&mut m, "rustbasic-webp", "0.0".into(), "t".into(), "w".into());
    let before = names(&m);
    record_install(&mut m, "rustbasic-breeze", "0.0".into(), "t".into(), "b".into());
    match plan_uninstall(&m, "rustbasic-breeze", true) {
        UninstallPlan::Proceed { manifest_index, remove_command } => {
            assert_eq!(manifest_index, Some(1));
            assert_eq!(remove_command.as_deref(), Some("breeze:remove"));
            record_uninstall(&mut m, manifest_index.unwrap());
        }
        UninstallPlan::NotFound => panic!("expected to proceed"),
    }
    assert_eq!(names(&m), before);
}

#[test]
fn uninstall_plans() {
    let mut m = PackageManifest::new();
    assert!(matches!(plan_uninstall(&m, "rustbasic-breeze", false), UninstallPlan::NotFound));
    match plan_uninstall(&m, "rustbasic-jwt", true) {
        UninstallPlan::Proceed { manifest_index, remove_command } => {
            assert_eq!(manifest_index, None);
            assert_eq!(remove_command.as_deref(), Some("jwt:remove"));
        }
        UninstallPlan::NotFound => panic!("expected to proceed"),
    }
    record_install(&mut m, "rustbasic-breeze", "0.0".into(), "t".into(), "b".into());
    match plan_uninstall(&m, "rustbasic-breeze", false) {
        UninstallPlan::Proceed { manifest_index, remove_command } => {
            assert_eq!(manifest_index, Some(0));
            assert_eq!(remove_command, None);
        }
        UninstallPlan::NotFound => panic!("expected to proceed"),
    }
    assert_eq!(m.position_of("rustbasic-breeze"), Some(0));
    assert_eq!(m.position_of("rustbasic-jwt"), None);
}

#[test]
fn versions_of_dependency_lines() {
    assert_eq!(
        extract_version_from_line(
            "rustbasic-breeze = { path = \"../rustbasic-breeze\", version = \"0.0\" }"
        ),
        Some("0.0".to_string())
    );
    assert_eq!(extract_version_from_line("serde = \"1.0\""), Some("1.0".to_string()));
    assert_eq!(
        extract_version_from_line("jwt = { version = \"0.2\", features = [\"x\"] }"),
        Some("0.2".to_string())
    );
    assert_eq!(extract_version_from_line("foo"), None);
    assert_eq!(extract_version_from_line("foo = \"unterminated"), None);
}

#[test]
fn cargo_mentions() {
    assert!(cargo_has_package(Some("[dependencies]\nrustbasic-jwt = \"0\"\n"), "rustbasic-jwt"));
    assert!(!cargo_has_package(Some("[dependencies]\n"), "rustbasic-jwt"));
    assert!(!cargo_has_package(None, "rustbasic-jwt"));
}

const CARGO: &str = "[package]\nname = \"app\"\n\n[dependencies]\nserde = \"1\"\n";

#[test]
fn adding_a_dependency() {
    match cargo_add_package(Some(CARGO), "rustbasic-jwt", "0.0", false) {
        CargoAdd::Added(new) => assert_eq!(
            new,
            "[package]\nname = \"app\"\n\n[dependencies]\nrustbasic-jwt = \"0.0\"\nserde = \"1\"\n"
        ),
        _ => panic!("expected the dependency to be added"),
    }
    match cargo_add_package(Some(CARGO), "rustbasic-jwt", "0.0", true) {
        CargoAdd::Added(new) => assert_eq!(
            new,
            "[package]\nname = \"app\"\n\n[dependencies]\nrustbasic-jwt = { path = \"../rustbasic-jwt\", version = \"0.0\" }\nserde = \"1\"\n"
        ),
        _ => panic!("expected the dependency to be added"),
    }
}

#[test]
fn adding_after_a_final_header() {
    match cargo_add_package(Some("[dependencies]"), "rustbasic-webp", "0.0", false) {
        CargoAdd::Added(new) => assert_eq!(new, "[dependencies]rustbasic-webp = \"0.0\"\n"),
        _ => panic!("expected the dependency to be added"),
    }
}

#[test]
fn adding_is_refused_or_skipped() {
    assert!(matches!(
        cargo_add_package(Some(CARGO), "serde", "1", false),
        CargoAdd::AlreadyPresent
    ));
    assert!(matches!(
        cargo_add_package(Some("[package]\nname = \"a\"\n"), "rustbasic-jwt", "0.0", false),
        CargoAdd::NoDependenciesSection
    ));
    assert!(matches!(
        cargo_add_package(None, "rustbasic-jwt", "0.0", false),
        CargoAdd::Unreadable
    ));
}

#[test]
fn added_dependency_is_then_mentioned() {
    if let CargoAdd::Added(new) = cargo_add_package(Some(CARGO), "rustbasic-jwt", "0.0", false) {
        assert!(cargo_has_package(Some(&new), "rustbasic-jwt"));
        assert!(matches!(
            cargo_add_package(Some(&new), "rustbasic-jwt", "0.0", false),
            CargoAdd::AlreadyPresent
        ));
    } else {
        panic!("expected the dependency to be added");
    }
}

#[test]
fn removing_a_dependency() {
    let c = "[dependencies]\nrustbasic-jwt = \"0.0\"\nserde = \"1\"\n";
    assert_eq!(
        cargo_remove_package(Some(c), "rustbasic-jwt"),
        Some("[dependencies]\nserde = \"1\"\n".to_string())
    );
    assert_eq!(
        cargo_remove_package(Some("a\nrustbasic-jwt\nb"), "rustbasic-jwt"),
        Some("a\nb".to_string())
    );
    assert_eq!(cargo_remove_package(None, "rustbasic-jwt"), None);
}

#[test]
fn removed_dependency_is_not_mentioned() {
    let c = "[dependencies]\nrustbasic-jwt = \"0.0\"\n# rustbasic-jwt later\nserde = \"1\"\n";
    let new = cargo_remove_package(Some(c), "rustbasic-jwt").unwrap();
    assert!(!cargo_has_package(Some(&new), "rustbasic-jwt"));
}

const SYNC_CARGO: &str = "[dependencies]\nrustbasic-core = \"1\"\nrustbasic-breeze = { path = \"../rustbasic-breeze\", version = \"0.0\" }\n# rustbasic-jwt = \"0.1\"\nrustbasic-foo = \"2.1\"\nrustbasic-cli = \"1\"\n";

#[test]
fn sync_adds_packages_found_in_cargo() {
    let mut m = PackageManifest::new();
    sync_manual_packages(&mut m, Some(SYNC_CARGO));
    assert_eq!(names(&m), vec!["rustbasic-breeze".to_string(), "rustbasic-foo".to_string()]);
    let breeze: &InstalledPackage = &m.packages[0];
    assert_eq!(breeze.version, "0.0");
    assert_eq!(breeze.installed_at, "—");
    assert_eq!(breeze.source, "manual");
    assert_eq!(breeze.description, BREEZE_DESCRIPTION);
    let foo = &m.packages[1];
    assert_eq!(foo.version, "2.1");
    assert_eq!(foo.description, "Package eksternal");
    assert!(is_manual_source(&foo.source));
}

#[test]
fn sync_keeps_known_entries() {
    let mut m = PackageManifest::new();
    record_install(&mut m, "rustbasic-breeze", "0.0".into(), "t".into(), "b".into());
    sync_manual_packages(&mut m, Some(SYNC_CARGO));
    assert_eq!(names(&m), vec!["rustbasic-breeze".to_string(), "rustbasic-foo".to_string()]);
    assert_eq!(m.packages[0].source, "install");
    assert!(!is_manual_source(&m.packages[0].source));
}

#[test]
fn sync_without_cargo_changes_nothing() {
    let mut m = PackageManifest::new();
    sync_manual_packages(&mut m, None);
    assert!(m.packages.is_empty());
}

#[test]
fn helper_programs() {
    assert_eq!(setup_script("breeze:install", false).as_deref(), Some(BREEZE_INSTALL_SCRIPT));
    assert_eq!(setup_script("jwt:remove", true).as_deref(), Some(JWT_REMOVE_SCRIPT));
    assert_eq!(setup_script("unknown:cmd", false), None);
    let remote = setup_script("activitylog:install", false).unwrap();
    assert!(remote.contains(
        "cmd.args([\"run\", \"-p\", \"rustbasic-activitylog\", \"--\", \"install\"]);"
    ));
    assert!(remote.starts_with("fn main() {\n    println!(\"⚙️ Menjalankan generator scaffolding Activity Log...\");"));
    let local = setup_script("native:remove", true).unwrap();
    assert!(local.contains(
        "cmd.args([\"run\", \"--manifest-path\", \"../rustbasic-native/Cargo.toml\", \"--\", \"uninstall\"]);"
    ));
    assert!(local.contains("eprintln!(\"❌ Pembersihan scaffolding RustBasic Native gagal\");"));
}

#[test]
fn helper_program_local_directories() {
    assert_eq!(setup_local_dir("native:install"), Some("../rustbasic-native"));
    assert_eq!(setup_local_dir("native:remove"), Some("../rustbasic-native"));
    assert_eq!(setup_local_dir("permission:install"), Some("../rustbasic-permission"));
    assert_eq!(setup_local_dir("breeze:install"), None);
}

#[test]
fn removing_undoes_adding() {
    for c in [CARGO, "[dependencies]\nserde = \"1\"", "[dependencies]\n", "# top\n[dependencies]\n\n[dev-dependencies]\nx = \"1\"\n"] {
        for local in [false, true] {
            match cargo_add_package(Some(c), "rustbasic-jwt", "0.0", local) {
                CargoAdd::Added(new) => {
                    assert_eq!(cargo_remove_package(Some(&new), "rustbasic-jwt"), Some(c.to_string()));
                }
                _ => panic!("expected the dependency to be added"),
            }
        }
    }
}

#[test]
fn names_stay_unique_through_installs_and_removals() {
    let mut m = PackageManifest::new();
    for name in ["rustbasic-jwt", "rustbasic-webp", "rustbasic-breeze"] {
        if let InstallPlan::Proceed { version, description, .. } = plan_install(&m, name) {
            record_install(&mut m, name, version, "t".into(), description);
        }
        assert!(matches!(plan_install(&m, name), InstallPlan::AlreadyInstalled));
    }
    record_uninstall(&mut m, 1);
    let mut seen = names(&m);
    seen.sort();
    seen.dedup();
    assert_eq!(seen.len(), m.packages.len());
    assert_eq!(names(&m), vec!["rustbasic-jwt".to_string(), "rustbasic-breeze".to_string()]);
}

#[test]
fn sync_adds_a_package_named_on_two_lines_once() {
    let cargo = "[dependencies]\nrustbasic-foo = \"1\"\nrustbasic-foo = \"1\"\nrustbasic-bar = \"3\"\n";
    let mut m = PackageManifest::new();
    sync_manual_packages(&mut m, Some(cargo));
    assert_eq!(names(&m), vec!["rustbasic-foo".to_string(), "rustbasic-bar".to_string()]);
    sync_manual_packages(&mut m, Some(cargo));
    assert_eq!(m.packages.len(), 2);
}

#[test]
fn removing_undoes_adding_with_carriage_returns_in_the_version() {
    let c = "[dependencies]\nserde = \"1\"\n";
    match cargo_add_package(Some(c), "rustbasic-jwt", "0.0\r", false) {
        CargoAdd::Added(new) => {
            assert_eq!(cargo_remove_package(Some(&new), "rustbasic-jwt"), Some(c.to_string()));
        }
        _ => panic!("expected the dependency to be added"),
    }
}
