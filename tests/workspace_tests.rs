use cargo_set_version::{member_names, parse_args, Package, SetVersionError, Version};

fn args(list: &[&str]) -> Vec<String> {
    list.iter().map(|s| s.to_string()).collect()
}

#[test]
fn reads_version_alone() {
    let inv = parse_args(&args(&["tool", "1.2.3"])).unwrap();
    assert_eq!(inv.new_version, "1.2.3");
    assert_eq!(inv.manifest_path, None);
}

#[test]
fn drops_cargo_subcommand_token() {
    let inv = parse_args(&args(&["cargo-set-version", "set-version", "1.2.3"])).unwrap();
    assert_eq!(inv.new_version, "1.2.3");
}

#[test]
fn reads_manifest_path_in_any_position() {
    let before = parse_args(&args(&["tool", "--manifest-path", "w/Cargo.toml", "2.0.0"])).unwrap();
    assert_eq!(before.new_version, "2.0.0");
    assert_eq!(before.manifest_path.as_deref(), Some("w/Cargo.toml"));
    let after = parse_args(&args(&["tool", "set-version", "2.0.0", "--manifest-path", "x.toml"])).unwrap();
    assert_eq!(after.new_version, "2.0.0");
    assert_eq!(after.manifest_path.as_deref(), Some("x.toml"));
}

#[test]
fn missing_version_is_a_usage_error() {
    for list in [&["tool"][..], &["tool", "set-version"], &["tool", "--manifest-path", "x"], &["tool", "1.0.0", "--manifest-path"], &["tool", "1.0.0", "2.0.0"]] {
        match parse_args(&args(list)) {
            Err(SetVersionError::Usage { program }) => assert_eq!(program, "tool"),
            other => panic!("unexpected {other:?}"),
        }
    }
}

fn package(id: &str, name: &str) -> Package {
    Package {
        id: id.to_string(),
        name: name.to_string(),
        version: Version::new(1, 0, 0),
        manifest_path: format!("{name}/Cargo.toml"),
    }
}

#[test]
fn member_names_keep_workspace_packages_only() {
    let packages = vec![package("1", "a"), package("2", "serde"), package("3", "b")];
    let ids = args(&["3", "1"]);
    assert_eq!(member_names(&packages, &ids), args(&["a", "b"]));
    assert!(member_names(&packages, &Vec::new()).is_empty());
}
