use cargo_set_version::{is_member, rewrite_member, update_document, update_manifest, SetVersionError, Version};
use toml_edit::DocumentMut;

const A: &str = "# the A package\n[package]\nname = \"a\"\nversion = \"1.0.0\"\n\n[dependencies]\nserde = \"1.0.0\"\n";

const B: &str = "[package]\nname = \"b\"\nversion = \"1.0.0\"\n\n[dependencies]\na = \"1.0.0\"\nserde = { version = \"1.0.0\", features = [\"derive\"] }\n\n[dev-dependencies]\na = { path = \"../a\", version = \"1.0.0\" }\n\n[build-dependencies]\ncc = \"1.0.0\"\n";

fn members() -> Vec<String> {
    vec!["a".to_string(), "b".to_string()]
}

fn doc(text: &str) -> DocumentMut {
    text.parse::<DocumentMut>().unwrap()
}

#[test]
fn workspace_of_two_members_is_rewritten() {
    let new_a = update_manifest(A, "2.0.0", &members()).unwrap().expect("a changes");
    let new_b = update_manifest(B, "2.0.0", &members()).unwrap().expect("b changes");

    assert!(new_a.starts_with("# the A package\n[package]\n"));
    let a = doc(&new_a);
    assert_eq!(a["package"]["version"].as_str(), Some("2.0.0"));
    assert_eq!(a["package"]["name"].as_str(), Some("a"));
    assert_eq!(a["dependencies"]["serde"].as_str(), Some("1.0.0"));

    let b = doc(&new_b);
    assert_eq!(b["package"]["version"].as_str(), Some("2.0.0"));
    assert_eq!(b["dependencies"]["a"].as_str(), Some("2.0.0"));
    assert_eq!(b["dev-dependencies"]["a"]["version"].as_str(), Some("2.0.0"));
    assert_eq!(b["dev-dependencies"]["a"]["path"].as_str(), Some("../a"));
    assert_eq!(b["dependencies"]["serde"]["version"].as_str(), Some("1.0.0"));
    assert_eq!(b["dependencies"]["serde"]["features"].as_array().map(|f| f.len()), Some(1));
    assert_eq!(b["build-dependencies"]["cc"].as_str(), Some("1.0.0"));
}

#[test]
fn second_run_to_the_same_version_is_refused() {
    let first = update_manifest(B, "2.0.0", &members()).unwrap().unwrap();
    let new = Version::new(2, 0, 0);
    let current = Version::new(2, 0, 0);
    match rewrite_member(&new, &current, "b", &first, &members()) {
        Err(SetVersionError::NotIncreasing { new, current, package }) => {
            assert_eq!((new.as_str(), current.as_str(), package.as_str()), ("2.0.0", "2.0.0", "b"));
        }
        other => panic!("unexpected {other:?}"),
    }
}

#[test]
fn first_run_goes_through_rewrite_member() {
    let out = rewrite_member(&Version::new(2, 0, 0), &Version::new(1, 0, 0), "b", B, &members()).unwrap().unwrap();
    assert_eq!(doc(&out)["dependencies"]["a"].as_str(), Some("2.0.0"));
}

#[test]
fn missing_package_table_is_an_error() {
    let text = "[dependencies]\na = \"1.0.0\"\n";
    assert!(matches!(
        update_manifest(text, "2.0.0", &members()),
        Err(SetVersionError::MissingPackageTable)
    ));
    let mut d = doc(text);
    assert!(matches!(update_document(&mut d, "2.0.0", &members()), Err(SetVersionError::MissingPackageTable)));
    assert_eq!(d.to_string(), text);
}

#[test]
fn malformed_manifest_is_an_error() {
    assert!(matches!(
        update_manifest("[package\nname = 1", "2.0.0", &members()),
        Err(SetVersionError::ManifestParse { .. })
    ));
}

#[test]
fn package_that_is_no_table_changes_nothing() {
    let text = "package = \"x\"\n[dependencies]\nserde = \"1\"\n";
    assert!(matches!(update_manifest(text, "2.0.0", &members()), Ok(None)));
}

#[test]
fn package_without_version_gets_one() {
    let out = update_manifest("[package]\nname = \"a\"\n", "3.1.4", &members()).unwrap().unwrap();
    assert_eq!(doc(&out)["package"]["version"].as_str(), Some("3.1.4"));
}

#[test]
fn outside_dependencies_are_left_alone() {
    let text = "[package]\nname = \"c\"\nversion = \"1.0.0\"\n[dependencies]\nserde = \"1.0.0\"\nlog = { version = \"0.4\" }\n";
    let out = update_manifest(text, "2.0.0", &members()).unwrap().unwrap();
    let d = doc(&out);
    assert_eq!(d["dependencies"]["serde"].as_str(), Some("1.0.0"));
    assert_eq!(d["dependencies"]["log"]["version"].as_str(), Some("0.4"));
}

#[test]
fn update_document_reports_whether_it_changed() {
    let mut d = doc(B);
    assert!(matches!(update_document(&mut d, "2.0.0", &members()), Ok(true)));
    assert_eq!(d["dev-dependencies"]["a"]["version"].as_str(), Some("2.0.0"));
}

#[test]
fn membership_is_exact() {
    let m = members();
    assert!(is_member(&m, &"a".to_string()));
    assert!(!is_member(&m, &"ab".to_string()));
    assert!(!is_member(&Vec::new(), &"a".to_string()));
}
