use rust_actions::cargo::{Cargo, Version};
use rust_actions::errors::PublishError;
use rust_actions::toml_read::parse_manifest;

#[test]
fn parse_single_package_manifest() {
    let text = "[package]\nname = \"foo\"\nversion = \"1.2.3\"\n";
    let cargo = parse_manifest(text).unwrap();
    let package = cargo.package.as_ref().unwrap();
    assert_eq!(package.name, Some("foo".to_string()));
    assert!(matches!(&package.version, Version::Version(v) if v == "1.2.3"));
    assert_eq!(package.publish, None);
    assert!(cargo.workspace.is_none());
    assert!(cargo.packages.is_empty());
}

#[test]
fn parse_workspace_manifest() {
    let text = "[workspace]\nmembers = [\"a\", \"b\"]\n\n[workspace.package]\nversion = \"2.0.0\"\n";
    let cargo = parse_manifest(text).unwrap();
    let workspace = cargo.workspace.as_ref().unwrap();
    assert_eq!(workspace.members, vec!["a".to_string(), "b".to_string()]);
    let shared = workspace.package.as_ref().unwrap();
    assert!(matches!(&shared.version, Version::Version(v) if v == "2.0.0"));
    assert!(cargo.package.is_none());
}

#[test]
fn parse_inherit_marker() {
    let text = "[package]\nname = \"a\"\nversion = { workspace = true }\n";
    let cargo = parse_manifest(text).unwrap();
    let package = cargo.package.as_ref().unwrap();
    assert!(matches!(
        package.version,
        Version::Workspace { workspace: true }
    ));
}

#[test]
fn parse_publish_flag() {
    let text = "[package]\nname = \"a\"\nversion = \"0.1.0\"\npublish = false\n";
    let cargo = parse_manifest(text).unwrap();
    assert_eq!(cargo.package.as_ref().unwrap().publish, Some(false));
}

#[test]
fn parsed_inheritance_resolves_through_workspace() {
    let text = "[package]\nname = \"root\"\nversion = { workspace = true }\n\n[workspace]\nmembers = [\"a\"]\n\n[workspace.package]\nversion = \"2.0.0\"\n";
    let cargo = parse_manifest(text).unwrap();
    let package = cargo.package.as_ref().unwrap();
    assert_eq!(cargo.version(package), Some("2.0.0".to_string()));
}

#[test]
fn parse_rejects_invalid_toml() {
    assert!(matches!(
        parse_manifest("this is [[ not a manifest").unwrap_err(),
        PublishError::ManifestParse
    ));
}

#[test]
fn parse_rejects_non_string_version() {
    let text = "[package]\nname = \"a\"\nversion = 12\n";
    assert!(matches!(
        parse_manifest(text).unwrap_err(),
        PublishError::ManifestParse
    ));
}

#[test]
fn parse_rejects_missing_version() {
    let text = "[package]\nname = \"a\"\n";
    assert!(matches!(
        parse_manifest(text).unwrap_err(),
        PublishError::ManifestParse
    ));
}

#[test]
fn parse_rejects_workspace_without_members() {
    let text = "[workspace]\npackage = { version = \"1.0.0\" }\n";
    assert!(matches!(
        parse_manifest(text).unwrap_err(),
        PublishError::ManifestParse
    ));
}

#[test]
fn parse_end_to_end_workspace_run() {
    let root_text = "[workspace]\nmembers = [\"a\", \"b\"]\n";
    let member_a = "[package]\nname = \"a\"\nversion = \"1.0.0\"\npublish = true\n";
    let member_b = "[package]\nname = \"b\"\nversion = \"0.2.0\"\n";

    let root = parse_manifest(root_text).unwrap();
    let members = vec![
        parse_manifest(member_a).unwrap(),
        parse_manifest(member_b).unwrap(),
    ];
    let cargo = Cargo::assemble(root, members).unwrap();
    assert_eq!(cargo.packages.len(), 2);
    let found = cargo.package("a").unwrap();
    assert_eq!(cargo.version(found), Some("1.0.0".to_string()));
}
