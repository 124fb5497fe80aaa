use rust_actions::crates::{latest_version, CrateVersion};
use rust_actions::errors::PublishError;

fn record(name: &str, num: &str, yanked: bool) -> CrateVersion {
    CrateVersion {
        id: 1,
        crate_name: name.to_string(),
        num: num.to_string(),
        updated_at: "2024-01-02T00:00:00Z".to_string(),
        created_at: "2024-01-01T00:00:00Z".to_string(),
        downloads: 10,
        yanked,
    }
}

#[test]
fn latest_takes_first_record() {
    let versions = vec![record("a", "2.0.0", false), record("a", "1.0.0", false)];
    let latest = latest_version("a", &versions).unwrap();
    assert_eq!(latest.num, "2.0.0");
}

#[test]
fn latest_skips_yanked_records() {
    let versions = vec![record("a", "2.0.0", true), record("a", "1.5.0", false)];
    let latest = latest_version("a", &versions).unwrap();
    assert_eq!(latest.num, "1.5.0");
}

#[test]
fn latest_fails_on_name_mismatch() {
    let versions = vec![record("b", "2.0.0", false)];
    assert!(matches!(
        latest_version("a", &versions).unwrap_err(),
        PublishError::CrateNameMismatch
    ));
}

#[test]
fn latest_fails_when_all_yanked() {
    let versions = vec![record("a", "2.0.0", true), record("a", "1.0.0", true)];
    assert!(matches!(
        latest_version("a", &versions).unwrap_err(),
        PublishError::NoVersionsFound
    ));
}

#[test]
fn latest_fails_on_empty_reply() {
    let versions: Vec<CrateVersion> = Vec::new();
    assert!(matches!(
        latest_version("a", &versions).unwrap_err(),
        PublishError::NoVersionsFound
    ));
}

#[test]
fn latest_refuses_empty_name() {
    let versions = vec![record("a", "2.0.0", false)];
    assert!(matches!(
        latest_version("", &versions).unwrap_err(),
        PublishError::EmptyCrateName
    ));
}
