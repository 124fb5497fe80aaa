use rust_actions::cargo::{Cargo, Package, Version, Workspace};
use rust_actions::publish::{
    is_dev_version, trim_str, PackagePlan, RustCratePublishAction, SkipReason,
};
use rust_actions::errors::PublishError;

fn empty_cargo() -> Cargo {
    Cargo {
        package: None,
        workspace: None,
        working_directory: String::new(),
        packages: Vec::new(),
        registry: None,
        dry_run: false,
    }
}

fn plain_package(name: &str, version: &str) -> Package {
    Package {
        name: Some(name.to_string()),
        version: Version::Version(version.to_string()),
        publish: None,
    }
}

fn workspace_cargo(members: &[(&str, &str)]) -> Cargo {
    let mut cargo = empty_cargo();
    cargo.workspace = Some(Workspace {
        members: members.iter().map(|(n, _)| n.to_string()).collect(),
        package: None,
    });
    cargo.packages = members.iter().map(|(n, v)| plain_package(n, v)).collect();
    cargo
}

fn action_with(token: &str, crates: &str) -> RustCratePublishAction {
    RustCratePublishAction {
        token: token.to_string(),
        crates: crates.to_string(),
        ..Default::default()
    }
}

#[test]
fn test_crates() {
    let input = "foo, bar, baz";

    let action = RustCratePublishAction {
        crates: input.to_string(),
        ..Default::default()
    };
    let crates = action.crates();

    assert_eq!(crates.len(), 3);
    assert_eq!(crates[0], "foo");
    assert_eq!(crates[1], "bar");
    assert_eq!(crates[2], "baz");
}

#[test]
fn crates_keeps_empty_pieces() {
    let action = action_with("", " a ,,\tb");
    let crates = action.crates();
    assert_eq!(crates, vec!["a".to_string(), "".to_string(), "b".to_string()]);
}

#[test]
fn crates_empty_input_is_one_empty_name() {
    let action = action_with("", "");
    assert_eq!(action.crates(), vec!["".to_string()]);
}

#[test]
fn dev_marker_is_a_suffix_check() {
    assert!(is_dev_version("1.0.0-dev"));
    assert!(is_dev_version("-dev"));
    assert!(!is_dev_version("1.0.0"));
    assert!(!is_dev_version("dev"));
    assert!(!is_dev_version("1.0.0-dev2"));
    assert_eq!(trim_str("  spaced name\t"), "spaced name");
    assert_eq!(trim_str(" \t "), "");
}

#[test]
fn plan_skips_dev_version() {
    let cargo = workspace_cargo(&[("a", "1.0.1-dev")]);
    let action = action_with("tok", "a");
    let plan = action.plan_package(&cargo, "a").unwrap();
    assert!(matches!(
        plan,
        PackagePlan::Skip {
            reason: SkipReason::DevSuffix
        }
    ));
}

#[test]
fn plan_skips_publish_false() {
    let mut cargo = workspace_cargo(&[("a", "9.9.9")]);
    cargo.packages[0].publish = Some(false);
    let action = action_with("tok", "a");
    let plan = action.plan_package(&cargo, "a").unwrap();
    assert!(matches!(
        plan,
        PackagePlan::Skip {
            reason: SkipReason::NotPublishable
        }
    ));
}

#[test]
fn plan_skips_unresolved_version() {
    let mut cargo = workspace_cargo(&[("a", "0.0.0")]);
    cargo.packages[0].version = Version::Workspace { workspace: false };
    let action = action_with("tok", "a");
    let plan = action.plan_package(&cargo, "a").unwrap();
    assert!(matches!(
        plan,
        PackagePlan::Skip {
            reason: SkipReason::NoVersion
        }
    ));
}

#[test]
fn plan_queries_with_declared_name() {
    let cargo = workspace_cargo(&[("a", "1.0.0"), ("b", "2.0.0")]);
    let action = action_with("tok", "a,b");
    match action.plan_package(&cargo, "a").unwrap() {
        PackagePlan::Query {
            name,
            local_version,
        } => {
            assert_eq!(name, "a");
            assert_eq!(local_version, "1.0.0");
        }
        _ => panic!("expected a query plan"),
    }
}

#[test]
fn plan_falls_back_to_requested_name() {
    let mut cargo = empty_cargo();
    cargo.package = Some(Package {
        name: None,
        version: Version::Version("0.3.0".to_string()),
        publish: None,
    });
    let action = action_with("tok", "");
    match action.plan_package(&cargo, "").unwrap() {
        PackagePlan::Query {
            name,
            local_version,
        } => {
            assert_eq!(name, "");
            assert_eq!(local_version, "0.3.0");
        }
        _ => panic!("expected a query plan"),
    }
}

#[test]
fn plan_fails_fatally_on_unknown_name() {
    let cargo = workspace_cargo(&[("a", "1.0.0"), ("b", "2.0.0")]);
    let action = action_with("tok", "zzz");
    let err = action.plan_package(&cargo, "zzz").unwrap_err();
    match err {
        PublishError::PackageNotFound(name) => assert_eq!(name, "zzz"),
        _ => panic!("expected a not-found failure"),
    }
}

#[test]
fn decide_equal_versions_change_nothing() {
    let cargo = empty_cargo();
    let action = action_with("tok", "a");
    let d = action.decide(&cargo, &"1.2.0".to_string(), &"1.2.0".to_string());
    assert!(!d.changed);
    assert!(!d.login);
}

#[test]
fn decide_compares_exactly_not_semantically() {
    let cargo = empty_cargo();
    let action = action_with("tok", "a");
    let d = action.decide(&cargo, &"1.2.0".to_string(), &"1.2.0.0".to_string());
    assert!(d.changed);
    assert!(d.login);
}

#[test]
fn decide_skips_login_on_dry_run_or_empty_token() {
    let mut cargo = empty_cargo();
    let action = action_with("tok", "a");
    cargo.dry_run = true;
    let d = action.decide(&cargo, &"1.0.0".to_string(), &"0.9.0".to_string());
    assert!(d.changed && !d.login);

    cargo.dry_run = false;
    let untokened = action_with("", "a");
    let d = untokened.decide(&cargo, &"1.0.0".to_string(), &"0.9.0".to_string());
    assert!(d.changed && !d.login);
}

#[test]
fn publish_args_for_workspace_dry_run() {
    let mut cargo = workspace_cargo(&[("a", "1.0.0")]);
    cargo.dry_run = true;
    let args = cargo.publish_args("a");
    assert_eq!(
        args,
        vec![
            "publish".to_string(),
            "--dry-run".to_string(),
            "-p".to_string(),
            "a".to_string(),
            "--allow-dirty".to_string()
        ]
    );
}

#[test]
fn publish_args_for_single_package() {
    let cargo = empty_cargo();
    let args = cargo.publish_args("a");
    assert_eq!(
        args,
        vec!["publish".to_string(), "--allow-dirty".to_string()]
    );
}

#[test]
fn login_args_carry_the_token() {
    let cargo = empty_cargo();
    assert_eq!(
        cargo.login_args("tok"),
        vec!["login".to_string(), "tok".to_string()]
    );
}

#[test]
fn scenario_out_of_date_package_is_published() {
    let cargo = workspace_cargo(&[("a", "1.0.0"), ("b", "2.0.0")]);
    let action = action_with("tok", "a");
    let names = action.crates();
    assert_eq!(names, vec!["a".to_string()]);

    let (name, local_version) = match action.plan_package(&cargo, &names[0]).unwrap() {
        PackagePlan::Query {
            name,
            local_version,
        } => (name, local_version),
        _ => panic!("expected a query plan"),
    };
    assert_eq!(name, "a");
    assert_eq!(local_version, "1.0.0");

    let d = action.decide(&cargo, &local_version, &"0.9.0".to_string());
    assert!(d.changed);
    assert!(d.login);
    let args = cargo.publish_args(&names[0]);
    assert_eq!(
        args,
        vec![
            "publish".to_string(),
            "-p".to_string(),
            "a".to_string(),
            "--allow-dirty".to_string()
        ]
    );
}

#[test]
fn scenario_up_to_date_package_is_left_alone() {
    let cargo = workspace_cargo(&[("a", "1.0.0"), ("b", "2.0.0")]);
    let action = action_with("tok", "a");
    let (_, local_version) = match action.plan_package(&cargo, "a").unwrap() {
        PackagePlan::Query {
            name,
            local_version,
        } => (name, local_version),
        _ => panic!("expected a query plan"),
    };
    let d = action.decide(&cargo, &local_version, &"1.0.0".to_string());
    assert!(!d.changed);
    assert!(!d.login);
}
