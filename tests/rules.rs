use autmc::{
    rules_match, FeatureCondition, OsCondition, OsConditionKey, Platform, Rule, RuleAction,
    RulePredicate,
};

fn platform(os: &str, arch: &str) -> Platform {
    Platform { os: os.to_string(), arch: arch.to_string() }
}

fn os_rule(action: RuleAction, conds: &[(OsConditionKey, &str)]) -> Rule {
    Rule {
        action,
        predicate: Some(RulePredicate::OperatingSystem(
            conds
                .iter()
                .map(|(k, v)| OsCondition { key: *k, value: v.to_string() })
                .collect(),
        )),
    }
}

#[test]
fn disallow_windows_included_on_linux_excluded_on_windows() {
    let rules = vec![os_rule(RuleAction::Disallow, &[(OsConditionKey::Name, "windows")])];
    assert!(rules_match(&rules, &platform("linux", "x86_64")));
    assert!(!rules_match(&rules, &platform("windows", "x86_64")));
}

#[test]
fn empty_rule_list_applies() {
    assert!(rules_match(&[], &platform("linux", "x86_64")));
}

#[test]
fn allow_without_predicate_applies_and_disallow_does_not() {
    let allow = vec![Rule { action: RuleAction::Allow, predicate: None }];
    let disallow = vec![Rule { action: RuleAction::Disallow, predicate: None }];
    assert!(rules_match(&allow, &platform("linux", "x86_64")));
    assert!(!rules_match(&disallow, &platform("linux", "x86_64")));
}

#[test]
fn every_rule_must_hold() {
    let rules = vec![
        Rule { action: RuleAction::Allow, predicate: None },
        os_rule(RuleAction::Disallow, &[(OsConditionKey::Name, "osx")]),
    ];
    assert!(rules_match(&rules, &platform("linux", "x86_64")));
    assert!(!rules_match(&rules, &platform("macos", "aarch64")));
}

#[test]
fn single_disallow_of_host_os_fails_whole_list() {
    let rules = vec![
        os_rule(RuleAction::Allow, &[(OsConditionKey::Name, "linux")]),
        os_rule(RuleAction::Disallow, &[(OsConditionKey::Name, "linux")]),
        Rule { action: RuleAction::Allow, predicate: None },
    ];
    assert!(!rules_match(&rules, &platform("linux", "x86_64")));
}

#[test]
fn osx_names_macos() {
    let rules = vec![os_rule(RuleAction::Allow, &[(OsConditionKey::Name, "osx")])];
    assert!(rules_match(&rules, &platform("macos", "aarch64")));
    assert!(!rules_match(&rules, &platform("linux", "x86_64")));
}

#[test]
fn x86_covers_x86_64() {
    let rules = vec![os_rule(RuleAction::Allow, &[(OsConditionKey::Arch, "x86")])];
    assert!(rules_match(&rules, &platform("windows", "x86_64")));
    assert!(rules_match(&rules, &platform("windows", "x86")));
    assert!(!rules_match(&rules, &platform("linux", "aarch64")));
}

#[test]
fn version_condition_is_not_checked() {
    let allow = vec![os_rule(RuleAction::Allow, &[(OsConditionKey::Version, "^10\\.5")])];
    let disallow = vec![os_rule(
        RuleAction::Disallow,
        &[(OsConditionKey::Name, "osx"), (OsConditionKey::Version, "^10\\.5\\.\\d$")],
    )];
    assert!(!rules_match(&allow, &platform("linux", "x86_64")));
    assert!(rules_match(&disallow, &platform("linux", "x86_64")));
    assert!(!rules_match(&disallow, &platform("macos", "x86_64")));
}

#[test]
fn feature_rule_never_matches() {
    let features = || {
        Some(RulePredicate::Features(vec![FeatureCondition {
            name: "is_demo_user".to_string(),
            value: true,
        }]))
    };
    let allow = vec![Rule { action: RuleAction::Allow, predicate: features() }];
    let disallow = vec![Rule { action: RuleAction::Disallow, predicate: features() }];
    assert!(!rules_match(&allow, &platform("linux", "x86_64")));
    assert!(rules_match(&disallow, &platform("linux", "x86_64")));
}

#[test]
fn unknown_action_and_key_are_refused() {
    assert!(matches!(RuleAction::parse("allow"), Ok(RuleAction::Allow)));
    assert!(matches!(RuleAction::parse("disallow"), Ok(RuleAction::Disallow)));
    match RuleAction::parse("permit") {
        Err(e) => assert_eq!(e.text(), "Unknown rule action: permit"),
        Ok(_) => panic!("unknown action accepted"),
    }
    assert!(matches!(OsConditionKey::parse("arch"), Ok(OsConditionKey::Arch)));
    assert!(matches!(OsConditionKey::parse("version"), Ok(OsConditionKey::Version)));
    match OsConditionKey::parse("kernel") {
        Err(autmc::ManifestError::ConfigurationError(m)) => {
            assert_eq!(m, "Unknown rule map key: kernel")
        }
        _ => panic!("unknown key accepted"),
    }
}
