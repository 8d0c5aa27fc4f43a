use minelaunch::platform::{Arch, Os, Platform};
use minelaunch::rules::{
    optional_rules_pass, spec_rules_satisfied, Rule, RuleAction, RuleFeature, RuleOs,
};

const LINUX64: Platform = Platform { os: Os::Linux, arch: Arch::X64 };
const MAC64: Platform = Platform { os: Os::MacOs, arch: Arch::X64 };
const WIN32: Platform = Platform { os: Os::Windows, arch: Arch::X86 };

fn plain(action: RuleAction) -> Rule {
    Rule { action, os: None, features: None }
}

fn for_os(action: RuleAction, name: &str) -> Rule {
    Rule {
        action,
        os: Some(RuleOs { name: Some(name.to_string()), version: None, arch: None }),
        features: None,
    }
}

fn for_arch(action: RuleAction, arch: &str) -> Rule {
    Rule {
        action,
        os: Some(RuleOs { name: None, version: None, arch: Some(arch.to_string()) }),
        features: None,
    }
}

#[test]
fn no_rules_are_satisfied() {
    assert!(spec_rules_satisfied(&vec![], LINUX64));
    assert!(spec_rules_satisfied(&vec![], WIN32));
    assert!(optional_rules_pass(&None, MAC64));
    assert!(optional_rules_pass(&Some(vec![]), MAC64));
}

#[test]
fn a_rule_without_conditions_passes_whatever_its_action() {
    assert!(spec_rules_satisfied(&vec![plain(RuleAction::Allow)], LINUX64));
    assert!(spec_rules_satisfied(&vec![plain(RuleAction::Disallow)], LINUX64));
}

#[test]
fn allow_needs_the_os_to_match() {
    assert!(spec_rules_satisfied(&vec![for_os(RuleAction::Allow, "linux")], LINUX64));
    assert!(!spec_rules_satisfied(&vec![for_os(RuleAction::Allow, "linux")], MAC64));
    assert!(spec_rules_satisfied(&vec![for_os(RuleAction::Allow, "osx")], MAC64));
    assert!(!spec_rules_satisfied(&vec![for_os(RuleAction::Allow, "macos")], MAC64));
}

#[test]
fn disallow_needs_the_os_not_to_match() {
    assert!(!spec_rules_satisfied(&vec![for_os(RuleAction::Disallow, "osx")], MAC64));
    assert!(spec_rules_satisfied(&vec![for_os(RuleAction::Disallow, "osx")], LINUX64));
}

#[test]
fn the_usual_allow_all_but_osx_pair() {
    let rules = || vec![plain(RuleAction::Allow), for_os(RuleAction::Disallow, "osx")];
    assert!(spec_rules_satisfied(&rules(), LINUX64));
    assert!(spec_rules_satisfied(&rules(), WIN32));
    assert!(!spec_rules_satisfied(&rules(), MAC64));
}

#[test]
fn one_failing_rule_fails_the_list_wherever_it_stands() {
    let failing = || for_os(RuleAction::Allow, "windows");
    let passing = || for_os(RuleAction::Allow, "linux");
    assert!(!spec_rules_satisfied(&vec![failing(), passing()], LINUX64));
    assert!(!spec_rules_satisfied(&vec![passing(), failing()], LINUX64));
    assert!(spec_rules_satisfied(&vec![passing(), passing()], LINUX64));
}

#[test]
fn architecture_is_matched_in_the_launchers_convention() {
    assert!(spec_rules_satisfied(&vec![for_arch(RuleAction::Allow, "x86")], WIN32));
    assert!(!spec_rules_satisfied(&vec![for_arch(RuleAction::Allow, "x86")], LINUX64));
    assert!(spec_rules_satisfied(&vec![for_arch(RuleAction::Allow, "x64")], LINUX64));
    assert!(spec_rules_satisfied(&vec![for_arch(RuleAction::Disallow, "x86")], LINUX64));
}

#[test]
fn name_and_architecture_must_both_match() {
    let rule = |action| Rule {
        action,
        os: Some(RuleOs {
            name: Some("windows".to_string()),
            version: Some("^10\\.".to_string()),
            arch: Some("x86".to_string()),
        }),
        features: None,
    };
    assert!(spec_rules_satisfied(&vec![rule(RuleAction::Allow)], WIN32));
    assert!(!spec_rules_satisfied(
        &vec![rule(RuleAction::Allow)],
        Platform { os: Os::Windows, arch: Arch::X64 }
    ));
    assert!(!spec_rules_satisfied(&vec![rule(RuleAction::Disallow)], WIN32));
}

#[test]
fn an_os_condition_without_fields_matches_everywhere() {
    let rule = |action| Rule {
        action,
        os: Some(RuleOs { name: None, version: None, arch: None }),
        features: None,
    };
    assert!(spec_rules_satisfied(&vec![rule(RuleAction::Allow)], LINUX64));
    assert!(!spec_rules_satisfied(&vec![rule(RuleAction::Disallow)], LINUX64));
}

#[test]
fn a_feature_condition_always_fails() {
    let demo = |enabled| Rule {
        action: RuleAction::Allow,
        os: None,
        features: Some(vec![RuleFeature { name: "is_demo_user".to_string(), enabled }]),
    };
    assert!(!spec_rules_satisfied(&vec![demo(true)], LINUX64));
    assert!(!spec_rules_satisfied(&vec![demo(false)], LINUX64));
    let empty = Rule { action: RuleAction::Disallow, os: None, features: Some(vec![]) };
    assert!(!spec_rules_satisfied(&vec![empty], LINUX64));
    assert!(!spec_rules_satisfied(&vec![plain(RuleAction::Allow), demo(true)], LINUX64));
}

#[test]
fn evaluating_twice_gives_the_same() {
    let rules = vec![plain(RuleAction::Allow), for_os(RuleAction::Disallow, "osx")];
    assert_eq!(spec_rules_satisfied(&rules, MAC64), spec_rules_satisfied(&rules, MAC64));
    assert_eq!(spec_rules_satisfied(&rules, LINUX64), spec_rules_satisfied(&rules, LINUX64));
}

#[test]
fn actions_are_read_from_their_names() {
    assert_eq!(RuleAction::from_name("allow"), Some(RuleAction::Allow));
    assert_eq!(RuleAction::from_name("disallow"), Some(RuleAction::Disallow));
    assert_eq!(RuleAction::from_name("Allow"), None);
    assert_eq!(RuleAction::from_name(""), None);
    assert_eq!(RuleAction::from_name("deny"), None);
}
