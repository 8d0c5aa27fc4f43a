//! Allow/disallow rules that gate libraries, native bundles and arguments
//! on the platform.

use vstd::prelude::*;
use crate::platform::{arch_name, get_arch, get_os_minecraft, os_minecraft_name, Platform};
use crate::text::{option_view, option_views, str_eq, views};

verus! {

/// What a rule demands of its condition.
#[derive(Clone, Copy, Debug, PartialEq, Eq, Structural)]
pub enum RuleAction {
    /// The condition must hold.
    Allow,
    /// The condition must not hold.
    Disallow,
}

/// A condition on the operating system; an absent field matches anything.
#[derive(Debug)]
pub struct RuleOs {
    pub name: Option<String>,
    pub version: Option<String>,
    pub arch: Option<String>,
}

/// One named feature flag of a feature condition.
#[derive(Debug)]
pub struct RuleFeature {
    pub name: String,
    pub enabled: bool,
}

/// A conditional clause: an action with an optional platform condition and
/// an optional feature condition.
#[derive(Debug)]
pub struct Rule {
    pub action: RuleAction,
    pub os: Option<RuleOs>,
    pub features: Option<Vec<RuleFeature>>,
}

/// The mathematical value of a [`RuleOs`].
pub struct RuleOsView {
    pub name: Option<Seq<char>>,
    pub version: Option<Seq<char>>,
    pub arch: Option<Seq<char>>,
}

impl View for RuleOs {
    type V = RuleOsView;

    open spec fn view(&self) -> RuleOsView {
        RuleOsView {
            name: option_view(self.name),
            version: option_view(self.version),
            arch: option_view(self.arch),
        }
    }
}

/// The mathematical value of a [`RuleFeature`].
pub struct RuleFeatureView {
    pub name: Seq<char>,
    pub enabled: bool,
}

impl View for RuleFeature {
    type V = RuleFeatureView;

    open spec fn view(&self) -> RuleFeatureView {
        RuleFeatureView { name: self.name@, enabled: self.enabled }
    }
}

/// The mathematical value of a [`Rule`].
pub struct RuleView {
    pub action: RuleAction,
    pub os: Option<RuleOsView>,
    pub features: Option<Seq<RuleFeatureView>>,
}

impl View for Rule {
    type V = RuleView;

    open spec fn view(&self) -> RuleView {
        RuleView {
            action: self.action,
            os: option_view(self.os),
            features: option_views(self.features),
        }
    }
}

/// The action's name in a version document.
pub open spec fn action_name(action: RuleAction) -> Seq<char> {
    match action {
        RuleAction::Allow => "allow"@,
        RuleAction::Disallow => "disallow"@,
    }
}

/// Whether a platform condition matches `platform`: the name, where given,
/// is the platform's name in the game's convention, and the architecture,
/// where given, is the platform's architecture. The version is not looked at.
pub open spec fn os_matches(os: RuleOsView, platform: Platform) -> bool {
    &&& os.name matches Some(name) ==> name == os_minecraft_name(platform.os)
    &&& os.arch matches Some(arch) ==> arch == arch_name(platform.arch)
}

/// Whether one rule lets its subject through. A platform condition must
/// match under `Allow` and must not match under `Disallow`. No feature can
/// be evaluated, so a rule with a feature condition never passes.
pub open spec fn rule_passes(rule: RuleView, platform: Platform) -> bool {
    &&& rule.os matches Some(os) ==> (os_matches(os, platform) <==> rule.action == RuleAction::Allow)
    &&& rule.features is None
}

/// Whether a list of rules lets its subject through: every rule passes.
pub open spec fn rules_satisfied(rules: Seq<RuleView>, platform: Platform) -> bool {
    forall|i: int| 0 <= i < rules.len() ==> rule_passes(#[trigger] rules[i], platform)
}

/// Whether an optional list of rules lets its subject through; no list at
/// all does.
pub open spec fn optional_rules_satisfied(rules: Option<Seq<RuleView>>, platform: Platform)
    -> bool {
    rules matches Some(list) ==> rules_satisfied(list, platform)
}

impl RuleAction {
    /// Reads an action from its name in a version document.
    pub fn from_name(name: &str) -> (action: Option<RuleAction>)
        ensures
            match action {
                Some(a) => name@ == action_name(a),
                None => name@ != "allow"@ && name@ != "disallow"@,
            },
    {
        if str_eq(name, "allow") {
            Some(RuleAction::Allow)
        } else if str_eq(name, "disallow") {
            Some(RuleAction::Disallow)
        } else {
            None
        }
    }
}

/// Whether a platform condition matches the platform.
fn os_condition_matches(os: &RuleOs, platform: Platform) -> (ok: bool)
    ensures
        ok == os_matches(os@, platform),
{
    let os_ok = match &os.name {
        Some(name) => str_eq(name.as_str(), get_os_minecraft(platform)),
        None => true,
    };
    let arch_ok = match &os.arch {
        Some(arch) => str_eq(arch.as_str(), get_arch(platform)),
        None => true,
    };
    os_ok && arch_ok
}

/// Evaluates a list of rules on a platform.
pub fn spec_rules_satisfied(rules: &Vec<Rule>, platform: Platform) -> (ok: bool)
    ensures
        ok == rules_satisfied(views(rules@), platform),
{
    let mut i: usize = 0;
    while i < rules.len()
        invariant
            i <= rules.len(),
            forall|k: int| 0 <= k < i ==> rule_passes(#[trigger] views(rules@)[k], platform),
        decreases rules.len() - i,
    {
        let rule = &rules[i];
        assert(views(rules@)[i as int] == rule@);
        let allow_match = match rule.action {
            RuleAction::Allow => true,
            RuleAction::Disallow => false,
        };
        match &rule.os {
            Some(os) => {
                let matched = os_condition_matches(os, platform);
                if matched != allow_match {
                    return false;
                }
            },
            None => {},
        }
        if rule.features.is_some() {
            return false;
        }
        i += 1;
    }
    true
}

/// Evaluates an optional list of rules on a platform.
pub fn optional_rules_pass(rules: &Option<Vec<Rule>>, platform: Platform) -> (ok: bool)
    ensures
        ok == optional_rules_satisfied(option_views(*rules), platform),
{
    match rules {
        Some(list) => spec_rules_satisfied(list, platform),
        None => true,
    }
}

/// An empty list of rules is satisfied on every platform.
pub proof fn lemma_no_rules_satisfied(platform: Platform)
    ensures
        rules_satisfied(Seq::<RuleView>::empty(), platform),
{
}

/// A list is satisfied exactly when each of its rules passes on its own,
/// so one failing rule fails the list wherever it stands.
pub proof fn lemma_rules_concat(a: Seq<RuleView>, b: Seq<RuleView>, platform: Platform)
    ensures
        rules_satisfied(a + b, platform) <==> rules_satisfied(a, platform) && rules_satisfied(
            b,
            platform,
        ),
{
    if rules_satisfied(a + b, platform) {
        assert forall|i: int| 0 <= i < a.len() implies rule_passes(#[trigger] a[i], platform) by {
            assert((a + b)[i] == a[i]);
        }
        assert forall|i: int| 0 <= i < b.len() implies rule_passes(#[trigger] b[i], platform) by {
            assert((a + b)[a.len() + i] == b[i]);
        }
    }
}

/// The order of the rules does not change the outcome.
pub proof fn lemma_rules_order_irrelevant(a: Seq<RuleView>, b: Seq<RuleView>, platform: Platform)
    ensures
        rules_satisfied(a + b, platform) == rules_satisfied(b + a, platform),
{
    lemma_rules_concat(a, b, platform);
    lemma_rules_concat(b, a, platform);
}

/// Evaluating a list twice over is the same as evaluating it once.
pub proof fn lemma_rules_idempotent(rules: Seq<RuleView>, platform: Platform)
    ensures
        rules_satisfied(rules + rules, platform) == rules_satisfied(rules, platform),
{
    lemma_rules_concat(rules, rules, platform);
}

} // verus!
