//! Platform-conditional rules attached to libraries and launch arguments.

use vstd::prelude::*;

use crate::error::{message, ManifestError};
use crate::text::str_eq;

verus! {

/// The host that rules are evaluated against.
pub struct Platform {
    /// Operating system identifier, as Rust names it (`linux`, `macos`, `windows`).
    pub os: String,
    /// Architecture identifier, as Rust names it (`x86`, `x86_64`, `aarch64`).
    pub arch: String,
}

/// What a rule does when its predicate matches.
#[derive(Debug, Clone, Copy, PartialEq, Eq, Structural)]
pub enum RuleAction {
    Allow,
    Disallow,
}

/// The sub-conditions an operating-system predicate may hold.
#[derive(Debug, Clone, Copy, PartialEq, Eq, Structural)]
pub enum OsConditionKey {
    Name,
    Arch,
    Version,
}

/// One sub-condition of an operating-system predicate.
pub struct OsCondition {
    pub key: OsConditionKey,
    pub value: String,
}

/// One condition of a feature predicate.
pub struct FeatureCondition {
    pub name: String,
    pub value: bool,
}

/// The condition a rule inspects.
pub enum RulePredicate {
    OperatingSystem(Vec<OsCondition>),
    Features(Vec<FeatureCondition>),
}

/// An action together with an optional predicate.
pub struct Rule {
    pub action: RuleAction,
    pub predicate: Option<RulePredicate>,
}

/// A name sub-condition matches the host's OS, where `osx` also names `macos`.
pub open spec fn os_name_matches(value: Seq<char>, os: Seq<char>) -> bool {
    value == os || (os == "macos"@ && value == "osx"@)
}

/// An arch sub-condition matches the host's arch, where `x86` also covers `x86_64`.
pub open spec fn arch_matches(value: Seq<char>, arch: Seq<char>) -> bool {
    value == arch || (value == "x86"@ && arch == "x86_64"@)
}

/// A version sub-condition is accepted without being checked: it neither makes
/// the predicate match nor stops it from matching.
pub open spec fn condition_matches(c: OsCondition, p: Platform) -> bool {
    match c.key {
        OsConditionKey::Name => os_name_matches(c.value@, p.os@),
        OsConditionKey::Arch => arch_matches(c.value@, p.arch@),
        OsConditionKey::Version => false,
    }
}

/// Whether a rule's predicate matches the host. A rule without a predicate
/// always matches; a feature predicate never does.
pub open spec fn predicate_matches(pred: Option<RulePredicate>, p: Platform) -> bool {
    match pred {
        None => true,
        Some(RulePredicate::Features(_)) => false,
        Some(RulePredicate::OperatingSystem(conds)) => exists|i: int|
            0 <= i < conds@.len() && #[trigger] condition_matches(conds@[i], p),
    }
}

/// The directional predicate of a rule: an allow rule holds when it matches,
/// a disallow rule when it does not.
pub open spec fn rule_holds(r: Rule, p: Platform) -> bool {
    match r.action {
        RuleAction::Allow => predicate_matches(r.predicate, p),
        RuleAction::Disallow => !predicate_matches(r.predicate, p),
    }
}

/// A rule list applies when every rule in it holds (so an empty list applies).
pub open spec fn rules_hold(rules: Seq<Rule>, p: Platform) -> bool {
    forall|i: int| 0 <= i < rules.len() ==> #[trigger] rule_holds(rules[i], p)
}

impl RuleAction {
    /// Reads an action name; any name but `allow` and `disallow` is refused.
    pub fn parse(s: &str) -> (r: Result<RuleAction, ManifestError>)
        ensures
            s@ == "allow"@ <==> r == Ok::<RuleAction, ManifestError>(RuleAction::Allow),
            s@ == "disallow"@ <==> r == Ok::<RuleAction, ManifestError>(RuleAction::Disallow),
            r is Err <==> (s@ != "allow"@ && s@ != "disallow"@),
            r matches Err(ManifestError::ConfigurationError(m)) ==> m@ == "Unknown rule action: "@
                + s@,
    {
        proof {
            reveal_strlit("allow");
            reveal_strlit("disallow");
            assert("allow"@.len() != "disallow"@.len());
        }
        if str_eq(s, "allow") {
            Ok(RuleAction::Allow)
        } else if str_eq(s, "disallow") {
            Ok(RuleAction::Disallow)
        } else {
            Err(ManifestError::ConfigurationError(message("Unknown rule action: ", s)))
        }
    }
}

impl OsConditionKey {
    /// Reads a sub-condition key; any key but `name`, `arch` and `version` is refused.
    pub fn parse(s: &str) -> (r: Result<OsConditionKey, ManifestError>)
        ensures
            s@ == "name"@ <==> r == Ok::<OsConditionKey, ManifestError>(OsConditionKey::Name),
            s@ == "arch"@ <==> r == Ok::<OsConditionKey, ManifestError>(OsConditionKey::Arch),
            s@ == "version"@ <==> r == Ok::<OsConditionKey, ManifestError>(
                OsConditionKey::Version,
            ),
            r is Err <==> (s@ != "name"@ && s@ != "arch"@ && s@ != "version"@),
            r matches Err(ManifestError::ConfigurationError(m)) ==> m@ == "Unknown rule map key: "@
                + s@,
    {
        proof {
            reveal_strlit("name");
            reveal_strlit("arch");
            reveal_strlit("version");
            assert("name"@[0] != "arch"@[0]);
        }
        if str_eq(s, "name") {
            Ok(OsConditionKey::Name)
        } else if str_eq(s, "arch") {
            Ok(OsConditionKey::Arch)
        } else if str_eq(s, "version") {
            Ok(OsConditionKey::Version)
        } else {
            Err(ManifestError::ConfigurationError(message("Unknown rule map key: ", s)))
        }
    }
}

/// Whether one sub-condition matches the host.
fn os_condition_matches(c: &OsCondition, platform: &Platform) -> (r: bool)
    ensures
        r == condition_matches(*c, *platform),
{
    match c.key {
        OsConditionKey::Name => {
            str_eq(c.value.as_str(), platform.os.as_str()) || (str_eq(
                platform.os.as_str(),
                "macos",
            ) && str_eq(c.value.as_str(), "osx"))
        },
        OsConditionKey::Arch => {
            str_eq(c.value.as_str(), platform.arch.as_str()) || (str_eq(c.value.as_str(), "x86")
                && str_eq(platform.arch.as_str(), "x86_64"))
        },
        OsConditionKey::Version => false,
    }
}

/// Checks if a single rule holds on the host: an allow rule that matches, or a
/// disallow rule that does not.
pub fn rule_matches(rule: &Rule, platform: &Platform) -> (r: bool)
    ensures
        r == rule_holds(*rule, *platform),
{
    let matched = match &rule.predicate {
        None => true,
        Some(RulePredicate::Features(_)) => false,
        Some(RulePredicate::OperatingSystem(conds)) => {
            let mut found = false;
            let mut i: usize = 0;
            while i < conds.len()
                invariant
                    i <= conds@.len(),
                    found <==> exists|k: int|
                        0 <= k < i && #[trigger] condition_matches(conds@[k], *platform),
                decreases conds@.len() - i,
            {
                if os_condition_matches(&conds[i], platform) {
                    found = true;
                }
                i = i + 1;
            }
            found
        },
    };
    match rule.action {
        RuleAction::Allow => matched,
        RuleAction::Disallow => !matched,
    }
}

/// Whether a rule list applies on the host: every rule holds. Stops at the
/// first rule that does not.
pub fn rules_match(rules: &[Rule], platform: &Platform) -> (r: bool)
    ensures
        r == rules_hold(rules@, *platform),
{
    let mut i: usize = 0;
    while i < rules.len()
        invariant
            i <= rules@.len(),
            forall|k: int| 0 <= k < i ==> #[trigger] rule_holds(rules@[k], *platform),
        decreases rules@.len() - i,
    {
        if !rule_matches(&rules[i], platform) {
            return false;
        }
        i = i + 1;
    }
    true
}

/// A disallow rule whose predicate names the host's operating system makes the
/// whole list fail, whatever the other rules say.
pub proof fn lemma_disallowed_os_name_excludes(
    rules: Seq<Rule>,
    p: Platform,
    i: int,
    j: int,
)
    requires
        0 <= i < rules.len(),
        rules[i].action == RuleAction::Disallow,
        rules[i].predicate matches Some(RulePredicate::OperatingSystem(conds)) && 0 <= j
            < conds@.len() && conds@[j].key == OsConditionKey::Name && conds@[j].value@ == p.os@,
    ensures
        !rules_hold(rules, p),
{
    let conds = rules[i].predicate->Some_0->OperatingSystem_0;
    assert(condition_matches(conds@[j], p));
    assert(!rule_holds(rules[i], p));
}

} // verus!
