//! Rule predicates: whether a list of rules allows an element on a platform
//! with a set of enabled features.

use vstd::prelude::*;
use crate::json::{find_member, lookup, Json, JsonMember};
use crate::outside::{regex_is_match, regex_match};
use crate::platform::{os_family_name, PlatformInfo};
use crate::text::{str_eq, views};

verus! {

/// `name` is one of the enabled features.
pub open spec fn feature_enabled(enabled: Seq<Seq<char>>, name: Seq<char>) -> bool {
    exists|i: int| 0 <= i < enabled.len() && enabled[i] == name
}

/// Whether `name` is one of the enabled features.
pub fn is_feature_enabled(enabled_features: &Vec<String>, name: &str) -> (r: bool)
    ensures
        r == feature_enabled(views(enabled_features@), name@),
{
    let mut i: usize = 0;
    while i < enabled_features.len()
        invariant
            i <= enabled_features.len(),
            forall|j: int| 0 <= j < i ==> views(enabled_features@)[j] != name@,
        decreases enabled_features.len() - i,
    {
        if str_eq(enabled_features[i].as_str(), name) {
            proof {
                assert(views(enabled_features@)[i as int] == name@);
            }
            return true;
        }
        i += 1;
    }
    false
}

/// Every listed feature is enabled and asked for with `true`.
pub open spec fn all_features_pass(features: Seq<JsonMember>, enabled: Seq<Seq<char>>) -> bool {
    forall|i: int|
        0 <= i < features.len() ==> feature_enabled(enabled, (#[trigger] features[i]).key@)
            && features[i].value == Json::Bool(true)
}

/// The feature part of a rule holds: the rule names no features, or each
/// one it names is enabled and asked for with `true`.
pub open spec fn features_pass(rule: Json, enabled: Seq<Seq<char>>) -> bool {
    match rule.member("features"@) {
        Some(Json::Object(features)) => all_features_pass(features@, enabled),
        _ => true,
    }
}

/// Whether the feature part of a rule holds.
pub fn check_features(rule: &Json, enabled_features: &Vec<String>) -> (r: bool)
    ensures
        r == features_pass(*rule, views(enabled_features@)),
{
    let features = match rule.get("features") {
        Some(Json::Object(features)) => features,
        _ => {
            return true;
        },
    };
    let mut i: usize = 0;
    while i < features.len()
        invariant
            i <= features.len(),
            rule.member("features"@) == Some(Json::Object(*features)),
            forall|j: int|
                0 <= j < i ==> feature_enabled(
                    views(enabled_features@),
                    (#[trigger] features@[j]).key@,
                ) && features@[j].value == Json::Bool(true),
        decreases features.len() - i,
    {
        let enabled = is_feature_enabled(enabled_features, features[i].key.as_str());
        let wanted = match &features[i].value {
            Json::Bool(b) => *b,
            _ => false,
        };
        if !(enabled && wanted) {
            proof {
                let entry = features@[i as int];
                assert(!(feature_enabled(views(enabled_features@), entry.key@) && entry.value
                    == Json::Bool(true)));
            }
            return false;
        }
        i += 1;
    }
    true
}

/// The name part of an operating-system predicate holds.
pub open spec fn os_name_passes(os: Seq<JsonMember>, platform: PlatformInfo) -> bool {
    match find_member(os, "name"@) {
        Some(Json::Text(name)) => name@ == os_family_name(platform.os_family),
        _ => true,
    }
}

/// The architecture part of an operating-system predicate holds.
pub open spec fn os_arch_passes(os: Seq<JsonMember>, platform: PlatformInfo) -> bool {
    match find_member(os, "arch"@) {
        Some(Json::Text(arch)) => arch@ == platform.arch@,
        _ => true,
    }
}

/// The regular expression that an operating-system predicate asks the
/// system version to match, if it asks for one.
pub open spec fn os_version_pattern(os: Seq<JsonMember>) -> Option<Seq<char>> {
    match find_member(os, "version"@) {
        Some(Json::Text(pattern)) => Some(pattern@),
        _ => None,
    }
}

/// The operating-system part of a rule holds, given whether the system
/// version matched the rule's pattern.
pub open spec fn os_pass_given(rule: Json, platform: PlatformInfo, version_matched: bool) -> bool {
    match rule.member("os"@) {
        Some(Json::Object(os)) => os_name_passes(os@, platform) && (os_version_pattern(os@)
            is Some ==> version_matched) && os_arch_passes(os@, platform),
        _ => true,
    }
}

/// Whether the system version matches the pattern of a rule. A pattern that
/// is no regular expression matches nothing.
pub open spec fn version_matches(rule: Json, platform: PlatformInfo) -> bool {
    match rule.member("os"@) {
        Some(Json::Object(os)) => match os_version_pattern(os@) {
            Some(pattern) => regex_match(pattern, platform.os_version@) == Some(true),
            None => true,
        },
        _ => true,
    }
}

/// The operating-system part of a rule holds on `platform`.
pub open spec fn os_pass(rule: Json, platform: PlatformInfo) -> bool {
    os_pass_given(rule, platform, version_matches(rule, platform))
}

/// Whether the operating-system part of a rule holds, with the outcome of the
/// version match handed in.
pub fn check_os_given(rule: &Json, platform: &PlatformInfo, version_matched: bool) -> (r: bool)
    ensures
        r == os_pass_given(*rule, *platform, version_matched),
{
    let os = match rule.get("os") {
        Some(Json::Object(os)) => os,
        _ => {
            return true;
        },
    };
    let name_passed = match lookup(os, "name") {
        Some(Json::Text(name)) => {
            let family = platform.os_family.to_string();
            str_eq(name.as_str(), family.as_str())
        },
        _ => true,
    };
    let version_passed = match lookup(os, "version") {
        Some(Json::Text(_)) => version_matched,
        _ => true,
    };
    let arch_passed = match lookup(os, "arch") {
        Some(Json::Text(arch)) => str_eq(arch.as_str(), platform.arch.as_str()),
        _ => true,
    };
    name_passed && version_passed && arch_passed
}

/// Whether the system version matches the version pattern of a rule.
pub fn check_os_version(rule: &Json, platform: &PlatformInfo) -> (r: bool)
    ensures
        r == version_matches(*rule, *platform),
{
    let os = match rule.get("os") {
        Some(Json::Object(os)) => os,
        _ => {
            return true;
        },
    };
    match lookup(os, "version") {
        Some(Json::Text(pattern)) => {
            match regex_is_match(pattern.as_str(), platform.os_version.as_str()) {
                Some(matched) => matched,
                None => false,
            }
        },
        _ => true,
    }
}

/// Whether the operating-system part of a rule holds on `platform`.
pub fn check_os(rule: &Json, platform: &PlatformInfo) -> (r: bool)
    ensures
        r == os_pass(*rule, *platform),
{
    let version_matched = check_os_version(rule, platform);
    check_os_given(rule, platform, version_matched)
}

/// What a rule decides: `allow` or `disallow`, or nothing where it has no
/// action.
pub open spec fn rule_action(rule: Json) -> Option<bool> {
    match rule.member("action"@) {
        Some(Json::Text(action)) => Some(action@ == "allow"@),
        _ => None,
    }
}

/// A rule applies: it has an action, and all its predicates hold.
pub open spec fn rule_applies(rule: Json, platform: PlatformInfo, enabled: Seq<Seq<char>>) -> bool {
    rule_action(rule) is Some && os_pass(rule, platform) && features_pass(rule, enabled)
}

/// The verdict after the rules have been gone through in order, starting
/// from "disallow": each rule that applies sets the verdict to its action.
pub open spec fn verdict_after(
    rules: Seq<Json>,
    platform: PlatformInfo,
    enabled: Seq<Seq<char>>,
) -> bool
    decreases rules.len(),
{
    if rules.len() == 0 {
        false
    } else if rule_applies(rules.last(), platform, enabled) {
        rule_action(rules.last())->0
    } else {
        verdict_after(rules.drop_last(), platform, enabled)
    }
}

/// Whether a list of rules allows: no rules allow; otherwise the last rule
/// that applies decides, and where none applies the answer is no.
pub open spec fn rules_allow(rules: Seq<Json>, platform: PlatformInfo, enabled: Seq<Seq<char>>) -> bool {
    rules.len() == 0 || verdict_after(rules, platform, enabled)
}

/// Whether `rules` allow on `platform` with the given features enabled.
pub fn check_allowed(rules: &Vec<Json>, platform: &PlatformInfo, enabled_features: &Vec<String>) -> (r:
    bool)
    ensures
        r == rules_allow(rules@, *platform, views(enabled_features@)),
{
    if rules.len() == 0 {
        return true;
    }
    let mut allow = false;
    let mut i: usize = 0;
    while i < rules.len()
        invariant
            i <= rules.len(),
            allow == verdict_after(rules@.take(i as int), *platform, views(enabled_features@)),
        decreases rules.len() - i,
    {
        let rule = &rules[i];
        proof {
            assert(rules@.take(i + 1).drop_last() == rules@.take(i as int));
            assert(rules@.take(i + 1).last() == *rule);
        }
        let action = match rule.get("action") {
            Some(Json::Text(action)) => Some(str_eq(action.as_str(), "allow")),
            _ => None,
        };
        match action {
            Some(verdict) => {
                let os_passed = check_os(rule, platform);
                let features_passed = check_features(rule, enabled_features);
                if os_passed && features_passed {
                    allow = verdict;
                }
            },
            None => {},
        }
        i += 1;
    }
    proof {
        assert(rules@.take(rules@.len() as int) == rules@);
    }
    allow
}

} // verus!
