use vstd::prelude::*;
use crate::policy::{
    decision_for, first_match, rule_matches, wildcard, lemma_first_match_is, lemma_no_match,
    EnhancedPolicy, PolicyAction, PolicyId, PolicyRule, Timestamp,
};
use crate::store::EngineView;

verus! {

/// Once a policy is deployed, looking up its identity gives that very policy
/// back (same name, rules and version), and so does looking up its name.
pub proof fn lemma_deploy_then_get(s: EngineView, p: EnhancedPolicy)
    ensures
        s.deployed(p).lookup(p.id) == Some(p),
        s.deployed(p).lookup_name(p.name@) == Some(p),
{
}

/// Deploying a policy, replacing its rules and deploying it again leaves a
/// snapshot whose version is exactly one higher, whose creation time is
/// kept, and whose update time is the new one.
pub proof fn lemma_redeploy_bumps_version(
    s: EngineView,
    p: EnhancedPolicy,
    rules: Vec<PolicyRule>,
    now: Timestamp,
)
    requires
        p.version < u64::MAX,
        now != p.updated_at,
    ensures
        s.deployed(p).deployed(p.with_rules(rules, now)).lookup(p.id) matches Some(q) && {
            &&& q.version == p.version + 1
            &&& q.created_at == p.created_at
            &&& q.updated_at != p.updated_at
            &&& q.rules == rules
        },
{
}

/// A rule list that opens with an `Allow` rule on the wildcard allows every
/// resource, by that first rule.
pub proof fn lemma_wildcard_allows_all(rules: Seq<PolicyRule>, resource: Seq<char>)
    requires
        rules.len() > 0,
        rules[0].action == PolicyAction::Allow,
        rules[0].resource@ == wildcard(),
    ensures
        decision_for(rules, resource) == PolicyAction::Allow,
        first_match(rules, resource) == Some(0int),
{
    assert(rule_matches(rules[0], resource));
    lemma_first_match_is(rules, resource, 0);
}

/// When no rule matches a resource, the decision is `Deny` and no rule is
/// reported as matched.
pub proof fn lemma_no_match_denies(rules: Seq<PolicyRule>, resource: Seq<char>)
    requires
        forall|j: int| 0 <= j < rules.len() ==> !rule_matches(#[trigger] rules[j], resource),
    ensures
        decision_for(rules, resource) == PolicyAction::Deny,
        first_match(rules, resource) == None::<int>,
{
    lemma_no_match(rules, resource);
}

/// A request for an identity that is not stored is decided by the default
/// policy when one is set, and by nothing (so evaluation fails) otherwise.
pub proof fn lemma_unknown_identity_falls_back(s: EngineView, id: PolicyId)
    requires
        !s.policies.contains_key(id),
    ensures
        s.default_policy is None ==> s.resolve(id) is None,
        s.default_policy matches Some(d) ==> s.resolve(id) == Some(d),
{
}

/// After a policy is removed, its identity is no longer found, and no name
/// leads to it.
pub proof fn lemma_remove_then_get(s: EngineView, id: PolicyId)
    ensures
        s.removed(id).lookup(id) is None,
        forall|n: Seq<char>| #[trigger] s.removed(id).names.contains_key(n) ==> s.removed(id).names[n] != id,
{
}

} // verus!
