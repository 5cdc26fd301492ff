use vstd::prelude::*;
use crate::error::ReaperError;
use crate::policy::{
    decision_for, first_match, index_of, parse_policy_id, uuid_from_text, EnhancedPolicy, PolicyId,
    PolicyRequest,
};
use crate::stats::AgentStats;
use crate::store::{hyphenated, into_owned, PolicyDecision, PolicyEngine};
use crate::wire::{converted, rules_from_wire, WireRule};

verus! {

/// Why an agent could not serve a request.
#[derive(Debug, Clone)]
pub enum AgentError {
    /// The policy identity given is not a UUID.
    InvalidId,
    /// No stored policy goes by the name given.
    UnknownName,
    /// Neither an identity nor a name was given, and no policy is stored.
    NoPolicies,
    /// The rule at this position names no known action.
    InvalidAction(usize),
    /// The store could not decide the request.
    Store(ReaperError),
}

/// `s` is `old` with one more cache hit counted.
pub open spec fn hit_counted(s: AgentStats, old: AgentStats) -> bool {
    &&& s.policy_cache_hits == (old.policy_cache_hits + 1) % 0x1_0000_0000_0000_0000
    &&& s.policy_cache_misses == old.policy_cache_misses
    &&& s.requests_processed == old.requests_processed
    &&& s.total_evaluation_time_ns == old.total_evaluation_time_ns
}

/// `s` is `old` with one more cache miss counted.
pub open spec fn miss_counted(s: AgentStats, old: AgentStats) -> bool {
    &&& s.policy_cache_misses == (old.policy_cache_misses + 1) % 0x1_0000_0000_0000_0000
    &&& s.policy_cache_hits == old.policy_cache_hits
    &&& s.requests_processed == old.requests_processed
    &&& s.total_evaluation_time_ns == old.total_evaluation_time_ns
}

/// Picks the policy a request is meant for: the identity given, else the
/// policy the name given leads to (counting a cache hit or miss), else any
/// stored policy.
pub fn select_policy(
    engine: &PolicyEngine,
    stats: &mut AgentStats,
    policy_id: Option<String>,
    policy_name: Option<String>,
) -> (r: Result<PolicyId, AgentError>)
    requires
        engine@.wf(),
    ensures
        match policy_id {
            Some(t) => *final(stats) == *old(stats) && match uuid_from_text(t@) {
                Some(id) => r == Ok::<PolicyId, AgentError>(id),
                None => r == Err::<PolicyId, AgentError>(AgentError::InvalidId),
            },
            None => match policy_name {
                Some(n) => match engine@.lookup_name(n@) {
                    Some(p) => r == Ok::<PolicyId, AgentError>(p.id) && hit_counted(*final(stats), *old(stats)),
                    None => r == Err::<PolicyId, AgentError>(AgentError::UnknownName)
                        && miss_counted(*final(stats), *old(stats)),
                },
                None => {
                    &&& *final(stats) == *old(stats)
                    &&& r matches Ok(id) ==> engine@.policies.contains_key(id)
                    &&& r is Err ==> r == Err::<PolicyId, AgentError>(AgentError::NoPolicies)
                    &&& r is Err <==> engine@.policies.dom() =~= Set::empty()
                },
            },
        },
{
    match policy_id {
        Some(text) => match parse_policy_id(text.as_str()) {
            Some(id) => Ok(id),
            None => Err(AgentError::InvalidId),
        },
        None => match policy_name {
            Some(name) => match engine.get_policy_by_name(name.as_str()) {
                Some(policy) => {
                    stats.record_cache_hit();
                    Ok(policy.id)
                },
                None => {
                    stats.record_cache_miss();
                    Err(AgentError::UnknownName)
                },
            },
            None => {
                let policies = engine.list_policies();
                if policies.len() == 0 {
                    proof {
                        assert forall|k: PolicyId| !engine@.policies.contains_key(k) by {
                            if engine@.policies.contains_key(k) {
                                let i = choose|i: int| 0 <= i < policies@.len() && #[trigger] policies@[i].id == k;
                            }
                        }
                    }
                    Err(AgentError::NoPolicies)
                } else {
                    proof {
                        assert(engine@.policies.dom().contains(policies@[0].id));
                    }
                    Ok(policies[0].id)
                }
            },
        },
    }
}

/// `r` is the decision of `request` by `p`.
pub open spec fn decided_by(p: EnhancedPolicy, request: PolicyRequest, r: Result<PolicyDecision, AgentError>) -> bool {
    &&& r matches Ok(d)
    &&& d.decision == decision_for(p.rules@, request.resource@)
    &&& index_of(d.matched_rule) == first_match(p.rules@, request.resource@)
    &&& d.policy_id == p.id
    &&& d.policy_version == p.version
}

/// `s` is `old` with one more evaluation of `ns` nanoseconds counted.
pub open spec fn evaluation_counted(s: AgentStats, old: AgentStats, ns: u64) -> bool {
    &&& s.requests_processed == (old.requests_processed + 1) % 0x1_0000_0000_0000_0000
    &&& s.total_evaluation_time_ns == (old.total_evaluation_time_ns + ns) % 0x1_0000_0000_0000_0000
    &&& s.policy_cache_hits == old.policy_cache_hits
    &&& s.policy_cache_misses == old.policy_cache_misses
}

/// The time an outcome reports its evaluation took, or 0 for a failure.
pub open spec fn reported_nanos(r: Result<PolicyDecision, AgentError>) -> u64 {
    match r {
        Ok(d) => d.evaluation_time_ns,
        Err(_) => 0,
    }
}

/// Serves one request: picks its policy as `select_policy` does, decides the
/// request by it, and counts the evaluation, or a cache miss when the store
/// has no policy to decide by.
pub fn evaluate_request(
    engine: &PolicyEngine,
    stats: &mut AgentStats,
    policy_id: Option<String>,
    policy_name: Option<String>,
    request: &PolicyRequest,
) -> (r: Result<PolicyDecision, AgentError>)
    requires
        engine@.wf(),
    ensures
        match policy_id {
            Some(t) => match uuid_from_text(t@) {
                None => r == Err::<PolicyDecision, AgentError>(AgentError::InvalidId) && *final(stats) == *old(stats),
                Some(id) => match engine@.resolve(id) {
                    Some(p) => decided_by(p, *request, r)
                        && evaluation_counted(*final(stats), *old(stats), reported_nanos(r)),
                    None => {
                        &&& r matches Err(AgentError::Store(ReaperError::PolicyNotFound { policy_id: text }))
                        &&& text@ == hyphenated(id)
                        &&& miss_counted(*final(stats), *old(stats))
                    },
                },
            },
            None => match policy_name {
                Some(n) => match engine@.lookup_name(n@) {
                    Some(p) => {
                        &&& decided_by(p, *request, r)
                        &&& final(stats).policy_cache_hits == (old(stats).policy_cache_hits + 1) % 0x1_0000_0000_0000_0000
                        &&& final(stats).policy_cache_misses == old(stats).policy_cache_misses
                        &&& final(stats).requests_processed == (old(stats).requests_processed + 1) % 0x1_0000_0000_0000_0000
                        &&& final(stats).total_evaluation_time_ns == (old(stats).total_evaluation_time_ns
                            + reported_nanos(r)) % 0x1_0000_0000_0000_0000
                    },
                    None => r == Err::<PolicyDecision, AgentError>(AgentError::UnknownName)
                        && miss_counted(*final(stats), *old(stats)),
                },
                None => if engine@.policies.dom() =~= Set::empty() {
                    r == Err::<PolicyDecision, AgentError>(AgentError::NoPolicies) && *final(stats) == *old(stats)
                } else {
                    &&& exists|k: PolicyId| #[trigger] engine@.policies.contains_key(k)
                        && decided_by(engine@.policies[k], *request, r)
                    &&& evaluation_counted(*final(stats), *old(stats), reported_nanos(r))
                },
            },
        },
{
    let id = match select_policy(engine, stats, policy_id, policy_name) {
        Ok(id) => id,
        Err(e) => {
            return Err(e);
        },
    };
    match engine.evaluate(&id, request) {
        Ok(decision) => {
            stats.record_evaluation(decision.evaluation_time_ns);
            Ok(decision)
        },
        Err(e) => {
            stats.record_cache_miss();
            Err(AgentError::Store(e))
        },
    }
}

/// Builds a policy at version 1 under the identity given, from wire rules,
/// and deploys it, replacing any policy under that identity.
pub fn install_policy(
    engine: &mut PolicyEngine,
    policy_id: &str,
    name: String,
    description: String,
    rules: Vec<WireRule>,
) -> (r: Result<EnhancedPolicy, AgentError>)
    requires
        old(engine)@.wf(),
    ensures
        final(engine)@.wf(),
        match uuid_from_text(policy_id@) {
            None => r == Err::<EnhancedPolicy, AgentError>(AgentError::InvalidId) && final(engine)@ == old(engine)@,
            Some(id) => match r {
                Ok(p) => {
                    &&& p.id == id
                    &&& p.version == 1
                    &&& p.name == name
                    &&& p.description == description
                    &&& p.created_at == p.updated_at
                    &&& p.rules@.len() == rules@.len()
                    &&& forall|i: int| 0 <= i < rules@.len() ==> converted(rules@[i], #[trigger] p.rules@[i])
                    &&& final(engine)@ == old(engine)@.deployed(p)
                },
                Err(e) => {
                    &&& e matches AgentError::InvalidAction(k)
                    &&& k < rules@.len()
                    &&& crate::wire::action_named(rules@[k as int].action@) is None
                    &&& final(engine)@ == old(engine)@
                },
            },
        },
{
    let id = match parse_policy_id(policy_id) {
        Some(id) => id,
        None => {
            return Err(AgentError::InvalidId);
        },
    };
    let converted_rules = match rules_from_wire(rules) {
        Ok(converted_rules) => converted_rules,
        Err(k) => {
            return Err(AgentError::InvalidAction(k));
        },
    };
    let mut policy = EnhancedPolicy::new(name, description, converted_rules);
    policy.id = id;
    let _ = engine.deploy_policy(policy);
    match engine.get_policy(&id) {
        Some(stored) => Ok(into_owned(stored)),
        None => Err(AgentError::InvalidId),
    }
}

} // verus!
