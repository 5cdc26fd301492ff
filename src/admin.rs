use vstd::prelude::*;
use crate::policy::{EnhancedPolicy, PolicyId};
use crate::store::{into_owned, EngineView, PolicyEngine};
use crate::wire::{action_named, converted, rules_from_wire, WireRule};

verus! {

/// Why the platform turned down a change to its policies.
#[derive(Debug, Clone, Copy, PartialEq, Eq, Structural)]
pub enum AdminError {
    /// No policy is stored under the identity given.
    PolicyNotFound,
    /// The name given is empty or only whitespace.
    EmptyName,
    /// Another stored policy already goes by the name given.
    NameTaken,
    /// Some rule names no known action.
    InvalidAction,
    /// The rule list given is empty.
    NoRules,
    /// The update names nothing to change.
    NothingToUpdate,
    /// The policy's version cannot be raised any further.
    VersionExhausted,
}

/// A text with its leading and trailing whitespace removed.
pub uninterp spec fn trimmed(text: Seq<char>) -> Seq<char>;

/// Relies on `str::trim`: the text without leading and trailing whitespace.
#[verifier::external_body]
fn trim_text(text: &str) -> (r: &str)
    ensures
        r@ == trimmed(text@),
{
    text.trim()
}

/// A text is blank when nothing but whitespace is in it.
pub open spec fn blank(text: Seq<char>) -> bool {
    trimmed(text).len() == 0
}

/// Whether `text` is empty or only whitespace.
pub fn is_blank(text: &str) -> (r: bool)
    ensures
        r == blank(text@),
{
    trim_text(text).unicode_len() == 0
}

/// Every wire rule names a known action.
pub open spec fn all_actions_known(rules: Seq<WireRule>) -> bool {
    forall|i: int| 0 <= i < rules.len() ==> action_named(#[trigger] rules[i].action@) is Some
}

/// `rules` is `wire` converted rule by rule.
pub open spec fn converted_all(wire: Seq<WireRule>, rules: Seq<crate::policy::PolicyRule>) -> bool {
    &&& rules.len() == wire.len()
    &&& forall|i: int| 0 <= i < wire.len() ==> converted(wire[i], #[trigger] rules[i])
}

/// Rules that convert name known actions only.
proof fn lemma_converted_all_known(wire: Seq<WireRule>, rules: Seq<crate::policy::PolicyRule>)
    requires
        converted_all(wire, rules),
    ensures
        all_actions_known(wire),
{
    assert forall|i: int| 0 <= i < wire.len() implies action_named(#[trigger] wire[i].action@) is Some by {
        assert(converted(wire[i], rules[i]));
    }
}

/// The description a new policy gets when none is given.
pub open spec fn default_description() -> Seq<char> {
    "Created via API"@
}

/// The first objection to creating a policy, in the order they are checked.
pub open spec fn creation_error(s: EngineView, name: Seq<char>, rules: Seq<WireRule>) -> Option<AdminError> {
    if blank(name) {
        Some(AdminError::EmptyName)
    } else if s.lookup_name(name) is Some {
        Some(AdminError::NameTaken)
    } else if !all_actions_known(rules) {
        Some(AdminError::InvalidAction)
    } else if rules.len() == 0 {
        Some(AdminError::NoRules)
    } else {
        None
    }
}

/// Creates a policy at version 1 under a fresh identity and deploys it,
/// unless its name is blank or already in use, or its rules are empty or
/// name an unknown action.
pub fn create_policy(
    engine: &mut PolicyEngine,
    name: String,
    description: Option<String>,
    rules: Vec<WireRule>,
) -> (r: Result<EnhancedPolicy, AdminError>)
    requires
        old(engine)@.wf(),
    ensures
        final(engine)@.wf(),
        match creation_error(old(engine)@, name@, rules@) {
            Some(e) => r == Err::<EnhancedPolicy, AdminError>(e) && final(engine)@ == old(engine)@,
            None => {
                &&& r matches Ok(p)
                &&& p.version == 1
                &&& p.name == name
                &&& p.description@ == match description {
                    Some(d) => d@,
                    None => default_description(),
                }
                &&& converted_all(rules@, p.rules@)
                &&& p.created_at == p.updated_at
                &&& final(engine)@ == old(engine)@.deployed(p)
            },
        },
{
    if is_blank(name.as_str()) {
        return Err(AdminError::EmptyName);
    }
    match engine.get_policy_by_name(name.as_str()) {
        Some(_) => {
            return Err(AdminError::NameTaken);
        },
        None => {},
    }
    let ghost wire = rules@;
    let converted_rules = match rules_from_wire(rules) {
        Ok(converted_rules) => {
            proof {
                lemma_converted_all_known(wire, converted_rules@);
            }
            converted_rules
        },
        Err(k) => {
            assert(action_named(wire[k as int].action@) is None);
            return Err(AdminError::InvalidAction);
        },
    };
    if converted_rules.len() == 0 {
        return Err(AdminError::NoRules);
    }
    let description = match description {
        Some(d) => d,
        None => String::from_str("Created via API"),
    };
    let policy = EnhancedPolicy::new(name, description, converted_rules);
    let id = policy.id;
    let _ = engine.deploy_policy(policy);
    match engine.get_policy(&id) {
        Some(stored) => Ok(into_owned(stored)),
        None => Err(AdminError::PolicyNotFound),
    }
}

/// Another stored policy than the one under `id` goes by `name`.
pub open spec fn taken_by_other(s: EngineView, name: Seq<char>, id: PolicyId) -> bool {
    s.lookup_name(name) matches Some(q) && q.id != id
}

/// The first objection to updating `p`, in the order they are checked.
pub open spec fn update_error(
    s: EngineView,
    p: EnhancedPolicy,
    name: Option<String>,
    description: Option<String>,
    rules: Option<Vec<WireRule>>,
) -> Option<AdminError> {
    if name matches Some(n) && blank(n@) {
        Some(AdminError::EmptyName)
    } else if name matches Some(n) && taken_by_other(s, n@, p.id) {
        Some(AdminError::NameTaken)
    } else if rules matches Some(rs) && rs@.len() == 0 {
        Some(AdminError::NoRules)
    } else if rules matches Some(rs) && !all_actions_known(rs@) {
        Some(AdminError::InvalidAction)
    } else if rules is Some && p.version == u64::MAX {
        Some(AdminError::VersionExhausted)
    } else if name is None && description is None && rules is None {
        Some(AdminError::NothingToUpdate)
    } else {
        None
    }
}

/// `q` is `p` after the update: the name and description given replace the
/// old ones, and new rules replace the rule list and raise the version by one.
pub open spec fn updated_as_asked(
    p: EnhancedPolicy,
    q: EnhancedPolicy,
    name: Option<String>,
    description: Option<String>,
    rules: Option<Vec<WireRule>>,
) -> bool {
    &&& q.id == p.id
    &&& q.created_at == p.created_at
    &&& q.name == match name {
        Some(n) => n,
        None => p.name,
    }
    &&& q.description == match description {
        Some(d) => d,
        None => p.description,
    }
    &&& match rules {
        Some(rs) => q.version == p.version + 1 && converted_all(rs@, q.rules@),
        None => q.version == p.version && q.rules == p.rules && q.updated_at == p.updated_at,
    }
}

/// Changes the name, description or rules of the policy under `id` and
/// redeploys it. New rules raise its version by one and set its update time
/// to now.
pub fn update_policy(
    engine: &mut PolicyEngine,
    id: PolicyId,
    name: Option<String>,
    description: Option<String>,
    rules: Option<Vec<WireRule>>,
) -> (r: Result<EnhancedPolicy, AdminError>)
    requires
        old(engine)@.wf(),
    ensures
        final(engine)@.wf(),
        match old(engine)@.lookup(id) {
            None => r == Err::<EnhancedPolicy, AdminError>(AdminError::PolicyNotFound) && final(engine)@ == old(engine)@,
            Some(p) => match update_error(old(engine)@, p, name, description, rules) {
                Some(e) => r == Err::<EnhancedPolicy, AdminError>(e) && final(engine)@ == old(engine)@,
                None => {
                    &&& r matches Ok(q)
                    &&& updated_as_asked(p, q, name, description, rules)
                    &&& final(engine)@ == old(engine)@.deployed(q)
                },
            },
        },
{
    let mut policy = match engine.get_policy(&id) {
        Some(stored) => into_owned(stored),
        None => {
            return Err(AdminError::PolicyNotFound);
        },
    };
    let ghost p = policy;
    let mut updated = false;
    match &name {
        Some(n) => {
            if is_blank(n.as_str()) {
                return Err(AdminError::EmptyName);
            }
            match engine.get_policy_by_name(n.as_str()) {
                Some(existing) => {
                    if existing.id != id {
                        return Err(AdminError::NameTaken);
                    }
                },
                None => {},
            }
        },
        None => {},
    }
    let new_rules = match rules {
        Some(rs) => {
            if rs.len() == 0 {
                return Err(AdminError::NoRules);
            }
            let ghost wire = rs@;
            match rules_from_wire(rs) {
                Ok(converted_rules) => {
                    proof {
                        lemma_converted_all_known(wire, converted_rules@);
                    }
                    Some(converted_rules)
                },
                Err(k) => {
                    assert(action_named(wire[k as int].action@) is None);
                    return Err(AdminError::InvalidAction);
                },
            }
        },
        None => None,
    };
    if new_rules.is_some() && policy.version == u64::MAX {
        return Err(AdminError::VersionExhausted);
    }
    match name {
        Some(n) => {
            policy.name = n;
            updated = true;
        },
        None => {},
    }
    match description {
        Some(d) => {
            policy.description = d;
            updated = true;
        },
        None => {},
    }
    match new_rules {
        Some(converted_rules) => {
            policy.update_rules(converted_rules);
            updated = true;
        },
        None => {},
    }
    if !updated {
        return Err(AdminError::NothingToUpdate);
    }
    let _ = engine.deploy_policy(policy);
    match engine.get_policy(&id) {
        Some(stored) => Ok(into_owned(stored)),
        None => Err(AdminError::PolicyNotFound),
    }
}

} // verus!
