use vstd::prelude::*;
use std::collections::HashMap;
use uuid::Uuid;

verus! {

/// Identity of a policy: the 128 bits of a UUID, read big-endian.
pub type PolicyId = u128;

/// Version counter of a policy.
pub type PolicyVersion = u64;

/// A point in time: microseconds since the Unix epoch, UTC.
pub type Timestamp = i64;

/// What a rule decides when it matches.
#[derive(Debug, Clone, Copy, PartialEq, Eq, Structural)]
pub enum PolicyAction {
    Allow,
    Deny,
    Log,
}

/// One rule of a policy. `resource` is either the wildcard `"*"` or a
/// resource name that must equal the request's resource exactly.
/// `conditions` are carried along but never consulted when matching.
#[derive(Debug, Clone)]
pub struct PolicyRule {
    pub action: PolicyAction,
    pub resource: String,
    pub conditions: Vec<String>,
}

/// Older name for the actions of a rule, kept for existing callers.
#[derive(Debug, Clone, Copy, PartialEq, Eq, Structural)]
pub enum SimpleAction {
    Allow,
    Deny,
    Log,
}

/// Older form of a rule, kept for existing callers.
#[derive(Debug, Clone)]
pub struct SimpleRule {
    pub action: SimpleAction,
    pub resource: String,
    pub conditions: Vec<String>,
}

/// A named, versioned rule set.
#[derive(Debug, Clone)]
pub struct EnhancedPolicy {
    pub id: PolicyId,
    pub version: PolicyVersion,
    pub name: String,
    pub description: String,
    pub rules: Vec<PolicyRule>,
    pub created_at: Timestamp,
    pub updated_at: Timestamp,
}

/// A request to be decided. Only `resource` takes part in matching;
/// `action` and `context` are carried along.
#[derive(Debug, Clone)]
pub struct PolicyRequest {
    pub resource: String,
    pub action: String,
    pub context: HashMap<String, String>,
}

/// The resource pattern that matches every resource.
pub open spec fn wildcard() -> Seq<char> {
    seq!['*']
}

/// A rule matches a resource when its pattern is the wildcard or equals it.
pub open spec fn rule_matches(rule: PolicyRule, resource: Seq<char>) -> bool {
    rule.resource@ == wildcard() || rule.resource@ == resource
}

/// `i` is the position of the first rule that matches `resource`.
pub open spec fn is_first_match(rules: Seq<PolicyRule>, resource: Seq<char>, i: int) -> bool {
    &&& 0 <= i < rules.len()
    &&& rule_matches(rules[i], resource)
    &&& forall|j: int| 0 <= j < i ==> !rule_matches(#[trigger] rules[j], resource)
}

/// Position of the first rule that matches `resource`, if any rule does.
pub open spec fn first_match(rules: Seq<PolicyRule>, resource: Seq<char>) -> Option<int> {
    if exists|i: int| is_first_match(rules, resource, i) {
        Some(choose|i: int| is_first_match(rules, resource, i))
    } else {
        None
    }
}

/// The action that a rule list gives a resource: that of the first matching
/// rule, or `Deny` when none matches.
pub open spec fn decision_for(rules: Seq<PolicyRule>, resource: Seq<char>) -> PolicyAction {
    match first_match(rules, resource) {
        Some(i) => rules[i].action,
        None => PolicyAction::Deny,
    }
}

/// A `usize` index read as an integer index.
pub open spec fn index_of(o: Option<usize>) -> Option<int> {
    match o {
        Some(i) => Some(i as int),
        None => None,
    }
}

/// At most one position is the first match.
pub proof fn lemma_first_match_unique(rules: Seq<PolicyRule>, resource: Seq<char>, i: int, k: int)
    requires
        is_first_match(rules, resource, i),
        is_first_match(rules, resource, k),
    ensures
        i == k,
{
    if i < k {
        assert(!rule_matches(rules[i], resource));
    } else if k < i {
        assert(!rule_matches(rules[k], resource));
    }
}

/// The first match is `i` whenever `i` is a first match.
pub proof fn lemma_first_match_is(rules: Seq<PolicyRule>, resource: Seq<char>, i: int)
    requires
        is_first_match(rules, resource, i),
    ensures
        first_match(rules, resource) == Some(i),
{
    let k = choose|k: int| is_first_match(rules, resource, k);
    lemma_first_match_unique(rules, resource, i, k);
}

/// There is no first match when no rule matches.
pub proof fn lemma_no_match(rules: Seq<PolicyRule>, resource: Seq<char>)
    requires
        forall|j: int| 0 <= j < rules.len() ==> !rule_matches(#[trigger] rules[j], resource),
    ensures
        first_match(rules, resource) == None::<int>,
{
    assert(!exists|i: int| is_first_match(rules, resource, i)) by {
        if exists|i: int| is_first_match(rules, resource, i) {
            let i = choose|i: int| is_first_match(rules, resource, i);
            assert(rule_matches(rules[i], resource));
        }
    }
}

/// Whether a rule pattern is the wildcard `"*"`.
pub fn is_wildcard(pattern: &String) -> (r: bool)
    ensures
        r == (pattern@ == wildcard()),
{
    let s = pattern.as_str();
    if s.unicode_len() != 1 {
        return false;
    }
    let c = s.get_char(0);
    assert(c == '*' ==> s@ =~= wildcard());
    c == '*'
}

impl PolicyRule {
    /// Whether this rule applies to `request`: its pattern is the wildcard or
    /// names the request's resource exactly.
    pub fn matches(&self, request: &PolicyRequest) -> (r: bool)
        ensures
            r == rule_matches(*self, request.resource@),
    {
        is_wildcard(&self.resource) || self.resource == request.resource
    }
}

/// Scans `rules` in order and returns the position of the first one that
/// matches `request`.
pub fn find_first_match(rules: &Vec<PolicyRule>, request: &PolicyRequest) -> (r: Option<usize>)
    ensures
        index_of(r) == first_match(rules@, request.resource@),
{
    let mut i: usize = 0;
    while i < rules.len()
        invariant
            0 <= i <= rules@.len(),
            forall|j: int| 0 <= j < i ==> !rule_matches(#[trigger] rules@[j], request.resource@),
        decreases rules@.len() - i,
    {
        if rules[i].matches(request) {
            proof {
                lemma_first_match_is(rules@, request.resource@, i as int);
            }
            return Some(i);
        }
        i = i + 1;
    }
    proof {
        lemma_no_match(rules@, request.resource@);
    }
    None
}

/// Decides `request` against a rule list: the action of the first matching
/// rule and its position, or `Deny` and no position when none matches.
pub fn decide(rules: &Vec<PolicyRule>, request: &PolicyRequest) -> (r: (PolicyAction, Option<usize>))
    ensures
        r.0 == decision_for(rules@, request.resource@),
        index_of(r.1) == first_match(rules@, request.resource@),
{
    match find_first_match(rules, request) {
        Some(i) => (rules[i].action, Some(i)),
        None => (PolicyAction::Deny, None),
    }
}

/// Relies on `uuid::Uuid::new_v4`: a random version-4 UUID, as its 128 bits.
#[verifier::external_body]
fn fresh_policy_id() -> (r: PolicyId)
    ensures
        (r >> 76u128) & 0xfu128 == 4,
{
    Uuid::new_v4().as_u128()
}

/// The identity that a text denotes as a UUID, if it is one.
pub uninterp spec fn uuid_from_text(text: Seq<char>) -> Option<PolicyId>;

/// Relies on `uuid::Uuid::parse_str`: the UUID a text spells, as its 128
/// bits, or nothing when the text is not a UUID.
#[verifier::external_body]
pub(crate) fn parse_policy_id(text: &str) -> (r: Option<PolicyId>)
    ensures
        r == uuid_from_text(text@),
{
    Uuid::parse_str(text).ok().map(|u| u.as_u128())
}

/// Relies on `chrono::Utc::now`: the current time, in microseconds since the epoch.
#[verifier::external_body]
fn current_time() -> (r: Timestamp) {
    chrono::Utc::now().timestamp_micros()
}

impl EnhancedPolicy {
    /// This policy with its rule list replaced by `rules`, its version one
    /// higher and `updated_at` set to `now`; all else is kept.
    pub open spec fn with_rules(self, rules: Vec<PolicyRule>, now: Timestamp) -> EnhancedPolicy {
        EnhancedPolicy {
            id: self.id,
            version: (self.version + 1) as u64,
            name: self.name,
            description: self.description,
            rules: rules,
            created_at: self.created_at,
            updated_at: now,
        }
    }

    /// A policy at version 1 under a fresh random identity, created and
    /// updated now.
    pub fn new(name: String, description: String, rules: Vec<PolicyRule>) -> (r: Self)
        ensures
            r.version == 1,
            r.name == name,
            r.description == description,
            r.rules == rules,
            r.created_at == r.updated_at,
    {
        let now = current_time();
        EnhancedPolicy {
            id: fresh_policy_id(),
            version: 1,
            name,
            description,
            rules,
            created_at: now,
            updated_at: now,
        }
    }

    /// Replaces the rule list, raises the version by one and sets
    /// `updated_at` to `now`.
    pub fn update_rules_at(&mut self, rules: Vec<PolicyRule>, now: Timestamp)
        requires
            old(self).version < u64::MAX,
        ensures
            *final(self) == old(self).with_rules(rules, now),
    {
        self.rules = rules;
        self.version = self.version + 1;
        self.updated_at = now;
    }

    /// Replaces the rule list, raises the version by one and sets
    /// `updated_at` to the current time.
    pub fn update_rules(&mut self, rules: Vec<PolicyRule>)
        requires
            old(self).version < u64::MAX,
        ensures
            *final(self) == old(self).with_rules(rules, final(self).updated_at),
    {
        let now = current_time();
        self.update_rules_at(rules, now);
    }
}

} // verus!
