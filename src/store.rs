use vstd::prelude::*;
use std::sync::Arc;
use std::time::Instant;
use dashmap::DashMap;
use parking_lot::RwLock;
use uuid::Uuid;
use crate::error::ReaperError;
use crate::policy::{decide, decision_for, first_match, index_of, EnhancedPolicy, PolicyAction, PolicyId, PolicyRequest};

verus! {

#[verifier::external_type_specification]
#[verifier::external_body]
#[verifier::reject_recursive_types(K)]
#[verifier::reject_recursive_types(V)]
#[verifier::reject_recursive_types(S)]
pub struct ExDashMap<K, V, S>(DashMap<K, V, S>);

#[verifier::external_type_specification]
#[verifier::external_body]
#[verifier::reject_recursive_types(R)]
#[verifier::reject_recursive_types(T)]
pub struct ExRwLock<R, T: ?Sized>(parking_lot::lock_api::RwLock<R, T>);

#[verifier::external_type_specification]
#[verifier::external_body]
pub struct ExRawRwLock(parking_lot::RawRwLock);

#[verifier::external_type_specification]
#[verifier::external_body]
pub struct ExInstant(Instant);

/// The policies a map holds, by identity.
pub uninterp spec fn policy_entries(m: DashMap<PolicyId, Arc<EnhancedPolicy>>) -> Map<PolicyId, EnhancedPolicy>;

/// The name index a map holds: policy name to identity.
pub uninterp spec fn name_entries(m: DashMap<String, PolicyId>) -> Map<Seq<char>, PolicyId>;

/// The policy a lock guards, if any.
pub uninterp spec fn guarded_policy(l: RwLock<Option<Arc<EnhancedPolicy>>>) -> Option<EnhancedPolicy>;

/// The text of an identity in the hyphenated UUID form.
pub uninterp spec fn hyphenated(id: PolicyId) -> Seq<char>;

/// Relies on `DashMap::new`: a new map is empty.
#[verifier::external_body]
fn empty_policy_map() -> (r: DashMap<PolicyId, Arc<EnhancedPolicy>>)
    ensures
        policy_entries(r) =~= Map::empty(),
{
    DashMap::new()
}

/// Relies on `DashMap::new`: a new map is empty.
#[verifier::external_body]
fn empty_name_map() -> (r: DashMap<String, PolicyId>)
    ensures
        name_entries(r) =~= Map::empty(),
{
    DashMap::new()
}

/// Relies on `parking_lot::RwLock::new`: the lock guards the value given.
#[verifier::external_body]
fn unset_default() -> (r: RwLock<Option<Arc<EnhancedPolicy>>>)
    ensures
        guarded_policy(r) == None::<EnhancedPolicy>,
{
    RwLock::new(None)
}

/// Relies on `DashMap::insert`: afterwards the key maps to the value, the
/// other entries unchanged.
#[verifier::external_body]
fn put_policy(m: &mut DashMap<PolicyId, Arc<EnhancedPolicy>>, k: PolicyId, v: Arc<EnhancedPolicy>)
    ensures
        policy_entries(*final(m)) == policy_entries(*old(m)).insert(k, *v),
{
    m.insert(k, v);
}

/// Relies on `DashMap::insert`: afterwards the key maps to the value, the
/// other entries unchanged.
#[verifier::external_body]
fn put_name(m: &mut DashMap<String, PolicyId>, k: String, v: PolicyId)
    ensures
        name_entries(*final(m)) == name_entries(*old(m)).insert(k@, v),
{
    m.insert(k, v);
}

/// Relies on `DashMap::get`: the value stored under the key, if any.
#[verifier::external_body]
fn find_policy(m: &DashMap<PolicyId, Arc<EnhancedPolicy>>, k: PolicyId) -> (r: Option<Arc<EnhancedPolicy>>)
    ensures
        match r {
            Some(p) => policy_entries(*m).contains_key(k) && *p == policy_entries(*m)[k],
            None => !policy_entries(*m).contains_key(k),
        },
{
    m.get(&k).map(|e| e.value().clone())
}

/// Relies on `DashMap::get`: the value stored under the key, if any.
#[verifier::external_body]
fn find_name(m: &DashMap<String, PolicyId>, k: &str) -> (r: Option<PolicyId>)
    ensures
        match r {
            Some(id) => name_entries(*m).contains_key(k@) && id == name_entries(*m)[k@],
            None => !name_entries(*m).contains_key(k@),
        },
{
    m.get(k).map(|e| *e.value())
}

/// Relies on `DashMap::remove`: the entry under the key leaves the map and
/// its value is handed back.
#[verifier::external_body]
fn take_policy(m: &mut DashMap<PolicyId, Arc<EnhancedPolicy>>, k: PolicyId) -> (r: Option<Arc<EnhancedPolicy>>)
    ensures
        policy_entries(*final(m)) == policy_entries(*old(m)).remove(k),
        match r {
            Some(p) => policy_entries(*old(m)).contains_key(k) && *p == policy_entries(*old(m))[k],
            None => !policy_entries(*old(m)).contains_key(k),
        },
{
    m.remove(&k).map(|(_, p)| p)
}

/// Whether a name index entry points at some identity other than `id`.
pub fn points_elsewhere(target: &PolicyId, id: PolicyId) -> (r: bool)
    ensures
        r == (*target != id),
{
    *target != id
}

/// The name index without the entries that point at `id`.
pub open spec fn names_without(names: Map<Seq<char>, PolicyId>, id: PolicyId) -> Map<Seq<char>, PolicyId> {
    names.restrict(Set::new(|n: Seq<char>| names.contains_key(n) && names[n] != id))
}

/// Relies on `DashMap::retain`: exactly the entries for which the predicate
/// holds stay, with their values.
#[verifier::external_body]
fn drop_names_of(m: &mut DashMap<String, PolicyId>, id: PolicyId)
    ensures
        name_entries(*final(m)) == names_without(name_entries(*old(m)), id),
{
    m.retain(|_, v| points_elsewhere(v, id));
}

/// Relies on `DashMap::len`: the number of entries.
#[verifier::external_body]
fn count_policies(m: &DashMap<PolicyId, Arc<EnhancedPolicy>>) -> (r: usize)
    ensures
        r == policy_entries(*m).len(),
{
    m.len()
}

/// Relies on `DashMap::iter`: each entry once, as a key and its value, in
/// no particular order.
#[verifier::external_body]
fn all_policies(m: &DashMap<PolicyId, Arc<EnhancedPolicy>>) -> (r: Vec<(PolicyId, Arc<EnhancedPolicy>)>)
    ensures
        forall|i: int| 0 <= i < r@.len() ==> {
            &&& policy_entries(*m).contains_key(#[trigger] r@[i].0)
            &&& *r@[i].1 == policy_entries(*m)[r@[i].0]
        },
        forall|i: int, j: int| 0 <= i < j < r@.len() ==> r@[i].0 != r@[j].0,
        forall|k: PolicyId| policy_entries(*m).contains_key(k) ==> exists|i: int| 0 <= i < r@.len() && #[trigger] r@[i].0 == k,
{
    m.iter().map(|e| (*e.key(), e.value().clone())).collect()
}

/// Relies on `parking_lot::RwLock::read`: the value guarded.
#[verifier::external_body]
fn read_default(l: &RwLock<Option<Arc<EnhancedPolicy>>>) -> (r: Option<Arc<EnhancedPolicy>>)
    ensures
        match r {
            Some(p) => guarded_policy(*l) == Some(*p),
            None => guarded_policy(*l) == None::<EnhancedPolicy>,
        },
{
    l.read().clone()
}

/// Relies on `parking_lot::RwLock::write`: afterwards the lock guards the
/// value written.
#[verifier::external_body]
fn write_default(l: &mut RwLock<Option<Arc<EnhancedPolicy>>>, p: Arc<EnhancedPolicy>)
    ensures
        guarded_policy(*final(l)) == Some(*p),
{
    *l.write() = Some(p);
}

/// Relies on `Arc::unwrap_or_clone`: the value itself, or an equal clone of it.
#[verifier::external_body]
pub(crate) fn into_owned(p: Arc<EnhancedPolicy>) -> (r: EnhancedPolicy)
    ensures
        r == *p,
{
    Arc::unwrap_or_clone(p)
}

/// Relies on `uuid::Uuid::from_u128` and its `Display`: the hyphenated text
/// of an identity.
#[verifier::external_body]
fn id_text(id: PolicyId) -> (r: String)
    ensures
        r@ == hyphenated(id),
{
    Uuid::from_u128(id).to_string()
}

/// Relies on `Instant::now`: a reading of the monotonic clock.
#[verifier::external_body]
fn clock_start() -> (r: Instant) {
    Instant::now()
}

/// Relies on `Instant::elapsed`: the nanoseconds since `start`, cut to 64 bits.
#[verifier::external_body]
fn nanos_since(start: &Instant) -> (r: u64) {
    start.elapsed().as_nanos() as u64
}

/// The outcome of deciding a request against a policy.
#[derive(Debug, Clone)]
pub struct PolicyDecision {
    pub decision: PolicyAction,
    pub policy_id: PolicyId,
    pub policy_version: u64,
    pub evaluation_time_ns: u64,
    pub matched_rule: Option<usize>,
}

/// Point-in-time counts of a store.
#[derive(Debug, Clone, Copy)]
pub struct PolicyEngineStats {
    pub total_policies: usize,
    pub has_default_policy: bool,
}

/// The content of a store: its policies by identity, its name index and its
/// default policy.
pub struct EngineView {
    pub policies: Map<PolicyId, EnhancedPolicy>,
    pub names: Map<Seq<char>, PolicyId>,
    pub default_policy: Option<EnhancedPolicy>,
}

impl EngineView {
    /// Every policy is stored under its own identity, and every name points
    /// at a stored policy.
    pub open spec fn wf(self) -> bool {
        &&& forall|k: PolicyId| #[trigger] self.policies.contains_key(k) ==> self.policies[k].id == k
        &&& forall|n: Seq<char>| #[trigger] self.names.contains_key(n) ==> self.policies.contains_key(self.names[n])
    }

    /// The policy stored under `id`, if any.
    pub open spec fn lookup(self, id: PolicyId) -> Option<EnhancedPolicy> {
        if self.policies.contains_key(id) {
            Some(self.policies[id])
        } else {
            None
        }
    }

    /// The policy that a request for `id` is decided by: the one stored under
    /// `id`, else the default policy, if set.
    pub open spec fn resolve(self, id: PolicyId) -> Option<EnhancedPolicy> {
        if self.policies.contains_key(id) {
            Some(self.policies[id])
        } else {
            self.default_policy
        }
    }

    /// The policy that `name` leads to, if any.
    pub open spec fn lookup_name(self, name: Seq<char>) -> Option<EnhancedPolicy> {
        if self.names.contains_key(name) {
            self.lookup(self.names[name])
        } else {
            None
        }
    }

    /// The store after `p` is deployed: it replaces whatever stood under its
    /// identity, and its name points at that identity.
    pub open spec fn deployed(self, p: EnhancedPolicy) -> EngineView {
        EngineView {
            policies: self.policies.insert(p.id, p),
            names: self.names.insert(p.name@, p.id),
            default_policy: self.default_policy,
        }
    }

    /// The store after the policy under `id` is removed, with every name
    /// that pointed at it.
    pub open spec fn removed(self, id: PolicyId) -> EngineView {
        EngineView {
            policies: self.policies.remove(id),
            names: names_without(self.names, id),
            default_policy: self.default_policy,
        }
    }

    /// The store with `p` as its default policy.
    pub open spec fn with_default(self, p: EnhancedPolicy) -> EngineView {
        EngineView { policies: self.policies, names: self.names, default_policy: Some(p) }
    }
}

/// The store of deployed policies. Each policy is held as one shared,
/// immutable snapshot: a deploy swaps in a whole new snapshot, and readers
/// keep the snapshot they were handed for as long as they need it.
///
/// Changes take `&mut self`; concurrent callers share the store behind a
/// reader/writer lock, so any number of lookups and evaluations run side by
/// side.
pub struct PolicyEngine {
    active_policies: DashMap<PolicyId, Arc<EnhancedPolicy>>,
    policy_names: DashMap<String, PolicyId>,
    default_policy: RwLock<Option<Arc<EnhancedPolicy>>>,
}

impl View for PolicyEngine {
    type V = EngineView;

    closed spec fn view(&self) -> EngineView {
        EngineView {
            policies: policy_entries(self.active_policies),
            names: name_entries(self.policy_names),
            default_policy: guarded_policy(self.default_policy),
        }
    }
}

impl Default for PolicyEngine {
    /// An empty store with no default policy.
    fn default() -> (r: Self)
        ensures
            r@.policies == Map::<PolicyId, EnhancedPolicy>::empty(),
            r@.names == Map::<Seq<char>, PolicyId>::empty(),
            r@.default_policy == None::<EnhancedPolicy>,
            r@.wf(),
    {
        Self::new()
    }
}

impl PolicyEngine {
    /// An empty store with no default policy.
    pub fn new() -> (r: Self)
        ensures
            r@.policies == Map::<PolicyId, EnhancedPolicy>::empty(),
            r@.names == Map::<Seq<char>, PolicyId>::empty(),
            r@.default_policy == None::<EnhancedPolicy>,
            r@.wf(),
    {
        PolicyEngine {
            active_policies: empty_policy_map(),
            policy_names: empty_name_map(),
            default_policy: unset_default(),
        }
    }

    /// Inserts `policy`, or replaces the snapshot under its identity, and
    /// points its name at it. Names that pointed at this identity before
    /// stay as they are.
    pub fn deploy_policy(&mut self, policy: EnhancedPolicy) -> (r: Result<(), ReaperError>)
        requires
            old(self)@.wf(),
        ensures
            r is Ok,
            final(self)@ == old(self)@.deployed(policy),
            final(self)@.wf(),
    {
        let policy_id = policy.id;
        let policy_name = policy.name.clone();
        let snapshot = Arc::new(policy);
        put_policy(&mut self.active_policies, policy_id, snapshot);
        put_name(&mut self.policy_names, policy_name, policy_id);
        Ok(())
    }

    /// Takes the policy under `policy_id` out of the store, with every name
    /// that pointed at it, and hands it back.
    pub fn remove_policy(&mut self, policy_id: &PolicyId) -> (r: Result<EnhancedPolicy, ReaperError>)
        requires
            old(self)@.wf(),
        ensures
            final(self)@.wf(),
            match old(self)@.lookup(*policy_id) {
                Some(p) => r == Ok::<EnhancedPolicy, ReaperError>(p) && final(self)@ == old(self)@.removed(*policy_id),
                None => {
                    &&& r matches Err(ReaperError::PolicyNotFound { policy_id: t })
                    &&& t@ == hyphenated(*policy_id)
                    &&& final(self)@ == old(self)@
                },
            },
    {
        match take_policy(&mut self.active_policies, *policy_id) {
            Some(p) => {
                drop_names_of(&mut self.policy_names, *policy_id);
                Ok(into_owned(p))
            },
            None => {
                assert(self@.policies =~= old(self)@.policies);
                Err(ReaperError::PolicyNotFound { policy_id: id_text(*policy_id) })
            },
        }
    }

    /// The snapshot stored under `policy_id`, if any.
    pub fn get_policy(&self, policy_id: &PolicyId) -> (r: Option<Arc<EnhancedPolicy>>)
        ensures
            match r {
                Some(p) => self@.lookup(*policy_id) == Some(*p),
                None => self@.lookup(*policy_id) == None::<EnhancedPolicy>,
            },
    {
        find_policy(&self.active_policies, *policy_id)
    }

    /// The snapshot that `name` points at, if the name is known and its
    /// policy is still stored.
    pub fn get_policy_by_name(&self, name: &str) -> (r: Option<Arc<EnhancedPolicy>>)
        ensures
            match r {
                Some(p) => self@.lookup_name(name@) == Some(*p),
                None => self@.lookup_name(name@) == None::<EnhancedPolicy>,
            },
    {
        match find_name(&self.policy_names, name) {
            Some(id) => self.get_policy(&id),
            None => None,
        }
    }

    /// Every stored snapshot once, in no particular order.
    pub fn list_policies(&self) -> (r: Vec<Arc<EnhancedPolicy>>)
        requires
            self@.wf(),
        ensures
            forall|i: int| 0 <= i < r@.len() ==> self@.policies.contains_key(#[trigger] r@[i].id)
                && self@.policies[r@[i].id] == *r@[i],
            forall|i: int, j: int| 0 <= i < j < r@.len() ==> r@[i].id != r@[j].id,
            forall|k: PolicyId| self@.policies.contains_key(k) ==> exists|i: int| 0 <= i < r@.len() && #[trigger] r@[i].id == k,
    {
        let entries = all_policies(&self.active_policies);
        let ghost m = self@.policies;
        let mut out: Vec<Arc<EnhancedPolicy>> = Vec::new();
        let mut i: usize = 0;
        while i < entries.len()
            invariant
                0 <= i <= entries@.len(),
                out@.len() == i,
                m == self@.policies,
                self@.wf(),
                forall|j: int| 0 <= j < entries@.len() ==> {
                    &&& m.contains_key(#[trigger] entries@[j].0)
                    &&& *entries@[j].1 == m[entries@[j].0]
                },
                forall|j: int| 0 <= j < i ==> #[trigger] out@[j] == entries@[j].1,
            decreases entries@.len() - i,
        {
            out.push(entries[i].1.clone());
            i = i + 1;
        }
        proof {
            assert forall|j: int| 0 <= j < out@.len() implies out@[j].id == entries@[j].0 by {
                assert(m.contains_key(entries@[j].0));
            }
            assert forall|k: PolicyId| m.contains_key(k) implies exists|j: int| 0 <= j < out@.len() && #[trigger] out@[j].id == k by {
                let j = choose|j: int| 0 <= j < entries@.len() && #[trigger] entries@[j].0 == k;
                assert(out@[j].id == k);
            }
        }
        out
    }

    /// Makes `policy` the default, used for requests whose identity is not
    /// stored.
    pub fn set_default_policy(&mut self, policy: EnhancedPolicy)
        requires
            old(self)@.wf(),
        ensures
            final(self)@ == old(self)@.with_default(policy),
            final(self)@.wf(),
    {
        write_default(&mut self.default_policy, Arc::new(policy));
    }

    /// Decides `request` by the policy under `policy_id`, else by the default
    /// policy: the first matching rule's action, or `Deny` when no rule
    /// matches. Fails when neither policy exists.
    pub fn evaluate(&self, policy_id: &PolicyId, request: &PolicyRequest) -> (r: Result<PolicyDecision, ReaperError>)
        ensures
            match self@.resolve(*policy_id) {
                Some(p) => {
                    &&& r matches Ok(d)
                    &&& d.decision == decision_for(p.rules@, request.resource@)
                    &&& index_of(d.matched_rule) == first_match(p.rules@, request.resource@)
                    &&& d.policy_id == p.id
                    &&& d.policy_version == p.version
                },
                None => {
                    &&& r matches Err(ReaperError::PolicyNotFound { policy_id: t })
                    &&& t@ == hyphenated(*policy_id)
                },
            },
    {
        let policy = match self.get_policy(policy_id) {
            Some(p) => p,
            None => match read_default(&self.default_policy) {
                Some(p) => p,
                None => {
                    return Err(ReaperError::PolicyNotFound { policy_id: id_text(*policy_id) });
                },
            },
        };
        let start = clock_start();
        let (decision, matched_rule) = decide(&policy.rules, request);
        let evaluation_time_ns = nanos_since(&start);
        Ok(PolicyDecision {
            decision,
            policy_id: policy.id,
            policy_version: policy.version,
            evaluation_time_ns,
            matched_rule,
        })
    }

    /// How many policies are stored and whether a default is set.
    pub fn get_stats(&self) -> (r: PolicyEngineStats)
        ensures
            r.total_policies == self@.policies.len(),
            r.has_default_policy == self@.default_policy.is_some(),
    {
        let has_default = match read_default(&self.default_policy) {
            Some(_) => true,
            None => false,
        };
        PolicyEngineStats {
            total_policies: count_policies(&self.active_policies),
            has_default_policy: has_default,
        }
    }
}

} // verus!
