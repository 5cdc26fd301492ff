use vstd::prelude::*;

verus! {

/// Running counters of an enforcement agent. Each counter wraps around at
/// `u64::MAX`, as an atomic add does.
#[derive(Debug, Clone, Copy)]
pub struct AgentStats {
    pub requests_processed: u64,
    pub total_evaluation_time_ns: u64,
    pub policy_cache_hits: u64,
    pub policy_cache_misses: u64,
}

impl Default for AgentStats {
    fn default() -> (r: Self)
        ensures
            r.requests_processed == 0,
            r.total_evaluation_time_ns == 0,
            r.policy_cache_hits == 0,
            r.policy_cache_misses == 0,
    {
        AgentStats {
            requests_processed: 0,
            total_evaluation_time_ns: 0,
            policy_cache_hits: 0,
            policy_cache_misses: 0,
        }
    }
}

impl AgentStats {
    /// Counts one evaluation that took `evaluation_time_ns`.
    pub fn record_evaluation(&mut self, evaluation_time_ns: u64)
        ensures
            final(self).requests_processed == (old(self).requests_processed + 1) % 0x1_0000_0000_0000_0000,
            final(self).total_evaluation_time_ns
                == (old(self).total_evaluation_time_ns + evaluation_time_ns) % 0x1_0000_0000_0000_0000,
            final(self).policy_cache_hits == old(self).policy_cache_hits,
            final(self).policy_cache_misses == old(self).policy_cache_misses,
    {
        self.requests_processed = self.requests_processed.wrapping_add(1);
        self.total_evaluation_time_ns = self.total_evaluation_time_ns.wrapping_add(evaluation_time_ns);
    }

    /// Counts one policy lookup by name that found its policy.
    pub fn record_cache_hit(&mut self)
        ensures
            final(self).policy_cache_hits == (old(self).policy_cache_hits + 1) % 0x1_0000_0000_0000_0000,
            final(self).requests_processed == old(self).requests_processed,
            final(self).total_evaluation_time_ns == old(self).total_evaluation_time_ns,
            final(self).policy_cache_misses == old(self).policy_cache_misses,
    {
        self.policy_cache_hits = self.policy_cache_hits.wrapping_add(1);
    }

    /// Counts one policy lookup that found nothing.
    pub fn record_cache_miss(&mut self)
        ensures
            final(self).policy_cache_misses == (old(self).policy_cache_misses + 1) % 0x1_0000_0000_0000_0000,
            final(self).requests_processed == old(self).requests_processed,
            final(self).total_evaluation_time_ns == old(self).total_evaluation_time_ns,
            final(self).policy_cache_hits == old(self).policy_cache_hits,
    {
        self.policy_cache_misses = self.policy_cache_misses.wrapping_add(1);
    }
}

} // verus!
