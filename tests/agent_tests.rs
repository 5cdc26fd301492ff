use policy_engine::wire::{rules_from_wire, WireRule};
use policy_engine::{AgentStats, PolicyAction};

#[test]
fn stats_start_at_zero_and_count() {
    let mut stats = AgentStats::default();
    assert_eq!(stats.requests_processed, 0);
    stats.record_evaluation(250);
    stats.record_evaluation(750);
    stats.record_cache_hit();
    stats.record_cache_miss();
    stats.record_cache_miss();
    assert_eq!(stats.requests_processed, 2);
    assert_eq!(stats.total_evaluation_time_ns, 1000);
    assert_eq!(stats.policy_cache_hits, 1);
    assert_eq!(stats.policy_cache_misses, 2);
}

#[test]
fn stats_counters_wrap_around() {
    let mut stats = AgentStats {
        requests_processed: u64::MAX,
        total_evaluation_time_ns: u64::MAX - 1,
        policy_cache_hits: u64::MAX,
        policy_cache_misses: 3,
    };
    stats.record_evaluation(3);
    stats.record_cache_hit();
    assert_eq!(stats.requests_processed, 0);
    assert_eq!(stats.total_evaluation_time_ns, 1);
    assert_eq!(stats.policy_cache_hits, 0);
    assert_eq!(stats.policy_cache_misses, 3);
}

#[test]
fn action_wire_names_round_trip() {
    for action in [PolicyAction::Allow, PolicyAction::Deny, PolicyAction::Log] {
        assert_eq!(PolicyAction::from_wire(action.wire_name()), Some(action));
    }
    assert_eq!(PolicyAction::Allow.wire_name(), "allow");
    assert_eq!(PolicyAction::Deny.wire_name(), "deny");
    assert_eq!(PolicyAction::Log.wire_name(), "log");
    assert_eq!(PolicyAction::from_wire("Allow"), None);
    assert_eq!(PolicyAction::from_wire("allowed"), None);
    assert_eq!(PolicyAction::from_wire(""), None);
}

#[test]
fn wire_rules_convert_in_order() {
    let wire = vec![
        WireRule { action: "deny".to_string(), resource: "a".to_string(), conditions: None },
        WireRule {
            action: "log".to_string(),
            resource: "*".to_string(),
            conditions: Some(vec!["c1".to_string()]),
        },
    ];
    let rules = rules_from_wire(wire).unwrap();
    assert_eq!(rules.len(), 2);
    assert_eq!(rules[0].action, PolicyAction::Deny);
    assert_eq!(rules[0].resource, "a");
    assert!(rules[0].conditions.is_empty());
    assert_eq!(rules[1].action, PolicyAction::Log);
    assert_eq!(rules[1].conditions, vec!["c1".to_string()]);
}

#[test]
fn wire_rules_reject_unknown_action_at_its_position() {
    let wire = vec![
        WireRule { action: "allow".to_string(), resource: "a".to_string(), conditions: None },
        WireRule { action: "permit".to_string(), resource: "b".to_string(), conditions: None },
        WireRule { action: "nope".to_string(), resource: "c".to_string(), conditions: None },
    ];
    assert_eq!(rules_from_wire(wire).unwrap_err(), 1);
    assert_eq!(rules_from_wire(vec![]).unwrap().len(), 0);
}
