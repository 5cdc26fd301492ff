use policy_engine::admin::{create_policy, is_blank, update_policy, AdminError};
use policy_engine::agent::{evaluate_request, install_policy, select_policy, AgentError};
use policy_engine::wire::WireRule;
use policy_engine::{AgentStats, EnhancedPolicy, PolicyAction, PolicyEngine, PolicyRequest, PolicyRule, ReaperError};
use std::collections::HashMap;

fn wire(action: &str, resource: &str) -> WireRule {
    WireRule { action: action.to_string(), resource: resource.to_string(), conditions: None }
}

fn request(resource: &str) -> PolicyRequest {
    PolicyRequest { resource: resource.to_string(), action: "read".to_string(), context: HashMap::new() }
}

fn engine_with(name: &str, rules: Vec<PolicyRule>) -> (PolicyEngine, u128) {
    let mut engine = PolicyEngine::new();
    let p = EnhancedPolicy::new(name.to_string(), String::new(), rules);
    let id = p.id;
    engine.deploy_policy(p).unwrap();
    (engine, id)
}

fn allow_all() -> Vec<PolicyRule> {
    vec![PolicyRule { action: PolicyAction::Allow, resource: "*".to_string(), conditions: vec![] }]
}

#[test]
fn select_by_identity_text() {
    let (engine, _) = engine_with("a", allow_all());
    let mut stats = AgentStats::default();
    let got = select_policy(&engine, &mut stats, Some("a1a2a3a4-b1b2-c1c2-d1d2-d3d4d5d6d7d8".to_string()), None);
    assert_eq!(got.unwrap(), 0xa1a2a3a4b1b2c1c2d1d2d3d4d5d6d7d8);
    let got = select_policy(&engine, &mut stats, Some("not-a-uuid".to_string()), Some("a".to_string()));
    assert!(matches!(got, Err(AgentError::InvalidId)));
    assert_eq!(stats.policy_cache_hits + stats.policy_cache_misses, 0);
}

#[test]
fn select_by_name_counts_hits_and_misses() {
    let (engine, id) = engine_with("named", allow_all());
    let mut stats = AgentStats::default();
    assert_eq!(select_policy(&engine, &mut stats, None, Some("named".to_string())).unwrap(), id);
    assert!(matches!(
        select_policy(&engine, &mut stats, None, Some("other".to_string())),
        Err(AgentError::UnknownName)
    ));
    assert_eq!(stats.policy_cache_hits, 1);
    assert_eq!(stats.policy_cache_misses, 1);
}

#[test]
fn select_any_when_nothing_given() {
    let (engine, id) = engine_with("only", allow_all());
    let mut stats = AgentStats::default();
    assert_eq!(select_policy(&engine, &mut stats, None, None).unwrap(), id);
    let empty = PolicyEngine::new();
    assert!(matches!(select_policy(&empty, &mut stats, None, None), Err(AgentError::NoPolicies)));
}

#[test]
fn evaluate_request_decides_and_counts() {
    let rules = vec![
        PolicyRule { action: PolicyAction::Allow, resource: "orders".to_string(), conditions: vec![] },
        PolicyRule { action: PolicyAction::Deny, resource: "*".to_string(), conditions: vec![] },
    ];
    let (engine, id) = engine_with("shop", rules);
    let mut stats = AgentStats::default();
    let d = evaluate_request(&engine, &mut stats, None, Some("shop".to_string()), &request("users")).unwrap();
    assert_eq!(d.decision, PolicyAction::Deny);
    assert_eq!(d.matched_rule, Some(1));
    assert_eq!(d.policy_id, id);
    assert_eq!(stats.requests_processed, 1);
    assert_eq!(stats.policy_cache_hits, 1);
    assert_eq!(stats.total_evaluation_time_ns, d.evaluation_time_ns);
}

#[test]
fn evaluate_request_unknown_identity_counts_a_miss() {
    let (engine, _) = engine_with("x", allow_all());
    let mut stats = AgentStats::default();
    let r = evaluate_request(
        &engine,
        &mut stats,
        Some("00000000-0000-0000-0000-0000000000ff".to_string()),
        None,
        &request("r"),
    );
    match r {
        Err(AgentError::Store(ReaperError::PolicyNotFound { policy_id })) => {
            assert_eq!(policy_id, "00000000-0000-0000-0000-0000000000ff")
        }
        other => panic!("unexpected {:?}", other),
    }
    assert_eq!(stats.policy_cache_misses, 1);
    assert_eq!(stats.requests_processed, 0);
}

#[test]
fn install_policy_uses_given_identity() {
    let mut engine = PolicyEngine::new();
    let p = install_policy(
        &mut engine,
        "a1a2a3a4-b1b2-c1c2-d1d2-d3d4d5d6d7d8",
        "pushed".to_string(),
        "from platform".to_string(),
        vec![wire("log", "audit"), wire("deny", "*")],
    )
    .unwrap();
    assert_eq!(p.id, 0xa1a2a3a4b1b2c1c2d1d2d3d4d5d6d7d8);
    assert_eq!(p.version, 1);
    assert_eq!(p.rules[0].action, PolicyAction::Log);
    assert_eq!(engine.get_policy(&p.id).unwrap().name, "pushed");
}

#[test]
fn install_policy_rejects_bad_input() {
    let mut engine = PolicyEngine::new();
    assert!(matches!(
        install_policy(&mut engine, "xyz", "n".to_string(), String::new(), vec![]),
        Err(AgentError::InvalidId)
    ));
    assert!(matches!(
        install_policy(
            &mut engine,
            "a1a2a3a4-b1b2-c1c2-d1d2-d3d4d5d6d7d8",
            "n".to_string(),
            String::new(),
            vec![wire("allow", "a"), wire("block", "b")]
        ),
        Err(AgentError::InvalidAction(1))
    ));
    assert_eq!(engine.get_stats().total_policies, 0);
}

#[test]
fn blank_names() {
    assert!(is_blank(""));
    assert!(is_blank(" \t\n"));
    assert!(!is_blank(" a "));
}

#[test]
fn create_policy_checks_in_order() {
    let mut engine = PolicyEngine::new();
    assert_eq!(create_policy(&mut engine, "  ".to_string(), None, vec![wire("bad", "x")]).unwrap_err(), AdminError::EmptyName);
    let p = create_policy(&mut engine, "p".to_string(), None, vec![wire("allow", "*")]).unwrap();
    assert_eq!(p.description, "Created via API");
    assert_eq!(p.version, 1);
    assert_eq!(create_policy(&mut engine, "p".to_string(), None, vec![]).unwrap_err(), AdminError::NameTaken);
    assert_eq!(create_policy(&mut engine, "q".to_string(), None, vec![wire("nope", "x")]).unwrap_err(), AdminError::InvalidAction);
    assert_eq!(create_policy(&mut engine, "q".to_string(), None, vec![]).unwrap_err(), AdminError::NoRules);
    let q = create_policy(&mut engine, "q".to_string(), Some("mine".to_string()), vec![wire("deny", "a")]).unwrap();
    assert_eq!(q.description, "mine");
    assert_eq!(engine.get_stats().total_policies, 2);
    assert_eq!(engine.get_policy_by_name("q").unwrap().id, q.id);
}

#[test]
fn update_policy_changes_fields_and_version() {
    let mut engine = PolicyEngine::new();
    let p = create_policy(&mut engine, "p".to_string(), None, vec![wire("allow", "*")]).unwrap();
    let other = create_policy(&mut engine, "other".to_string(), None, vec![wire("allow", "*")]).unwrap();
    assert_eq!(update_policy(&mut engine, 7, None, None, None).unwrap_err(), AdminError::PolicyNotFound);
    assert_eq!(update_policy(&mut engine, p.id, None, None, None).unwrap_err(), AdminError::NothingToUpdate);
    assert_eq!(update_policy(&mut engine, p.id, Some(" ".to_string()), None, None).unwrap_err(), AdminError::EmptyName);
    assert_eq!(
        update_policy(&mut engine, p.id, Some("other".to_string()), None, None).unwrap_err(),
        AdminError::NameTaken
    );
    assert_eq!(update_policy(&mut engine, p.id, None, None, Some(vec![])).unwrap_err(), AdminError::NoRules);
    assert_eq!(
        update_policy(&mut engine, p.id, None, None, Some(vec![wire("maybe", "x")])).unwrap_err(),
        AdminError::InvalidAction
    );
    let same = update_policy(&mut engine, p.id, Some("p".to_string()), Some("d2".to_string()), None).unwrap();
    assert_eq!(same.version, 1);
    assert_eq!(same.description, "d2");
    let q = update_policy(&mut engine, p.id, None, None, Some(vec![wire("deny", "x"), wire("log", "*")])).unwrap();
    assert_eq!(q.version, 2);
    assert_eq!(q.created_at, p.created_at);
    assert_eq!(q.rules[1].action, PolicyAction::Log);
    assert_eq!(engine.get_policy(&p.id).unwrap().version, 2);
    assert_eq!(engine.get_policy(&other.id).unwrap().version, 1);
}

#[test]
fn update_policy_refuses_to_overflow_version() {
    let mut engine = PolicyEngine::new();
    let mut p = EnhancedPolicy::new("max".to_string(), String::new(), vec![]);
    p.version = u64::MAX;
    let id = p.id;
    engine.deploy_policy(p).unwrap();
    assert_eq!(
        update_policy(&mut engine, id, None, None, Some(vec![wire("allow", "*")])).unwrap_err(),
        AdminError::VersionExhausted
    );
    assert_eq!(engine.get_policy(&id).unwrap().version, u64::MAX);
}
