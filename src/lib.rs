//! A process-local store of named, versioned access-control policies and the
//! first-match evaluator that decides requests against them.

pub mod admin;
pub mod agent;
pub mod error;
pub mod laws;
pub mod platform;
pub mod policy;
pub mod stats;
pub mod store;
pub mod wire;

pub use error::ReaperError;
pub use platform::{Agent, AgentConfig, AgentId, AgentRegistry, AgentStatus, Platform, PlatformConfig, Policy};
pub use policy::{
    EnhancedPolicy, PolicyAction, PolicyId, PolicyRequest, PolicyRule, PolicyVersion, SimpleAction, SimpleRule, Timestamp,
};
pub use stats::AgentStats;
pub use store::{PolicyDecision, PolicyEngine, PolicyEngineStats};
pub use wire::WireRule;
