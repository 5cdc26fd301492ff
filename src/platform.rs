use vstd::prelude::*;
use std::collections::HashMap;
use crate::policy::{PolicyId, PolicyVersion};

verus! {

/// Identity of an enforcement agent: the 128 bits of a UUID.
pub type AgentId = u128;

/// Health of an agent as last observed.
#[derive(Debug, Clone, Copy, PartialEq, Eq, Structural)]
pub enum AgentStatus {
    Healthy,
    Unhealthy,
    Unknown,
}

/// How an agent is configured.
#[derive(Debug, Clone)]
pub struct AgentConfig {
    pub id: AgentId,
    pub name: String,
}

/// An enforcement agent known to the platform.
#[derive(Debug, Clone)]
pub struct Agent {
    pub id: AgentId,
    pub status: AgentStatus,
    pub config: AgentConfig,
}

/// Agents by identity.
pub type AgentRegistry = HashMap<AgentId, Agent>;

/// How the platform is configured.
#[derive(Debug, Clone)]
pub struct PlatformConfig {
    pub name: String,
}

/// The management platform and the agents it knows.
#[derive(Debug, Clone)]
pub struct Platform {
    pub config: PlatformConfig,
    pub agents: AgentRegistry,
}

/// A policy's identifying header, without its rules.
#[derive(Debug, Clone)]
pub struct Policy {
    pub id: PolicyId,
    pub version: PolicyVersion,
    pub name: String,
    pub description: String,
}

} // verus!
