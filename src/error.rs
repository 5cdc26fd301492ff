use vstd::prelude::*;

verus! {

/// Errors of the policy platform. The store itself raises only
/// `PolicyNotFound`; the others belong to the layers around it.
#[derive(Debug, Clone)]
pub enum ReaperError {
    PolicyNotFound { policy_id: String },
    AgentNotFound { agent_id: String },
    InvalidPolicy { reason: String },
    EvaluationError { reason: String },
    AgentCommunicationError { reason: String },
    PlatformError { reason: String },
}

} // verus!
