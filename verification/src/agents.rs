//! Requests to and responses from the conversational agent system. The
//! agent itself is an external collaborator: this library only shapes
//! the values that cross that boundary.

use vstd::prelude::*;

verus! {

/// A request to the agent system.
#[derive(Debug)]
pub struct AgentRequest {
    /// User's message.
    pub message: String,
    /// User id.
    pub user_id: String,
    /// Family ids the user belongs to.
    pub family_ids: Vec<String>,
    /// Device id, when known.
    pub device_id: Option<String>,
    /// Conversation or session id.
    pub conversation_id: Option<String>,
    /// Pre-classified intent, when known.
    pub intent: Option<String>,
    /// Source platform.
    pub source: String,
}

/// A response from the agent system.
#[derive(Debug)]
pub struct AgentResponse {
    /// Status of the response.
    pub status: String,
    /// Agent's response text.
    pub response: String,
    /// User id, echoed back.
    pub user_id: String,
    /// Conversation id.
    pub conversation_id: Option<String>,
    /// Additional metadata.
    pub metadata: Option<AgentMetadata>,
}

/// Metadata about one agent execution.
#[derive(Debug)]
pub struct AgentMetadata {
    /// Source platform.
    pub source: Option<String>,
    /// Model used.
    pub model_id: Option<String>,
    /// Agents that participated.
    pub agents_used: Option<Vec<String>>,
    /// Number of hand-offs between agents.
    pub handoff_count: Option<u32>,
}

} // verus!
