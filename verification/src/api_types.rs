//! The bodies of the registry and token requests that the gateway passes
//! on, and of its system-information answer.
use vstd::prelude::*;
use std::collections::HashMap;

verus! {

/// An administrator's pre-registration of an agent.
pub struct PreRegisterAgentRequest {
    pub name: String,
    pub hostname: String,
    pub expected_os_type: Option<String>,
    pub expected_architecture: Option<String>,
    pub tags: Option<HashMap<String, String>>,
    /// The registration token's lifetime in hours (24 when absent).
    pub ttl_hours: Option<i64>,
}

/// The answer to a pre-registration: the agent's id and its registration
/// token.
pub struct PreRegisterAgentResponse {
    pub agent_id: String,
    pub registration_token: String,
    pub token_expires_at: String,
    pub message: String,
}

/// An agent's registration with its token and host facts.
pub struct RegisterAgentRequest {
    pub registration_token: String,
    pub name: String,
    pub hostname: String,
    pub os_type: String,
    pub os_version: String,
    pub architecture: String,
    pub agent_version: String,
    pub tags: Option<HashMap<String, String>>,
}

/// The answer to a registration: the agent's id and API key.
pub struct RegisterAgentResponse {
    pub agent_id: String,
    pub api_key: String,
    pub message: String,
}

/// An error answer with its message.
pub struct ErrorResponse {
    pub error: String,
}

/// The gateway host's system facts.
pub struct SystemInfoResponse {
    pub hostname: String,
    pub os_name: String,
    pub os_version: String,
    pub kernel_version: String,
    pub uptime_seconds: u64,
    pub cpu_model: String,
    pub cpu_cores: u32,
    pub cpu_threads: u32,
}

/// A request for a bootstrap token.
pub struct CreateTokenRequest {
    pub description: Option<String>,
    pub created_by: String,
    pub ttl_hours: i64,
}

/// A bootstrap token and when it expires.
pub struct CreateTokenResponse {
    pub token_id: String,
    pub token: String,
    pub expires_at: String,
}

/// A token to validate.
pub struct ValidateTokenRequest {
    pub token: String,
}

/// Whether a token is valid, and for which agent.
pub struct ValidateTokenResponse {
    pub valid: bool,
    pub agent_id: Option<String>,
}

} // verus!
