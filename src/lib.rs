pub mod agent;
pub mod audit;
pub mod challenge;
pub mod errors;
pub mod principal;
pub mod registry;
pub mod text;

pub use agent::{update_agent, update_reputation, verify_agent, AgentAccount};
pub use audit::{
    get_audit_status, log_audit, ActionType, AgentAuditSummary, AuditEntry, AuditStatusResponse,
    RiskLevel,
};
pub use challenge::{
    close_challenge, create_challenge, expire_challenge, submit_response, Challenge, ChallengeKey,
    ChallengeStatus,
};
pub use errors::{ErrorClass, RegistryError};
pub use principal::Principal;
pub use registry::{create_collection, initialize, register_agent, RegistryState};
