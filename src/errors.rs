use vstd::prelude::*;

verus! {

/// Every way an operation of the registry can fail. A failed operation
/// leaves all state as it was.
#[derive(Clone, Copy, Debug, PartialEq, Eq, Structural)]
pub enum RegistryError {
    NameTooLong,
    InvalidModelHash,
    CapabilitiesTooLong,
    AlreadyVerified,
    Unauthorized,
    ReputationDeltaTooLarge,
    AgentNotFound,
    RegistryFull,
    CollectionAlreadyInitialized,
    CollectionNotInitialized,
    QuestionTooLong,
    InvalidExpectedHash,
    InvalidResponseHash,
    ChallengeExpired,
    ChallengeNotPending,
    ChallengeMismatch,
    ChallengeNotExpired,
    InvalidDetailsHash,
    InvalidRiskScore,
    AuditSummaryNotFound,
    ChallengeStillPending,
}

/// The broad class of a failure.
#[derive(Clone, Copy, Debug, PartialEq, Eq, Structural)]
pub enum ErrorClass {
    /// A malformed or oversized field.
    InvalidInput,
    /// The caller lacks the capability the target record requires.
    Unauthorized,
    /// Setup is missing, or a record is not in the phase the operation needs.
    PreconditionFailed,
    /// A referenced record does not exist.
    NotFound,
    /// A counter would overflow.
    CapacityExceeded,
    /// A reputation change beyond the allowed magnitude.
    DeltaTooLarge,
}

pub open spec fn class_of(e: RegistryError) -> ErrorClass {
    match e {
        RegistryError::NameTooLong => ErrorClass::InvalidInput,
        RegistryError::InvalidModelHash => ErrorClass::InvalidInput,
        RegistryError::CapabilitiesTooLong => ErrorClass::InvalidInput,
        RegistryError::QuestionTooLong => ErrorClass::InvalidInput,
        RegistryError::InvalidExpectedHash => ErrorClass::InvalidInput,
        RegistryError::InvalidResponseHash => ErrorClass::InvalidInput,
        RegistryError::InvalidDetailsHash => ErrorClass::InvalidInput,
        RegistryError::InvalidRiskScore => ErrorClass::InvalidInput,
        RegistryError::Unauthorized => ErrorClass::Unauthorized,
        RegistryError::ChallengeMismatch => ErrorClass::Unauthorized,
        RegistryError::AlreadyVerified => ErrorClass::PreconditionFailed,
        RegistryError::CollectionAlreadyInitialized => ErrorClass::PreconditionFailed,
        RegistryError::CollectionNotInitialized => ErrorClass::PreconditionFailed,
        RegistryError::ChallengeExpired => ErrorClass::PreconditionFailed,
        RegistryError::ChallengeNotPending => ErrorClass::PreconditionFailed,
        RegistryError::ChallengeNotExpired => ErrorClass::PreconditionFailed,
        RegistryError::ChallengeStillPending => ErrorClass::PreconditionFailed,
        RegistryError::AgentNotFound => ErrorClass::NotFound,
        RegistryError::AuditSummaryNotFound => ErrorClass::NotFound,
        RegistryError::RegistryFull => ErrorClass::CapacityExceeded,
        RegistryError::ReputationDeltaTooLarge => ErrorClass::DeltaTooLarge,
    }
}

impl RegistryError {
    /// The class this failure belongs to.
    pub fn class(&self) -> (r: ErrorClass)
        ensures
            r == class_of(*self),
    {
        match self {
            RegistryError::NameTooLong => ErrorClass::InvalidInput,
            RegistryError::InvalidModelHash => ErrorClass::InvalidInput,
            RegistryError::CapabilitiesTooLong => ErrorClass::InvalidInput,
            RegistryError::QuestionTooLong => ErrorClass::InvalidInput,
            RegistryError::InvalidExpectedHash => ErrorClass::InvalidInput,
            RegistryError::InvalidResponseHash => ErrorClass::InvalidInput,
            RegistryError::InvalidDetailsHash => ErrorClass::InvalidInput,
            RegistryError::InvalidRiskScore => ErrorClass::InvalidInput,
            RegistryError::Unauthorized => ErrorClass::Unauthorized,
            RegistryError::ChallengeMismatch => ErrorClass::Unauthorized,
            RegistryError::AlreadyVerified => ErrorClass::PreconditionFailed,
            RegistryError::CollectionAlreadyInitialized => ErrorClass::PreconditionFailed,
            RegistryError::CollectionNotInitialized => ErrorClass::PreconditionFailed,
            RegistryError::ChallengeExpired => ErrorClass::PreconditionFailed,
            RegistryError::ChallengeNotPending => ErrorClass::PreconditionFailed,
            RegistryError::ChallengeNotExpired => ErrorClass::PreconditionFailed,
            RegistryError::ChallengeStillPending => ErrorClass::PreconditionFailed,
            RegistryError::AgentNotFound => ErrorClass::NotFound,
            RegistryError::AuditSummaryNotFound => ErrorClass::NotFound,
            RegistryError::RegistryFull => ErrorClass::CapacityExceeded,
            RegistryError::ReputationDeltaTooLarge => ErrorClass::DeltaTooLarge,
        }
    }
}

} // verus!
