//! Application layer: use cases that drive the game rules.
pub mod dto;
pub mod services;
pub mod use_cases;

pub use use_cases::{HandleEncounterUseCase, MovePlayerUseCase, SpawnEnemiesUseCase, UpdateScoreUseCase};

use crate::domain::DomainError;
use vstd::prelude::*;

verus! {

/// Errors of the application layer.
#[derive(Debug, Clone, PartialEq)]
pub enum ApplicationError {
    DomainError(DomainError),
    UseCaseError(String),
    ServiceError(String),
    InvalidInput(String),
    InvalidSession(String),
}

/// Result of an application operation.
pub type ApplicationResult<T> = Result<T, ApplicationError>;

impl ApplicationError {
    /// The text of the error.
    pub open spec fn spec_message(&self) -> Seq<char> {
        match self {
            ApplicationError::DomainError(e) => "Domain error: "@ + e.spec_message(),
            ApplicationError::UseCaseError(m) => "Use case error: "@ + m@,
            ApplicationError::ServiceError(m) => "Service error: "@ + m@,
            ApplicationError::InvalidInput(m) => "Invalid input: "@ + m@,
            ApplicationError::InvalidSession(m) => "Invalid session: "@ + m@,
        }
    }

    /// The text of the error.
    pub fn to_string(&self) -> (r: String)
        ensures
            r@ == self.spec_message(),
    {
        let r = match self {
            ApplicationError::DomainError(e) => {
                let inner = e.to_string();
                String::from_str("Domain error: ").concat(inner.as_str())
            },
            ApplicationError::UseCaseError(m) => String::from_str("Use case error: ").concat(m.as_str()),
            ApplicationError::ServiceError(m) => String::from_str("Service error: ").concat(m.as_str()),
            ApplicationError::InvalidInput(m) => String::from_str("Invalid input: ").concat(m.as_str()),
            ApplicationError::InvalidSession(m) => String::from_str("Invalid session: ").concat(m.as_str()),
        };
        assert(r@ =~= self.spec_message());
        r
    }
}

impl From<DomainError> for ApplicationError {
    fn from(error: DomainError) -> (r: Self) {
        ApplicationError::DomainError(error)
    }
}

impl vstd::std_specs::convert::FromSpecImpl<DomainError> for ApplicationError {
    open spec fn obeys_from_spec() -> bool {
        true
    }

    open spec fn from_spec(error: DomainError) -> ApplicationError {
        ApplicationError::DomainError(error)
    }
}

} // verus!
