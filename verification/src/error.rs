//! Error taxonomy of the library.

use vstd::prelude::*;

verus! {

/// A fault in a workflow definition, found when the definition is loaded or
/// when the engine walks its graph. Fatal to the requested operation; the
/// last durably persisted state is left intact.
#[derive(Clone, PartialEq, Eq, Structural, Debug)]
pub enum DefinitionError {
    /// No node of the Start kind exists.
    NoStartNode,
    /// More than one node of the Start kind exists.
    AmbiguousStart,
    /// Two nodes share one identifier.
    DuplicateNode,
    /// An edge names a source or target node that the definition lacks.
    DanglingEdge,
    /// A regular-expression condition does not compile.
    InvalidPattern,
    /// A node that advances automatically has no edge whose condition is
    /// absent or `Always`.
    NoEligibleEdge,
    /// The auto-transition loop exceeded its bound without reaching a
    /// suspending node.
    PossibleInfiniteLoop,
}

/// A fault while the engine processes a request for one subject.
#[derive(Clone, PartialEq, Eq, Structural, Debug)]
pub enum EngineError {
    /// The definition graph is at fault.
    Definition(DefinitionError),
    /// A start was requested while an active instance exists for the
    /// subject. Recoverable; reported as a no-op.
    ConcurrencyViolation,
    /// No stored definition carries the requested identifier.
    DefinitionNotFound,
    /// The instance names a current node that its definition lacks.
    NodeNotFound,
    /// The new instance would reuse the identifier of a stored row
    /// belonging to another subject.
    DuplicateInstanceId,
}

/// General error type of the process, kept for callers of the wider
/// application surface.
#[derive(Clone, Debug)]
pub enum CoreError {
    DbError(String),
    IoError(String),
    DomainError(String),
    Unknown(String),
    InternalError(String),
    ValidationError(String),
    SystemError(String),
}

impl CoreError {
    /// Compatibility constructor for database faults.
    #[allow(non_snake_case)]
    pub fn Db(msg: String) -> (r: CoreError)
        ensures
            r == CoreError::DbError(msg),
    {
        CoreError::DbError(msg)
    }

    /// The text carried by the error.
    pub fn message(&self) -> (r: &String)
        ensures
            r@ == self.spec_message()@,
    {
        match self {
            CoreError::DbError(m) => m,
            CoreError::IoError(m) => m,
            CoreError::DomainError(m) => m,
            CoreError::Unknown(m) => m,
            CoreError::InternalError(m) => m,
            CoreError::ValidationError(m) => m,
            CoreError::SystemError(m) => m,
        }
    }

    /// The text carried by the error.
    pub open spec fn spec_message(&self) -> String {
        match self {
            CoreError::DbError(m) => *m,
            CoreError::IoError(m) => *m,
            CoreError::DomainError(m) => *m,
            CoreError::Unknown(m) => *m,
            CoreError::InternalError(m) => *m,
            CoreError::ValidationError(m) => *m,
            CoreError::SystemError(m) => *m,
        }
    }
}

/// Error payload shaped for the user-interface boundary.
pub struct ErrorResponse {
    pub message: String,
}

impl ErrorResponse {
    /// Wrap an error's text for the user interface.
    pub fn of_error(err: &CoreError) -> (r: ErrorResponse)
        ensures
            r.message@ == err.spec_message()@,
    {
        ErrorResponse { message: err.message().clone() }
    }
}

} // verus!
