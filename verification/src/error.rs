//! Error kinds for botanical operations. Pure conversion and classification
//! never fail; these errors come from validation entry points and from the
//! collaborator-facing integration boundary.

use vstd::prelude::*;
use vstd::string::StringExecFns;

verus! {

/// Error raised by validation and collaborator integration.
#[derive(Debug, Clone)]
pub enum DatabaseError {
    /// Migration error
    MigrationError(String),
    /// Configuration error
    ConfigError(String),
    /// Validation error
    ValidationError(String),
    /// Not found error
    NotFound(String),
    /// Constraint violation error
    ConstraintViolation(String),
    /// ContextLite integration error
    ContextLiteError(String),
}

/// The human-readable description of an error value.
pub open spec fn error_text(e: DatabaseError) -> Seq<char> {
    match e {
        DatabaseError::MigrationError(m) => "Migration error: "@ + m@,
        DatabaseError::ConfigError(m) => "Configuration error: "@ + m@,
        DatabaseError::ValidationError(m) => "Validation error: "@ + m@,
        DatabaseError::NotFound(m) => "Not found: "@ + m@,
        DatabaseError::ConstraintViolation(m) => "Constraint violation: "@ + m@,
        DatabaseError::ContextLiteError(m) => "ContextLite error: "@ + m@,
    }
}

impl DatabaseError {
    /// Create a new migration error
    pub fn migration(msg: &str) -> (r: Self)
        ensures
            r matches DatabaseError::MigrationError(m) && m@ == msg@,
    {
        DatabaseError::MigrationError(String::from_str(msg))
    }

    /// Create a new configuration error
    pub fn config(msg: &str) -> (r: Self)
        ensures
            r matches DatabaseError::ConfigError(m) && m@ == msg@,
    {
        DatabaseError::ConfigError(String::from_str(msg))
    }

    /// Create a new validation error
    pub fn validation(msg: &str) -> (r: Self)
        ensures
            r matches DatabaseError::ValidationError(m) && m@ == msg@,
    {
        DatabaseError::ValidationError(String::from_str(msg))
    }

    /// Create a new not found error
    pub fn not_found(msg: &str) -> (r: Self)
        ensures
            r matches DatabaseError::NotFound(m) && m@ == msg@,
    {
        DatabaseError::NotFound(String::from_str(msg))
    }

    /// Create a new constraint violation error
    pub fn constraint(msg: &str) -> (r: Self)
        ensures
            r matches DatabaseError::ConstraintViolation(m) && m@ == msg@,
    {
        DatabaseError::ConstraintViolation(String::from_str(msg))
    }

    /// Create a new ContextLite error
    pub fn contextlite(msg: &str) -> (r: Self)
        ensures
            r matches DatabaseError::ContextLiteError(m) && m@ == msg@,
    {
        DatabaseError::ContextLiteError(String::from_str(msg))
    }

    /// The error rendered as text, kind first.
    pub fn message(&self) -> (r: String)
        ensures
            r@ == error_text(*self),
    {
        match self {
            DatabaseError::MigrationError(m) => String::from_str("Migration error: ").concat(
                m.as_str(),
            ),
            DatabaseError::ConfigError(m) => String::from_str("Configuration error: ").concat(
                m.as_str(),
            ),
            DatabaseError::ValidationError(m) => String::from_str("Validation error: ").concat(
                m.as_str(),
            ),
            DatabaseError::NotFound(m) => String::from_str("Not found: ").concat(m.as_str()),
            DatabaseError::ConstraintViolation(m) => String::from_str(
                "Constraint violation: ",
            ).concat(m.as_str()),
            DatabaseError::ContextLiteError(m) => String::from_str("ContextLite error: ").concat(
                m.as_str(),
            ),
        }
    }
}

} // verus!
