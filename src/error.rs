//! Error values shared by the storage and broker layers.
use vstd::prelude::*;
use vstd::string::*;

verus! {

/// An error: what kind it is, what caused it and in which context it arose.
pub struct Error {
    pub etype: ErrorType,
    pub cause: Option<String>,
    pub context: Option<String>,
}

impl Error {
    /// Builds an error from its three parts.
    pub fn new(etype: ErrorType, cause: Option<String>, context: Option<String>) -> (r: Error)
        ensures
            r.etype == etype,
            r.cause == cause,
            r.context == context,
    {
        Error { etype, cause, context }
    }

    /// Human-readable text of the error: the name of its kind.
    pub fn describe(&self) -> (r: String)
        ensures
            r@ == self.etype.name_spec(),
    {
        self.etype.name()
    }
}

/// Kinds of error.
#[derive(Debug, Clone, Copy, PartialEq, Eq, Structural)]
pub enum ErrorType {
    /// Generic error that carries no further information.
    Unspecified,
    /// An error of the storage or broker layer.
    Database(DatabaseError),
    /// A reading or writing error.
    InuputOutput(IoError),
}

/// Errors of the storage and broker layer.
#[derive(Debug, Clone, Copy, PartialEq, Eq, Structural)]
pub enum DatabaseError {
    /// The connection pool has not been created correctly.
    PoolCreation,
    /// The connection pool could not be obtained.
    PoolObtention,
    /// The message for the broker has not been sent.
    MessageNotSent,
}

/// Reading and writing errors.
#[derive(Debug, Clone, Copy, PartialEq, Eq, Structural)]
pub enum IoError {
    /// Reading failed.
    ReadError,
    /// Writing failed.
    WriteError,
}

impl DatabaseError {
    pub open spec fn name_spec(&self) -> Seq<char> {
        match self {
            DatabaseError::PoolCreation => "PoolCreation"@,
            DatabaseError::PoolObtention => "PoolObtention"@,
            DatabaseError::MessageNotSent => "MessageNotSent"@,
        }
    }

    /// Name of the error.
    pub fn name(&self) -> (r: String)
        ensures
            r@ == self.name_spec(),
    {
        match self {
            DatabaseError::PoolCreation => String::from_str("PoolCreation"),
            DatabaseError::PoolObtention => String::from_str("PoolObtention"),
            DatabaseError::MessageNotSent => String::from_str("MessageNotSent"),
        }
    }

    pub open spec fn describe_spec(&self) -> Seq<char> {
        match self {
            DatabaseError::PoolCreation => "The connection pool has not been created correctly."@,
            DatabaseError::PoolObtention => "The connection pool could not be obtained."@,
            DatabaseError::MessageNotSent => "The message for the broker has not been sent."@,
        }
    }

    /// Human-readable text of the error.
    pub fn describe(&self) -> (r: String)
        ensures
            r@ == self.describe_spec(),
    {
        match self {
            DatabaseError::PoolCreation => String::from_str(
                "The connection pool has not been created correctly.",
            ),
            DatabaseError::PoolObtention => String::from_str(
                "The connection pool could not be obtained.",
            ),
            DatabaseError::MessageNotSent => String::from_str(
                "The message for the broker has not been sent.",
            ),
        }
    }
}

impl IoError {
    pub open spec fn name_spec(&self) -> Seq<char> {
        match self {
            IoError::ReadError => "ReadError"@,
            IoError::WriteError => "WriteError"@,
        }
    }

    /// Name of the error.
    pub fn name(&self) -> (r: String)
        ensures
            r@ == self.name_spec(),
    {
        match self {
            IoError::ReadError => String::from_str("ReadError"),
            IoError::WriteError => String::from_str("WriteError"),
        }
    }

    pub open spec fn describe_spec(&self) -> Seq<char> {
        match self {
            IoError::ReadError => "Reading failed."@,
            IoError::WriteError => "Writing failed."@,
        }
    }

    /// Human-readable text of the error.
    pub fn describe(&self) -> (r: String)
        ensures
            r@ == self.describe_spec(),
    {
        match self {
            IoError::ReadError => String::from_str("Reading failed."),
            IoError::WriteError => String::from_str("Writing failed."),
        }
    }
}

impl ErrorType {
    pub open spec fn describe_spec(&self) -> Seq<char> {
        match self {
            ErrorType::Unspecified => "An error has occurred, but no further information is provided."@,
            ErrorType::Database(e) => e.name_spec(),
            ErrorType::InuputOutput(e) => e.name_spec(),
        }
    }

    pub open spec fn name_spec(&self) -> Seq<char> {
        match self {
            ErrorType::Unspecified => "Unspecified"@,
            ErrorType::Database(e) => "Database("@ + e.name_spec() + ")"@,
            ErrorType::InuputOutput(e) => "InuputOutput("@ + e.name_spec() + ")"@,
        }
    }

    /// Name of the kind, with the name of the inner error.
    pub fn name(&self) -> (r: String)
        ensures
            r@ == self.name_spec(),
    {
        match self {
            ErrorType::Unspecified => String::from_str("Unspecified"),
            ErrorType::Database(e) => {
                let mut r = String::from_str("Database(");
                r.append(e.name().as_str());
                r.append(")");
                r
            },
            ErrorType::InuputOutput(e) => {
                let mut r = String::from_str("InuputOutput(");
                r.append(e.name().as_str());
                r.append(")");
                r
            },
        }
    }

    /// Human-readable text of the error.
    pub fn describe(&self) -> (r: String)
        ensures
            r@ == self.describe_spec(),
    {
        match self {
            ErrorType::Unspecified => String::from_str(
                "An error has occurred, but no further information is provided.",
            ),
            ErrorType::Database(e) => e.name(),
            ErrorType::InuputOutput(e) => e.name(),
        }
    }
}

} // verus!
