//! The failures of the service, and how each is shown to a client.

use vstd::prelude::*;
use vstd::string::StringExecFns;

verus! {

/// Everything that can go wrong while a request is served.
///
/// Failures of the storage driver are carried as the text that the driver
/// gave for them. That text is for the log: no answer to a client shows it.
#[derive(Debug, Clone, PartialEq, Eq)]
pub enum ServiceError {
    DuplicateValue(String),
    BadRequest(String),
    BadId,
    NotFound(String),
    ProcessError(String),
    PGError(String),
    PGMError(String),
    PoolError(String),
    InternalServerError(String),
    PostgressError(String),
    AuthenticationError(String),
    GenericError(String),
    BlockingError(String),
    Conflict(String),
    FaultySetup(String),
    DatabaseError(String),
    /// No valid session came with the request.
    Unauthorized,
    /// A ciphertext could not be made or did not authenticate.
    CryptoError,
    /// The configured secret key is not 32 bytes of hexadecimal text.
    ConfigError,
}

pub const STATUS_BAD_REQUEST: u16 = 400;

pub const STATUS_UNAUTHORIZED: u16 = 401;

pub const STATUS_NOT_FOUND: u16 = 404;

pub const STATUS_INTERNAL_SERVER_ERROR: u16 = 500;

impl ServiceError {
    /// The HTTP status that answers this failure.
    pub open spec fn status(self) -> u16 {
        match self {
            ServiceError::NotFound(_) => STATUS_NOT_FOUND,
            ServiceError::AuthenticationError(_)
            | ServiceError::Unauthorized => STATUS_UNAUTHORIZED,
            ServiceError::ProcessError(_)
            | ServiceError::PostgressError(_)
            | ServiceError::InternalServerError(_)
            | ServiceError::FaultySetup(_)
            | ServiceError::DatabaseError(_)
            | ServiceError::CryptoError
            | ServiceError::ConfigError => STATUS_INTERNAL_SERVER_ERROR,
            _ => STATUS_BAD_REQUEST,
        }
    }

    /// The text that the answer carries. Each of the five storage failures
    /// shows a fixed text, never the driver's own; so do the two failures of
    /// the key and the cipher.
    pub open spec fn body(self) -> Seq<char> {
        match self {
            ServiceError::BadId => "Invalid ID"@,
            ServiceError::PGError(_) => "PG Error"@,
            ServiceError::PGMError(_) => "PG Mapper Error"@,
            ServiceError::PoolError(_) => "Pool Error"@,
            ServiceError::PostgressError(_) => "Error from Postgres"@,
            ServiceError::DatabaseError(_) => "Database Error"@,
            ServiceError::Unauthorized => "UnAuthorized"@,
            ServiceError::CryptoError => "Encryption failure"@,
            ServiceError::ConfigError => "Faulty configuration"@,
            ServiceError::DuplicateValue(m)
            | ServiceError::BadRequest(m)
            | ServiceError::NotFound(m)
            | ServiceError::ProcessError(m)
            | ServiceError::InternalServerError(m)
            | ServiceError::AuthenticationError(m)
            | ServiceError::GenericError(m)
            | ServiceError::BlockingError(m)
            | ServiceError::Conflict(m)
            | ServiceError::FaultySetup(m) => m@,
        }
    }

    /// The failure written out for a log line.
    pub open spec fn text(self) -> Seq<char> {
        match self {
            ServiceError::BadId => "bad id"@,
            ServiceError::FaultySetup(m) | ServiceError::DatabaseError(m) => "Setup Error: "@ + m@,
            ServiceError::Unauthorized => "User doesn't have access"@,
            ServiceError::CryptoError => "Encryption failure"@,
            ServiceError::ConfigError => "Faulty configuration"@,
            ServiceError::DuplicateValue(m)
            | ServiceError::BadRequest(m)
            | ServiceError::NotFound(m)
            | ServiceError::ProcessError(m)
            | ServiceError::PGError(m)
            | ServiceError::PGMError(m)
            | ServiceError::PoolError(m)
            | ServiceError::InternalServerError(m)
            | ServiceError::PostgressError(m)
            | ServiceError::AuthenticationError(m)
            | ServiceError::GenericError(m)
            | ServiceError::BlockingError(m)
            | ServiceError::Conflict(m) => m@,
        }
    }

    /// The name of the kind of failure.
    pub open spec fn kind(self) -> Seq<char> {
        match self {
            ServiceError::BadRequest(_) => "Bad Request"@,
            ServiceError::InternalServerError(_) => "Internal Server Error"@,
            ServiceError::Unauthorized => "Unauthorized"@,
            ServiceError::DuplicateValue(_) => "duplicate values error"@,
            ServiceError::BadId => "Bad Id"@,
            ServiceError::NotFound(_) => "Not Found"@,
            ServiceError::ProcessError(_) => "Process Error"@,
            ServiceError::Conflict(_) => "Conflict Error"@,
            ServiceError::PostgressError(_) => "Error from Postgres"@,
            ServiceError::AuthenticationError(_) => "Auth Error"@,
            ServiceError::GenericError(_) => "Generic errors"@,
            ServiceError::BlockingError(_) => "Blocking "@,
            ServiceError::PGError(_) => "Pg Error"@,
            ServiceError::PGMError(_) => "PGMapping Error"@,
            ServiceError::PoolError(_) => "Pool Error"@,
            ServiceError::FaultySetup(_) => "Faulty Setup Error"@,
            ServiceError::DatabaseError(_) => "Database Error"@,
            ServiceError::CryptoError => "Crypto Error"@,
            ServiceError::ConfigError => "Config Error"@,
        }
    }

    /// The HTTP status that answers this failure.
    pub fn status_code(&self) -> (code: u16)
        ensures
            code == self.status(),
    {
        match self {
            ServiceError::NotFound(_) => STATUS_NOT_FOUND,
            ServiceError::AuthenticationError(_) => STATUS_UNAUTHORIZED,
            ServiceError::Unauthorized => STATUS_UNAUTHORIZED,
            ServiceError::ProcessError(_) => STATUS_INTERNAL_SERVER_ERROR,
            ServiceError::PostgressError(_) => STATUS_INTERNAL_SERVER_ERROR,
            ServiceError::InternalServerError(_) => STATUS_INTERNAL_SERVER_ERROR,
            ServiceError::FaultySetup(_) => STATUS_INTERNAL_SERVER_ERROR,
            ServiceError::DatabaseError(_) => STATUS_INTERNAL_SERVER_ERROR,
            ServiceError::CryptoError => STATUS_INTERNAL_SERVER_ERROR,
            ServiceError::ConfigError => STATUS_INTERNAL_SERVER_ERROR,
            _ => STATUS_BAD_REQUEST,
        }
    }

    /// The text that the answer to a client carries.
    pub fn error_response(&self) -> (answer: (u16, String))
        ensures
            answer.0 == self.status(),
            answer.1@ == self.body(),
    {
        let code = self.status_code();
        let text = match self {
            ServiceError::BadId => String::from_str("Invalid ID"),
            ServiceError::PGError(_) => String::from_str("PG Error"),
            ServiceError::PGMError(_) => String::from_str("PG Mapper Error"),
            ServiceError::PoolError(_) => String::from_str("Pool Error"),
            ServiceError::PostgressError(_) => String::from_str("Error from Postgres"),
            ServiceError::DatabaseError(_) => String::from_str("Database Error"),
            ServiceError::Unauthorized => String::from_str("UnAuthorized"),
            ServiceError::CryptoError => String::from_str("Encryption failure"),
            ServiceError::ConfigError => String::from_str("Faulty configuration"),
            ServiceError::DuplicateValue(m) => m.clone(),
            ServiceError::BadRequest(m) => m.clone(),
            ServiceError::NotFound(m) => m.clone(),
            ServiceError::ProcessError(m) => m.clone(),
            ServiceError::InternalServerError(m) => m.clone(),
            ServiceError::AuthenticationError(m) => m.clone(),
            ServiceError::GenericError(m) => m.clone(),
            ServiceError::BlockingError(m) => m.clone(),
            ServiceError::Conflict(m) => m.clone(),
            ServiceError::FaultySetup(m) => m.clone(),
        };
        (code, text)
    }

    /// The failure written out for a log line.
    pub fn message(&self) -> (line: String)
        ensures
            line@ == self.text(),
    {
        match self {
            ServiceError::BadId => String::from_str("bad id"),
            ServiceError::FaultySetup(m) => String::from_str("Setup Error: ").concat(m.as_str()),
            ServiceError::DatabaseError(m) => String::from_str("Setup Error: ").concat(m.as_str()),
            ServiceError::Unauthorized => String::from_str("User doesn't have access"),
            ServiceError::CryptoError => String::from_str("Encryption failure"),
            ServiceError::ConfigError => String::from_str("Faulty configuration"),
            ServiceError::DuplicateValue(m) => m.clone(),
            ServiceError::BadRequest(m) => m.clone(),
            ServiceError::NotFound(m) => m.clone(),
            ServiceError::ProcessError(m) => m.clone(),
            ServiceError::PGError(m) => m.clone(),
            ServiceError::PGMError(m) => m.clone(),
            ServiceError::PoolError(m) => m.clone(),
            ServiceError::InternalServerError(m) => m.clone(),
            ServiceError::PostgressError(m) => m.clone(),
            ServiceError::AuthenticationError(m) => m.clone(),
            ServiceError::GenericError(m) => m.clone(),
            ServiceError::BlockingError(m) => m.clone(),
            ServiceError::Conflict(m) => m.clone(),
        }
    }

    /// The name of the kind of failure.
    pub fn description(&self) -> (name: &'static str)
        ensures
            name@ == self.kind(),
    {
        match self {
            ServiceError::BadRequest(_) => "Bad Request",
            ServiceError::InternalServerError(_) => "Internal Server Error",
            ServiceError::Unauthorized => "Unauthorized",
            ServiceError::DuplicateValue(_) => "duplicate values error",
            ServiceError::BadId => "Bad Id",
            ServiceError::NotFound(_) => "Not Found",
            ServiceError::ProcessError(_) => "Process Error",
            ServiceError::Conflict(_) => "Conflict Error",
            ServiceError::PostgressError(_) => "Error from Postgres",
            ServiceError::AuthenticationError(_) => "Auth Error",
            ServiceError::GenericError(_) => "Generic errors",
            ServiceError::BlockingError(_) => "Blocking ",
            ServiceError::PGError(_) => "Pg Error",
            ServiceError::PGMError(_) => "PGMapping Error",
            ServiceError::PoolError(_) => "Pool Error",
            ServiceError::FaultySetup(_) => "Faulty Setup Error",
            ServiceError::DatabaseError(_) => "Database Error",
            ServiceError::CryptoError => "Crypto Error",
            ServiceError::ConfigError => "Config Error",
        }
    }
}

/// `e` is a failure of the store or of the way to it.
pub open spec fn is_storage_failure(e: ServiceError) -> bool {
    e is PGError || e is PGMError || e is PoolError || e is PostgressError || e is DatabaseError
}

/// What a client is told of a storage failure does not depend on what the
/// driver said: two failures of one kind are answered alike, whatever text
/// each of them carries.
pub proof fn lemma_storage_failures_are_opaque(first: String, second: String)
    ensures
        ServiceError::PGError(first).body() == ServiceError::PGError(second).body(),
        ServiceError::PGMError(first).body() == ServiceError::PGMError(second).body(),
        ServiceError::PoolError(first).body() == ServiceError::PoolError(second).body(),
        ServiceError::PostgressError(first).body() == ServiceError::PostgressError(second).body(),
        ServiceError::DatabaseError(first).body() == ServiceError::DatabaseError(second).body(),
{
}

} // verus!
