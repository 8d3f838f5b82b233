//! Closed error taxonomy of the submission pipeline and its components,
//! together with the one exhaustive mapping from error kind to the HTTP
//! status and message that the routing layer answers with.

use vstd::prelude::*;

verus! {

/// Status and message taken from the moderation provider's error body.
#[derive(Debug, Clone, PartialEq, Eq)]
pub struct APILayerError {
    pub status: u16,
    pub message: String,
}

/// Why a session token was rejected.
#[derive(Debug, Clone, Copy, PartialEq, Eq, Structural)]
pub enum TokenError {
    /// Decryption or authentication failed: tampering, wrong key, or a
    /// corrupted encoding.
    Malformed,
    /// The token decrypted correctly but its expiration time has passed.
    Expired,
}

/// Terminal failure of a moderation call, classified by what the provider
/// answered.
#[derive(Debug, Clone, PartialEq, Eq)]
pub enum ModerationError {
    /// The provider answered with a 4xx status: the request itself is bad.
    ClientError(APILayerError),
    /// The provider answered with a 5xx status, through the whole retry
    /// budget.
    ServerError(APILayerError),
    /// No usable response was ever produced (connection failure, timeout,
    /// or an unreadable success body).
    TransportError,
}

/// Failure reported by the storage collaborator.
#[derive(Debug, Clone, Copy, PartialEq, Eq, Structural)]
pub enum StorageError {
    /// A unique-key conflict, e.g. registering an email that exists.
    DuplicateKey,
    /// Any other storage failure.
    Other,
}

/// Malformed request parameters.
#[derive(Debug, Clone, Copy, PartialEq, Eq, Structural)]
pub enum ValidationError {
    /// A required query parameter is absent.
    MissingParameters,
    /// A parameter is present but is not a number in range.
    ParseError,
}

/// The one error type that pipeline stages and handlers return.
#[derive(Debug, Clone, PartialEq, Eq)]
pub enum Error {
    /// A stored credential hash is malformed or the crypto layer failed.
    CryptoError,
    /// The presented password does not match the stored hash.
    WrongPassword,
    /// A session token was rejected.
    Token(TokenError),
    /// No valid session token accompanied the request.
    Unauthenticated,
    /// A valid session, but the account does not own the resource.
    Unauthorized,
    /// The moderation call failed terminally.
    Moderation(ModerationError),
    /// The storage collaborator failed.
    Storage(StorageError),
    /// The request parameters are malformed.
    Validation(ValidationError),
}

impl Error {
    /// The HTTP status this error kind maps to. Provider failures are
    /// reported as a generic internal error, never with the provider's own
    /// status; authentication and authorization failures keep statuses
    /// that never reveal whether the resource exists or which check
    /// failed.
    pub open spec fn spec_http_status(&self) -> u16 {
        match self {
            Error::CryptoError => 422u16,
            Error::WrongPassword => 401u16,
            Error::Token(_) => 404u16,
            Error::Unauthenticated => 404u16,
            Error::Unauthorized => 401u16,
            Error::Moderation(_) => 500u16,
            Error::Storage(_) => 422u16,
            Error::Validation(_) => 422u16,
        }
    }

    /// The one exhaustive mapping from error kind to HTTP status.
    pub fn http_status(&self) -> (s: u16)
        ensures
            s == self.spec_http_status(),
    {
        match self {
            Error::CryptoError => 422,
            Error::WrongPassword => 401,
            Error::Token(_) => 404,
            Error::Unauthenticated => 404,
            Error::Unauthorized => 401,
            Error::Moderation(_) => 500,
            Error::Storage(_) => 422,
            Error::Validation(_) => 422,
        }
    }

    /// The client-facing message for this error kind. Moderation errors
    /// never carry the provider's diagnostics outward.
    pub fn message(&self) -> (m: String)
        ensures
            m@ == self.spec_message(),
    {
        match self {
            Error::CryptoError => String::from_str("Cannot verifiy password"),
            Error::WrongPassword => String::from_str("Wrong E-Mail/Password combination"),
            Error::Token(_) => String::from_str("Route not found"),
            Error::Unauthenticated => String::from_str("Route not found"),
            Error::Unauthorized => String::from_str(
                "No permission to change underlying resource",
            ),
            Error::Moderation(_) => String::from_str("Internal Server Error"),
            Error::Storage(StorageError::DuplicateKey) => String::from_str(
                "Account already exsists",
            ),
            Error::Storage(StorageError::Other) => String::from_str("Cannot update data"),
            Error::Validation(ValidationError::MissingParameters) => String::from_str(
                "Missing parameter",
            ),
            Error::Validation(ValidationError::ParseError) => String::from_str(
                "Cannot parse parameter",
            ),
        }
    }

    pub open spec fn spec_message(&self) -> Seq<char> {
        match self {
            Error::CryptoError => "Cannot verifiy password"@,
            Error::WrongPassword => "Wrong E-Mail/Password combination"@,
            Error::Token(_) => "Route not found"@,
            Error::Unauthenticated => "Route not found"@,
            Error::Unauthorized => "No permission to change underlying resource"@,
            Error::Moderation(_) => "Internal Server Error"@,
            Error::Storage(StorageError::DuplicateKey) => "Account already exsists"@,
            Error::Storage(StorageError::Other) => "Cannot update data"@,
            Error::Validation(ValidationError::MissingParameters) => "Missing parameter"@,
            Error::Validation(ValidationError::ParseError) => "Cannot parse parameter"@,
        }
    }
}

} // verus!
