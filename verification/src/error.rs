//! Service-level error codes shared by the HTTP layer.

use vstd::prelude::*;

verus! {

/// The error kinds a service reports to its callers, each with a fixed
/// numeric code: the HTTP status codes, then the chain, transaction, key
/// management and external ranges.
#[derive(Debug, Clone, Copy, PartialEq, Eq, Structural)]
pub enum CALError {
    BadRequest,
    Unauthorized,
    Forbidden,
    NotFound,
    TooManyRequests,
    InternalServerError,
    NotImplemented,
    BadGateway,
    ServiceUnavailable,
    GatewayTimeout,
    ChainError,
    TransactionError,
    TransactionTimeout,
    TransactionReverted,
    KMSError,
    ExternalError,
    CitaCMCCreateFailed,
}

impl CALError {
    /// The numeric code of each kind.
    pub open spec fn spec_code(self) -> u16 {
        match self {
            CALError::BadRequest => 400,
            CALError::Unauthorized => 401,
            CALError::Forbidden => 403,
            CALError::NotFound => 404,
            CALError::TooManyRequests => 429,
            CALError::InternalServerError => 500,
            CALError::NotImplemented => 501,
            CALError::BadGateway => 502,
            CALError::ServiceUnavailable => 503,
            CALError::GatewayTimeout => 504,
            CALError::ChainError => 1000,
            CALError::TransactionError => 2000,
            CALError::TransactionTimeout => 2001,
            CALError::TransactionReverted => 2002,
            CALError::KMSError => 3000,
            CALError::ExternalError => 4000,
            CALError::CitaCMCCreateFailed => 4001,
        }
    }

    /// The message of each kind.
    pub open spec fn spec_text(self) -> Seq<char> {
        match self {
            CALError::BadRequest => "Bad Request"@,
            CALError::Unauthorized => "Unauthorized"@,
            CALError::Forbidden => "Forbidden"@,
            CALError::NotFound => "Not Found"@,
            CALError::TooManyRequests => "Too Many Requests"@,
            CALError::InternalServerError => "Internal Server Error"@,
            CALError::NotImplemented => "Not Implemented"@,
            CALError::BadGateway => "Bad Gateway"@,
            CALError::ServiceUnavailable => "Service Unavailable"@,
            CALError::GatewayTimeout => "Gateway Timeout"@,
            CALError::ChainError => "Chain Error"@,
            CALError::TransactionError => "Transaction Error"@,
            CALError::TransactionTimeout => "Transaction Timeout"@,
            CALError::TransactionReverted => "Transaction Reverted"@,
            CALError::KMSError => "KMS Error"@,
            CALError::ExternalError => "External Error"@,
            CALError::CitaCMCCreateFailed => "Cita CMC Create Failed"@,
        }
    }

    /// The numeric code, as the HTTP layer sends it.
    pub fn code(self) -> (c: u16)
        ensures
            c == self.spec_code(),
    {
        match self {
            CALError::BadRequest => 400,
            CALError::Unauthorized => 401,
            CALError::Forbidden => 403,
            CALError::NotFound => 404,
            CALError::TooManyRequests => 429,
            CALError::InternalServerError => 500,
            CALError::NotImplemented => 501,
            CALError::BadGateway => 502,
            CALError::ServiceUnavailable => 503,
            CALError::GatewayTimeout => 504,
            CALError::ChainError => 1000,
            CALError::TransactionError => 2000,
            CALError::TransactionTimeout => 2001,
            CALError::TransactionReverted => 2002,
            CALError::KMSError => 3000,
            CALError::ExternalError => 4000,
            CALError::CitaCMCCreateFailed => 4001,
        }
    }

    /// The human-readable message of the kind.
    pub fn text(self) -> (m: &'static str)
        ensures
            m@ == self.spec_text(),
    {
        match self {
            CALError::BadRequest => "Bad Request",
            CALError::Unauthorized => "Unauthorized",
            CALError::Forbidden => "Forbidden",
            CALError::NotFound => "Not Found",
            CALError::TooManyRequests => "Too Many Requests",
            CALError::InternalServerError => "Internal Server Error",
            CALError::NotImplemented => "Not Implemented",
            CALError::BadGateway => "Bad Gateway",
            CALError::ServiceUnavailable => "Service Unavailable",
            CALError::GatewayTimeout => "Gateway Timeout",
            CALError::ChainError => "Chain Error",
            CALError::TransactionError => "Transaction Error",
            CALError::TransactionTimeout => "Transaction Timeout",
            CALError::TransactionReverted => "Transaction Reverted",
            CALError::KMSError => "KMS Error",
            CALError::ExternalError => "External Error",
            CALError::CitaCMCCreateFailed => "Cita CMC Create Failed",
        }
    }
}

} // verus!
