//! The error kinds that a caller of the debug pipeline can tell apart.
use vstd::prelude::*;

verus! {

/// What went wrong with a debug operation.
#[derive(Debug)]
pub enum AppError {
    /// The rule engine rejected the rules or the logs; the detail is its message.
    ParseFailed(String),
    /// The mapping engine rejected the OML or the current record; the detail is its message.
    TransformFailed(String),
    /// A transform was asked for before any parse succeeded in the session.
    NoParseResult,
    /// A named operation that is deliberately not provided.
    NotImplemented,
    /// Any other fault; the detail is for the logs, not for the caller.
    InternalFault(String),
}

/// Status class for a client mistake.
pub const CLIENT_ERROR: u16 = 400;
/// Status class for a server fault.
pub const SERVER_ERROR: u16 = 500;
/// Status for an operation that is not provided.
pub const NOT_IMPLEMENTED: u16 = 501;

impl AppError {
    /// The status code that reports this error to a caller.
    pub open spec fn status_spec(&self) -> u16 {
        match self {
            AppError::ParseFailed(_) | AppError::TransformFailed(_) | AppError::NoParseResult => CLIENT_ERROR,
            AppError::NotImplemented => NOT_IMPLEMENTED,
            AppError::InternalFault(_) => SERVER_ERROR,
        }
    }

    pub fn status_code(&self) -> (r: u16)
        ensures
            r == self.status_spec(),
    {
        match self {
            AppError::ParseFailed(_) => CLIENT_ERROR,
            AppError::TransformFailed(_) => CLIENT_ERROR,
            AppError::NoParseResult => CLIENT_ERROR,
            AppError::NotImplemented => NOT_IMPLEMENTED,
            AppError::InternalFault(_) => SERVER_ERROR,
        }
    }

    /// The text shown to the caller: the engine's detail for stage failures,
    /// a fixed sentence otherwise (an internal fault's detail stays hidden).
    pub fn message(&self) -> (r: String)
        ensures
            match self {
                AppError::ParseFailed(d) => r@ == d@,
                AppError::TransformFailed(d) => r@ == d@,
                AppError::NoParseResult => r@ == "no parse result: submit a parse request first"@,
                AppError::NotImplemented => r@ == "operation not implemented"@,
                AppError::InternalFault(_) => r@ == "internal server error"@,
            },
    {
        broadcast use vstd::string::to_string_from_display_ensures_for_str;
        match self {
            AppError::ParseFailed(d) => d.clone(),
            AppError::TransformFailed(d) => d.clone(),
            AppError::NoParseResult => "no parse result: submit a parse request first".to_string(),
            AppError::NotImplemented => "operation not implemented".to_string(),
            AppError::InternalFault(_) => "internal server error".to_string(),
        }
    }
}


} // verus!
