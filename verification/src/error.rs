use vstd::prelude::*;

verus! {

/// Why a session was refused.
#[derive(Clone, Copy, Debug, PartialEq, Eq, Structural)]
pub enum SessionError {
    /// The requested expiry lies more than a week ahead.
    ValidityTooLong,
    /// The token is not stored where the claimed triple puts it.
    InvalidToken,
    /// The call came without a token.
    NoToken,
}

impl SessionError {
    /// The reason in words.
    pub fn message(&self) -> (text: &'static str)
        ensures
            text@ == match *self {
                SessionError::ValidityTooLong => "Requested validity is too long"@,
                SessionError::InvalidToken => "Invalid session token"@,
                SessionError::NoToken => "No session token provided"@,
            },
    {
        match self {
            SessionError::ValidityTooLong => "Requested validity is too long",
            SessionError::InvalidToken => "Invalid session token",
            SessionError::NoToken => "No session token provided",
        }
    }
}

/// Why a call on the ledger failed. A failed call changes nothing.
#[derive(Clone, Copy, Debug, PartialEq, Eq, Structural)]
pub enum Error {
    /// A rule of sessions was broken.
    Session(SessionError),
    /// The ledger could not store the token: its triple has no address, the
    /// address holds a token already, or the payer cannot cover the deposit.
    Allocation,
    /// The payer cannot cover the funds meant for the session signer.
    Transfer,
    /// No token is stored at the address.
    NoRecord,
}

impl Error {
    /// The reason in words.
    pub fn message(&self) -> (text: &'static str)
        ensures
            text@ == match *self {
                Error::Session(SessionError::ValidityTooLong) => "Requested validity is too long"@,
                Error::Session(SessionError::InvalidToken) => "Invalid session token"@,
                Error::Session(SessionError::NoToken) => "No session token provided"@,
                Error::Allocation => "The session token could not be stored"@,
                Error::Transfer => "The session signer could not be funded"@,
                Error::NoRecord => "No session token is stored at the address"@,
            },
    {
        match self {
            Error::Session(error) => error.message(),
            Error::Allocation => "The session token could not be stored",
            Error::Transfer => "The session signer could not be funded",
            Error::NoRecord => "No session token is stored at the address",
        }
    }
}

} // verus!
