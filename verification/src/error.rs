//! The ways a sign-in request can fail.

use vstd::prelude::*;

verus! {

/// Why a request was turned down. Every failure of the two operations is one
/// of these; storage failures are not told apart any further.
#[derive(Clone, Copy, Debug, PartialEq, Eq, Structural)]
pub enum AuthError {
    /// The account text is not an address.
    InvalidAddress,
    /// No challenge is stored for the account.
    NoActiveChallenge,
    /// The stored challenge is not the text that was handed in.
    InvalidChallenge,
    /// The signature is malformed, or its signer is not the account.
    InvalidSignature,
    /// The store refused or failed.
    DatabaseError,
}

impl AuthError {
    /// The HTTP status that answers a request failing this way.
    pub open spec fn status(self) -> int {
        match self {
            AuthError::InvalidAddress => 400,
            AuthError::NoActiveChallenge => 401,
            AuthError::InvalidChallenge => 401,
            AuthError::InvalidSignature => 401,
            AuthError::DatabaseError => 500,
        }
    }

    /// The sentence shown to the caller.
    pub open spec fn text(self) -> Seq<char> {
        match self {
            AuthError::InvalidAddress => "Invalid public address"@,
            AuthError::NoActiveChallenge => "No active challenge found"@,
            AuthError::InvalidChallenge => "Invalid challenge"@,
            AuthError::InvalidSignature => "Invalid signature"@,
            AuthError::DatabaseError => "Database error"@,
        }
    }

    /// The HTTP status that answers a request failing this way.
    pub fn status_code(&self) -> (code: u16)
        ensures
            code as int == self.status(),
    {
        match self {
            AuthError::InvalidAddress => 400,
            AuthError::NoActiveChallenge => 401,
            AuthError::InvalidChallenge => 401,
            AuthError::InvalidSignature => 401,
            AuthError::DatabaseError => 500,
        }
    }

    /// The sentence shown to the caller.
    pub fn message(&self) -> (message: &'static str)
        ensures
            message@ == self.text(),
    {
        match self {
            AuthError::InvalidAddress => "Invalid public address",
            AuthError::NoActiveChallenge => "No active challenge found",
            AuthError::InvalidChallenge => "Invalid challenge",
            AuthError::InvalidSignature => "Invalid signature",
            AuthError::DatabaseError => "Database error",
        }
    }
}

} // verus!
