use vstd::prelude::*;

verus! {

/// Every way in which signing in or minting a token can fail.
#[derive(Clone, Debug, PartialEq, Eq)]
pub enum Error {
    /// The HTTP client could not be set up.
    ClientInitialization(String),
    /// A request could not be sent or its reply not read.
    NetworkError(String),
    /// A reply body did not have the expected JSON shape.
    JSONError(String),
    /// The login page holds no request verification token.
    NoRequestValidationToken,
    /// The bot check was refused, with the reason the portal gave.
    VerificationFailure(String),
    /// The authorization request did not yield a code.
    AuthorizationFailure(String),
    /// The login page names no static verification script.
    NoStaticUrl,
    /// The token endpoint answered with an error.
    FailedToken(String),
    /// The credentials were refused.
    Authentication,
    /// The portal flagged the session as a bot; do not retry right away.
    Blocked,
}

impl Error {
    /// Whether this error must not be answered by an immediate retry.
    pub fn is_terminal(&self) -> (r: bool)
        ensures
            r == (self is Blocked),
    {
        match self {
            Error::Blocked => true,
            _ => false,
        }
    }
}

} // verus!
