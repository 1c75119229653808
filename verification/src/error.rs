use vstd::prelude::*;

verus! {

/// The ways in which decoding, opening and protocol steps fail.
#[derive(Clone, Copy, Debug, PartialEq, Eq, Structural)]
pub enum Error {
    /// A byte string has the wrong length or an unknown tag byte.
    MalformedEncoding,
    /// An encapsulation key fails the KEM's validity check.
    InvalidKey,
    /// An AEAD tag does not match: wrong key, wrong password or altered data.
    AuthenticationFailure,
    /// A protocol message does not fit the session's pending exchange.
    UnexpectedMessage,
    /// A step that completes an exchange was asked for with nothing outstanding.
    NoPendingExchange,
}

impl Error {
    /// What to tell the user. A failed authentication names both of its
    /// causes, which cannot be told apart.
    pub fn message(&self) -> (text: &'static str)
        ensures
            text@ == match self {
                Error::MalformedEncoding => "malformed encoding"@,
                Error::InvalidKey => "invalid encapsulation key"@,
                Error::AuthenticationFailure => "wrong password or corrupted session"@,
                Error::UnexpectedMessage => "unexpected message"@,
                Error::NoPendingExchange => "no pending key exchange"@,
            },
    {
        match self {
            Error::MalformedEncoding => "malformed encoding",
            Error::InvalidKey => "invalid encapsulation key",
            Error::AuthenticationFailure => "wrong password or corrupted session",
            Error::UnexpectedMessage => "unexpected message",
            Error::NoPendingExchange => "no pending key exchange",
        }
    }
}

} // verus!
