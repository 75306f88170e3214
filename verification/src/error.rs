//! The errors that the session operations report.

use vstd::prelude::*;

verus! {

/// What went wrong, with a message for the caller.
#[derive(Debug, Clone, PartialEq, Eq)]
pub enum TwitterError {
    /// Authentication failed: a credential is missing, a challenge is not
    /// known, the provider denied the login, or a header could not be built.
    Auth(String),
    /// The cookie store could not be saved or restored.
    Cookie(String),
}

pub type Result<T> = core::result::Result<T, TwitterError>;

impl TwitterError {
    /// The message carried by the error.
    pub open spec fn text(&self) -> Seq<char> {
        match self {
            TwitterError::Auth(message) => message@,
            TwitterError::Cookie(message) => message@,
        }
    }

    /// The error is an authentication error with exactly this message.
    pub open spec fn is_auth(&self, text: Seq<char>) -> bool {
        self is Auth && self.text() == text
    }

    /// The error is a cookie error with exactly this message.
    pub open spec fn is_cookie(&self, text: Seq<char>) -> bool {
        self is Cookie && self.text() == text
    }

    /// The message carried by the error.
    pub fn message(&self) -> (message: String)
        ensures
            message@ == self.text(),
    {
        match self {
            TwitterError::Auth(message) => message.clone(),
            TwitterError::Cookie(message) => message.clone(),
        }
    }

    /// An authentication error with the given message.
    pub fn auth(message: &str) -> (error: TwitterError)
        ensures
            error.is_auth(message@),
    {
        TwitterError::Auth(message.to_owned())
    }

    /// A cookie error with the given message.
    pub fn cookie(message: &str) -> (error: TwitterError)
        ensures
            error.is_cookie(message@),
    {
        TwitterError::Cookie(message.to_owned())
    }
}

} // verus!
