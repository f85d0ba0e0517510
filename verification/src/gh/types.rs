//! What the remote service sends back, and how a reply is classified.

use crate::errors::GHDError;
use crate::tables::UserRow;
use vstd::prelude::*;

verus! {

/// `reqwest::StatusCode`, the status code of an HTTP response. Opaque here:
/// the library reads it only through `as_u16`.
#[verifier::external_type_specification]
#[verifier::external_body]
pub struct ExStatusCode(reqwest::StatusCode);

/// The number of a status code, as `as_u16` gives it: 403 for `FORBIDDEN`.
pub uninterp spec fn status_number(status: reqwest::StatusCode) -> u16;

/// `reqwest::StatusCode::as_u16` returns the number of the status code.
pub assume_specification[ reqwest::StatusCode::as_u16 ](status: &reqwest::StatusCode) -> (n: u16)
    ensures
        n == status_number(*status),
;

/// The status number with which the remote service forbids a request.
pub const FORBIDDEN: u16 = 403;

/// Whether a status number reports success: the numbers from 200 to 299 do.
pub open spec fn is_success(code: u16) -> bool {
    200 <= code < 300
}

/// The error kind that a status number other than a success stands for.
pub open spec fn failure_kind(code: u16) -> GHDError {
    if code == FORBIDDEN {
        GHDError::BadTokenError
    } else {
        GHDError::UnknownError
    }
}

/// What a response with status number `code` and decoded body `body` amounts
/// to: the body on success, else the error kind of the status. A success whose
/// body could not be decoded is an unknown error.
pub open spec fn response_outcome<T>(code: u16, body: Option<T>) -> Result<T, GHDError> {
    if is_success(code) {
        match body {
            Some(value) => Ok(value),
            None => Err(GHDError::UnknownError),
        }
    } else {
        Err(failure_kind(code))
    }
}

/// Classifies a response by its status number and decoded body.
pub fn settle_response<T>(code: u16, body: Option<T>) -> (outcome: Result<T, GHDError>)
    ensures
        outcome == response_outcome(code, body),
{
    if 200 <= code && code < 300 {
        match body {
            Some(value) => Ok(value),
            None => Err(GHDError::UnknownError),
        }
    } else if code == FORBIDDEN {
        Err(GHDError::BadTokenError)
    } else {
        Err(GHDError::UnknownError)
    }
}

/// The profile that the identity endpoint sends for a credential.
#[derive(Clone, Debug, PartialEq, Eq)]
pub struct GithubUserReply {
    pub login: String,
    pub id: i64,
    pub avatar_url: String,
    pub name: String,
}

/// A user of the remote service, as the local cache keeps it.
#[derive(Clone, Debug, PartialEq, Eq)]
pub struct GithubUser {
    pub login: String,
    pub id: i64,
    pub avatar_url: String,
    pub name: String,
}

impl View for GithubUser {
    type V = UserRow;

    /// The row of `users` that holds this user.
    open spec fn view(&self) -> UserRow {
        UserRow {
            id: self.id as int,
            login: self.login@,
            name: self.name@,
            avatar_url: self.avatar_url@,
        }
    }
}

impl GithubUserReply {
    /// The user that the profile describes, field by field.
    pub open spec fn user(self) -> GithubUser {
        GithubUser {
            login: self.login,
            id: self.id,
            avatar_url: self.avatar_url,
            name: self.name,
        }
    }
}

/// What came back from one call of the remote service.
#[derive(Debug, PartialEq, Eq)]
pub enum GithubReply<T> {
    /// A response arrived. `body` is the decoded payload, where it could be decoded.
    Response { status: reqwest::StatusCode, body: Option<T> },
    /// No response arrived: the request could not be sent or the reply not read.
    Failed,
}

impl<T> GithubReply<T> {
    /// What the reply amounts to. A reply that never arrived is an unknown error.
    pub open spec fn outcome(self) -> Result<T, GHDError> {
        match self {
            GithubReply::Response { status, body } => response_outcome(status_number(status), body),
            GithubReply::Failed => Err(GHDError::UnknownError),
        }
    }

    /// Classifies the reply: the payload of a successful response, `BadTokenError`
    /// for a forbidden one, `UnknownError` for everything else.
    pub fn settle(self) -> (outcome: Result<T, GHDError>)
        ensures
            outcome == self.outcome(),
    {
        match self {
            GithubReply::Response { status, body } => settle_response(status.as_u16(), body),
            GithubReply::Failed => Err(GHDError::UnknownError),
        }
    }
}

} // verus!
