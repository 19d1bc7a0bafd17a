//! Signup, login and e-mail verification as a transport sees them.

use vstd::prelude::*;

use crate::repository::auth::Error;
use crate::repository::auth::ErrorView;

pub mod login;
pub mod signup;
pub mod verify;

verus! {

/// The answer to a signup or a login. `reason` is there exactly on failure,
/// `auth_key` exactly on success.
#[derive(Debug, PartialEq, Eq)]
pub struct ApiResponse {
    pub success: bool,
    pub reason: Option<String>,
    pub auth_key: Option<String>,
}

/// The mathematical value of an [`ApiResponse`].
pub struct ApiResponseView {
    pub success: bool,
    pub reason: Option<Seq<char>>,
    pub auth_key: Option<Seq<char>>,
}

impl View for ApiResponse {
    type V = ApiResponseView;

    open spec fn view(&self) -> ApiResponseView {
        ApiResponseView {
            success: self.success,
            reason: match self.reason {
                Some(reason) => Some(reason@),
                None => None,
            },
            auth_key: match self.auth_key {
                Some(auth_key) => Some(auth_key@),
                None => None,
            },
        }
    }
}

/// The answer that reports `outcome`: success with the auth key, or failure
/// with the error's message as the reason.
pub open spec fn response_to(outcome: Result<Seq<char>, ErrorView>) -> ApiResponseView {
    match outcome {
        Ok(auth_key) => ApiResponseView { success: true, reason: None, auth_key: Some(auth_key) },
        Err(error) => ApiResponseView {
            success: false,
            reason: Some(error.message()),
            auth_key: None,
        },
    }
}

/// An answer gives a reason exactly when it reports a failure, and an auth
/// key exactly when it reports a success.
pub proof fn lemma_response_shape(outcome: Result<Seq<char>, ErrorView>)
    ensures
        response_to(outcome).success <==> outcome is Ok,
        response_to(outcome).reason is Some <==> outcome is Err,
        response_to(outcome).auth_key is Some <==> outcome is Ok,
{
}

impl ApiResponse {
    /// The answer that hands out `auth_key`.
    pub fn granted(auth_key: String) -> (response: ApiResponse)
        ensures
            response@ == response_to(Ok(auth_key@)),
    {
        ApiResponse { success: true, reason: None, auth_key: Some(auth_key) }
    }

    /// The answer that reports `error`.
    pub fn failed(error: &Error) -> (response: ApiResponse)
        ensures
            response@ == response_to(Err(error@)),
    {
        ApiResponse { success: false, reason: Some(error.message()), auth_key: None }
    }

    /// The answer that reports `outcome`.
    pub fn from_outcome(outcome: Result<String, Error>) -> (response: ApiResponse)
        ensures
            response@ == response_to(
                match outcome {
                    Ok(auth_key) => Ok(auth_key@),
                    Err(error) => Err(error@),
                },
            ),
    {
        match outcome {
            Ok(auth_key) => ApiResponse::granted(auth_key),
            Err(error) => ApiResponse::failed(&error),
        }
    }
}

} // verus!
