//! The operations as a transport sees them: plain request values in, a
//! response value out.

use vstd::prelude::*;

use crate::repository::auth::Error;
use crate::repository::auth::ErrorView;

pub mod auth;

verus! {

/// The answer to a request that yields nothing but success or failure.
/// `reason` is there exactly on failure.
#[derive(Debug, PartialEq, Eq)]
pub struct ApiResponse {
    pub success: bool,
    pub reason: Option<String>,
}

/// The mathematical value of an [`ApiResponse`].
pub struct ApiResponseView {
    pub success: bool,
    pub reason: Option<Seq<char>>,
}

impl View for ApiResponse {
    type V = ApiResponseView;

    open spec fn view(&self) -> ApiResponseView {
        ApiResponseView {
            success: self.success,
            reason: match self.reason {
                Some(reason) => Some(reason@),
                None => None,
            },
        }
    }
}

/// The answer that reports `outcome`: success, or failure with the error's
/// message as the reason.
pub open spec fn answer_to(outcome: Result<(), ErrorView>) -> ApiResponseView {
    match outcome {
        Ok(_) => ApiResponseView { success: true, reason: None },
        Err(error) => ApiResponseView { success: false, reason: Some(error.message()) },
    }
}

/// An answer gives a reason exactly when it reports a failure.
pub proof fn lemma_answer_shape(outcome: Result<(), ErrorView>)
    ensures
        answer_to(outcome).success <==> outcome is Ok,
        answer_to(outcome).reason is Some <==> outcome is Err,
{
}

impl ApiResponse {
    /// The answer that reports success.
    pub fn succeeded() -> (response: ApiResponse)
        ensures
            response@ == answer_to(Ok(())),
    {
        ApiResponse { success: true, reason: None }
    }

    /// The answer that reports `error`.
    pub fn failed(error: &Error) -> (response: ApiResponse)
        ensures
            response@ == answer_to(Err(error@)),
    {
        ApiResponse { success: false, reason: Some(error.message()) }
    }

    /// The answer that reports `outcome`.
    pub fn from_outcome(outcome: &Result<(), Error>) -> (response: ApiResponse)
        ensures
            response@ == answer_to(
                match outcome {
                    Ok(_) => Ok(()),
                    Err(error) => Err(error@),
                },
            ),
    {
        match outcome {
            Ok(_) => ApiResponse::succeeded(),
            Err(error) => ApiResponse::failed(error),
        }
    }
}

} // verus!
