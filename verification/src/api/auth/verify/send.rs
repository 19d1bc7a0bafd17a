//! The request that asks for a verification code.
//!
//! It is handled in two steps around the dispatch of the message, which is
//! the caller's: `send` decides what is to be dispatched, `report` takes the
//! outcome of the dispatch and gives the answer.

use vstd::prelude::*;

use crate::api::answer_to;
use crate::api::ApiResponse;
use crate::repository::auth::verify::complete_verification;
use crate::repository::auth::verify::completion_outcome;
use crate::repository::auth::verify::credentials_error;
use crate::repository::auth::verify::is_issued_code;
use crate::repository::auth::verify::request_verification;
use crate::repository::auth::verify::Dispatch;
use crate::repository::auth::verify::EnvValue;
use crate::repository::auth::ErrorView;
use crate::repository::database::extends;
use crate::repository::database::position_by_key;
use crate::repository::database::rows_after_code;
use crate::repository::database::CredentialStore;

verus! {

/// What a user submits to ask for a code.
#[derive(Debug, PartialEq, Eq)]
pub struct UserInfo {
    pub auth_key: String,
}

/// Handles a request for a code up to the dispatch: yields what is to be
/// dispatched, or the answer where there is nothing to dispatch.
pub fn send(
    store: &CredentialStore,
    user_info: &UserInfo,
    username: EnvValue,
    password: EnvValue,
) -> (step: Result<Dispatch, ApiResponse>)
    ensures
        match position_by_key(store@, user_info.auth_key@) {
            None => step matches Err(response) && response@ == answer_to(
                Err(ErrorView::InvalidAuthKey),
            ),
            Some(i) => match credentials_error(username, password) {
                Some(error) => step matches Err(response) && response@ == answer_to(Err(error)),
                None => step matches Ok(dispatch) && is_issued_code(dispatch.code@)
                    && dispatch.carries(
                    store@[i].name,
                    store@[i].email,
                    dispatch.code@,
                    username->Present_0@,
                    password->Present_0@,
                ),
            },
        },
{
    match request_verification(store, user_info.auth_key.as_str(), username, password) {
        Ok(dispatch) => Ok(dispatch),
        Err(error) => Err(ApiResponse::failed(&error)),
    }
}

/// Handles the rest of a request for a code: takes the outcome of the
/// dispatch, records the code if it was sent, and gives the answer.
pub fn report(
    store: &mut CredentialStore,
    user_info: &UserInfo,
    code: String,
    delivery: Result<(), String>,
) -> (response: ApiResponse)
    ensures
        response@ == answer_to(
            completion_outcome(old(store)@, user_info.auth_key@, code@, delivery),
        ),
        final(store)@ == if delivery is Ok {
            rows_after_code(old(store)@, user_info.auth_key@, code@)
        } else {
            old(store)@
        },
        extends(old(store)@, final(store)@),
{
    let done = complete_verification(store, user_info.auth_key.as_str(), code, delivery);
    ApiResponse::from_outcome(&done)
}

} // verus!
