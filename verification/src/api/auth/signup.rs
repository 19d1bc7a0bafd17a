//! The signup request.

use vstd::prelude::*;

use crate::api::auth::response_to;
use crate::api::auth::ApiResponse;
use crate::api::auth::ApiResponseView;
use crate::repository::auth::signup::add_user;
use crate::repository::auth::signup::signup_allows;
use crate::repository::auth::ErrorView;
use crate::repository::database::extends;
use crate::repository::database::CredentialStore;
use crate::repository::database::UserView;

verus! {

/// What a new user submits.
#[derive(Debug, PartialEq, Eq)]
pub struct UserInfo {
    pub name: String,
    pub username: String,
    pub email: String,
    pub password: String,
}

/// Whether `response` and `after` are what a signup request on `before` may
/// end in: the response reports an outcome that the signup allows.
pub open spec fn signup_answers(
    before: Seq<UserView>,
    user_info: UserInfo,
    response: ApiResponseView,
    after: Seq<UserView>,
) -> bool {
    exists|outcome: Result<Seq<char>, ErrorView>|
        response == response_to(outcome) && #[trigger] signup_allows(
            before,
            user_info.name@,
            user_info.email@,
            user_info.username@,
            user_info.password@,
            outcome,
            after,
        )
}

/// Handles a signup request.
pub fn signup(store: &mut CredentialStore, user_info: UserInfo) -> (response: ApiResponse)
    ensures
        signup_answers(old(store)@, user_info, response@, final(store)@),
        extends(old(store)@, final(store)@),
{
    let UserInfo { name, username, email, password } = user_info;
    let added = add_user(store, name, email, username, password);
    ApiResponse::from_outcome(added)
}

} // verus!
