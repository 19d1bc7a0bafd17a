//! The login request.

use vstd::prelude::*;

use crate::api::auth::response_to;
use crate::api::auth::ApiResponse;
use crate::api::auth::ApiResponseView;
use crate::repository::auth::login::login_allows;
use crate::repository::auth::login::login_user;
use crate::repository::auth::ErrorView;
use crate::repository::database::CredentialStore;
use crate::repository::database::UserView;

verus! {

/// What a returning user submits. `username` may hold the username or the
/// e-mail address of the account.
#[derive(Debug, PartialEq, Eq)]
pub struct UserInfo {
    pub username: String,
    pub password: String,
}

/// Whether `response` is what a login request may end in: it reports an
/// outcome that the login allows.
pub open spec fn login_answers(
    rows: Seq<UserView>,
    user_info: UserInfo,
    response: ApiResponseView,
) -> bool {
    exists|outcome: Result<Seq<char>, ErrorView>|
        response == response_to(outcome) && #[trigger] login_allows(
            rows,
            user_info.username@,
            user_info.password@,
            outcome,
        )
}

/// Handles a login request.
pub fn login(store: &CredentialStore, user_info: UserInfo) -> (response: ApiResponse)
    ensures
        login_answers(store@, user_info, response@),
{
    let UserInfo { username, password } = user_info;
    let granted = login_user(store, username, password);
    ApiResponse::from_outcome(granted)
}

} // verus!
