//! The request that hands a verification code back.

use vstd::prelude::*;

use crate::api::answer_to;
use crate::api::ApiResponse;
use crate::repository::auth::verify::confirm_verification;
use crate::repository::auth::verify::confirmation_outcome;
use crate::repository::auth::verify::rows_after_confirmation;
use crate::repository::database::extends;
use crate::repository::database::CredentialStore;

verus! {

/// What a user submits to confirm an e-mail address.
#[derive(Debug, PartialEq, Eq)]
pub struct VerifyInfo {
    pub verification_code: String,
    pub auth_key: String,
}

/// Handles a confirmation request.
pub fn confirm(store: &mut CredentialStore, verify_info: VerifyInfo) -> (response: ApiResponse)
    ensures
        response@ == answer_to(
            confirmation_outcome(
                old(store)@,
                verify_info.auth_key@,
                verify_info.verification_code@,
            ),
        ),
        final(store)@ == rows_after_confirmation(
            old(store)@,
            verify_info.auth_key@,
            verify_info.verification_code@,
        ),
        extends(old(store)@, final(store)@),
{
    let VerifyInfo { auth_key, verification_code } = verify_info;
    let done = confirm_verification(store, auth_key.as_str(), verification_code.as_str());
    ApiResponse::from_outcome(&done)
}

} // verus!
