//! Proof of e-mail ownership: a one-time code is sent to the account's
//! address and has to be handed back.
//!
//! Sending is not done here. `request_verification` decides what is to be
//! sent and with which transport credentials; the caller dispatches it and
//! reports how that went to `complete_verification`, which alone changes the
//! store.

use vstd::prelude::*;
use vstd::string::StringExecFns;

use crate::repository::auth::outcome_view;
use crate::repository::auth::Error;
use crate::repository::auth::ErrorView;
use crate::repository::database::extends;
use crate::repository::database::is_first_with_key;
use crate::repository::database::is_verification_code;
use crate::repository::database::lemma_position_by_key;
use crate::repository::database::position_by_key;
use crate::repository::database::rows_after_code;
use crate::repository::database::rows_after_confirm;
use crate::repository::database::well_formed;
use crate::repository::database::CredentialStore;
use crate::repository::database::UserView;
use crate::repository::database::VerificationState;

verus! {

/// What a look-up of one transport credential in the process environment
/// gave. The two failures carry the look-up's own description.
#[derive(Debug, PartialEq, Eq)]
pub enum EnvValue {
    Present(String),
    NotPresent(String),
    NotUnicode(String),
}

/// The message that carries a code to its recipient.
#[derive(Debug, PartialEq, Eq)]
pub struct VerificationMail {
    pub from: String,
    pub to: String,
    pub subject: String,
    pub body: String,
}

/// What the caller has to do for a verification request: send `mail`
/// through the transport, signing in with `username` and `password`, and
/// report the outcome together with `code`.
#[derive(Debug, PartialEq, Eq)]
pub struct Dispatch {
    pub code: String,
    pub mail: VerificationMail,
    pub username: String,
    pub password: String,
}

/// A code as it is issued: six digits, none of them zero.
pub open spec fn is_issued_code(code: Seq<char>) -> bool {
    &&& code.len() == 6
    &&& forall|i: int| 0 <= i < code.len() ==> '1' <= #[trigger] code[i] <= '9'
}

/// The error that the two credential look-ups give rise to: that of the
/// username first, an absent value before an unreadable one.
pub open spec fn credentials_error(username: EnvValue, password: EnvValue) -> Option<ErrorView> {
    match username {
        EnvValue::NotPresent(detail) => Some(ErrorView::MissingEnvVariable(detail@)),
        EnvValue::NotUnicode(detail) => Some(ErrorView::InvalidEnvVariable(detail@)),
        EnvValue::Present(_) => match password {
            EnvValue::NotPresent(detail) => Some(ErrorView::MissingEnvVariable(detail@)),
            EnvValue::NotUnicode(detail) => Some(ErrorView::InvalidEnvVariable(detail@)),
            EnvValue::Present(_) => None,
        },
    }
}

impl Dispatch {
    /// Whether this is the dispatch of `code` to the account holder `name`
    /// at `email_address`, sent by and signed in as `username`.
    pub open spec fn carries(
        self,
        name: Seq<char>,
        email_address: Seq<char>,
        code: Seq<char>,
        username: Seq<char>,
        password: Seq<char>,
    ) -> bool {
        &&& self.code@ == code
        &&& self.mail.from@ == username
        &&& self.mail.to@ == name + " <"@ + email_address + ">"@
        &&& self.mail.subject@ == "Verify your account"@
        &&& self.mail.body@ == "your verification code is "@ + code
        &&& self.username@ == username
        &&& self.password@ == password
    }
}

/// Draws from `rand::random_range` on the half-open range `low..high`, which
/// samples the thread-local generator. Only the range of the outcome is
/// claimed; the empty range, on which the call panics, is left out.
#[verifier::external_body]
fn random_in(low: u32, high: u32) -> (n: u32)
    requires
        low < high,
    ensures
        low <= n < high,
{
    rand::random_range(low..high)
}

/// The decimal digit `n` as text.
fn digit_text(n: u32) -> (text: &'static str)
    requires
        1 <= n <= 9,
    ensures
        text@.len() == 1,
        text@[0] == ('0' as u32 + n) as char,
{
    proof {
        reveal_strlit("1");
        reveal_strlit("2");
        reveal_strlit("3");
        reveal_strlit("4");
        reveal_strlit("5");
        reveal_strlit("6");
        reveal_strlit("7");
        reveal_strlit("8");
        reveal_strlit("9");
    }
    if n == 1 {
        "1"
    } else if n == 2 {
        "2"
    } else if n == 3 {
        "3"
    } else if n == 4 {
        "4"
    } else if n == 5 {
        "5"
    } else if n == 6 {
        "6"
    } else if n == 7 {
        "7"
    } else if n == 8 {
        "8"
    } else {
        "9"
    }
}

/// Issues a fresh verification code, each digit drawn from 1 to 9.
pub fn generate_code() -> (code: String)
    ensures
        is_issued_code(code@),
{
    let mut code = String::new();
    let mut drawn: usize = 0;
    while drawn < 6
        invariant
            0 <= drawn <= 6,
            code@.len() == drawn,
            forall|i: int| 0 <= i < code@.len() ==> '1' <= #[trigger] code@[i] <= '9',
        decreases 6 - drawn,
    {
        let n: u32 = random_in(1, 10);
        let text = digit_text(n);
        code.append(text);
        drawn += 1;
    }
    code
}

/// Decides the dispatch of a given code: the transport credentials must
/// both be present, and the message is addressed to the account holder by
/// name.
pub fn plan_dispatch(
    name: String,
    email_address: String,
    code: String,
    username: EnvValue,
    password: EnvValue,
) -> (plan: Result<Dispatch, Error>)
    ensures
        match credentials_error(username, password) {
            Some(error) => plan matches Err(e) && e@ == error,
            None => plan matches Ok(dispatch) && dispatch.carries(
                name@,
                email_address@,
                code@,
                username->Present_0@,
                password->Present_0@,
            ),
        },
{
    let username = match username {
        EnvValue::Present(value) => value,
        EnvValue::NotPresent(detail) => { return Err(Error::MissingEnvVariable(detail)); },
        EnvValue::NotUnicode(detail) => { return Err(Error::InvalidEnvVariable(detail)); },
    };
    let password = match password {
        EnvValue::Present(value) => value,
        EnvValue::NotPresent(detail) => { return Err(Error::MissingEnvVariable(detail)); },
        EnvValue::NotUnicode(detail) => { return Err(Error::InvalidEnvVariable(detail)); },
    };
    let to = name.concat(" <").concat(email_address.as_str()).concat(">");
    let body = "your verification code is ".to_owned().concat(code.as_str());
    let mail = VerificationMail {
        from: username.clone(),
        to,
        subject: "Verify your account".to_owned(),
        body,
    };
    Ok(Dispatch { code, mail, username, password })
}

/// Prepares the verification of an e-mail address: issues a fresh code and
/// decides its dispatch to the account holder.
pub fn verify_email(
    name: String,
    email_address: String,
    username: EnvValue,
    password: EnvValue,
) -> (plan: Result<Dispatch, Error>)
    ensures
        match credentials_error(username, password) {
            Some(error) => plan matches Err(e) && e@ == error,
            None => plan matches Ok(dispatch) && is_issued_code(dispatch.code@)
                && dispatch.carries(
                name@,
                email_address@,
                dispatch.code@,
                username->Present_0@,
                password->Present_0@,
            ),
        },
{
    let code = generate_code();
    plan_dispatch(name, email_address, code, username, password)
}

/// Starts a verification for the account with the given auth key. The store
/// is only read: the code becomes pending once its dispatch is reported as
/// done.
pub fn request_verification(
    store: &CredentialStore,
    auth_key: &str,
    username: EnvValue,
    password: EnvValue,
) -> (plan: Result<Dispatch, Error>)
    ensures
        match position_by_key(store@, auth_key@) {
            None => plan matches Err(e) && e@ == ErrorView::InvalidAuthKey,
            Some(i) => match credentials_error(username, password) {
                Some(error) => plan matches Err(e) && e@ == error,
                None => plan matches Ok(dispatch) && is_issued_code(dispatch.code@)
                    && dispatch.carries(
                    store@[i].name,
                    store@[i].email,
                    dispatch.code@,
                    username->Present_0@,
                    password->Present_0@,
                ),
            },
        },
{
    match store.find_by_auth_key(auth_key) {
        Ok(user) => verify_email(user.name, user.email, username, password),
        Err(error) => Err(error),
    }
}

/// The outcome of reporting a dispatch: a failed one is an
/// `InternalEmailError` with the transport's description, a successful one
/// is recorded unless the store refuses it.
pub open spec fn completion_outcome(
    rows: Seq<UserView>,
    key: Seq<char>,
    code: Seq<char>,
    delivery: Result<(), String>,
) -> Result<(), ErrorView> {
    match delivery {
        Err(detail) => Err(ErrorView::InternalEmailError(detail@)),
        Ok(_) => match position_by_key(rows, key) {
            None => Err(ErrorView::InvalidAuthKey),
            Some(_) => if is_verification_code(code) {
                Ok(())
            } else {
                Err(ErrorView::DatabaseError("CHECK constraint failed: verification_code"@))
            },
        },
    }
}

/// Takes the report of a dispatch. Only after a successful one does the
/// code become the account's pending code, in place of any earlier one; a
/// failed dispatch leaves the store as it was.
pub fn complete_verification(
    store: &mut CredentialStore,
    auth_key: &str,
    code: String,
    delivery: Result<(), String>,
) -> (done: Result<(), Error>)
    ensures
        outcome_view(done) == completion_outcome(old(store)@, auth_key@, code@, delivery),
        final(store)@ == if delivery is Ok {
            rows_after_code(old(store)@, auth_key@, code@)
        } else {
            old(store)@
        },
        extends(old(store)@, final(store)@),
{
    match delivery {
        Ok(_) => store.set_verification_code(auth_key, code),
        Err(detail) => Err(Error::InternalEmailError(detail)),
    }
}

/// The outcome of handing a code back: the account must exist, a code must
/// be pending for it, and the two must be the same.
pub open spec fn confirmation_outcome(rows: Seq<UserView>, key: Seq<char>, code: Seq<char>) -> Result<
    (),
    ErrorView,
> {
    match position_by_key(rows, key) {
        None => Err(ErrorView::InvalidAuthKey),
        Some(i) => if rows[i].verification_code == Some(code) {
            Ok(())
        } else {
            Err(ErrorView::InvalidVerificationCode)
        },
    }
}

/// The rows after a code was handed back.
pub open spec fn rows_after_confirmation(rows: Seq<UserView>, key: Seq<char>, code: Seq<char>) -> Seq<
    UserView,
> {
    if confirmation_outcome(rows, key, code) is Ok {
        rows_after_confirm(rows, key)
    } else {
        rows
    }
}

/// Confirms the e-mail address of the account with the given auth key, if
/// `verification_code` is the code that is pending for it. Any failure
/// leaves the store as it was.
pub fn confirm_verification(
    store: &mut CredentialStore,
    auth_key: &str,
    verification_code: &str,
) -> (done: Result<(), Error>)
    ensures
        outcome_view(done) == confirmation_outcome(old(store)@, auth_key@, verification_code@),
        final(store)@ == rows_after_confirmation(old(store)@, auth_key@, verification_code@),
        extends(old(store)@, final(store)@),
{
    let user = match store.find_by_auth_key(auth_key) {
        Ok(user) => user,
        Err(error) => { return Err(error); },
    };
    let stored_code = match user.verification_code {
        Some(code) => code,
        None => { return Err(Error::InvalidVerificationCode); },
    };
    if stored_code != verification_code.to_owned() {
        return Err(Error::InvalidVerificationCode);
    }
    store.confirm(auth_key)
}


/// Handing a code back fails over the credentials alone.
pub proof fn lemma_confirmation_errors(rows: Seq<UserView>, key: Seq<char>, code: Seq<char>)
    ensures
        confirmation_outcome(rows, key, code) matches Err(error) ==> error.is_credential(),
{
}

/// Recording a sent code moves at most one account, and only from
/// unverified or pending to pending.
pub proof fn lemma_code_step(rows: Seq<UserView>, key: Seq<char>, code: Seq<char>, j: int)
    requires
        0 <= j < rows.len(),
    ensures
        ({
            let after = rows_after_code(rows, key, code);
            &&& after.len() == rows.len()
            &&& after[j] != rows[j] ==> {
                &&& position_by_key(rows, key) == Some(j)
                &&& rows[j].state() != VerificationState::Confirmed
                &&& after[j].state() == VerificationState::PendingVerification
            }
        }),
{
}

/// Handing a code back moves at most one account, and only from pending to
/// confirmed.
pub proof fn lemma_confirmation_step(
    rows: Seq<UserView>,
    key: Seq<char>,
    code: Seq<char>,
    j: int,
)
    requires
        well_formed(rows),
        0 <= j < rows.len(),
    ensures
        ({
            let after = rows_after_confirmation(rows, key, code);
            &&& after.len() == rows.len()
            &&& after[j] != rows[j] ==> {
                &&& position_by_key(rows, key) == Some(j)
                &&& rows[j].state() == VerificationState::PendingVerification
                &&& after[j].state() == VerificationState::Confirmed
            }
        }),
{
    if position_by_key(rows, key) is Some {
        let i = position_by_key(rows, key)->0;
        assert(is_first_with_key(rows, key, i));
        assert(rows[i].consistent());
    }
}

/// Confirmed is final: whatever happens to the store afterwards, a
/// confirmed account stays confirmed and has no code pending.
pub proof fn lemma_confirmed_is_final(before: Seq<UserView>, after: Seq<UserView>, j: int)
    requires
        extends(before, after),
        well_formed(after),
        0 <= j < before.len(),
        before[j].state() == VerificationState::Confirmed,
    ensures
        after[j].state() == VerificationState::Confirmed,
        after[j].verification_code is None,
{
    assert(after[j].consistent());
}

/// An issued code is a code that the store accepts.
pub proof fn lemma_issued_code_is_code(code: Seq<char>)
    requires
        is_issued_code(code),
    ensures
        is_verification_code(code),
{
}

/// Once the dispatch of an issued code was reported as done for an account
/// that is not confirmed, that code is the account's pending code, and
/// handing it back confirms the account.
pub proof fn lemma_sent_code_confirms(rows: Seq<UserView>, key: Seq<char>, code: Seq<char>)
    requires
        is_issued_code(code),
        position_by_key(rows, key) matches Some(i) && !rows[i].confirmed,
    ensures
        ({
            let i = position_by_key(rows, key)->0;
            let pending = rows_after_code(rows, key, code);
            let confirmed = rows_after_confirmation(pending, key, code);
            &&& pending[i].state() == VerificationState::PendingVerification
            &&& pending[i].verification_code == Some(code)
            &&& confirmation_outcome(pending, key, code) is Ok
            &&& confirmed[i].state() == VerificationState::Confirmed
        }),
{
    lemma_issued_code_is_code(code);
    let i = position_by_key(rows, key)->0;
    assert(is_first_with_key(rows, key, i));
    let pending = rows_after_code(rows, key, code);
    assert forall|j: int| 0 <= j < i implies (#[trigger] pending[j]).auth_key != key by {
        assert(rows[j].auth_key != key);
    }
    lemma_position_by_key(pending, key, i);
}

/// A code confirms once: after a confirmation has succeeded, handing the
/// same code back, or any other, is refused with `InvalidVerificationCode`,
/// and the account stays confirmed.
pub proof fn lemma_confirmation_is_final(
    rows: Seq<UserView>,
    key: Seq<char>,
    code: Seq<char>,
    again: Seq<char>,
)
    requires
        confirmation_outcome(rows, key, code) is Ok,
    ensures
        ({
            let confirmed = rows_after_confirmation(rows, key, code);
            &&& confirmation_outcome(confirmed, key, again) == Err::<(), ErrorView>(
                ErrorView::InvalidVerificationCode,
            )
            &&& rows_after_confirmation(confirmed, key, again) == confirmed
        }),
{
    let i = position_by_key(rows, key)->0;
    assert(is_first_with_key(rows, key, i));
    let confirmed = rows_after_confirmation(rows, key, code);
    assert forall|j: int| 0 <= j < i implies (#[trigger] confirmed[j]).auth_key != key by {
        assert(rows[j].auth_key != key);
    }
    lemma_position_by_key(confirmed, key, i);
}

} // verus!
