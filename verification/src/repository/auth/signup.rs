//! Account registration: the rules that a candidate must meet, and the
//! recording of an account that meets them.

use vstd::prelude::*;

use crate::repository::auth::outcome_view;
use crate::repository::auth::password::digest_accepts;
use crate::repository::auth::password::hash_password;
use crate::repository::auth::token::is_token;
use crate::repository::auth::token::issue_token;
use crate::repository::auth::Error;
use crate::repository::auth::ErrorView;
use crate::repository::database::extends;
use crate::repository::database::has_email;
use crate::repository::database::has_id;
use crate::repository::database::has_username;
use crate::repository::database::CredentialStore;
use crate::repository::database::User;
use crate::repository::database::UserView;
use crate::repository::database::VerificationState;
use crate::text::alphanumeric;
use crate::text::chars_of;
use crate::text::digit;
use crate::text::is_alphanumeric;
use crate::text::is_digit;
use crate::text::is_letter;
use crate::text::is_lowercase;
use crate::text::is_uppercase;
use crate::text::letter;
use crate::text::lowercase;
use crate::text::uppercase;

verus! {

/// The longest username, in characters.
pub const MAX_USERNAME_LENGTH: usize = 16;

/// The shortest password, in characters.
pub const MIN_PASSWORD_LENGTH: usize = 7;

/// A character of the part of an address before the `@`.
pub open spec fn is_local_char(c: char) -> bool {
    is_alphanumeric(c) || c == '.' || c == '_' || c == '%' || c == '+' || c == '-'
}

/// A character of the part of an address between the `@` and the last dot.
pub open spec fn is_domain_char(c: char) -> bool {
    is_alphanumeric(c) || c == '.' || c == '-'
}

/// Whether `text` is an address with its `@` at index `at` and the dot
/// before its top-level domain at index `dot`: a local part and a domain,
/// neither empty, and a top-level domain of 2 to 63 letters.
pub open spec fn splits_as_email(text: Seq<char>, at: int, dot: int) -> bool {
    &&& 0 < at
    &&& at + 1 < dot < text.len()
    &&& text[at] == '@'
    &&& text[dot] == '.'
    &&& 2 <= text.len() - (dot + 1) <= 63
    &&& forall|i: int| 0 <= i < at ==> is_local_char(#[trigger] text[i])
    &&& forall|i: int| at < i < dot ==> is_domain_char(#[trigger] text[i])
    &&& forall|i: int| dot < i < text.len() ==> is_letter(#[trigger] text[i])
}

/// Whether `text` has the shape of an e-mail address,
/// `local-part@domain.tld`.
pub open spec fn is_email(text: Seq<char>) -> bool {
    exists|at: int, dot: int| #[trigger] splits_as_email(text, at, dot)
}

/// Whether `text` holds a digit, an upper-case letter, a lower-case letter
/// and a character that is none of these.
pub open spec fn has_all_classes(text: Seq<char>) -> bool {
    &&& exists|i: int| 0 <= i < text.len() && is_digit(#[trigger] text[i])
    &&& exists|i: int| 0 <= i < text.len() && is_uppercase(#[trigger] text[i])
    &&& exists|i: int| 0 <= i < text.len() && is_lowercase(#[trigger] text[i])
    &&& exists|i: int| 0 <= i < text.len() && !is_alphanumeric(#[trigger] text[i])
}

/// Whether a password is strong enough: long enough, and of all classes.
pub open spec fn is_strong(password: Seq<char>) -> bool {
    password.len() >= MIN_PASSWORD_LENGTH && has_all_classes(password)
}

/// What is wrong with a candidate e-mail address, if anything.
pub open spec fn email_error(rows: Seq<UserView>, email: Seq<char>) -> Option<ErrorView> {
    if email.len() == 0 {
        Some(ErrorView::EmptyParam("Email"@))
    } else if !is_email(email) {
        Some(ErrorView::InvalidEmail)
    } else if has_email(rows, email) {
        Some(ErrorView::EmailTaken)
    } else {
        None
    }
}

/// What is wrong with a candidate username, if anything.
pub open spec fn username_error(rows: Seq<UserView>, username: Seq<char>) -> Option<ErrorView> {
    if username.len() == 0 {
        Some(ErrorView::EmptyParam("Username"@))
    } else if username.len() > MAX_USERNAME_LENGTH {
        Some(ErrorView::InvalidUsername)
    } else if has_username(rows, username) {
        Some(ErrorView::UsernameTaken)
    } else {
        None
    }
}

/// What is wrong with a candidate password, if anything.
pub open spec fn password_error(password: Seq<char>) -> Option<ErrorView> {
    if password.len() == 0 {
        Some(ErrorView::EmptyParam("Password"@))
    } else if !is_strong(password) {
        Some(ErrorView::WeakPassword)
    } else {
        None
    }
}

/// What is wrong with a candidate name, if anything.
pub open spec fn name_error(name: Seq<char>) -> Option<ErrorView> {
    if name.len() == 0 {
        Some(ErrorView::EmptyParam("Name"@))
    } else {
        None
    }
}

/// The first thing that is wrong with a candidate account, if anything. The
/// fields are looked at in a fixed order: e-mail address, password,
/// username, name.
pub open spec fn signup_error(
    rows: Seq<UserView>,
    name: Seq<char>,
    email: Seq<char>,
    username: Seq<char>,
    password: Seq<char>,
) -> Option<ErrorView> {
    if email_error(rows, email) is Some {
        email_error(rows, email)
    } else if password_error(password) is Some {
        password_error(password)
    } else if username_error(rows, username) is Some {
        username_error(rows, username)
    } else {
        name_error(name)
    }
}

/// The error of a check, if it found one.
pub open spec fn refusal(checked: Result<(), Error>) -> Option<ErrorView> {
    match checked {
        Ok(_) => None,
        Err(error) => Some(error@),
    }
}

fn local_char(c: char) -> (b: bool)
    ensures
        b == is_local_char(c),
{
    alphanumeric(c) || c == '.' || c == '_' || c == '%' || c == '+' || c == '-'
}

fn domain_char(c: char) -> (b: bool)
    ensures
        b == is_domain_char(c),
{
    alphanumeric(c) || c == '.' || c == '-'
}

/// Whether `email` has the shape of an e-mail address.
///
/// An address splits in one way at most: `@` is no character of a local
/// part, so the local part ends at the first `@`, and a dot is no letter, so
/// the top-level domain is the run of letters at the end.
pub fn is_email_address(email: &str) -> (ok: bool)
    ensures
        ok == is_email(email@),
{
    let chars = chars_of(email);
    let n = chars.len();
    // the local part: up to the first character that cannot belong to it
    let mut at: usize = 0;
    while at < n && local_char(chars[at])
        invariant
            0 <= at <= n,
            n == chars@.len(),
            chars@ == email@,
            forall|i: int| 0 <= i < at ==> is_local_char(#[trigger] email@[i]),
        decreases n - at,
    {
        at += 1;
    }
    assert forall|a: int, d: int| #[trigger] splits_as_email(email@, a, d) implies a == at by {
        if a < at {
            assert(is_local_char(email@[a]));
        } else if a > at {
            assert(is_local_char(email@[at as int]));
        }
    }
    if at == 0 || at == n || chars[at] != '@' {
        return false;
    }
    // the top-level domain: the letters at the end, from `start` on
    let mut start: usize = n;
    while start > at + 1 && letter(chars[start - 1])
        invariant
            at + 1 <= start <= n,
            n == chars@.len(),
            chars@ == email@,
            forall|i: int| start <= i < n ==> is_letter(#[trigger] email@[i]),
        decreases start,
    {
        start -= 1;
    }
    let dot = start - 1;
    assert forall|a: int, d: int| #[trigger] splits_as_email(email@, a, d) implies d == dot by {
        if d < dot {
            assert(is_letter(email@[dot as int]));
        } else if d > dot {
            assert(is_letter(email@[d]));
        }
    }
    if dot <= at + 1 || chars[dot] != '.' || n - start < 2 || n - start > 63 {
        return false;
    }
    // the domain: what lies between
    let mut i: usize = at + 1;
    while i < dot
        invariant
            at < i <= dot,
            dot < n,
            n == chars@.len(),
            chars@ == email@,
            forall|a: int, d: int| #[trigger] splits_as_email(email@, a, d) ==> a == at && d == dot,
            forall|k: int| at < k < i ==> is_domain_char(#[trigger] email@[k]),
        decreases dot - i,
    {
        if !domain_char(chars[i]) {
            assert forall|a: int, d: int| !#[trigger] splits_as_email(email@, a, d) by {
                if splits_as_email(email@, a, d) {
                    assert(is_domain_char(email@[i as int]));
                }
            }
            return false;
        }
        i += 1;
    }
    assert(splits_as_email(email@, at as int, dot as int));
    true
}

/// Whether `password` is strong enough.
pub fn is_strong_password(password: &str) -> (ok: bool)
    ensures
        ok == is_strong(password@),
{
    let chars = chars_of(password);
    let n = chars.len();
    let mut has_digit = false;
    let mut has_upper = false;
    let mut has_lower = false;
    let mut has_special = false;
    let mut i: usize = 0;
    while i < n
        invariant
            0 <= i <= n,
            n == chars@.len(),
            chars@ == password@,
            has_digit == exists|k: int| 0 <= k < i && is_digit(#[trigger] password@[k]),
            has_upper == exists|k: int| 0 <= k < i && is_uppercase(#[trigger] password@[k]),
            has_lower == exists|k: int| 0 <= k < i && is_lowercase(#[trigger] password@[k]),
            has_special == exists|k: int| 0 <= k < i && !is_alphanumeric(#[trigger] password@[k]),
        decreases n - i,
    {
        let c = chars[i];
        if digit(c) {
            has_digit = true;
        }
        if uppercase(c) {
            has_upper = true;
        }
        if lowercase(c) {
            has_lower = true;
        }
        if !alphanumeric(c) {
            has_special = true;
        }
        i += 1;
    }
    n >= MIN_PASSWORD_LENGTH && has_digit && has_upper && has_lower && has_special
}

/// Checks a candidate e-mail address: it must not be empty, must have the
/// shape of an address, and must not be in use.
pub fn validate_email(store: &CredentialStore, email: &str) -> (checked: Result<(), Error>)
    ensures
        refusal(checked) == email_error(store@, email@),
{
    if email.is_empty() {
        return Err(Error::EmptyParam("Email".to_owned()));
    }
    if !is_email_address(email) {
        return Err(Error::InvalidEmail);
    }
    if store.email_taken(email) {
        Err(Error::EmailTaken)
    } else {
        Ok(())
    }
}

/// Checks a candidate username: it must not be empty, must not be longer
/// than 16 characters, and must not be in use.
pub fn validate_username(store: &CredentialStore, username: &str) -> (checked: Result<(), Error>)
    ensures
        refusal(checked) == username_error(store@, username@),
{
    if username.is_empty() {
        return Err(Error::EmptyParam("Username".to_owned()));
    }
    if chars_of(username).len() > MAX_USERNAME_LENGTH {
        return Err(Error::InvalidUsername);
    }
    if store.username_taken(username) {
        Err(Error::UsernameTaken)
    } else {
        Ok(())
    }
}

/// Checks a candidate password: it must not be empty and must be strong
/// enough.
pub fn validate_password(password: &str) -> (checked: Result<(), Error>)
    ensures
        refusal(checked) == password_error(password@),
{
    if password.is_empty() {
        return Err(Error::EmptyParam("Password".to_owned()));
    }
    if !is_strong_password(password) {
        return Err(Error::WeakPassword);
    }
    Ok(())
}

/// Checks a candidate name: it must not be empty.
pub fn validate_name(name: &str) -> (checked: Result<(), Error>)
    ensures
        refusal(checked) == name_error(name@),
{
    if name.is_empty() {
        return Err(Error::EmptyParam("Name".to_owned()));
    }
    Ok(())
}

/// Checks a candidate account and reports the first thing that is wrong
/// with it.
pub fn validate_signup(
    store: &CredentialStore,
    name: &str,
    email: &str,
    username: &str,
    password: &str,
) -> (checked: Result<(), Error>)
    ensures
        refusal(checked) == signup_error(store@, name@, email@, username@, password@),
{
    validate_email(store, email)?;
    validate_password(password)?;
    validate_username(store, username)?;
    validate_name(name)
}


/// What keeps an account out of the store although its fields were checked:
/// its e-mail address or username was taken in the meantime, or the id
/// issued for it is in use.
pub open spec fn registration_error(
    rows: Seq<UserView>,
    email: Seq<char>,
    username: Seq<char>,
    id: Seq<char>,
) -> Option<ErrorView> {
    if has_email(rows, email) {
        Some(ErrorView::EmailTaken)
    } else if has_username(rows, username) {
        Some(ErrorView::UsernameTaken)
    } else if has_id(rows, id) {
        Some(ErrorView::DatabaseError("UNIQUE constraint failed: users.id"@))
    } else {
        None
    }
}

/// Records a new account under the identifiers issued for it and yields its
/// auth key. The store's uniqueness constraints decide: a conflict on
/// e-mail address or username is reported as the validation error of that
/// field, and the store stays as it was.
pub fn register(
    store: &mut CredentialStore,
    name: String,
    email: String,
    username: String,
    password_hash: String,
    id: String,
    auth_key: String,
) -> (registered: Result<String, Error>)
    ensures
        match registration_error(old(store)@, email@, username@, id@) {
            Some(error) => outcome_view(registered) == Err::<Seq<char>, ErrorView>(error)
                && final(store)@ == old(store)@,
            None => outcome_view(registered) == Ok::<Seq<char>, ErrorView>(auth_key@)
                && final(store)@ == old(store)@.push(
                UserView::fresh(id@, name@, username@, email@, password_hash@, auth_key@),
            ),
        },
        extends(old(store)@, final(store)@),
{
    if store.email_taken(email.as_str()) {
        return Err(Error::EmailTaken);
    }
    if store.username_taken(username.as_str()) {
        return Err(Error::UsernameTaken);
    }
    let key = auth_key.clone();
    match store.insert(User::new(id, name, username, email, password_hash, auth_key)) {
        Ok(_) => Ok(key),
        Err(error) => Err(error),
    }
}

/// Whether `outcome` and `after` are what a signup on `before` may end in.
///
/// A candidate with something wrong is refused with the first such error. A
/// valid one is given a fresh id and a fresh auth key, its password is
/// hashed, and the account is appended, unverified; the auth key is the
/// outcome. Short of that only the hasher can fail, or the fresh id can
/// turn out to be in use. Nothing but a success changes the store.
pub open spec fn signup_allows(
    before: Seq<UserView>,
    name: Seq<char>,
    email: Seq<char>,
    username: Seq<char>,
    password: Seq<char>,
    outcome: Result<Seq<char>, ErrorView>,
    after: Seq<UserView>,
) -> bool {
    match signup_error(before, name, email, username, password) {
        Some(error) => outcome == Err::<Seq<char>, ErrorView>(error) && after == before,
        None => match outcome {
            Ok(auth_key) => {
                &&& is_token(auth_key)
                &&& after.len() == before.len() + 1
                &&& after.drop_last() == before
                &&& is_token(after.last().id)
                &&& digest_accepts(password, after.last().password_hash) == Some(true)
                &&& after.last() == UserView::fresh(
                    after.last().id,
                    name,
                    username,
                    email,
                    after.last().password_hash,
                    auth_key,
                )
            },
            Err(error) => {
                &&& after == before
                &&& error is EncryptionError || error == ErrorView::DatabaseError(
                    "UNIQUE constraint failed: users.id"@,
                )
            },
        },
    }
}

/// Signs a new user up and yields the auth key of the account.
pub fn add_user(
    store: &mut CredentialStore,
    name: String,
    email: String,
    username: String,
    password: String,
) -> (added: Result<String, Error>)
    ensures
        signup_allows(
            old(store)@,
            name@,
            email@,
            username@,
            password@,
            outcome_view(added),
            final(store)@,
        ),
        extends(old(store)@, final(store)@),
{
    match validate_signup(
        store,
        name.as_str(),
        email.as_str(),
        username.as_str(),
        password.as_str(),
    ) {
        Ok(_) => {},
        Err(error) => { return Err(error); },
    }
    let user_id = issue_token();
    let auth_key = issue_token();
    let hashed_password = match hash_password(password.as_str()) {
        Ok(digest) => digest,
        Err(error) => { return Err(error); },
    };
    let registered = register(store, name, email, username, hashed_password, user_id, auth_key);
    proof {
        if registered is Ok {
            assert(store@.drop_last() == old(store)@);
        }
    }
    registered
}


/// Whatever is wrong with a candidate is something that its user can
/// correct.
pub proof fn lemma_signup_error_is_validation(
    rows: Seq<UserView>,
    name: Seq<char>,
    email: Seq<char>,
    username: Seq<char>,
    password: Seq<char>,
)
    ensures
        signup_error(rows, name, email, username, password) matches Some(error)
            ==> error.is_validation(),
{
}

/// A valid candidate is only ever turned away by the machinery underneath,
/// and where it is signed up its auth key is not empty.
pub proof fn lemma_valid_candidate_signs_up(
    before: Seq<UserView>,
    name: Seq<char>,
    email: Seq<char>,
    username: Seq<char>,
    password: Seq<char>,
    outcome: Result<Seq<char>, ErrorView>,
    after: Seq<UserView>,
)
    requires
        signup_error(before, name, email, username, password) is None,
        signup_allows(before, name, email, username, password, outcome, after),
    ensures
        match outcome {
            Ok(auth_key) => auth_key.len() > 0 && after.last().auth_key == auth_key,
            Err(error) => error.is_infrastructure(),
        },
{
}

/// The account that a signup creates is the candidate's: it has a name, a
/// username of 1 to 16 characters and a well-formed e-mail address, neither
/// of the two in use before, and it starts unverified, without a second
/// factor. Every older account is still there.
pub proof fn lemma_signed_up_account(
    before: Seq<UserView>,
    name: Seq<char>,
    email: Seq<char>,
    username: Seq<char>,
    password: Seq<char>,
    auth_key: Seq<char>,
    after: Seq<UserView>,
)
    requires
        signup_allows(before, name, email, username, password, Ok(auth_key), after),
    ensures
        ({
            let account = after.last();
            &&& account.name == name && name.len() > 0
            &&& account.username == username && 1 <= username.len() <= 16
            &&& account.email == email && is_email(email)
            &&& !has_username(before, username) && !has_email(before, email)
            &&& account.auth_key == auth_key
            &&& account.state() == VerificationState::Unverified
            &&& !account.two_factor
            &&& is_strong(password)
            &&& extends(before, after)
        }),
{
    assert forall|i: int| 0 <= i < before.len() implies (#[trigger] after[i]) == before[i] by {
        assert(after[i] == after.drop_last()[i]);
    }
}

/// After a signup, whoever signs up with the same e-mail address is refused
/// with `EmailTaken`, whatever the other fields are.
pub proof fn lemma_email_is_taken_after_signup(
    before: Seq<UserView>,
    name: Seq<char>,
    email: Seq<char>,
    username: Seq<char>,
    password: Seq<char>,
    auth_key: Seq<char>,
    after: Seq<UserView>,
    other_name: Seq<char>,
    other_username: Seq<char>,
    other_password: Seq<char>,
)
    requires
        signup_allows(before, name, email, username, password, Ok(auth_key), after),
    ensures
        signup_error(after, other_name, email, other_username, other_password) == Some(
            ErrorView::EmailTaken,
        ),
{
    assert(after[after.len() - 1].email == email);
}

/// After a signup, whoever signs up with the same username is refused with
/// `UsernameTaken`, provided that the e-mail address and the password of
/// the second candidate pass their own checks, which come first.
pub proof fn lemma_username_is_taken_after_signup(
    before: Seq<UserView>,
    name: Seq<char>,
    email: Seq<char>,
    username: Seq<char>,
    password: Seq<char>,
    auth_key: Seq<char>,
    after: Seq<UserView>,
    other_name: Seq<char>,
    other_email: Seq<char>,
    other_password: Seq<char>,
)
    requires
        signup_allows(before, name, email, username, password, Ok(auth_key), after),
        email_error(after, other_email) is None,
        password_error(other_password) is None,
    ensures
        signup_error(after, other_name, other_email, username, other_password) == Some(
            ErrorView::UsernameTaken,
        ),
{
    assert(after[after.len() - 1].username == username);
}

/// A password of fewer than seven characters is weak, whatever it is made
/// of; from seven characters on, the character classes decide.
pub proof fn lemma_password_boundary(password: Seq<char>)
    ensures
        0 < password.len() < 7 ==> password_error(password) == Some(ErrorView::WeakPassword),
        password.len() >= 7 ==> (password_error(password) is None <==> has_all_classes(password)),
{
}

/// A username of up to sixteen characters that is not in use is accepted;
/// one of seventeen or more is refused with `InvalidUsername`.
pub proof fn lemma_username_boundary(rows: Seq<UserView>, username: Seq<char>)
    ensures
        1 <= username.len() <= 16 && !has_username(rows, username) ==> username_error(
            rows,
            username,
        ) is None,
        username.len() >= 17 ==> username_error(rows, username) == Some(
            ErrorView::InvalidUsername,
        ),
{
}

} // verus!
