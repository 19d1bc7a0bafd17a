//! Credential checks at login.

use vstd::prelude::*;

use crate::repository::auth::outcome_view;
use crate::repository::auth::password::digest_accepts;
use crate::repository::auth::password::verify_password;
use crate::repository::auth::signup::signup_allows;
use crate::repository::auth::Error;
use crate::repository::auth::ErrorView;
use crate::repository::database::has_email;
use crate::repository::database::has_username;
use crate::repository::database::is_first_answering;
use crate::repository::database::lemma_identifier_has_position;
use crate::repository::database::lemma_no_position_by_identifier;
use crate::repository::database::lemma_position_by_identifier;
use crate::repository::database::position_by_identifier;
use crate::repository::database::CredentialStore;
use crate::repository::database::User;
use crate::repository::database::UserView;

verus! {

/// Whether `outcome` is what a login with the given identifier and password
/// may end in. The account is the first that answers to the identifier, by
/// username or by e-mail address; whether it is confirmed plays no part. An
/// unknown identifier and a rejected password end in the same error. Only
/// where the stored digest cannot be read is the outcome not a single one:
/// the error's detail is the hasher's.
pub open spec fn login_allows(
    rows: Seq<UserView>,
    identifier: Seq<char>,
    password: Seq<char>,
    outcome: Result<Seq<char>, ErrorView>,
) -> bool {
    match position_by_identifier(rows, identifier) {
        None => outcome == Err::<Seq<char>, ErrorView>(ErrorView::InvalidCredentials),
        Some(i) => match digest_accepts(password, rows[i].password_hash) {
            Some(accepted) => outcome == access(rows[i], accepted),
            None => outcome matches Err(error) && error is EncryptionError,
        },
    }
}

/// What an account's holder is given once the password was checked: the
/// account's auth key, or `InvalidCredentials`.
pub open spec fn access(user: UserView, accepted: bool) -> Result<Seq<char>, ErrorView> {
    if accepted {
        Ok(user.auth_key)
    } else {
        Err(ErrorView::InvalidCredentials)
    }
}

/// Concludes a login from the outcome of the password check.
pub fn grant_access(user: User, checked: Result<bool, Error>) -> (granted: Result<String, Error>)
    ensures
        outcome_view(granted) == match checked {
            Ok(accepted) => access(user@, accepted),
            Err(error) => Err(error@),
        },
{
    match checked {
        Ok(accepted) => {
            if accepted {
                Ok(user.auth_key)
            } else {
                Err(Error::InvalidCredentials)
            }
        },
        Err(error) => Err(error),
    }
}

/// Logs in with a username or an e-mail address and a password, and yields
/// the account's auth key.
pub fn login_user(store: &CredentialStore, identifier: String, password: String) -> (granted:
    Result<String, Error>)
    ensures
        login_allows(store@, identifier@, password@, outcome_view(granted)),
{
    let user = match store.find_by_identifier(identifier.as_str()) {
        Ok(user) => user,
        Err(error) => { return Err(error); },
    };
    let checked = verify_password(password.as_str(), user.password_hash.as_str());
    grant_access(user, checked)
}


/// After a signup, a login with the username or with the e-mail address
/// that was signed up, and with the password that was signed up, yields
/// the auth key that the signup yielded, and nothing else.
///
/// The identifier is tried against both columns and the oldest account
/// wins, so the law holds where no older account has the new username as
/// its e-mail address, or the new e-mail address as its username.
pub proof fn lemma_login_after_signup(
    before: Seq<UserView>,
    name: Seq<char>,
    email: Seq<char>,
    username: Seq<char>,
    password: Seq<char>,
    auth_key: Seq<char>,
    after: Seq<UserView>,
    identifier: Seq<char>,
    outcome: Result<Seq<char>, ErrorView>,
)
    requires
        signup_allows(before, name, email, username, password, Ok(auth_key), after),
        identifier == username || identifier == email,
        identifier == username ==> !has_email(before, username),
        identifier == email ==> !has_username(before, email),
    ensures
        login_allows(after, identifier, password, outcome) <==> outcome == Ok::<
            Seq<char>,
            ErrorView,
        >(auth_key),
{
    let last = after.len() - 1;
    assert(after[last].answers_to(identifier));
    assert forall|j: int| 0 <= j < last implies !(#[trigger] after[j]).answers_to(identifier) by {
        assert(after[j] == after.drop_last()[j]);
    }
    lemma_position_by_identifier(after, identifier, last);
}

/// Whether two stores hold the same accounts but for where each stands in
/// verifying its e-mail address.
pub open spec fn same_but_for_verification(rows: Seq<UserView>, other: Seq<UserView>) -> bool {
    &&& rows.len() == other.len()
    &&& forall|i: int|
        0 <= i < rows.len() ==> (#[trigger] other[i]) == (UserView {
            confirmed: other[i].confirmed,
            verification_code: other[i].verification_code,
            ..rows[i]
        })
}

/// Login is not held back until the e-mail address is confirmed: what a
/// login may end in is the same wherever the accounts stand in verifying
/// their addresses.
pub proof fn lemma_login_ignores_verification(
    rows: Seq<UserView>,
    other: Seq<UserView>,
    identifier: Seq<char>,
    password: Seq<char>,
    outcome: Result<Seq<char>, ErrorView>,
)
    requires
        same_but_for_verification(rows, other),
    ensures
        login_allows(rows, identifier, password, outcome) <==> login_allows(
            other,
            identifier,
            password,
            outcome,
        ),
{
    assert forall|i: int| 0 <= i < rows.len() implies (#[trigger] rows[i]).answers_to(identifier)
        == other[i].answers_to(identifier) by {
        assert(other[i].username == rows[i].username);
    }
    if position_by_identifier(rows, identifier) is Some {
        let i = position_by_identifier(rows, identifier)->0;
        assert(is_first_answering(rows, identifier, i));
        assert forall|j: int| 0 <= j < i implies !(#[trigger] other[j]).answers_to(identifier) by {
            assert(!rows[j].answers_to(identifier));
        }
        lemma_position_by_identifier(other, identifier, i);
        assert(other[i].password_hash == rows[i].password_hash);
    } else {
        assert forall|j: int| 0 <= j < other.len() implies !(#[trigger] other[j]).answers_to(
            identifier,
        ) by {
            if rows[j].answers_to(identifier) {
                lemma_identifier_has_position(rows, identifier, j);
            }
        }
        lemma_no_position_by_identifier(other, identifier);
    }
}

/// A login fails over the credentials or over the hasher, never otherwise.
pub proof fn lemma_login_errors(
    rows: Seq<UserView>,
    identifier: Seq<char>,
    password: Seq<char>,
    outcome: Result<Seq<char>, ErrorView>,
)
    requires
        login_allows(rows, identifier, password, outcome),
    ensures
        outcome matches Err(error) ==> error == ErrorView::InvalidCredentials
            || error is EncryptionError,
{
}

/// A login is refused with `InvalidCredentials`, and with nothing else,
/// both where no account answers to the identifier and where the hasher
/// rejects the password for the account that does: the outcome does not
/// tell the two apart.
pub proof fn lemma_login_refused(
    rows: Seq<UserView>,
    identifier: Seq<char>,
    password: Seq<char>,
    outcome: Result<Seq<char>, ErrorView>,
)
    requires
        match position_by_identifier(rows, identifier) {
            None => true,
            Some(i) => digest_accepts(password, rows[i].password_hash) == Some(false),
        },
    ensures
        login_allows(rows, identifier, password, outcome) <==> outcome == Err::<
            Seq<char>,
            ErrorView,
        >(ErrorView::InvalidCredentials),
{
}

} // verus!
