//! The credential store: one row per account, the single source of truth for
//! uniqueness and for the state of each account.

use vstd::prelude::*;

use crate::repository::auth::Error;
use crate::repository::auth::ErrorView;
use crate::text::chars_of;
use crate::text::digit;
use crate::text::is_digit;

verus! {

/// One account.
#[derive(Debug, PartialEq, Eq)]
pub struct User {
    pub id: String,
    pub name: String,
    pub username: String,
    pub email: String,
    pub password_hash: String,
    pub confirmed: bool,
    pub two_factor: bool,
    pub auth_key: String,
    pub verification_code: Option<String>,
}

/// The mathematical value of a [`User`].
pub struct UserView {
    pub id: Seq<char>,
    pub name: Seq<char>,
    pub username: Seq<char>,
    pub email: Seq<char>,
    pub password_hash: Seq<char>,
    pub confirmed: bool,
    pub two_factor: bool,
    pub auth_key: Seq<char>,
    pub verification_code: Option<Seq<char>>,
}

/// Where an account stands in proving ownership of its e-mail address.
#[derive(Debug, Clone, Copy, PartialEq, Eq, Structural)]
pub enum VerificationState {
    Unverified,
    PendingVerification,
    Confirmed,
}

/// A verification code is six decimal digits.
pub open spec fn is_verification_code(code: Seq<char>) -> bool {
    &&& code.len() == 6
    &&& forall|i: int| 0 <= i < code.len() ==> is_digit(#[trigger] code[i])
}

impl View for User {
    type V = UserView;

    open spec fn view(&self) -> UserView {
        UserView {
            id: self.id@,
            name: self.name@,
            username: self.username@,
            email: self.email@,
            password_hash: self.password_hash@,
            confirmed: self.confirmed,
            two_factor: self.two_factor,
            auth_key: self.auth_key@,
            verification_code: match self.verification_code {
                Some(code) => Some(code@),
                None => None,
            },
        }
    }
}

impl UserView {
    /// The state that the two verification columns encode.
    pub open spec fn state(self) -> VerificationState {
        if self.confirmed {
            VerificationState::Confirmed
        } else if self.verification_code is Some {
            VerificationState::PendingVerification
        } else {
            VerificationState::Unverified
        }
    }

    /// What the store demands of a single row: a pending code is six digits,
    /// and a confirmed account has none.
    pub open spec fn consistent(self) -> bool {
        &&& self.confirmed ==> self.verification_code is None
        &&& self.verification_code matches Some(code) ==> is_verification_code(code)
    }

    /// The row of a newly created account: unverified, without a second
    /// factor.
    pub open spec fn fresh(
        id: Seq<char>,
        name: Seq<char>,
        username: Seq<char>,
        email: Seq<char>,
        password_hash: Seq<char>,
        auth_key: Seq<char>,
    ) -> UserView {
        UserView {
            id,
            name,
            username,
            email,
            password_hash,
            confirmed: false,
            two_factor: false,
            auth_key,
            verification_code: None,
        }
    }

    /// The row after a code was recorded for it. A confirmed account stays as
    /// it is.
    pub open spec fn with_code(self, code: Seq<char>) -> UserView {
        if self.confirmed {
            self
        } else {
            UserView { verification_code: Some(code), ..self }
        }
    }

    /// The row after its e-mail address was confirmed.
    pub open spec fn confirm(self) -> UserView {
        UserView { confirmed: true, verification_code: None, ..self }
    }

    /// Whether `identifier` names this account, as its username or as its
    /// e-mail address.
    pub open spec fn answers_to(self, identifier: Seq<char>) -> bool {
        self.username == identifier || self.email == identifier
    }
}

impl Clone for User {
    fn clone(&self) -> (copy: User)
        ensures
            copy == *self,
    {
        User {
            id: self.id.clone(),
            name: self.name.clone(),
            username: self.username.clone(),
            email: self.email.clone(),
            password_hash: self.password_hash.clone(),
            confirmed: self.confirmed,
            two_factor: self.two_factor,
            auth_key: self.auth_key.clone(),
            verification_code: match &self.verification_code {
                Some(code) => Some(code.clone()),
                None => None,
            },
        }
    }
}

/// What the store guarantees of its rows at all times: no two share an id, a
/// username or an e-mail address, and each is consistent in itself.
pub open spec fn well_formed(rows: Seq<UserView>) -> bool {
    &&& forall|i: int, j: int|
        0 <= i < j < rows.len() ==> (#[trigger] rows[i]).id != (#[trigger] rows[j]).id
    &&& forall|i: int, j: int|
        0 <= i < j < rows.len() ==> (#[trigger] rows[i]).username != (#[trigger] rows[j]).username
    &&& forall|i: int, j: int|
        0 <= i < j < rows.len() ==> (#[trigger] rows[i]).email != (#[trigger] rows[j]).email
    &&& forall|i: int| 0 <= i < rows.len() ==> (#[trigger] rows[i]).consistent()
}

/// What no operation ever takes back: `after` keeps every account of
/// `before` in its place, with its identity, its credentials and its auth
/// key, and a confirmed account stays confirmed.
pub open spec fn extends(before: Seq<UserView>, after: Seq<UserView>) -> bool {
    &&& before.len() <= after.len()
    &&& forall|i: int|
        0 <= i < before.len() ==> {
            &&& (#[trigger] after[i]).id == before[i].id
            &&& after[i].name == before[i].name
            &&& after[i].username == before[i].username
            &&& after[i].email == before[i].email
            &&& after[i].password_hash == before[i].password_hash
            &&& after[i].two_factor == before[i].two_factor
            &&& after[i].auth_key == before[i].auth_key
            &&& before[i].confirmed ==> after[i].confirmed
        }
}

/// Whether some row has the given id.
pub open spec fn has_id(rows: Seq<UserView>, id: Seq<char>) -> bool {
    exists|i: int| 0 <= i < rows.len() && (#[trigger] rows[i]).id == id
}

/// Whether some row has the given username.
pub open spec fn has_username(rows: Seq<UserView>, username: Seq<char>) -> bool {
    exists|i: int| 0 <= i < rows.len() && (#[trigger] rows[i]).username == username
}

/// Whether some row has the given e-mail address.
pub open spec fn has_email(rows: Seq<UserView>, email: Seq<char>) -> bool {
    exists|i: int| 0 <= i < rows.len() && (#[trigger] rows[i]).email == email
}

/// Whether row `i` is the first whose auth key is `key`.
pub open spec fn is_first_with_key(rows: Seq<UserView>, key: Seq<char>, i: int) -> bool {
    &&& 0 <= i < rows.len()
    &&& rows[i].auth_key == key
    &&& forall|j: int| 0 <= j < i ==> (#[trigger] rows[j]).auth_key != key
}

/// The index of the first row whose auth key is `key`.
pub open spec fn position_by_key(rows: Seq<UserView>, key: Seq<char>) -> Option<int> {
    if exists|i: int| is_first_with_key(rows, key, i) {
        Some(choose|i: int| is_first_with_key(rows, key, i))
    } else {
        None
    }
}

/// Whether row `i` is the first that answers to `identifier`.
pub open spec fn is_first_answering(rows: Seq<UserView>, identifier: Seq<char>, i: int) -> bool {
    &&& 0 <= i < rows.len()
    &&& rows[i].answers_to(identifier)
    &&& forall|j: int| 0 <= j < i ==> !(#[trigger] rows[j]).answers_to(identifier)
}

/// The index of the first row that answers to `identifier`.
pub open spec fn position_by_identifier(rows: Seq<UserView>, identifier: Seq<char>) -> Option<
    int,
> {
    if exists|i: int| is_first_answering(rows, identifier, i) {
        Some(choose|i: int| is_first_answering(rows, identifier, i))
    } else {
        None
    }
}

/// At most one row is the first with a given key, so naming it fixes
/// `position_by_key`.
pub proof fn lemma_position_by_key(rows: Seq<UserView>, key: Seq<char>, i: int)
    requires
        is_first_with_key(rows, key, i),
    ensures
        position_by_key(rows, key) == Some(i),
{
    let k = choose|k: int| is_first_with_key(rows, key, k);
    if k < i {
        assert(rows[k].auth_key != key);
    }
    if i < k {
        assert(rows[i].auth_key != key);
    }
}

/// Where no row carries the key, there is no position for it.
pub proof fn lemma_no_position_by_key(rows: Seq<UserView>, key: Seq<char>)
    requires
        forall|j: int| 0 <= j < rows.len() ==> (#[trigger] rows[j]).auth_key != key,
    ensures
        position_by_key(rows, key) is None,
{
}

/// At most one row is the first to answer to an identifier, so naming it
/// fixes `position_by_identifier`.
pub proof fn lemma_position_by_identifier(rows: Seq<UserView>, identifier: Seq<char>, i: int)
    requires
        is_first_answering(rows, identifier, i),
    ensures
        position_by_identifier(rows, identifier) == Some(i),
{
    let k = choose|k: int| is_first_answering(rows, identifier, k);
    if k < i {
        assert(!rows[k].answers_to(identifier));
    }
    if i < k {
        assert(!rows[i].answers_to(identifier));
    }
}

/// Where no row answers to the identifier, there is no position for it.
pub proof fn lemma_no_position_by_identifier(rows: Seq<UserView>, identifier: Seq<char>)
    requires
        forall|j: int| 0 <= j < rows.len() ==> !(#[trigger] rows[j]).answers_to(identifier),
    ensures
        position_by_identifier(rows, identifier) is None,
{
}

/// A row that answers to the identifier has a first such row at or before
/// it.
pub proof fn lemma_identifier_has_position(rows: Seq<UserView>, identifier: Seq<char>, j: int)
    requires
        0 <= j < rows.len(),
        rows[j].answers_to(identifier),
    ensures
        position_by_identifier(rows, identifier) matches Some(i) && 0 <= i <= j,
    decreases j,
{
    if exists|k: int| 0 <= k < j && (#[trigger] rows[k]).answers_to(identifier) {
        let k = choose|k: int| 0 <= k < j && (#[trigger] rows[k]).answers_to(identifier);
        lemma_identifier_has_position(rows, identifier, k);
    } else {
        lemma_position_by_identifier(rows, identifier, j);
    }
}

/// The constraint that keeps `user` out of `rows`, if there is one: the
/// first that fails, of the primary key, the two uniqueness constraints and
/// the row's own consistency.
pub open spec fn violated_constraint(rows: Seq<UserView>, user: UserView) -> Option<Seq<char>> {
    if has_id(rows, user.id) {
        Some("UNIQUE constraint failed: users.id"@)
    } else if has_username(rows, user.username) {
        Some("UNIQUE constraint failed: users.username"@)
    } else if has_email(rows, user.email) {
        Some("UNIQUE constraint failed: users.email"@)
    } else if !user.consistent() {
        Some("CHECK constraint failed: verification_code"@)
    } else {
        None
    }
}

/// The rows after an attempt to record that a code was sent to the account
/// with the given key.
pub open spec fn rows_after_code(rows: Seq<UserView>, key: Seq<char>, code: Seq<char>) -> Seq<
    UserView,
> {
    match position_by_key(rows, key) {
        Some(i) if is_verification_code(code) => rows.update(i, rows[i].with_code(code)),
        _ => rows,
    }
}

/// The rows after an attempt to confirm the account with the given key.
pub open spec fn rows_after_confirm(rows: Seq<UserView>, key: Seq<char>) -> Seq<UserView> {
    match position_by_key(rows, key) {
        Some(i) => rows.update(i, rows[i].confirm()),
        None => rows,
    }
}

/// Whether `code` is six decimal digits.
pub fn check_code(code: &str) -> (ok: bool)
    ensures
        ok == is_verification_code(code@),
{
    let chars = chars_of(code);
    if chars.len() != 6 {
        return false;
    }
    let mut i: usize = 0;
    while i < 6
        invariant
            0 <= i <= 6,
            chars@ == code@,
            chars@.len() == 6,
            forall|j: int| 0 <= j < i ==> is_digit(#[trigger] code@[j]),
        decreases 6 - i,
    {
        if !digit(chars[i]) {
            return false;
        }
        i += 1;
    }
    true
}

impl User {
    /// A newly created account: unverified, without a second factor.
    pub fn new(
        id: String,
        name: String,
        username: String,
        email: String,
        password_hash: String,
        auth_key: String,
    ) -> (user: User)
        ensures
            user@ == UserView::fresh(id@, name@, username@, email@, password_hash@, auth_key@),
    {
        User {
            id,
            name,
            username,
            email,
            password_hash,
            confirmed: false,
            two_factor: false,
            auth_key,
            verification_code: None,
        }
    }

    /// Where the account stands in proving ownership of its e-mail address.
    pub fn state(&self) -> (state: VerificationState)
        ensures
            state == self@.state(),
    {
        if self.confirmed {
            VerificationState::Confirmed
        } else if self.verification_code.is_some() {
            VerificationState::PendingVerification
        } else {
            VerificationState::Unverified
        }
    }

    /// Whether the row is consistent in itself.
    pub fn is_consistent(&self) -> (ok: bool)
        ensures
            ok == self@.consistent(),
    {
        match &self.verification_code {
            Some(code) => !self.confirmed && check_code(code.as_str()),
            None => true,
        }
    }
}

/// The accounts of the service, in the order in which they were created.
pub struct CredentialStore {
    users: Vec<User>,
}

impl View for CredentialStore {
    type V = Seq<UserView>;

    closed spec fn view(&self) -> Seq<UserView> {
        rows_of(self.users@)
    }
}

spec fn rows_of(users: Seq<User>) -> Seq<UserView> {
    Seq::new(users.len(), |i: int| users[i]@)
}

impl CredentialStore {
    /// Every store is well formed, at all times.
    #[verifier::type_invariant]
    pub open spec fn holds_invariant(&self) -> bool {
        well_formed(self@)
    }

    /// A store without accounts.
    pub fn new() -> (store: CredentialStore)
        ensures
            store@ == Seq::<UserView>::empty(),
    {
        CredentialStore { users: Vec::new() }
    }

    /// Replaces row `i`. The rows are taken out of the store and put back
    /// changed, so that the store is well formed at every step.
    fn put(&mut self, i: usize, user: User)
        requires
            i < old(self)@.len(),
            well_formed(old(self)@.update(i as int, user@)),
        ensures
            final(self)@ == old(self)@.update(i as int, user@),
    {
        let mut users: Vec<User> = Vec::new();
        core::mem::swap(&mut self.users, &mut users);
        users.set(i, user);
        assert(rows_of(users@) == old(self)@.update(i as int, user@));
        core::mem::swap(&mut self.users, &mut users);
    }

    /// Appends a row, in the same way.
    fn append(&mut self, user: User)
        requires
            well_formed(old(self)@.push(user@)),
        ensures
            final(self)@ == old(self)@.push(user@),
    {
        let mut users: Vec<User> = Vec::new();
        core::mem::swap(&mut self.users, &mut users);
        users.push(user);
        assert(rows_of(users@) == old(self)@.push(user@));
        core::mem::swap(&mut self.users, &mut users);
    }

    /// The index of the first row with the given auth key.
    fn index_of_key(&self, auth_key: &str) -> (at: Option<usize>)
        ensures
            match at {
                Some(i) => position_by_key(self@, auth_key@) == Some(i as int) && i < self@.len(),
                None => position_by_key(self@, auth_key@) is None,
            },
    {
        let key = auth_key.to_owned();
        let mut i: usize = 0;
        while i < self.users.len()
            invariant
                0 <= i <= self.users.len(),
                key@ == auth_key@,
                forall|j: int| 0 <= j < i ==> (#[trigger] self@[j]).auth_key != auth_key@,
            decreases self.users.len() - i,
        {
            if self.users[i].auth_key == key {
                proof {
                    lemma_position_by_key(self@, auth_key@, i as int);
                }
                return Some(i);
            }
            i += 1;
        }
        proof {
            lemma_no_position_by_key(self@, auth_key@);
        }
        None
    }

    /// The number of accounts.
    pub fn len(&self) -> (n: usize)
        ensures
            n == self@.len(),
    {
        self.users.len()
    }

    /// Whether an account has the given id.
    pub fn id_taken(&self, id: &str) -> (taken: bool)
        ensures
            taken == has_id(self@, id@),
    {
        let wanted = id.to_owned();
        let mut i: usize = 0;
        while i < self.users.len()
            invariant
                0 <= i <= self.users.len(),
                wanted@ == id@,
                forall|j: int| 0 <= j < i ==> (#[trigger] self@[j]).id != id@,
            decreases self.users.len() - i,
        {
            if self.users[i].id == wanted {
                assert(self@[i as int].id == id@);
                return true;
            }
            i += 1;
        }
        false
    }

    /// Whether an account has the given username.
    pub fn username_taken(&self, username: &str) -> (taken: bool)
        ensures
            taken == has_username(self@, username@),
    {
        let wanted = username.to_owned();
        let mut i: usize = 0;
        while i < self.users.len()
            invariant
                0 <= i <= self.users.len(),
                wanted@ == username@,
                forall|j: int| 0 <= j < i ==> (#[trigger] self@[j]).username != username@,
            decreases self.users.len() - i,
        {
            if self.users[i].username == wanted {
                assert(self@[i as int].username == username@);
                return true;
            }
            i += 1;
        }
        false
    }

    /// Whether an account has the given e-mail address.
    pub fn email_taken(&self, email: &str) -> (taken: bool)
        ensures
            taken == has_email(self@, email@),
    {
        let wanted = email.to_owned();
        let mut i: usize = 0;
        while i < self.users.len()
            invariant
                0 <= i <= self.users.len(),
                wanted@ == email@,
                forall|j: int| 0 <= j < i ==> (#[trigger] self@[j]).email != email@,
            decreases self.users.len() - i,
        {
            if self.users[i].email == wanted {
                assert(self@[i as int].email == email@);
                return true;
            }
            i += 1;
        }
        false
    }

    /// Adds an account. The store itself enforces its constraints: a row
    /// that breaks one is refused with `DatabaseError`, whose detail names
    /// the constraint, and the store stays as it was.
    pub fn insert(&mut self, user: User) -> (done: Result<(), Error>)
        ensures
            match violated_constraint(old(self)@, user@) {
                None => done is Ok && final(self)@ == old(self)@.push(user@),
                Some(constraint) => done matches Err(error) && error@ == ErrorView::DatabaseError(
                    constraint,
                ) && final(self)@ == old(self)@,
            },
            extends(old(self)@, final(self)@),
    {
        if self.id_taken(user.id.as_str()) {
            return Err(Error::DatabaseError("UNIQUE constraint failed: users.id".to_owned()));
        }
        if self.username_taken(user.username.as_str()) {
            return Err(
                Error::DatabaseError("UNIQUE constraint failed: users.username".to_owned()),
            );
        }
        if self.email_taken(user.email.as_str()) {
            return Err(Error::DatabaseError("UNIQUE constraint failed: users.email".to_owned()));
        }
        if !user.is_consistent() {
            return Err(
                Error::DatabaseError("CHECK constraint failed: verification_code".to_owned()),
            );
        }
        proof {
            use_type_invariant(&*self);
        }
        self.append(user);
        Ok(())
    }

    /// Looks an account up by username or e-mail address: the same value is
    /// tried against both, and the account created first wins.
    pub fn find_by_identifier(&self, identifier: &str) -> (found: Result<User, Error>)
        ensures
            match position_by_identifier(self@, identifier@) {
                Some(i) => found matches Ok(user) && 0 <= i < self@.len() && user@ == self@[i],
                None => found matches Err(error) && error@ == ErrorView::InvalidCredentials,
            },
    {
        let wanted = identifier.to_owned();
        let mut i: usize = 0;
        while i < self.users.len()
            invariant
                0 <= i <= self.users.len(),
                wanted@ == identifier@,
                forall|j: int| 0 <= j < i ==> !(#[trigger] self@[j]).answers_to(identifier@),
            decreases self.users.len() - i,
        {
            if self.users[i].username == wanted || self.users[i].email == wanted {
                proof {
                    lemma_position_by_identifier(self@, identifier@, i as int);
                }
                return Ok(self.users[i].clone());
            }
            i += 1;
        }
        proof {
            lemma_no_position_by_identifier(self@, identifier@);
        }
        Err(Error::InvalidCredentials)
    }

    /// Looks an account up by its auth key; the account created first wins.
    pub fn find_by_auth_key(&self, auth_key: &str) -> (found: Result<User, Error>)
        ensures
            match position_by_key(self@, auth_key@) {
                Some(i) => found matches Ok(user) && 0 <= i < self@.len() && user@ == self@[i],
                None => found matches Err(error) && error@ == ErrorView::InvalidAuthKey,
            },
    {
        match self.index_of_key(auth_key) {
            Some(i) => Ok(self.users[i].clone()),
            None => Err(Error::InvalidAuthKey),
        }
    }

    /// Records the code that was sent to the account with the given auth
    /// key, in place of any earlier one. A confirmed account stays as it is.
    /// A code that is not six digits is refused with `DatabaseError`.
    pub fn set_verification_code(&mut self, auth_key: &str, code: String) -> (done: Result<
        (),
        Error,
    >)
        ensures
            match position_by_key(old(self)@, auth_key@) {
                None => done matches Err(error) && error@ == ErrorView::InvalidAuthKey,
                Some(i) => if is_verification_code(code@) {
                    done is Ok
                } else {
                    done matches Err(error) && error@ == ErrorView::DatabaseError(
                        "CHECK constraint failed: verification_code"@,
                    )
                },
            },
            final(self)@ == rows_after_code(old(self)@, auth_key@, code@),
            extends(old(self)@, final(self)@),
    {
        match self.index_of_key(auth_key) {
            None => Err(Error::InvalidAuthKey),
            Some(i) => {
                if !check_code(code.as_str()) {
                    return Err(
                        Error::DatabaseError(
                            "CHECK constraint failed: verification_code".to_owned(),
                        ),
                    );
                }
                proof {
                    use_type_invariant(&*self);
                }
                let mut user = self.users[i].clone();
                if !user.confirmed {
                    user.verification_code = Some(code);
                }
                self.put(i, user);
                Ok(())
            },
        }
    }

    /// Confirms the account with the given auth key: it is marked confirmed
    /// and its pending code is cleared.
    pub fn confirm(&mut self, auth_key: &str) -> (done: Result<(), Error>)
        ensures
            match position_by_key(old(self)@, auth_key@) {
                None => done matches Err(error) && error@ == ErrorView::InvalidAuthKey,
                Some(i) => done is Ok,
            },
            final(self)@ == rows_after_confirm(old(self)@, auth_key@),
            extends(old(self)@, final(self)@),
    {
        match self.index_of_key(auth_key) {
            None => Err(Error::InvalidAuthKey),
            Some(i) => {
                proof {
                    use_type_invariant(&*self);
                }
                let mut user = self.users[i].clone();
                user.confirmed = true;
                user.verification_code = None;
                self.put(i, user);
                Ok(())
            },
        }
    }
}

/// Sets up the store of user accounts, empty.
pub fn create_user_db() -> (store: CredentialStore)
    ensures
        store@ == Seq::<UserView>::empty(),
{
    CredentialStore::new()
}

} // verus!
