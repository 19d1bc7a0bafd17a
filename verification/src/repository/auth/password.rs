//! One-way adaptive hashing of passwords, done by the `bcrypt` crate.

use vstd::prelude::*;

use crate::repository::auth::Error;

verus! {

/// The work factor of every digest made here.
pub const WORK_FACTOR: u32 = 12;

/// The error type of the `bcrypt` crate, carried as it is.
#[verifier::external_type_specification]
#[verifier::external_body]
pub struct ExBcryptError(bcrypt::BcryptError);

/// What `bcrypt::verify` makes of a password and a digest: whether the
/// password is the digest's, or nothing where the digest cannot be read.
pub uninterp spec fn digest_accepts(password: Seq<char>, digest: Seq<char>) -> Option<bool>;

/// How every digest made at `cost` begins, which makes it self-describing:
/// the version, `2b`, and the cost in two digits, each set off by `$`.
pub open spec fn digest_head(cost: u32) -> Seq<char> {
    seq![
        '$',
        '2',
        'b',
        '$',
        ('0' as u32 + cost / 10) as char,
        ('0' as u32 + cost % 10) as char,
        '$',
    ]
}

/// Calls `bcrypt::hash`, which salts from the operating system's randomness
/// and so gives another digest each time. It refuses a cost outside 4 to
/// 31. What is claimed of every digest: it is sixty characters long, begins
/// with version and cost, and `bcrypt::verify` accepts the password that it
/// was made from.
#[verifier::external_body]
fn bcrypt_hash(password: &str, cost: u32) -> (made: Result<String, bcrypt::BcryptError>)
    ensures
        made matches Ok(digest) ==> {
            &&& 4 <= cost <= 31
            &&& digest@.len() == 60
            &&& digest@.subrange(0, 7) == digest_head(cost)
            &&& digest_accepts(password@, digest@) == Some(true)
        },
{
    bcrypt::hash(password, cost)
}

/// Calls `bcrypt::verify`, which reads salt and cost out of the digest,
/// hashes the password again and compares. It depends on its two arguments
/// alone; an error means that the digest could not be read.
#[verifier::external_body]
fn bcrypt_verify(password: &str, digest: &str) -> (checked: Result<bool, bcrypt::BcryptError>)
    ensures
        match checked {
            Ok(accepted) => digest_accepts(password@, digest@) == Some(accepted),
            Err(_) => digest_accepts(password@, digest@) is None,
        },
{
    bcrypt::verify(password, digest)
}

/// Renders a `bcrypt::BcryptError` through its `Display` impl. Nothing is
/// claimed of the text.
#[verifier::external_body]
fn describe(error: &bcrypt::BcryptError) -> (text: String) {
    error.to_string()
}

/// Hashes a password for storage, at the fixed work factor. A failure
/// inside the hasher is reported as `EncryptionError`.
pub fn hash_password(password: &str) -> (made: Result<String, Error>)
    ensures
        match made {
            Ok(digest) => {
                &&& digest@.len() == 60
                &&& digest@.subrange(0, 7) == digest_head(WORK_FACTOR)
                &&& digest_accepts(password@, digest@) == Some(true)
            },
            Err(error) => error@ is EncryptionError,
        },
{
    match bcrypt_hash(password, WORK_FACTOR) {
        Ok(digest) => Ok(digest),
        Err(error) => Err(Error::EncryptionError(describe(&error))),
    }
}

/// Checks a password against a stored digest. A digest that cannot be read
/// is reported as `EncryptionError`.
pub fn verify_password(password: &str, digest: &str) -> (checked: Result<bool, Error>)
    ensures
        match checked {
            Ok(accepted) => digest_accepts(password@, digest@) == Some(accepted),
            Err(error) => error@ is EncryptionError && digest_accepts(password@, digest@) is None,
        },
{
    match bcrypt_verify(password, digest) {
        Ok(accepted) => Ok(accepted),
        Err(error) => Err(Error::EncryptionError(describe(&error))),
    }
}

/// Every digest made here begins with `$2b$12$`.
pub proof fn lemma_digest_head()
    ensures
        digest_head(WORK_FACTOR) == "$2b$12$"@,
{
    reveal_strlit("$2b$12$");
    assert(digest_head(WORK_FACTOR) =~= "$2b$12$"@);
}

} // verus!
