use user_auth::repository::auth::password::hash_password;
use user_auth::repository::auth::password::verify_password;
use user_auth::repository::auth::password::WORK_FACTOR;
use user_auth::repository::auth::Error;

const DIGEST_OF_PASSWORD: &str = "$2a$04$UuTkLRZZ6QofpDOlMz32MuuxEHA43WOemOYHPz6.SjsVsyO1tDU96";

#[test]
fn the_work_factor_is_twelve() {
    assert_eq!(WORK_FACTOR, 12);
}

#[test]
fn a_digest_is_self_describing_and_not_the_password() {
    let digest = hash_password("Passw0rd!").unwrap();
    assert_eq!(digest.len(), 60);
    assert!(digest.starts_with("$2b$12$"));
    assert_ne!(digest, "Passw0rd!");
    assert!(!digest.contains("Passw0rd!"));
}

#[test]
fn a_digest_accepts_the_password_it_was_made_from() {
    let digest = hash_password("Passw0rd!").unwrap();
    assert_eq!(verify_password("Passw0rd!", &digest), Ok(true));
}

#[test]
fn a_digest_rejects_another_password() {
    let digest = hash_password("Passw0rd!").unwrap();
    assert_eq!(verify_password("Passw0rd?", &digest), Ok(false));
}

#[test]
fn two_digests_of_one_password_differ() {
    let first = hash_password("Passw0rd!").unwrap();
    let second = hash_password("Passw0rd!").unwrap();
    assert_ne!(first, second);
    assert_eq!(verify_password("Passw0rd!", &second), Ok(true));
}

#[test]
fn a_known_digest_is_verified() {
    assert_eq!(verify_password("password", DIGEST_OF_PASSWORD), Ok(true));
    assert_eq!(verify_password("Password", DIGEST_OF_PASSWORD), Ok(false));
    assert_eq!(verify_password("", DIGEST_OF_PASSWORD), Ok(false));
    assert_eq!(verify_password(DIGEST_OF_PASSWORD, DIGEST_OF_PASSWORD), Ok(false));
}

#[test]
fn a_malformed_digest_is_an_encryption_error() {
    let sixty = "x".repeat(60);
    for digest in ["", "password", "$2a$04$tooshort", sixty.as_str()] {
        match verify_password("password", digest) {
            Err(Error::EncryptionError(detail)) => assert!(!detail.is_empty()),
            other => panic!("{:?}", other),
        }
    }
}

#[test]
fn an_encryption_error_is_reported_with_the_hasher_s_description() {
    let error = verify_password("password", "nonsense").unwrap_err();
    let message = error.message();
    assert!(message.starts_with("Internal encryption error: "));
    assert!(message.len() > "Internal encryption error: ".len());
}
