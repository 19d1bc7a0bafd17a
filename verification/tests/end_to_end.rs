use user_auth::repository::auth::login::login_user;
use user_auth::repository::auth::signup::add_user;
use user_auth::repository::auth::verify::complete_verification;
use user_auth::repository::auth::verify::confirm_verification;
use user_auth::repository::auth::verify::request_verification;
use user_auth::repository::auth::verify::EnvValue;
use user_auth::repository::auth::Error;
use user_auth::repository::database::create_user_db;
use user_auth::repository::database::VerificationState;

#[test]
fn alice_signs_up_logs_in_and_confirms_her_address() {
    let mut store = create_user_db();

    let token = add_user(
        &mut store,
        "Alice".to_string(),
        "alice@example.com".to_string(),
        "alice".to_string(),
        "Passw0rd!".to_string(),
    )
    .unwrap();
    assert!(!token.is_empty());

    assert_eq!(
        login_user(&store, "alice".to_string(), "Passw0rd!".to_string()),
        Ok(token.clone())
    );
    assert_eq!(
        login_user(&store, "alice".to_string(), "wrong".to_string()),
        Err(Error::InvalidCredentials)
    );

    let dispatch = request_verification(
        &store,
        &token,
        EnvValue::Present("service@example.com".to_string()),
        EnvValue::Present("app-password".to_string()),
    )
    .unwrap();
    assert_eq!(dispatch.mail.to, "Alice <alice@example.com>");
    assert_eq!(
        store.find_by_auth_key(&token).unwrap().state(),
        VerificationState::Unverified
    );

    let code = dispatch.code.clone();
    assert_eq!(complete_verification(&mut store, &token, dispatch.code, Ok(())), Ok(()));
    let pending = store.find_by_auth_key(&token).unwrap();
    assert_eq!(pending.state(), VerificationState::PendingVerification);
    assert_eq!(pending.verification_code, Some(code.clone()));
    assert_eq!(code.len(), 6);
    assert!(code.chars().all(|c| c.is_ascii_digit()));

    // an issued code never holds a zero, so this one is wrong
    assert_eq!(
        confirm_verification(&mut store, &token, "000000"),
        Err(Error::InvalidVerificationCode)
    );
    assert_eq!(confirm_verification(&mut store, &token, &code), Ok(()));
    let confirmed = store.find_by_auth_key(&token).unwrap();
    assert!(confirmed.confirmed);
    assert_eq!(confirmed.verification_code, None);
}
