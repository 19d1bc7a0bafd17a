use user_auth::repository::auth::verify::complete_verification;
use user_auth::repository::auth::verify::confirm_verification;
use user_auth::repository::auth::verify::generate_code;
use user_auth::repository::auth::verify::plan_dispatch;
use user_auth::repository::auth::verify::request_verification;
use user_auth::repository::auth::verify::verify_email;
use user_auth::repository::auth::verify::Dispatch;
use user_auth::repository::auth::verify::EnvValue;
use user_auth::repository::auth::verify::VerificationMail;
use user_auth::repository::auth::Error;
use user_auth::repository::database::check_code;
use user_auth::repository::database::CredentialStore;
use user_auth::repository::database::User;
use user_auth::repository::database::VerificationState;

fn present(value: &str) -> EnvValue {
    EnvValue::Present(value.to_string())
}

fn store_with_ann() -> CredentialStore {
    let mut store = CredentialStore::new();
    store
        .insert(User::new(
            "id-1".to_string(),
            "Ann Lee".to_string(),
            "ann".to_string(),
            "ann@example.com".to_string(),
            "digest".to_string(),
            "key-1".to_string(),
        ))
        .unwrap();
    store
}

#[test]
fn an_issued_code_is_six_digits_from_one_to_nine() {
    let mut seen = [false; 10];
    for _ in 0..500 {
        let code = generate_code();
        assert_eq!(code.chars().count(), 6);
        assert!(check_code(&code));
        for c in code.chars() {
            assert!(('1'..='9').contains(&c), "{:?}", code);
            seen[c.to_digit(10).unwrap() as usize] = true;
        }
    }
    assert!(!seen[0]);
    assert!(seen[1..].iter().all(|digit| *digit));
}

#[test]
fn issued_codes_vary() {
    let first = generate_code();
    assert!((0..50).any(|_| generate_code() != first));
}

#[test]
fn a_dispatch_is_addressed_to_the_account_holder_by_name() {
    let dispatch = plan_dispatch(
        "Ann Lee".to_string(),
        "ann@example.com".to_string(),
        "123456".to_string(),
        present("service@example.com"),
        present("app-password"),
    );
    assert_eq!(
        dispatch,
        Ok(Dispatch {
            code: "123456".to_string(),
            mail: VerificationMail {
                from: "service@example.com".to_string(),
                to: "Ann Lee <ann@example.com>".to_string(),
                subject: "Verify your account".to_string(),
                body: "your verification code is 123456".to_string(),
            },
            username: "service@example.com".to_string(),
            password: "app-password".to_string(),
        })
    );
}

#[test]
fn a_dispatch_needs_both_transport_credentials() {
    let plan = |username: EnvValue, password: EnvValue| {
        plan_dispatch(
            "Ann".to_string(),
            "ann@example.com".to_string(),
            "123456".to_string(),
            username,
            password,
        )
    };
    assert_eq!(
        plan(EnvValue::NotPresent("no username".to_string()), present("secret")),
        Err(Error::MissingEnvVariable("no username".to_string()))
    );
    assert_eq!(
        plan(EnvValue::NotUnicode("bad username".to_string()), present("secret")),
        Err(Error::InvalidEnvVariable("bad username".to_string()))
    );
    assert_eq!(
        plan(present("service@example.com"), EnvValue::NotPresent("no password".to_string())),
        Err(Error::MissingEnvVariable("no password".to_string()))
    );
    assert_eq!(
        plan(present("service@example.com"), EnvValue::NotUnicode("bad password".to_string())),
        Err(Error::InvalidEnvVariable("bad password".to_string()))
    );
}

#[test]
fn the_username_is_looked_at_before_the_password() {
    assert_eq!(
        plan_dispatch(
            "Ann".to_string(),
            "ann@example.com".to_string(),
            "123456".to_string(),
            EnvValue::NotUnicode("bad username".to_string()),
            EnvValue::NotPresent("no password".to_string()),
        ),
        Err(Error::InvalidEnvVariable("bad username".to_string()))
    );
}

#[test]
fn verifying_an_address_issues_a_code_and_puts_it_in_the_message() {
    let dispatch = verify_email(
        "Ann".to_string(),
        "ann@example.com".to_string(),
        present("service@example.com"),
        present("app-password"),
    )
    .unwrap();
    assert!(check_code(&dispatch.code));
    assert!(!dispatch.code.contains('0'));
    assert_eq!(dispatch.mail.to, "Ann <ann@example.com>");
    assert_eq!(dispatch.mail.from, "service@example.com");
    assert_eq!(dispatch.mail.subject, "Verify your account");
    assert_eq!(dispatch.mail.body, format!("your verification code is {}", dispatch.code));
    assert_eq!(dispatch.username, "service@example.com");
    assert_eq!(dispatch.password, "app-password");
}

#[test]
fn verifying_an_address_without_credentials_fails() {
    assert_eq!(
        verify_email(
            "Ann".to_string(),
            "ann@example.com".to_string(),
            EnvValue::NotPresent("environment variable not found".to_string()),
            present("app-password"),
        ),
        Err(Error::MissingEnvVariable("environment variable not found".to_string()))
    );
}

#[test]
fn a_request_for_an_unknown_key_fails_before_anything_else() {
    let store = store_with_ann();
    assert_eq!(
        request_verification(
            &store,
            "key-2",
            EnvValue::NotPresent("no username".to_string()),
            EnvValue::NotPresent("no password".to_string()),
        ),
        Err(Error::InvalidAuthKey)
    );
}

#[test]
fn a_request_goes_to_the_holder_of_the_key_and_leaves_the_store_alone() {
    let store = store_with_ann();
    let dispatch =
        request_verification(&store, "key-1", present("service@example.com"), present("secret"))
            .unwrap();
    assert_eq!(dispatch.mail.to, "Ann Lee <ann@example.com>");
    assert!(check_code(&dispatch.code));
    let ann = store.find_by_auth_key("key-1").unwrap();
    assert_eq!(ann.verification_code, None);
    assert_eq!(ann.state(), VerificationState::Unverified);
}

#[test]
fn a_request_without_credentials_fails() {
    let store = store_with_ann();
    assert_eq!(
        request_verification(
            &store,
            "key-1",
            present("service@example.com"),
            EnvValue::NotUnicode("not unicode".to_string()),
        ),
        Err(Error::InvalidEnvVariable("not unicode".to_string()))
    );
}

#[test]
fn a_sent_code_becomes_pending() {
    let mut store = store_with_ann();
    assert_eq!(
        complete_verification(&mut store, "key-1", "123456".to_string(), Ok(())),
        Ok(())
    );
    let ann = store.find_by_auth_key("key-1").unwrap();
    assert_eq!(ann.verification_code, Some("123456".to_string()));
    assert_eq!(ann.state(), VerificationState::PendingVerification);
}

#[test]
fn a_failed_dispatch_leaves_the_state_unchanged() {
    let mut store = store_with_ann();
    assert_eq!(
        complete_verification(
            &mut store,
            "key-1",
            "123456".to_string(),
            Err("connection refused".to_string()),
        ),
        Err(Error::InternalEmailError("connection refused".to_string()))
    );
    assert_eq!(store.find_by_auth_key("key-1").unwrap().verification_code, None);

    store.set_verification_code("key-1", "111111".to_string()).unwrap();
    assert_eq!(
        complete_verification(
            &mut store,
            "key-1",
            "222222".to_string(),
            Err("mailbox unavailable".to_string()),
        ),
        Err(Error::InternalEmailError("mailbox unavailable".to_string()))
    );
    assert_eq!(
        store.find_by_auth_key("key-1").unwrap().verification_code,
        Some("111111".to_string())
    );
}

#[test]
fn a_failed_dispatch_is_reported_even_for_an_unknown_key() {
    let mut store = store_with_ann();
    assert_eq!(
        complete_verification(&mut store, "key-2", "123456".to_string(), Err("down".to_string())),
        Err(Error::InternalEmailError("down".to_string()))
    );
}

#[test]
fn a_sent_code_for_an_unknown_key_is_not_recorded() {
    let mut store = store_with_ann();
    assert_eq!(
        complete_verification(&mut store, "key-2", "123456".to_string(), Ok(())),
        Err(Error::InvalidAuthKey)
    );
    assert_eq!(store.find_by_auth_key("key-1").unwrap().verification_code, None);
}

#[test]
fn confirming_with_an_unknown_key_fails() {
    let mut store = store_with_ann();
    store.set_verification_code("key-1", "123456".to_string()).unwrap();
    assert_eq!(
        confirm_verification(&mut store, "key-2", "123456"),
        Err(Error::InvalidAuthKey)
    );
    assert!(!store.find_by_auth_key("key-1").unwrap().confirmed);
}

#[test]
fn confirming_before_any_code_was_sent_fails() {
    let mut store = store_with_ann();
    assert_eq!(
        confirm_verification(&mut store, "key-1", "123456"),
        Err(Error::InvalidVerificationCode)
    );
    assert_eq!(
        confirm_verification(&mut store, "key-1", ""),
        Err(Error::InvalidVerificationCode)
    );
    assert!(!store.find_by_auth_key("key-1").unwrap().confirmed);
}

#[test]
fn confirming_with_another_code_fails_and_keeps_the_code_pending() {
    let mut store = store_with_ann();
    store.set_verification_code("key-1", "123456".to_string()).unwrap();
    for wrong in ["123457", "12345", "1234567", "", " 123456", "654321"] {
        assert_eq!(
            confirm_verification(&mut store, "key-1", wrong),
            Err(Error::InvalidVerificationCode)
        );
    }
    let ann = store.find_by_auth_key("key-1").unwrap();
    assert!(!ann.confirmed);
    assert_eq!(ann.verification_code, Some("123456".to_string()));
}

#[test]
fn confirming_with_the_pending_code_succeeds() {
    let mut store = store_with_ann();
    store.set_verification_code("key-1", "123456".to_string()).unwrap();
    assert_eq!(confirm_verification(&mut store, "key-1", "123456"), Ok(()));
    let ann = store.find_by_auth_key("key-1").unwrap();
    assert!(ann.confirmed);
    assert_eq!(ann.verification_code, None);
    assert_eq!(ann.state(), VerificationState::Confirmed);
}

#[test]
fn only_the_latest_code_confirms() {
    let mut store = store_with_ann();
    complete_verification(&mut store, "key-1", "111111".to_string(), Ok(())).unwrap();
    complete_verification(&mut store, "key-1", "222222".to_string(), Ok(())).unwrap();
    assert_eq!(
        confirm_verification(&mut store, "key-1", "111111"),
        Err(Error::InvalidVerificationCode)
    );
    assert_eq!(confirm_verification(&mut store, "key-1", "222222"), Ok(()));
}

#[test]
fn a_code_confirms_only_once() {
    let mut store = store_with_ann();
    store.set_verification_code("key-1", "123456".to_string()).unwrap();
    assert_eq!(confirm_verification(&mut store, "key-1", "123456"), Ok(()));
    assert_eq!(
        confirm_verification(&mut store, "key-1", "123456"),
        Err(Error::InvalidVerificationCode)
    );
    assert_eq!(
        confirm_verification(&mut store, "key-1", "654321"),
        Err(Error::InvalidVerificationCode)
    );
    assert!(store.find_by_auth_key("key-1").unwrap().confirmed);
}

#[test]
fn a_confirmed_account_stays_confirmed_when_another_code_is_sent() {
    let mut store = store_with_ann();
    store.set_verification_code("key-1", "123456".to_string()).unwrap();
    confirm_verification(&mut store, "key-1", "123456").unwrap();
    assert_eq!(
        complete_verification(&mut store, "key-1", "654321".to_string(), Ok(())),
        Ok(())
    );
    let ann = store.find_by_auth_key("key-1").unwrap();
    assert!(ann.confirmed);
    assert_eq!(ann.verification_code, None);
    assert_eq!(
        confirm_verification(&mut store, "key-1", "654321"),
        Err(Error::InvalidVerificationCode)
    );
}
