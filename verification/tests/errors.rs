use user_auth::repository::auth::Error;

#[test]
fn validation_errors_have_their_messages() {
    assert_eq!(Error::InvalidEmail.message(), "Invalid Email");
    assert_eq!(Error::EmailTaken.message(), "Email already in use");
    assert_eq!(Error::UsernameTaken.message(), "Username already exists");
    assert_eq!(Error::InvalidUsername.message(), "Username too long");
    assert_eq!(
        Error::WeakPassword.message(),
        "Password does not meet strength requirements"
    );
}

#[test]
fn empty_parameter_message_names_the_field() {
    assert_eq!(Error::EmptyParam("Email".to_string()).message(), "Email is empty");
    assert_eq!(Error::EmptyParam("Name".to_string()).message(), "Name is empty");
    assert_eq!(Error::EmptyParam(String::new()).message(), " is empty");
}

#[test]
fn credential_errors_have_their_messages() {
    assert_eq!(Error::InvalidCredentials.message(), "Invalid credentials");
    assert_eq!(Error::InvalidAuthKey.message(), "Invalid authentication key");
    assert_eq!(Error::InvalidVerificationCode.message(), "Invalid verification code");
}

#[test]
fn infrastructure_errors_carry_their_detail() {
    assert_eq!(
        Error::DatabaseError("disk full".to_string()).message(),
        "Internal database error: disk full"
    );
    assert_eq!(
        Error::EncryptionError("bad cost".to_string()).message(),
        "Internal encryption error: bad cost"
    );
    assert_eq!(
        Error::MissingEnvVariable("environment variable not found".to_string()).message(),
        "Missing environment variable: environment variable not found"
    );
    assert_eq!(
        Error::InvalidEnvVariable("not unicode".to_string()).message(),
        "Environment variable contains invalid characters: not unicode"
    );
    assert_eq!(
        Error::InternalEmailError("connection refused".to_string()).message(),
        "Internal error sending email: connection refused"
    );
    assert_eq!(
        Error::InternalEmailError(String::new()).message(),
        "Internal error sending email: "
    );
}
