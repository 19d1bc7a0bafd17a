//! The error taxonomy shared by every account operation.

use vstd::prelude::*;
use vstd::string::StringExecFns;

pub mod login;
pub mod password;
pub mod signup;
pub mod token;
pub mod verify;

verus! {

/// Why an account operation was refused.
///
/// The first group is user-correctable, the second concerns credentials, and
/// the variants that carry a detail text report failures of the machinery
/// underneath; the text is the underlying failure's own description.
#[derive(Debug, PartialEq, Eq)]
pub enum Error {
    InvalidEmail,
    EmailTaken,
    UsernameTaken,
    InvalidUsername,
    WeakPassword,
    EmptyParam(String),
    InvalidCredentials,
    InvalidAuthKey,
    InvalidVerificationCode,
    DatabaseError(String),
    EncryptionError(String),
    MissingEnvVariable(String),
    InvalidEnvVariable(String),
    InternalEmailError(String),
}

/// The mathematical value of an [`Error`]: the same variants over character
/// sequences.
pub enum ErrorView {
    InvalidEmail,
    EmailTaken,
    UsernameTaken,
    InvalidUsername,
    WeakPassword,
    EmptyParam(Seq<char>),
    InvalidCredentials,
    InvalidAuthKey,
    InvalidVerificationCode,
    DatabaseError(Seq<char>),
    EncryptionError(Seq<char>),
    MissingEnvVariable(Seq<char>),
    InvalidEnvVariable(Seq<char>),
    InternalEmailError(Seq<char>),
}

impl View for Error {
    type V = ErrorView;

    open spec fn view(&self) -> ErrorView {
        match self {
            Error::InvalidEmail => ErrorView::InvalidEmail,
            Error::EmailTaken => ErrorView::EmailTaken,
            Error::UsernameTaken => ErrorView::UsernameTaken,
            Error::InvalidUsername => ErrorView::InvalidUsername,
            Error::WeakPassword => ErrorView::WeakPassword,
            Error::EmptyParam(field) => ErrorView::EmptyParam(field@),
            Error::InvalidCredentials => ErrorView::InvalidCredentials,
            Error::InvalidAuthKey => ErrorView::InvalidAuthKey,
            Error::InvalidVerificationCode => ErrorView::InvalidVerificationCode,
            Error::DatabaseError(detail) => ErrorView::DatabaseError(detail@),
            Error::EncryptionError(detail) => ErrorView::EncryptionError(detail@),
            Error::MissingEnvVariable(detail) => ErrorView::MissingEnvVariable(detail@),
            Error::InvalidEnvVariable(detail) => ErrorView::InvalidEnvVariable(detail@),
            Error::InternalEmailError(detail) => ErrorView::InternalEmailError(detail@),
        }
    }
}

impl ErrorView {
    /// The human-readable message of this error.
    pub open spec fn message(self) -> Seq<char> {
        match self {
            ErrorView::InvalidEmail => "Invalid Email"@,
            ErrorView::EmailTaken => "Email already in use"@,
            ErrorView::UsernameTaken => "Username already exists"@,
            ErrorView::InvalidUsername => "Username too long"@,
            ErrorView::WeakPassword => "Password does not meet strength requirements"@,
            ErrorView::EmptyParam(field) => field + " is empty"@,
            ErrorView::InvalidCredentials => "Invalid credentials"@,
            ErrorView::InvalidAuthKey => "Invalid authentication key"@,
            ErrorView::InvalidVerificationCode => "Invalid verification code"@,
            ErrorView::DatabaseError(detail) => "Internal database error: "@ + detail,
            ErrorView::EncryptionError(detail) => "Internal encryption error: "@ + detail,
            ErrorView::MissingEnvVariable(detail) => "Missing environment variable: "@ + detail,
            ErrorView::InvalidEnvVariable(detail) => "Environment variable contains invalid characters: "@
                + detail,
            ErrorView::InternalEmailError(detail) => "Internal error sending email: "@ + detail,
        }
    }

    /// Whether the error may be shown to the user as something to correct.
    pub open spec fn is_validation(self) -> bool {
        self is InvalidEmail || self is EmailTaken || self is UsernameTaken
            || self is InvalidUsername || self is WeakPassword || self is EmptyParam
    }

    /// Whether the error concerns the credentials that were presented.
    pub open spec fn is_credential(self) -> bool {
        self is InvalidCredentials || self is InvalidAuthKey || self is InvalidVerificationCode
    }

    /// Whether the error reports a failure of the machinery underneath.
    pub open spec fn is_infrastructure(self) -> bool {
        self is DatabaseError || self is EncryptionError || self is MissingEnvVariable
            || self is InvalidEnvVariable || self is InternalEmailError
    }
}

/// The view of an operation's outcome: the view of what it yields or of the
/// error it reports.
pub open spec fn outcome_view<T: View>(r: Result<T, Error>) -> Result<T::V, ErrorView> {
    match r {
        Ok(value) => Ok(value@),
        Err(error) => Err(error@),
    }
}

fn prefixed(prefix: &str, detail: &String) -> (text: String)
    ensures
        text@ == prefix@ + detail@,
{
    prefix.to_owned().concat(detail.as_str())
}

impl Error {
    /// Renders the error as the message that is reported to the caller.
    pub fn message(&self) -> (text: String)
        ensures
            text@ == self@.message(),
    {
        match self {
            Error::InvalidEmail => "Invalid Email".to_owned(),
            Error::EmailTaken => "Email already in use".to_owned(),
            Error::UsernameTaken => "Username already exists".to_owned(),
            Error::InvalidUsername => "Username too long".to_owned(),
            Error::WeakPassword => "Password does not meet strength requirements".to_owned(),
            Error::EmptyParam(field) => field.clone().concat(" is empty"),
            Error::InvalidCredentials => "Invalid credentials".to_owned(),
            Error::InvalidAuthKey => "Invalid authentication key".to_owned(),
            Error::InvalidVerificationCode => "Invalid verification code".to_owned(),
            Error::DatabaseError(detail) => prefixed("Internal database error: ", detail),
            Error::EncryptionError(detail) => prefixed("Internal encryption error: ", detail),
            Error::MissingEnvVariable(detail) => prefixed("Missing environment variable: ", detail),
            Error::InvalidEnvVariable(detail) => prefixed(
                "Environment variable contains invalid characters: ",
                detail,
            ),
            Error::InternalEmailError(detail) => prefixed("Internal error sending email: ", detail),
        }
    }
}

} // verus!
