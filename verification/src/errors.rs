use vstd::prelude::*;

verus! {

/// Errors that a client can cause when registering or logging in.
#[derive(Clone, Copy, Debug, PartialEq, Eq, Structural)]
pub enum UserErrors {
    UserAlreadyExists,
    UserNotFound,
    PasswordsDontMatch,
    InvalidCredentials,
}

impl UserErrors {
    /// HTTP status with which the error is answered.
    pub open spec fn spec_status(self) -> u16 {
        match self {
            UserErrors::UserNotFound => 404,
            UserErrors::UserAlreadyExists => 400,
            UserErrors::PasswordsDontMatch => 400,
            UserErrors::InvalidCredentials => 401,
        }
    }

    /// Text carried under `"error"` in the JSON body of the answer.
    pub open spec fn spec_message(self) -> Seq<char> {
        match self {
            UserErrors::UserNotFound => "User not found"@,
            UserErrors::UserAlreadyExists => "User already exists"@,
            UserErrors::PasswordsDontMatch => "Check your password"@,
            UserErrors::InvalidCredentials => "Invalid credentials"@,
        }
    }

    pub fn status_code(&self) -> (status: u16)
        ensures
            status == self.spec_status(),
    {
        match self {
            UserErrors::UserNotFound => 404,
            UserErrors::UserAlreadyExists => 400,
            UserErrors::PasswordsDontMatch => 400,
            UserErrors::InvalidCredentials => 401,
        }
    }

    pub fn message(&self) -> (text: &'static str)
        ensures
            text@ == self.spec_message(),
    {
        match self {
            UserErrors::UserNotFound => "User not found",
            UserErrors::UserAlreadyExists => "User already exists",
            UserErrors::PasswordsDontMatch => "Check your password",
            UserErrors::InvalidCredentials => "Invalid credentials",
        }
    }
}

/// An internal failure (database or similar) that is not the client's fault.
#[derive(Clone, Copy, Debug, PartialEq, Eq, Structural)]
pub struct ServerError;

impl ServerError {
    pub open spec fn spec_status() -> u16 {
        500
    }

    pub open spec fn spec_message() -> Seq<char> {
        "Something went wrong, please try again later"@
    }

    pub fn status_code(&self) -> (status: u16)
        ensures
            status == Self::spec_status(),
    {
        500
    }

    pub fn message(&self) -> (text: &'static str)
        ensures
            text@ == Self::spec_message(),
    {
        "Something went wrong, please try again later"
    }
}

/// Every error a client causes is answered with a client-error status, and a
/// server error with a server-error status.
pub proof fn law_error_status_classes(e: UserErrors)
    ensures
        400 <= e.spec_status() < 500,
        500 <= ServerError::spec_status() < 600,
{
}

} // verus!
