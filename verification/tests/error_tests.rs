use todo_app::errors::{ServerError, UserErrors};

#[test]
fn user_error_statuses() {
    assert_eq!(UserErrors::UserNotFound.status_code(), 404);
    assert_eq!(UserErrors::UserAlreadyExists.status_code(), 400);
    assert_eq!(UserErrors::PasswordsDontMatch.status_code(), 400);
    assert_eq!(UserErrors::InvalidCredentials.status_code(), 401);
}

#[test]
fn user_error_messages() {
    assert_eq!(UserErrors::UserNotFound.message(), "User not found");
    assert_eq!(UserErrors::UserAlreadyExists.message(), "User already exists");
    assert_eq!(UserErrors::PasswordsDontMatch.message(), "Check your password");
    assert_eq!(UserErrors::InvalidCredentials.message(), "Invalid credentials");
}

#[test]
fn server_error_answer() {
    assert_eq!(ServerError.status_code(), 500);
    assert_eq!(ServerError.message(), "Something went wrong, please try again later");
}

#[test]
fn every_user_error_is_a_client_error() {
    for e in [
        UserErrors::UserAlreadyExists,
        UserErrors::UserNotFound,
        UserErrors::PasswordsDontMatch,
        UserErrors::InvalidCredentials,
    ] {
        assert!((400..500).contains(&e.status_code()));
    }
}
