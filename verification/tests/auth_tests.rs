use todo_app::auth::{
    login_begin, login_step, register_begin, register_step, user_lookup, AuthAction, AuthEvent,
    DatabaseError, Error, LoginState, RegisterState, Reply,
};
use todo_app::credentials::{generate_hash, normalize_email, verify_password};
use todo_app::errors::UserErrors;
use todo_app::models::{Login, RegisterUser, User};

fn form(email: &str, password: &str, confirm: &str) -> RegisterUser {
    RegisterUser {
        name: "Ada".to_string(),
        email: email.to_string(),
        password: password.to_string(),
        confirm_password: confirm.to_string(),
    }
}

fn user(id: u128, email: &str, hash: &str) -> User {
    User { id, name: "Ada".to_string(), email: email.to_string(), password: hash.to_string() }
}

fn is_reply(action: &AuthAction, expected: Reply) -> bool {
    matches!(action, AuthAction::Respond(r) if *r == expected)
}

#[test]
fn emails_are_compared_in_lower_case() {
    assert_eq!(normalize_email("Ada@Example.COM"), "ada@example.com");
    assert_eq!(normalize_email("ada@example.com"), "ada@example.com");
}

#[test]
fn hashes_verify_their_password_only() {
    let hash = generate_hash("hunter2");
    assert_ne!(hash, "hunter2");
    assert!(verify_password("hunter2", &hash));
    assert!(!verify_password("hunter3", &hash));
    assert!(!verify_password("hunter2", "not a hash"));
    assert!(hash.starts_with("$argon2id$v=19$m=19456,t=2,p=1$"));
    assert_eq!(hash.chars().count(), 97);
    assert_eq!(hash.matches('$').count(), 5);
}

#[test]
fn user_lookup_results() {
    let found = user_lookup(Ok(Some(user(1, "a@b.c", "h"))));
    assert!(matches!(found, Ok(u) if u.id == 1));
    let missing = user_lookup(Ok(None));
    assert!(matches!(missing, Err(Error::UserErr(UserErrors::UserNotFound))));
    let failed = user_lookup(Err(DatabaseError));
    assert!(matches!(failed, Err(Error::ServerErr)));
}

#[test]
fn registration_refuses_different_passwords() {
    let (state, action) = register_begin(form("a@b.c", "one", "two"));
    assert!(matches!(state, RegisterState::Finished));
    assert!(is_reply(&action, Reply::UserError(UserErrors::PasswordsDontMatch)));
}

#[test]
fn registration_looks_up_the_email_as_given() {
    let (state, action) = register_begin(form("Ada@B.c", "pw", "pw"));
    assert!(matches!(state, RegisterState::LookingUp(_)));
    assert!(matches!(action, AuthAction::LookUpUser(ref e) if e == "Ada@B.c"));
}

#[test]
fn registration_refuses_an_existing_account() {
    let (state, _) = register_begin(form("a@b.c", "pw", "pw"));
    let (state, action) =
        register_step(state, AuthEvent::UserLookedUp(Ok(user(1, "a@b.c", "h"))));
    assert!(matches!(state, RegisterState::Finished));
    assert!(is_reply(&action, Reply::UserError(UserErrors::UserAlreadyExists)));
}

#[test]
fn registration_fails_on_a_lookup_error() {
    let (state, _) = register_begin(form("a@b.c", "pw", "pw"));
    let (state, action) = register_step(state, AuthEvent::UserLookedUp(Err(Error::ServerErr)));
    assert!(matches!(state, RegisterState::Finished));
    assert!(is_reply(&action, Reply::ServerError));
}

#[test]
fn registration_inserts_then_starts_a_session() {
    let (state, _) = register_begin(form("Ada@Example.com", "pw", "pw"));
    let (state, action) = register_step(
        state,
        AuthEvent::UserLookedUp(Err(Error::UserErr(UserErrors::UserNotFound))),
    );
    let row = match action {
        AuthAction::InsertUser(row) => row,
        _ => panic!("expected an insertion"),
    };
    assert_eq!(row.name, "Ada");
    assert_eq!(row.email, "ada@example.com");
    assert!(verify_password("pw", &row.password));
    assert_eq!((row.id >> 76) & 0xf, 4);
    assert!(matches!(state, RegisterState::Inserting(id) if id == row.id));
    let (done, action) = register_step(state, AuthEvent::UserInserted(true));
    assert!(matches!(done, RegisterState::Finished));
    assert!(matches!(action, AuthAction::StartSession(id) if id == row.id));
}

#[test]
fn registration_fails_when_the_insert_fails() {
    let (state, action) = register_step(RegisterState::Inserting(7), AuthEvent::UserInserted(false));
    assert!(matches!(state, RegisterState::Finished));
    assert!(is_reply(&action, Reply::ServerError));
}

fn login(email: &str, password: &str) -> Login {
    Login { email: email.to_string(), password: password.to_string() }
}

#[test]
fn login_looks_up_the_email() {
    let (state, action) = login_begin(login("Ada@B.c", "pw"));
    assert!(matches!(state, LoginState::LookingUp(_)));
    assert!(matches!(action, AuthAction::LookUpUser(ref e) if e == "Ada@B.c"));
}

#[test]
fn login_with_the_right_password_starts_a_session() {
    let hash = generate_hash("pw");
    let (state, _) = login_begin(login("a@b.c", "pw"));
    let (state, action) = login_step(state, AuthEvent::UserLookedUp(Ok(user(9, "a@b.c", &hash))));
    assert!(matches!(state, LoginState::Finished));
    assert!(matches!(action, AuthAction::StartSession(9)));
}

#[test]
fn login_failures_look_alike() {
    let hash = generate_hash("pw");
    let (state, _) = login_begin(login("a@b.c", "wrong"));
    let (_, wrong) = login_step(state, AuthEvent::UserLookedUp(Ok(user(9, "a@b.c", &hash))));
    let (state, _) = login_begin(login("x@b.c", "pw"));
    let (_, unknown) = login_step(
        state,
        AuthEvent::UserLookedUp(Err(Error::UserErr(UserErrors::UserNotFound))),
    );
    assert!(is_reply(&wrong, Reply::UserError(UserErrors::InvalidCredentials)));
    assert!(is_reply(&unknown, Reply::UserError(UserErrors::InvalidCredentials)));
}

#[test]
fn login_fails_on_a_lookup_error() {
    let (state, _) = login_begin(login("a@b.c", "pw"));
    let (_, action) = login_step(state, AuthEvent::UserLookedUp(Err(Error::ServerErr)));
    assert!(is_reply(&action, Reply::ServerError));
}

#[test]
fn registered_user_logs_in_with_other_case_email() {
    let (state, _) = register_begin(form("Ada@Example.com", "secret", "secret"));
    let (_, action) = register_step(
        state,
        AuthEvent::UserLookedUp(Err(Error::UserErr(UserErrors::UserNotFound))),
    );
    let row = match action {
        AuthAction::InsertUser(row) => row,
        _ => panic!("expected an insertion"),
    };
    assert_eq!(normalize_email("ADA@example.COM"), row.email);
    let id = row.id;
    let (state, _) = login_begin(login("ADA@example.COM", "secret"));
    let (_, action) = login_step(state, AuthEvent::UserLookedUp(Ok(row)));
    assert!(matches!(action, AuthAction::StartSession(x) if x == id));
}

#[test]
fn ordinary_passwords_are_hashable() {
    assert!(todo_app::credentials::password_is_hashable(""));
    assert!(todo_app::credentials::password_is_hashable("correct horse battery staple"));
}

#[test]
fn stored_emails_are_their_own_lower_case() {
    let (state, _) = register_begin(form("Zoë@Example.ORG", "pw", "pw"));
    let (_, action) = register_step(
        state,
        AuthEvent::UserLookedUp(Err(Error::UserErr(UserErrors::UserNotFound))),
    );
    let row = match action {
        AuthAction::InsertUser(row) => row,
        _ => panic!("expected an insertion"),
    };
    assert_eq!(row.email, "zoë@example.org");
    assert_eq!(normalize_email(&row.email), row.email);
    assert_ne!(normalize_email("other@example.org"), normalize_email(&row.email));
}
