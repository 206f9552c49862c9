//! Registration and login. Each is a small state machine: the server feeds
//! in the outcome of the last database action and performs the next action
//! that comes back, until a session is to be started or an answer is given.
use vstd::prelude::*;
use crate::errors::UserErrors;
use crate::models::{User, RegisterUser, Login};
use crate::credentials::{password_verifies, lowercase, hashable, generate_hash, verify_password,
    is_argon2id_phc, argon2id_hash_prefix};
use crate::ids::{is_random_uuid, new_uuid};

verus! {

/// Why looking up a user gave no user.
#[derive(Clone, Copy, Debug, PartialEq, Eq, Structural)]
pub enum Error {
    UserErr(UserErrors),
    ServerErr,
}

/// A query of the database that failed.
#[derive(Clone, Copy, Debug, PartialEq, Eq, Structural)]
pub struct DatabaseError;

/// The answer to a registration or login that does not start a session.
#[derive(Clone, Copy, Debug, PartialEq, Eq, Structural)]
pub enum Reply {
    UserError(UserErrors),
    ServerError,
}

/// What the server is to do next for a registration or login.
pub enum AuthAction {
    /// Look up the account of this e-mail address (see `user_lookup`).
    LookUpUser(String),
    /// Insert this row into the users table.
    InsertUser(User),
    /// Start a session for this user and answer with its cookie.
    StartSession(u128),
    /// Answer with this error.
    Respond(Reply),
}

/// What the server reports back after an action.
pub enum AuthEvent {
    UserLookedUp(Result<User, Error>),
    /// Whether inserting the user succeeded.
    UserInserted(bool),
}

/// The result of looking up a user by e-mail address: the row, when the
/// query found one; `UserNotFound` when it found none; a server error when
/// the query failed.
pub fn user_lookup(found: Result<Option<User>, DatabaseError>) -> (user: Result<User, Error>)
    ensures
        match found {
            Ok(Some(row)) => user == Ok::<User, Error>(row),
            Ok(None) => user == Err::<User, Error>(Error::UserErr(UserErrors::UserNotFound)),
            Err(_) => user == Err::<User, Error>(Error::ServerErr),
        },
{
    match found {
        Ok(Some(row)) => Ok(row),
        Ok(None) => Err(Error::UserErr(UserErrors::UserNotFound)),
        Err(_) => Err(Error::ServerErr),
    }
}

/// Progress of a registration.
pub enum RegisterState {
    /// Waiting for the lookup of the form's e-mail address.
    LookingUp(RegisterUser),
    /// Waiting for the insertion of the user with this id.
    Inserting(u128),
    Finished,
}

/// The row that a registration inserts for its form: a fresh random id, the
/// name, the lower-cased e-mail address, and an Argon2id hash that the
/// password verifies against.
pub open spec fn registered_row(form: RegisterUser, row: User) -> bool {
    &&& is_random_uuid(row.id)
    &&& row.name@ == form.name@
    &&& row.email@ == lowercase(form.email@)
    &&& password_verifies(form.password@, row.password@)
    &&& is_argon2id_phc(row.password@)
}

/// The events that a registration in `state` waits for; a registration
/// that goes on to hash its password needs one that Argon2 accepts.
pub open spec fn register_expects(state: RegisterState, event: AuthEvent) -> bool {
    match (state, event) {
        (RegisterState::LookingUp(form), AuthEvent::UserLookedUp(found)) => match found {
            Err(Error::UserErr(_)) => hashable(form.password@),
            _ => true,
        },
        (RegisterState::Inserting(_), AuthEvent::UserInserted(_)) => true,
        _ => false,
    }
}

/// Starts a registration: a form whose two passwords differ is refused at
/// once; otherwise its e-mail address is looked up.
pub fn register_begin(form: RegisterUser) -> (next: (RegisterState, AuthAction))
    ensures
        form.password@ != form.confirm_password@ ==> next.0 is Finished && next.1 == AuthAction::Respond(
            Reply::UserError(UserErrors::PasswordsDontMatch),
        ),
        form.password@ == form.confirm_password@ ==> (next.0 == RegisterState::LookingUp(form)
            && (next.1 matches AuthAction::LookUpUser(email) && email@ == form.email@)),
{
    if !(form.password == form.confirm_password) {
        return (RegisterState::Finished, AuthAction::Respond(Reply::UserError(UserErrors::PasswordsDontMatch)));
    }
    let email = form.email.clone();
    (RegisterState::LookingUp(form), AuthAction::LookUpUser(email))
}

/// Advances a registration: an existing account refuses it, a failed
/// lookup is a server error, and a missing account leads to inserting a new
/// row; a successful insertion starts a session for the new user, a failed
/// one is a server error.
pub fn register_step(state: RegisterState, event: AuthEvent) -> (next: (RegisterState, AuthAction))
    requires
        register_expects(state, event),
    ensures
        match (state, event) {
            (RegisterState::LookingUp(form), AuthEvent::UserLookedUp(found)) => match found {
                Ok(_) => next.0 is Finished && next.1 == AuthAction::Respond(
                    Reply::UserError(UserErrors::UserAlreadyExists),
                ),
                Err(Error::ServerErr) => next.0 is Finished && next.1 == AuthAction::Respond(
                    Reply::ServerError,
                ),
                Err(Error::UserErr(_)) => (next.1 matches AuthAction::InsertUser(row) && next.0
                    == RegisterState::Inserting(row.id) && registered_row(form, row)),
            },
            (RegisterState::Inserting(id), AuthEvent::UserInserted(inserted)) => next.0 is Finished
                && next.1 == (if inserted {
                AuthAction::StartSession(id)
            } else {
                AuthAction::Respond(Reply::ServerError)
            }),
            _ => false,
        },
{
    match state {
        RegisterState::LookingUp(form) => match event {
            AuthEvent::UserLookedUp(found) => match found {
                Ok(_) => (
                    RegisterState::Finished,
                    AuthAction::Respond(Reply::UserError(UserErrors::UserAlreadyExists)),
                ),
                Err(Error::ServerErr) => (
                    RegisterState::Finished,
                    AuthAction::Respond(Reply::ServerError),
                ),
                Err(Error::UserErr(_)) => {
                    let id = new_uuid();
                    let email = crate::credentials::normalize_email(form.email.as_str());
                    let password = generate_hash(form.password.as_str());
                    let row = User { id, name: form.name, email, password };
                    (RegisterState::Inserting(id), AuthAction::InsertUser(row))
                },
            },
            AuthEvent::UserInserted(_) => (
                RegisterState::Finished,
                AuthAction::Respond(Reply::ServerError),
            ),
        },
        RegisterState::Inserting(id) => match event {
            AuthEvent::UserInserted(inserted) => {
                if inserted {
                    (RegisterState::Finished, AuthAction::StartSession(id))
                } else {
                    (RegisterState::Finished, AuthAction::Respond(Reply::ServerError))
                }
            },
            AuthEvent::UserLookedUp(_) => (
                RegisterState::Finished,
                AuthAction::Respond(Reply::ServerError),
            ),
        },
        RegisterState::Finished => (
            RegisterState::Finished,
            AuthAction::Respond(Reply::ServerError),
        ),
    }
}

/// Progress of a login.
pub enum LoginState {
    /// Waiting for the lookup of the form's e-mail address.
    LookingUp(Login),
    Finished,
}

/// Starts a login: the form's e-mail address is looked up.
pub fn login_begin(form: Login) -> (next: (LoginState, AuthAction))
    ensures
        next.0 == LoginState::LookingUp(form),
        (next.1 matches AuthAction::LookUpUser(email) && email@ == form.email@),
{
    let email = form.email.clone();
    (LoginState::LookingUp(form), AuthAction::LookUpUser(email))
}

/// How a login ends after its lookup: a session for a found user whose hash
/// the password verifies; a server error when the lookup failed; and
/// otherwise (no such user, or a wrong password) the same answer, invalid
/// credentials.
pub open spec fn login_outcome(found: Result<User, Error>, password: Seq<char>) -> AuthAction {
    match found {
        Ok(user) => if password_verifies(password, user.password@) {
            AuthAction::StartSession(user.id)
        } else {
            AuthAction::Respond(Reply::UserError(UserErrors::InvalidCredentials))
        },
        Err(Error::ServerErr) => AuthAction::Respond(Reply::ServerError),
        Err(Error::UserErr(_)) => AuthAction::Respond(
            Reply::UserError(UserErrors::InvalidCredentials),
        ),
    }
}

/// Finishes a login with the result of its lookup.
pub fn login_step(state: LoginState, event: AuthEvent) -> (next: (LoginState, AuthAction))
    requires
        state is LookingUp,
        event is UserLookedUp,
    ensures
        next.0 is Finished,
        match (state, event) {
            (LoginState::LookingUp(form), AuthEvent::UserLookedUp(found)) => next.1
                == login_outcome(found, form.password@),
            _ => false,
        },
{
    match state {
        LoginState::LookingUp(form) => match event {
            AuthEvent::UserLookedUp(found) => match found {
                Ok(user) => {
                    if verify_password(form.password.as_str(), user.password.as_str()) {
                        (LoginState::Finished, AuthAction::StartSession(user.id))
                    } else {
                        (
                            LoginState::Finished,
                            AuthAction::Respond(Reply::UserError(UserErrors::InvalidCredentials)),
                        )
                    }
                },
                Err(Error::ServerErr) => (
                    LoginState::Finished,
                    AuthAction::Respond(Reply::ServerError),
                ),
                Err(Error::UserErr(_)) => (
                    LoginState::Finished,
                    AuthAction::Respond(Reply::UserError(UserErrors::InvalidCredentials)),
                ),
            },
            AuthEvent::UserInserted(_) => (
                LoginState::Finished,
                AuthAction::Respond(Reply::ServerError),
            ),
        },
        LoginState::Finished => (LoginState::Finished, AuthAction::Respond(Reply::ServerError)),
    }
}

/// A user who registered can log in with the same password and an e-mail
/// address that differs at most in case: the login looks up the key under
/// which the account was stored, and finding that row starts a session for
/// it.
pub proof fn law_registered_user_logs_in(form: RegisterUser, row: User, login: Login)
    requires
        registered_row(form, row),
        login.password@ == form.password@,
        lowercase(login.email@) == lowercase(form.email@),
    ensures
        lowercase(login.email@) == row.email@,
        login_outcome(Ok(row), login.password@) == AuthAction::StartSession(row.id),
{
}

/// A registration stores a hash, not the password: the stored value is an
/// Argon2id PHC string, so it differs from every password that is not
/// itself such a string.
pub proof fn law_registration_stores_a_hash(form: RegisterUser, row: User)
    requires
        registered_row(form, row),
        !is_argon2id_phc(form.password@),
    ensures
        row.password@ != form.password@,
        row.password@.take(argon2id_hash_prefix().len() as int) == argon2id_hash_prefix(),
{
}

/// Registration keeps the stored e-mail addresses unique: it inserts only
/// after the lookup of the lower-cased address found no row, and it stores
/// exactly that lower-cased address, so a column without repeats stays
/// without repeats and grows by one.
pub proof fn law_registration_keeps_emails_unique(
    emails: Seq<Seq<char>>,
    form: RegisterUser,
    row: User,
)
    requires
        emails.no_duplicates(),
        !emails.contains(lowercase(form.email@)),
        registered_row(form, row),
    ensures
        emails.push(row.email@).no_duplicates(),
        emails.push(row.email@).len() == emails.len() + 1,
{
    let grown = emails.push(row.email@);
    assert forall|i: int, j: int| 0 <= i < grown.len() && 0 <= j < grown.len() && i != j implies grown[i]
        != grown[j] by {
        if i < emails.len() && j < emails.len() {
        } else if i < emails.len() {
            assert(grown[i] == emails[i]);
            assert(emails.contains(grown[i]));
        } else {
            assert(grown[j] == emails[j]);
            assert(emails.contains(grown[j]));
        }
    }
}

/// Registration keeps the lower-case forms of the stored e-mail addresses
/// unique, where every stored address is its own lower-case form and the
/// new address's lower-case form is its own lower-case form (the only
/// inputs on which the claim holds: std does not promise that lower-casing
/// is idempotent, and a stored address that is not lower-case breaks it).
pub proof fn law_registration_keeps_lowercase_emails_unique(
    emails: Seq<Seq<char>>,
    form: RegisterUser,
    row: User,
)
    requires
        emails.map_values(|e: Seq<char>| lowercase(e)).no_duplicates(),
        forall|i: int| 0 <= i < emails.len() ==> lowercase(#[trigger] emails[i]) == emails[i],
        lowercase(lowercase(form.email@)) == lowercase(form.email@),
        !emails.contains(lowercase(form.email@)),
        registered_row(form, row),
    ensures
        emails.push(row.email@).map_values(|e: Seq<char>| lowercase(e)).no_duplicates(),
        emails.push(row.email@).len() == emails.len() + 1,
{
    let lowered = emails.map_values(|e: Seq<char>| lowercase(e));
    assert(lowered =~= emails) by {
        assert forall|i: int| 0 <= i < emails.len() implies lowered[i] == emails[i] by {
            assert(lowercase(emails[i]) == emails[i]);
        }
    }
    law_registration_keeps_emails_unique(emails, form, row);
    let grown = emails.push(row.email@);
    assert(grown.map_values(|e: Seq<char>| lowercase(e)) =~= grown) by {
        assert forall|i: int| 0 <= i < grown.len() implies lowercase(grown[i]) == grown[i] by {
            if i < emails.len() {
                assert(grown[i] == emails[i]);
                assert(lowercase(emails[i]) == emails[i]);
            }
        }
    }
}

/// A failed login does not tell whether the account exists: an unknown
/// e-mail address and a wrong password get the same answer.
pub proof fn law_login_failure_is_uniform(row: User, password: Seq<char>, missing: UserErrors)
    requires
        !password_verifies(password, row.password@),
    ensures
        login_outcome(Ok(row), password) == login_outcome(Err(Error::UserErr(missing)), password),
        login_outcome(Ok(row), password) == AuthAction::Respond(
            Reply::UserError(UserErrors::InvalidCredentials),
        ),
{
}

} // verus!
