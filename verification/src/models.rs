//! The records the service reads, writes and renders. Identifiers are the
//! 128-bit values of UUIDs (`Uuid::as_u128`).
use vstd::prelude::*;

verus! {

/// A row of the users table; `password` holds the password hash.
pub struct User {
    pub id: u128,
    pub name: String,
    pub email: String,
    pub password: String,
}

/// The user on whose behalf a request runs, as the session cookie proves.
#[derive(Clone)]
pub struct AuthUser {
    pub id: u128,
    pub name: String,
}

/// The registration page (rendered from its template).
pub struct RegisterPage {}

/// The login page (rendered from its template).
pub struct LoginPage {}

/// The registration form.
pub struct RegisterUser {
    pub name: String,
    pub email: String,
    pub password: String,
    pub confirm_password: String,
}

/// The login form.
pub struct Login {
    pub email: String,
    pub password: String,
}

/// The form that creates a todo item.
pub struct CreateTodo {
    pub task: String,
}

/// A todo item of a user.
pub struct Todo {
    pub id: u128,
    pub task: String,
    pub completed: bool,
}

/// The fragment that shows one todo item.
pub struct CreateTodoResponse {
    pub todo: Todo,
}

/// The main page: the todo items of the user.
pub struct Index {
    pub todos: Vec<Todo>,
}

} // verus!
