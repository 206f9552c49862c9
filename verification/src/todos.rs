//! Todo items.
use vstd::prelude::*;
use crate::models::Todo;
use crate::ids::{is_random_uuid, new_uuid};

verus! {

/// The item that a new task becomes: a fresh random id, the task as given,
/// not completed.
pub fn new_todo(task: String) -> (todo: Todo)
    ensures
        is_random_uuid(todo.id),
        todo.task@ == task@,
        !todo.completed,
{
    Todo { id: new_uuid(), task, completed: false }
}

} // verus!
