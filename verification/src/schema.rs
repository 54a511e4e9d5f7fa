//! Request bodies as the routes receive them.

use vstd::prelude::*;

verus! {

/// Body of a request that creates a todo.
#[derive(Debug, Clone, PartialEq, Eq)]
pub struct CreateTodoSchema {
    pub task: String,
    pub completed: bool,
}

/// Body of a request that updates a todo.
#[derive(Debug, Clone, PartialEq, Eq)]
pub struct UpdateTodoSchema {
    pub task: String,
    pub completed: bool,
}

/// Body of a registration request.
#[derive(Debug, Clone, PartialEq, Eq)]
pub struct SignupSchema {
    pub username: String,
    pub email: String,
    pub password: String,
}

/// Body of a request that confirms a registration.
#[derive(Debug, Clone, PartialEq, Eq)]
pub struct ConfirmUserSchema {
    pub username: String,
    pub confirmation_code: String,
}

/// Body of a login request.
#[derive(Debug, Clone, PartialEq, Eq)]
pub struct LoginSchema {
    pub username: String,
    pub password: String,
}

} // verus!
