//! The todo item and the identity of an authenticated caller.

use vstd::prelude::*;

verus! {

/// One todo item as storage holds it.
#[derive(Debug, Clone, PartialEq, Eq)]
pub struct Todo {
    pub id: i32,
    pub task: String,
    pub completed: bool,
}

/// What a `Todo` is, mathematically.
pub struct TodoView {
    pub id: int,
    pub task: Seq<char>,
    pub completed: bool,
}

impl View for Todo {
    type V = TodoView;

    open spec fn view(&self) -> TodoView {
        TodoView { id: self.id as int, task: self.task@, completed: self.completed }
    }
}

/// The views of a list of todos, in order.
pub open spec fn todo_views(todos: Seq<Todo>) -> Seq<TodoView> {
    todos.map_values(|todo: Todo| todo@)
}

/// The identity a verified token yields. It lives for one request only.
#[derive(Debug, Clone, PartialEq, Eq)]
pub struct CurrentUser {
    pub username: String,
}

/// What a `CurrentUser` is, mathematically.
pub struct CurrentUserView {
    pub username: Seq<char>,
}

impl View for CurrentUser {
    type V = CurrentUserView;

    open spec fn view(&self) -> CurrentUserView {
        CurrentUserView { username: self.username@ }
    }
}

} // verus!
