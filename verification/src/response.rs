//! What a handler answers: a status code and the content of the JSON body.

use vstd::prelude::*;
use vstd::string::*;
use crate::model::{todo_views, Todo, TodoView};

verus! {

pub const OK: u16 = 200;

pub const CREATED: u16 = 201;

pub const NO_CONTENT: u16 = 204;

pub const BAD_REQUEST: u16 = 400;

pub const UNAUTHORIZED: u16 = 401;

pub const NOT_FOUND: u16 = 404;

pub const CONFLICT: u16 = 409;

pub const INTERNAL_SERVER_ERROR: u16 = 500;

/// The `status` member of a body.
#[derive(Debug, Clone, Copy, PartialEq, Eq, Structural)]
pub enum Status {
    Success,
    Fail,
    Error,
}

/// What a collaborator reported when it failed: its message, and the longer
/// diagnostic rendering of the same error.
#[derive(Debug, Clone, PartialEq, Eq)]
pub struct Failure {
    pub message: String,
    pub detail: String,
}

/// What a `Failure` is, mathematically.
pub struct FailureView {
    pub message: Seq<char>,
    pub detail: Seq<char>,
}

impl View for Failure {
    type V = FailureView;

    open spec fn view(&self) -> FailureView {
        FailureView { message: self.message@, detail: self.detail@ }
    }
}

/// The tokens the identity provider issues at login.
#[derive(Debug, Clone, PartialEq, Eq)]
pub struct TokenSet {
    pub access_token: String,
    pub id_token: String,
    pub refresh_token: String,
}

/// What a `TokenSet` is, mathematically.
pub struct TokenSetView {
    pub access_token: Seq<char>,
    pub id_token: Seq<char>,
    pub refresh_token: Seq<char>,
}

impl View for TokenSet {
    type V = TokenSetView;

    open spec fn view(&self) -> TokenSetView {
        TokenSetView {
            access_token: self.access_token@,
            id_token: self.id_token@,
            refresh_token: self.refresh_token@,
        }
    }
}

/// The content of a response body.
#[derive(Debug, Clone, PartialEq, Eq)]
pub enum ResponseBody {
    /// No body at all.
    Empty,
    /// `{"status": .., "message": ..}`
    Message { status: Status, message: String },
    /// `{"status": "success", "results": .., "todos": [..]}`
    Todos { results: usize, todos: Vec<Todo> },
    /// `{"status": "success", "data": {"todo": ..}}`
    Todo { todo: Todo },
    /// `{"status": "success", "data": {"access_token": .., "id_token": .., "refresh_token": ..}}`
    Tokens { tokens: TokenSet },
}

/// What a `ResponseBody` is, mathematically.
pub enum BodyView {
    Empty,
    Message { status: Status, message: Seq<char> },
    Todos { results: nat, todos: Seq<TodoView> },
    Todo { todo: TodoView },
    Tokens { tokens: TokenSetView },
}

impl View for ResponseBody {
    type V = BodyView;

    open spec fn view(&self) -> BodyView {
        match *self {
            ResponseBody::Empty => BodyView::Empty,
            ResponseBody::Message { status, message } => BodyView::Message {
                status,
                message: message@,
            },
            ResponseBody::Todos { results, todos } => BodyView::Todos {
                results: results as nat,
                todos: todo_views(todos@),
            },
            ResponseBody::Todo { todo } => BodyView::Todo { todo: todo@ },
            ResponseBody::Tokens { tokens } => BodyView::Tokens { tokens: tokens@ },
        }
    }
}

/// A handler's answer.
#[derive(Debug, Clone, PartialEq, Eq)]
pub struct ApiResponse {
    pub code: u16,
    pub body: ResponseBody,
}

/// What an `ApiResponse` is, mathematically.
pub struct ResponseView {
    pub code: int,
    pub body: BodyView,
}

impl View for ApiResponse {
    type V = ResponseView;

    open spec fn view(&self) -> ResponseView {
        ResponseView { code: self.code as int, body: self.body@ }
    }
}

/// The answer that carries a status word and a message.
pub open spec fn message_view(code: int, status: Status, message: Seq<char>) -> ResponseView {
    ResponseView { code, body: BodyView::Message { status, message } }
}

/// The answer that carries one todo.
pub open spec fn todo_view(code: int, todo: TodoView) -> ResponseView {
    ResponseView { code, body: BodyView::Todo { todo } }
}

impl ApiResponse {
    /// An answer with a status word and a message.
    pub fn message(code: u16, status: Status, message: String) -> (response: ApiResponse)
        ensures
            response@ == message_view(code as int, status, message@),
    {
        ApiResponse { code, body: ResponseBody::Message { status, message } }
    }

    /// An answer with a status word and a fixed message.
    pub fn fixed(code: u16, status: Status, message: &str) -> (response: ApiResponse)
        ensures
            response@ == message_view(code as int, status, message@),
    {
        ApiResponse::message(code, status, String::from_str(message))
    }

    /// An answer that carries one todo.
    pub fn todo(code: u16, todo: Todo) -> (response: ApiResponse)
        ensures
            response@ == todo_view(code as int, todo@),
    {
        ApiResponse { code, body: ResponseBody::Todo { todo } }
    }
}

} // verus!
