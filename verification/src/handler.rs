//! What each route answers, given what storage or the identity provider
//! reported. The caller performs the query or the provider call and hands the
//! outcome in.

use vstd::prelude::*;
use vstd::string::*;
use vstd::utf8::*;
use crate::model::{todo_views, Todo, TodoView};
use crate::response::{
    message_view, todo_view, ApiResponse, BodyView, Failure, FailureView, ResponseBody,
    ResponseView, Status, TokenSet, TokenSetView, BAD_REQUEST, CONFLICT, CREATED,
    INTERNAL_SERVER_ERROR, NOT_FOUND, NO_CONTENT, OK,
};
use crate::text::{contains_text, decimal, decimal_text, has_subseq};

verus! {

/// The answer of the health check.
pub open spec fn health_view() -> ResponseView {
    message_view(
        OK as int,
        Status::Success,
        "Simple CRUD API with Rust, SQLX, Postgres, and Axum"@,
    )
}

/// The answer to a listing: every todo, with their count.
pub open spec fn get_todos_view(fetched: Result<Seq<TodoView>, FailureView>) -> ResponseView {
    match fetched {
        Ok(todos) => ResponseView {
            code: OK as int,
            body: BodyView::Todos { results: todos.len(), todos },
        },
        Err(_) => message_view(
            INTERNAL_SERVER_ERROR as int,
            Status::Fail,
            "Something bad happened while fetching all todo items"@,
        ),
    }
}

/// Whether a storage failure reports a violated unique constraint.
pub open spec fn is_duplicate(failure: FailureView) -> bool {
    has_subseq(
        encode_utf8(failure.message),
        encode_utf8("duplicate key value violates unique constraint"@),
    )
}

/// The answer to an insertion: the stored todo, a conflict when storage
/// reports a duplicate, a server error with storage's diagnostic otherwise.
pub open spec fn create_todo_view(inserted: Result<TodoView, FailureView>) -> ResponseView {
    match inserted {
        Ok(todo) => todo_view(CREATED as int, todo),
        Err(failure) => if is_duplicate(failure) {
            message_view(CONFLICT as int, Status::Fail, "Todo with that title already exists"@)
        } else {
            message_view(INTERNAL_SERVER_ERROR as int, Status::Error, failure.detail)
        },
    }
}

/// The message that names a todo that was not found.
pub open spec fn todo_not_found(id: int) -> Seq<char> {
    "Todo with ID: "@ + decimal(id) + " not found"@
}

/// The message that names a todo that could not be deleted.
pub open spec fn note_not_found(id: int) -> Seq<char> {
    "Note with ID: "@ + decimal(id) + " not found"@
}

/// The answer about a todo that storage was asked for by id: the todo with
/// `code` when storage holds it, not found when it holds none of that id, a
/// server error with storage's diagnostic when it failed.
pub open spec fn found_todo_view(
    code: int,
    id: int,
    found: Result<Option<TodoView>, FailureView>,
) -> ResponseView {
    match found {
        Ok(Some(todo)) => todo_view(code, todo),
        Ok(None) => message_view(NOT_FOUND as int, Status::Fail, todo_not_found(id)),
        Err(failure) => message_view(
            INTERNAL_SERVER_ERROR as int,
            Status::Error,
            failure.detail,
        ),
    }
}

/// The answer to a lookup by id.
pub open spec fn get_todo_view(
    id: int,
    found: Result<Option<TodoView>, FailureView>,
) -> ResponseView {
    found_todo_view(OK as int, id, found)
}

/// The answer to an update: the todo as it is stored afterwards.
pub open spec fn update_todo_view(
    id: int,
    updated: Result<Option<TodoView>, FailureView>,
) -> ResponseView {
    found_todo_view(OK as int, id, updated)
}

/// What storage found, as views.
pub open spec fn found_view(found: Result<Option<Todo>, Failure>) -> Result<
    Option<TodoView>,
    FailureView,
> {
    match found {
        Ok(Some(todo)) => Ok(Some(todo@)),
        Ok(None) => Ok(None),
        Err(failure) => Err(failure@),
    }
}

/// The answer to a deletion, given how many rows storage removed: no content
/// when a row went, not found when none did, a server error when storage
/// failed.
pub open spec fn delete_todo_view(id: int, deleted: Result<u64, FailureView>) -> ResponseView {
    match deleted {
        Ok(rows) => if rows == 0 {
            message_view(NOT_FOUND as int, Status::Error, note_not_found(id))
        } else {
            ResponseView { code: NO_CONTENT as int, body: BodyView::Empty }
        },
        Err(failure) => message_view(
            INTERNAL_SERVER_ERROR as int,
            Status::Error,
            failure.detail,
        ),
    }
}

/// The answer to a login: the issued tokens, or a server error with the
/// provider's diagnostic.
pub open spec fn login_view(outcome: Result<TokenSetView, FailureView>) -> ResponseView {
    match outcome {
        Ok(tokens) => ResponseView { code: OK as int, body: BodyView::Tokens { tokens } },
        Err(failure) => message_view(
            INTERNAL_SERVER_ERROR as int,
            Status::Error,
            failure.detail,
        ),
    }
}

/// The answer to a registration, given the provider's confirmation flag: a
/// creation with the message that goes with the flag, or a bad request with
/// the provider's message.
pub open spec fn signup_view(outcome: Result<bool, FailureView>) -> ResponseView {
    match outcome {
        Ok(user_confirmed) => message_view(
            CREATED as int,
            Status::Success,
            if user_confirmed {
                "User requires confirmation. Check email for a verification code."@
            } else {
                "User is confirmed and ready to use."@
            },
        ),
        Err(failure) => message_view(BAD_REQUEST as int, Status::Error, failure.message),
    }
}

/// The answer to a confirmation: success, or a server error with the
/// provider's message.
pub open spec fn confirm_user_view(outcome: Result<(), FailureView>) -> ResponseView {
    match outcome {
        Ok(_) => message_view(OK as int, Status::Success, "User is confirmed and ready to use."@),
        Err(failure) => message_view(
            INTERNAL_SERVER_ERROR as int,
            Status::Error,
            failure.message,
        ),
    }
}

/// Answers a registration with what the provider reported.
pub fn signup(outcome: Result<bool, Failure>) -> (response: ApiResponse)
    ensures
        response@ == signup_view(
            match outcome {
                Ok(user_confirmed) => Ok(user_confirmed),
                Err(failure) => Err(failure@),
            },
        ),
{
    match outcome {
        Ok(user_confirmed) => {
            if user_confirmed {
                ApiResponse::fixed(
                    CREATED,
                    Status::Success,
                    "User requires confirmation. Check email for a verification code.",
                )
            } else {
                ApiResponse::fixed(CREATED, Status::Success, "User is confirmed and ready to use.")
            }
        },
        Err(failure) => ApiResponse::message(BAD_REQUEST, Status::Error, failure.message),
    }
}

/// Answers a login with what the provider reported.
pub fn login(outcome: Result<TokenSet, Failure>) -> (response: ApiResponse)
    ensures
        response@ == login_view(
            match outcome {
                Ok(tokens) => Ok(tokens@),
                Err(failure) => Err(failure@),
            },
        ),
{
    match outcome {
        Ok(tokens) => ApiResponse { code: OK, body: ResponseBody::Tokens { tokens } },
        Err(failure) => ApiResponse::message(INTERNAL_SERVER_ERROR, Status::Error, failure.detail),
    }
}

/// Answers an insertion with what storage reported.
pub fn create_todo(inserted: Result<Todo, Failure>) -> (response: ApiResponse)
    ensures
        response@ == create_todo_view(
            match inserted {
                Ok(todo) => Ok(todo@),
                Err(failure) => Err(failure@),
            },
        ),
{
    match inserted {
        Ok(todo) => ApiResponse::todo(CREATED, todo),
        Err(failure) => {
            if contains_text(
                failure.message.as_str(),
                "duplicate key value violates unique constraint",
            ) {
                ApiResponse::fixed(CONFLICT, Status::Fail, "Todo with that title already exists")
            } else {
                ApiResponse::message(INTERNAL_SERVER_ERROR, Status::Error, failure.detail)
            }
        },
    }
}

/// Answers a confirmation with what the provider reported.
pub fn confirm_user(outcome: Result<(), Failure>) -> (response: ApiResponse)
    ensures
        response@ == confirm_user_view(
            match outcome {
                Ok(_) => Ok(()),
                Err(failure) => Err(failure@),
            },
        ),
{
    match outcome {
        Ok(_) => ApiResponse::fixed(OK, Status::Success, "User is confirmed and ready to use."),
        Err(failure) => ApiResponse::message(
            INTERNAL_SERVER_ERROR,
            Status::Error,
            failure.message,
        ),
    }
}

fn not_found(id: i32) -> (response: ApiResponse)
    ensures
        response@ == message_view(NOT_FOUND as int, Status::Fail, todo_not_found(id as int)),
{
    let mut message = String::from_str("Todo with ID: ");
    message.append(decimal_text(id).as_str());
    message.append(" not found");
    ApiResponse::message(NOT_FOUND, Status::Fail, message)
}

fn found_todo(id: i32, found: Result<Option<Todo>, Failure>) -> (response: ApiResponse)
    ensures
        response@ == found_todo_view(OK as int, id as int, found_view(found)),
{
    match found {
        Ok(Some(todo)) => ApiResponse::todo(OK, todo),
        Ok(None) => not_found(id),
        Err(failure) => ApiResponse::message(INTERNAL_SERVER_ERROR, Status::Error, failure.detail),
    }
}

/// Answers an update of the todo `id` with what storage reported: the todo as
/// stored, or `None` when storage holds no todo of that id.
pub fn update_todo(id: i32, updated: Result<Option<Todo>, Failure>) -> (response: ApiResponse)
    ensures
        response@ == update_todo_view(id as int, found_view(updated)),
{
    found_todo(id, updated)
}

/// Answers a lookup of the todo `id` with what storage reported: the todo, or
/// `None` when storage holds no todo of that id.
pub fn get_todo(id: i32, found: Result<Option<Todo>, Failure>) -> (response: ApiResponse)
    ensures
        response@ == get_todo_view(id as int, found_view(found)),
{
    found_todo(id, found)
}

/// Answers a listing with what storage reported.
pub fn get_todos(fetched: Result<Vec<Todo>, Failure>) -> (response: ApiResponse)
    ensures
        response@ == get_todos_view(
            match fetched {
                Ok(todos) => Ok(todo_views(todos@)),
                Err(failure) => Err(failure@),
            },
        ),
{
    match fetched {
        Ok(todos) => ApiResponse {
            code: OK,
            body: ResponseBody::Todos { results: todos.len(), todos },
        },
        Err(_) => ApiResponse::fixed(
            INTERNAL_SERVER_ERROR,
            Status::Fail,
            "Something bad happened while fetching all todo items",
        ),
    }
}

/// Answers a deletion with the number of rows storage removed.
pub fn delete_todo(id: i32, deleted: Result<u64, Failure>) -> (response: ApiResponse)
    ensures
        response@ == delete_todo_view(
            id as int,
            match deleted {
                Ok(rows) => Ok(rows),
                Err(failure) => Err(failure@),
            },
        ),
{
    match deleted {
        Ok(rows) => {
            if rows == 0 {
                let mut message = String::from_str("Note with ID: ");
                message.append(decimal_text(id).as_str());
                message.append(" not found");
                ApiResponse::message(NOT_FOUND, Status::Error, message)
            } else {
                ApiResponse { code: NO_CONTENT, body: ResponseBody::Empty }
            }
        },
        Err(failure) => ApiResponse::message(INTERNAL_SERVER_ERROR, Status::Error, failure.detail),
    }
}

/// Answers the health check.
pub fn health_checker_handler() -> (response: ApiResponse)
    ensures
        response@ == health_view(),
{
    ApiResponse::fixed(
        OK,
        Status::Success,
        "Simple CRUD API with Rust, SQLX, Postgres, and Axum",
    )
}

} // verus!
