//! The domain model: the `Todo` record and the two request shapes,
//! together with field validation.

use vstd::prelude::*;
use vstd::string::StringExecFns;
use crate::errors::AppError;

verus! {

/// Mathematical image of one stored todo record.
///
/// Timestamps are UTC instants measured in microseconds since the Unix
/// epoch; the identifier is the 128-bit value behind its 32-digit
/// lowercase-hex wire encoding.
pub ghost struct TodoView {
    pub id: u128,
    pub title: Seq<char>,
    pub description: Option<Seq<char>>,
    pub completed: bool,
    pub created_at: int,
    pub updated_at: int,
}

/// The sole managed resource: one todo item as stored and served.
#[derive(Debug)]
pub struct Todo {
    pub id: u128,
    pub title: String,
    pub description: Option<String>,
    pub completed: bool,
    pub created_at: i64,
    pub updated_at: i64,
}

/// The view of an optional text field.
pub open spec fn opt_text_view(o: Option<String>) -> Option<Seq<char>> {
    match o {
        Some(s) => Some(s@),
        None => None,
    }
}

impl View for Todo {
    type V = TodoView;

    open spec fn view(&self) -> TodoView {
        TodoView {
            id: self.id,
            title: self.title@,
            description: opt_text_view(self.description),
            completed: self.completed,
            created_at: self.created_at as int,
            updated_at: self.updated_at as int,
        }
    }
}

impl Clone for Todo {
    fn clone(&self) -> (r: Todo)
        ensures
            r@ == self@,
    {
        Todo {
            id: self.id,
            title: self.title.clone(),
            description: match &self.description {
                Some(s) => Some(s.clone()),
                None => None,
            },
            completed: self.completed,
            created_at: self.created_at,
            updated_at: self.updated_at,
        }
    }
}

/// Body of a creation request: a required title and an optional
/// description. Identity is never supplied by the client.
#[derive(Debug)]
pub struct CreateTodo {
    pub title: String,
    pub description: Option<String>,
}

/// Body of an update request. A missing `title` or `completed` keeps the
/// stored value; `description` always replaces the stored value, absent
/// meaning cleared.
#[derive(Debug)]
pub struct UpdateTodo {
    pub title: Option<String>,
    pub description: Option<String>,
    pub completed: Option<bool>,
}

/// A title passes validation exactly when it has at least one character.
/// No trimming is applied: a whitespace-only title is accepted.
pub open spec fn spec_title_ok(title: Seq<char>) -> bool {
    title.len() > 0
}

/// A creation request is valid exactly when its title is non-empty.
pub open spec fn spec_create_valid(req: &CreateTodo) -> bool {
    spec_title_ok(req.title@)
}

/// An update request is valid exactly when its title, if present, is
/// non-empty; absent fields impose no constraint.
pub open spec fn spec_update_valid(req: &UpdateTodo) -> bool {
    match req.title {
        Some(t) => spec_title_ok(t@),
        None => true,
    }
}

/// The message attached to a failed title validation.
pub open spec fn title_violation_message() -> Seq<char> {
    "Title cannot be empty"@
}

/// Checks a creation request, yielding the validation error on an empty
/// title and nothing otherwise.
pub fn validate_create(req: &CreateTodo) -> (r: Result<(), AppError>)
    ensures
        r is Ok <==> spec_create_valid(req),
        r matches Err(e) ==> (e matches AppError::ValidationError(m) && m@ == title_violation_message()),
{
    if req.title.as_str().is_empty() {
        Err(AppError::ValidationError(String::from_str("Title cannot be empty")))
    } else {
        Ok(())
    }
}

/// Checks an update request, yielding the validation error on a present
/// but empty title and nothing otherwise.
pub fn validate_update(req: &UpdateTodo) -> (r: Result<(), AppError>)
    ensures
        r is Ok <==> spec_update_valid(req),
        r matches Err(e) ==> (e matches AppError::ValidationError(m) && m@ == title_violation_message()),
{
    match &req.title {
        Some(t) => {
            if t.as_str().is_empty() {
                Err(AppError::ValidationError(String::from_str("Title cannot be empty")))
            } else {
                Ok(())
            }
        },
        None => Ok(()),
    }
}

} // verus!
