//! What can go wrong with an action, and where in the request.

use crate::path::path_copy;
use crate::path::path_items;
use crate::path::path_same;
use crate::path::Segment;
use crate::text::pairs_same;
use crate::text::pairs_view;
use crate::value::Value;
use crate::value::ValueView;
use key_path::KeyPath;
use vstd::prelude::*;

verus! {

/// The closed set of errors that an action reports.
#[derive(Debug, PartialEq)]
pub enum ActionError {
    /// The body of a request is not of the expected JSON type.
    UnexpectedInputRootType(String),
    /// The value at the path is not of the expected JSON type.
    UnexpectedInputType(String, KeyPath),
    /// The value at the path has the right type and is not accepted.
    UnexpectedInputValue(String, KeyPath),
    /// The key, found at the path, is not accepted there.
    UnexpectedInputKey(String, KeyPath),
    /// The object at the path must have this many members.
    UnexpectedObjectLength(usize, KeyPath),
    /// A required value is missing at the path.
    MissingRequiredInput(KeyPath),
    /// Values were refused: each entry holds a path and the reason.
    ValidationError(Vec<(String, String)>),
    /// The caller may not do this to the value at the path.
    PermissionDenied(String, KeyPath),
    /// No object of this model matches.
    NotFound(String),
    /// A unique index, named by its field, already holds the value at the path.
    UniqueConstraintViolation(String, KeyPath),
    /// The object was deleted and can no longer change.
    ObjectIsDeleted,
    InternalServerError(String),
    /// An error of the storage connector, handed on as it came.
    ConnectorError(String),
}

/// What an `ActionError` is, for contracts.
pub ghost enum ErrorView {
    UnexpectedInputRootType(Seq<char>),
    UnexpectedInputType(Seq<char>, Seq<Segment>),
    UnexpectedInputValue(Seq<char>, Seq<Segment>),
    UnexpectedInputKey(Seq<char>, Seq<Segment>),
    UnexpectedObjectLength(nat, Seq<Segment>),
    MissingRequiredInput(Seq<Segment>),
    ValidationError(Seq<(Seq<char>, Seq<char>)>),
    PermissionDenied(Seq<char>, Seq<Segment>),
    NotFound(Seq<char>),
    UniqueConstraintViolation(Seq<char>, Seq<Segment>),
    ObjectIsDeleted,
    InternalServerError(Seq<char>),
    ConnectorError(Seq<char>),
}

impl View for ActionError {
    type V = ErrorView;

    open spec fn view(&self) -> ErrorView {
        match self {
            ActionError::UnexpectedInputRootType(e) => ErrorView::UnexpectedInputRootType(e@),
            ActionError::UnexpectedInputType(e, p) => ErrorView::UnexpectedInputType(
                e@,
                path_items(*p),
            ),
            ActionError::UnexpectedInputValue(e, p) => ErrorView::UnexpectedInputValue(
                e@,
                path_items(*p),
            ),
            ActionError::UnexpectedInputKey(k, p) => ErrorView::UnexpectedInputKey(
                k@,
                path_items(*p),
            ),
            ActionError::UnexpectedObjectLength(n, p) => ErrorView::UnexpectedObjectLength(
                *n as nat,
                path_items(*p),
            ),
            ActionError::MissingRequiredInput(p) => ErrorView::MissingRequiredInput(path_items(*p)),
            ActionError::ValidationError(f) => ErrorView::ValidationError(pairs_view(f@)),
            ActionError::PermissionDenied(r, p) => ErrorView::PermissionDenied(r@, path_items(*p)),
            ActionError::NotFound(m) => ErrorView::NotFound(m@),
            ActionError::UniqueConstraintViolation(i, p) => ErrorView::UniqueConstraintViolation(
                i@,
                path_items(*p),
            ),
            ActionError::ObjectIsDeleted => ErrorView::ObjectIsDeleted,
            ActionError::InternalServerError(r) => ErrorView::InternalServerError(r@),
            ActionError::ConnectorError(r) => ErrorView::ConnectorError(r@),
        }
    }
}

/// What a decoder returned, for contracts.
pub open spec fn outcome(r: Result<Value, ActionError>) -> Result<ValueView, ErrorView> {
    match r {
        Ok(v) => Ok(v@),
        Err(e) => Err(e@),
    }
}

impl ActionError {
    pub fn unexpected_input_root_type(expected: &str) -> (e: ActionError)
        ensures
            e@ == ErrorView::UnexpectedInputRootType(expected@),
    {
        ActionError::UnexpectedInputRootType(expected.to_owned())
    }

    pub fn unexpected_input_type(expected: &str, path: &KeyPath) -> (e: ActionError)
        ensures
            e@ == ErrorView::UnexpectedInputType(expected@, path_items(*path)),
    {
        ActionError::UnexpectedInputType(expected.to_owned(), path_copy(path))
    }

    pub fn unexpected_input_value(reason: &str, path: &KeyPath) -> (e: ActionError)
        ensures
            e@ == ErrorView::UnexpectedInputValue(reason@, path_items(*path)),
    {
        ActionError::UnexpectedInputValue(reason.to_owned(), path_copy(path))
    }

    pub fn unexpected_input_key(key: &str, path: &KeyPath) -> (e: ActionError)
        ensures
            e@ == ErrorView::UnexpectedInputKey(key@, path_items(*path)),
    {
        ActionError::UnexpectedInputKey(key.to_owned(), path_copy(path))
    }

    pub fn unexpected_object_length(expected: usize, path: &KeyPath) -> (e: ActionError)
        ensures
            e@ == ErrorView::UnexpectedObjectLength(expected as nat, path_items(*path)),
    {
        ActionError::UnexpectedObjectLength(expected, path_copy(path))
    }

    pub fn missing_required_input(path: &KeyPath) -> (e: ActionError)
        ensures
            e@ == ErrorView::MissingRequiredInput(path_items(*path)),
    {
        ActionError::MissingRequiredInput(path_copy(path))
    }

    pub fn permission_denied(reason: &str, path: &KeyPath) -> (e: ActionError)
        ensures
            e@ == ErrorView::PermissionDenied(reason@, path_items(*path)),
    {
        ActionError::PermissionDenied(reason.to_owned(), path_copy(path))
    }

    /// Whether two errors are of one kind and say the same.
    pub fn same(&self, other: &ActionError) -> (r: bool)
        ensures
            r == (self@ == other@),
    {
        match (self, other) {
            (
                ActionError::UnexpectedInputRootType(a),
                ActionError::UnexpectedInputRootType(b),
            ) => *a == *b,
            (ActionError::UnexpectedInputType(a, p), ActionError::UnexpectedInputType(b, q)) => *a
                == *b && path_same(p, q),
            (ActionError::UnexpectedInputValue(a, p), ActionError::UnexpectedInputValue(b, q)) => *a
                == *b && path_same(p, q),
            (ActionError::UnexpectedInputKey(a, p), ActionError::UnexpectedInputKey(b, q)) => *a
                == *b && path_same(p, q),
            (
                ActionError::UnexpectedObjectLength(a, p),
                ActionError::UnexpectedObjectLength(b, q),
            ) => *a == *b && path_same(p, q),
            (ActionError::MissingRequiredInput(p), ActionError::MissingRequiredInput(q)) => path_same(
                p,
                q,
            ),
            (ActionError::ValidationError(a), ActionError::ValidationError(b)) => pairs_same(a, b),
            (ActionError::PermissionDenied(a, p), ActionError::PermissionDenied(b, q)) => *a == *b
                && path_same(p, q),
            (ActionError::NotFound(a), ActionError::NotFound(b)) => *a == *b,
            (
                ActionError::UniqueConstraintViolation(a, p),
                ActionError::UniqueConstraintViolation(b, q),
            ) => *a == *b && path_same(p, q),
            (ActionError::ObjectIsDeleted, ActionError::ObjectIsDeleted) => true,
            (ActionError::InternalServerError(a), ActionError::InternalServerError(b)) => *a == *b,
            (ActionError::ConnectorError(a), ActionError::ConnectorError(b)) => *a == *b,
            _ => false,
        }
    }
}

} // verus!
