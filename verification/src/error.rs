//! The closed set of errors that every store operation reports.

use vstd::prelude::*;
use vstd::string::*;

verus! {

/// What a store operation reports when it does not succeed.
#[derive(Debug, PartialEq, Eq)]
pub enum Error {
    /// A read, update or delete named a row that does not exist: the table's
    /// name and the identity in decimal notation.
    EntityNotFound(&'static str, String),
    /// The storage refused or failed a statement, for the cause given.
    StorageFailure(String),
    /// A patch lacks a field that the operation cannot default: the table's
    /// name and the field's name.
    MissingField(&'static str, &'static str),
}

/// The mathematical content of an [`Error`].
pub enum ErrorView {
    EntityNotFound(Seq<char>, Seq<char>),
    StorageFailure(Seq<char>),
    MissingField(Seq<char>, Seq<char>),
}

impl View for Error {
    type V = ErrorView;

    open spec fn view(&self) -> ErrorView {
        match *self {
            Error::EntityNotFound(table, id) => ErrorView::EntityNotFound(table@, id@),
            Error::StorageFailure(cause) => ErrorView::StorageFailure(cause@),
            Error::MissingField(table, field) => ErrorView::MissingField(table@, field@),
        }
    }
}

impl DeepView for Error {
    type V = ErrorView;

    open spec fn deep_view(&self) -> ErrorView {
        self@
    }
}

impl ErrorView {
    /// The text shown for an error.
    pub open spec fn message(self) -> Seq<char> {
        match self {
            ErrorView::EntityNotFound(table, id) => "Entity Not Found - "@ + table + "["@ + id
                + "]"@,
            ErrorView::StorageFailure(cause) => cause,
            ErrorView::MissingField(table, field) => "Missing Field - "@ + table + "."@ + field,
        }
    }
}

impl Error {
    /// The text shown for this error.
    pub fn message(&self) -> (text: String)
        ensures
            text@ == self@.message(),
    {
        match self {
            Error::EntityNotFound(table, id) => {
                let mut text = String::from_str("Entity Not Found - ");
                text.append(table);
                text.append("[");
                text.append(id.as_str());
                text.append("]");
                text
            },
            Error::StorageFailure(cause) => cause.clone(),
            Error::MissingField(table, field) => {
                let mut text = String::from_str("Missing Field - ");
                text.append(table);
                text.append(".");
                text.append(field);
                text
            },
        }
    }
}

/// The mathematical content of an operation's result.
pub open spec fn result_view<T: DeepView>(r: Result<T, Error>) -> Result<T::V, ErrorView> {
    match r {
        Ok(value) => Ok(value.deep_view()),
        Err(error) => Err(error@),
    }
}

} // verus!
