//! What can go wrong while a stream is read, and where.

use vstd::prelude::*;

verus! {

/// The fields of a changeset record, in column order.
#[derive(Clone, Copy, Debug, PartialEq, Eq, Structural)]
pub enum Field {
    Id,
    CreatedAt,
    ClosedAt,
    Open,
    User,
    Uid,
    MinLat,
    MinLon,
    MaxLat,
    MaxLon,
    NumChanges,
    CommentsCount,
    Description,
}

/// The ways in which the shape of the stream can be broken.
#[derive(Clone, Copy, Debug, PartialEq, Eq, Structural)]
pub enum StructuralKind {
    /// The tokenizer could not make sense of the bytes.
    Syntax,
    /// An attribute of an opening tag is not of the form `name="value"`.
    MalformedAttribute,
    /// An attribute value is not valid text or holds an unknown escape.
    BadEscape,
    /// The input ended inside a record.
    UnexpectedEndOfStream,
    /// Elements of one name are nested deeper than can be counted.
    TooDeep,
}

/// An error met while reading the stream.
#[derive(Debug, PartialEq, Eq)]
pub enum Error {
    /// A value is present but cannot be read as its field's type.
    Decode { field: Field, raw_value: String },
    /// The nesting of the stream is broken.
    Structure { kind: StructuralKind },
    /// The byte source failed.
    Io,
}

/// An [`Error`] as a mathematical value.
pub enum ErrorView {
    Decode { field: Field, raw_value: Seq<char> },
    Structure { kind: StructuralKind },
    Io,
}

impl View for Error {
    type V = ErrorView;

    open spec fn view(&self) -> ErrorView {
        match *self {
            Error::Decode { field, raw_value } => ErrorView::Decode { field, raw_value: raw_value@ },
            Error::Structure { kind } => ErrorView::Structure { kind },
            Error::Io => ErrorView::Io,
        }
    }
}

/// The error that ended a record or the walk, with the identifier of the
/// record that was being read where that had been decoded before the error.
#[derive(Debug, PartialEq, Eq)]
pub struct Failure {
    pub error: Error,
    pub record_id: Option<i64>,
}

/// A [`Failure`] as a mathematical value.
pub struct FailureView {
    pub error: ErrorView,
    pub record_id: Option<i64>,
}

impl View for Failure {
    type V = FailureView;

    open spec fn view(&self) -> FailureView {
        FailureView { error: self.error@, record_id: self.record_id }
    }
}

impl Error {
    /// Whether the run must end in failure whatever the recovery policy.
    pub fn is_fatal(&self) -> (r: bool)
        ensures
            r == (self@ is Io),
    {
        match self {
            Error::Io => true,
            _ => false,
        }
    }

    /// A copy of this error.
    pub fn duplicate(&self) -> (r: Error)
        ensures
            r@ == self@,
    {
        match self {
            Error::Decode { field, raw_value } => Error::Decode {
                field: *field,
                raw_value: raw_value.clone(),
            },
            Error::Structure { kind } => Error::Structure { kind: *kind },
            Error::Io => Error::Io,
        }
    }
}

/// Turns the outcome of a decoder into a result that names the field and the
/// text that could not be read.
pub fn decoded<T>(parsed: Option<T>, field: Field, raw_value: &str) -> (r: Result<T, Error>)
    ensures
        match parsed {
            Some(v) => r == Ok::<T, Error>(v),
            None => r matches Err(e) && e@ == (ErrorView::Decode { field, raw_value: raw_value@ }),
        },
{
    match parsed {
        Some(v) => Ok(v),
        None => Err(Error::Decode { field, raw_value: raw_value.to_owned() }),
    }
}

} // verus!
