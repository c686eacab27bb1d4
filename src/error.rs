//! What a decoder reports when a document does not have the expected shape.
use vstd::prelude::*;

verus! {

/// A decode failure, with the key or value that caused it.
#[derive(Debug)]
pub enum DecodeError {
    /// A query container with zero or several variants, or an unknown tag
    /// (which `tag` then holds).
    MalformedQuery { reason: String, tag: Option<String> },
    /// A required key is absent from a field-keyed leaf.
    MalformedLeaf { field: String, missing: String },
    /// A string that names no variant of an enumeration.
    InvalidEnum { name: String, value: String },
    /// A numeric field that holds something else.
    InvalidNumber { field: String, value: String },
    /// The top level of a response has the wrong shape.
    MalformedResponse { reason: String },
}

/// The mathematical value of a [`DecodeError`].
pub enum DecodeErrorView {
    MalformedQuery { reason: Seq<char>, tag: Option<Seq<char>> },
    MalformedLeaf { field: Seq<char>, missing: Seq<char> },
    InvalidEnum { name: Seq<char>, value: Seq<char> },
    InvalidNumber { field: Seq<char>, value: Seq<char> },
    MalformedResponse { reason: Seq<char> },
}

impl View for DecodeError {
    type V = DecodeErrorView;

    open spec fn view(&self) -> DecodeErrorView {
        match self {
            DecodeError::MalformedQuery { reason, tag } => DecodeErrorView::MalformedQuery {
                reason: reason@,
                tag: match tag {
                    Some(t) => Some(t@),
                    None => None,
                },
            },
            DecodeError::MalformedLeaf { field, missing } => DecodeErrorView::MalformedLeaf {
                field: field@,
                missing: missing@,
            },
            DecodeError::InvalidEnum { name, value } => DecodeErrorView::InvalidEnum {
                name: name@,
                value: value@,
            },
            DecodeError::InvalidNumber { field, value } => DecodeErrorView::InvalidNumber {
                field: field@,
                value: value@,
            },
            DecodeError::MalformedResponse { reason } => DecodeErrorView::MalformedResponse {
                reason: reason@,
            },
        }
    }
}

/// The value of a decode result.
pub open spec fn result_view<T: View>(r: Result<T, DecodeError>) -> Result<T::V, DecodeErrorView> {
    match r {
        Ok(t) => Ok(t@),
        Err(e) => Err(e@),
    }
}

pub fn malformed_leaf(field: &str, missing: &str) -> (e: DecodeError)
    ensures
        e@ == (DecodeErrorView::MalformedLeaf { field: field@, missing: missing@ }),
{
    DecodeError::MalformedLeaf { field: field.to_owned(), missing: missing.to_owned() }
}

pub fn invalid_enum(name: &str, value: &str) -> (e: DecodeError)
    ensures
        e@ == (DecodeErrorView::InvalidEnum { name: name@, value: value@ }),
{
    DecodeError::InvalidEnum { name: name.to_owned(), value: value.to_owned() }
}

pub fn invalid_number(field: &str, value: &str) -> (e: DecodeError)
    ensures
        e@ == (DecodeErrorView::InvalidNumber { field: field@, value: value@ }),
{
    DecodeError::InvalidNumber { field: field.to_owned(), value: value.to_owned() }
}

pub fn malformed_query(reason: &str) -> (e: DecodeError)
    ensures
        e@ == (DecodeErrorView::MalformedQuery { reason: reason@, tag: None }),
{
    DecodeError::MalformedQuery { reason: reason.to_owned(), tag: None }
}

/// A query container whose tag names no variant.
pub fn unknown_variant(tag: &str) -> (e: DecodeError)
    ensures
        e@ == (DecodeErrorView::MalformedQuery { reason: "unknown_variant"@, tag: Some(tag@) }),
{
    DecodeError::MalformedQuery { reason: "unknown_variant".to_owned(), tag: Some(tag.to_owned()) }
}

pub fn malformed_response(reason: &str) -> (e: DecodeError)
    ensures
        e@ == (DecodeErrorView::MalformedResponse { reason: reason@ }),
{
    DecodeError::MalformedResponse { reason: reason.to_owned() }
}

} // verus!
