//! Pagination of the question listing, read from the `limit` and `offset`
//! query parameters.

use vstd::prelude::*;
use crate::errors::{Error, ValidationError};
use crate::numbers::{parse_i32, spec_parse_i32};

verus! {

/// The window of questions a listing request asks for.
#[derive(Debug, PartialEq, Eq, Structural)]
pub struct Pagination {
    /// How many items to return at most, if bounded.
    pub limit: Option<i32>,
    /// The index of the first item to return.
    pub offset: i32,
}

impl Default for Pagination {
    /// An unbounded listing from the start.
    fn default() -> (r: Pagination)
        ensures
            r.limit is None,
            r.offset == 0,
    {
        Pagination { limit: None, offset: 0 }
    }
}

/// Reads the pagination out of the `limit` and `offset` query parameter
/// values. Both must be present and must be decimal numbers in 32-bit
/// signed range: a missing one is `MissingParameters`, an unreadable one
/// is `ParseError`.
pub fn extract_pagination(limit: Option<&String>, offset: Option<&String>) -> (r: Result<
    Pagination,
    Error,
>)
    ensures
        limit is None || offset is None ==> r == Err::<Pagination, Error>(
            Error::Validation(ValidationError::MissingParameters),
        ),
        limit matches Some(l) ==> offset matches Some(o) ==> r == (match (
            spec_parse_i32(l@),
            spec_parse_i32(o@),
        ) {
            (Some(lv), Some(ov)) => Ok(Pagination { limit: Some(lv), offset: ov }),
            _ => Err(Error::Validation(ValidationError::ParseError)),
        }),
{
    match (limit, offset) {
        (Some(l), Some(o)) => {
            let lv = match parse_i32(l.as_str()) {
                Some(v) => v,
                None => {
                    return Err(Error::Validation(ValidationError::ParseError));
                },
            };
            let ov = match parse_i32(o.as_str()) {
                Some(v) => v,
                None => {
                    return Err(Error::Validation(ValidationError::ParseError));
                },
            };
            Ok(Pagination { limit: Some(lv), offset: ov })
        },
        _ => Err(Error::Validation(ValidationError::MissingParameters)),
    }
}

} // verus!
