//! The ways in which a request is refused before anything is compiled.

use vstd::prelude::*;

verus! {

pub const NO_FILTER_MESSAGE: &'static str =
    "No filter provided! Please provide at least one of the filters";

pub const INVALID_FILTER_COMBINATION_MESSAGE: &'static str =
    "Invalid filter combination! Each filter but the attribute filter may be given once";

pub const INVALID_PAGINATION_MESSAGE: &'static str =
    "Invalid pagination! The limit or the offset is out of range";

/// Why a request was refused.
#[derive(Clone, Copy, Debug, PartialEq, Eq, Structural)]
pub enum QueryError {
    /// The request names nobody and nothing whose items it asks for.
    NoFilter,
    /// A dimension that may be given once is given more than once.
    InvalidFilterCombination,
    /// The limit or the offset is not one that the query can take.
    InvalidPagination,
}

impl QueryError {
    /// The text shown to the caller.
    pub open spec fn message_text(self) -> Seq<char> {
        match self {
            QueryError::NoFilter => NO_FILTER_MESSAGE@,
            QueryError::InvalidFilterCombination => INVALID_FILTER_COMBINATION_MESSAGE@,
            QueryError::InvalidPagination => INVALID_PAGINATION_MESSAGE@,
        }
    }

    /// The text shown to the caller.
    pub fn message(&self) -> (text: String)
        ensures
            text@ == self.message_text(),
    {
        match self {
            QueryError::NoFilter => NO_FILTER_MESSAGE.to_owned(),
            QueryError::InvalidFilterCombination => INVALID_FILTER_COMBINATION_MESSAGE.to_owned(),
            QueryError::InvalidPagination => INVALID_PAGINATION_MESSAGE.to_owned(),
        }
    }
}

} // verus!
