//! Compiler from filter requests on NFT metadata to parameterized SQL.
//!
//! A request names any combination of filter dimensions. The compiler turns
//! it into one statement text and the ordered list of values to bind to its
//! positional parameters. Values never enter the text: every value travels
//! as a bind, and the text refers to it by position only.

pub mod denylist;
pub mod error;
pub mod fragment;
pub mod laws;
pub mod ledger;
pub mod listings_featured;
pub mod metadatas;
pub mod plan;
pub mod query_root;
pub mod request;
pub mod statement;
pub mod text;
