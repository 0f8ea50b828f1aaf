//! A source of manga for an Aidoku-style reader, backed by a Suwayomi server:
//! it builds the GraphQL requests that the server answers, and turns the
//! server's answers into the reader's entries.
use vstd::prelude::*;

pub mod text;
pub mod number;
pub mod base64;
pub mod api;
pub mod entries;
pub mod helpers;
pub mod error;
pub mod source;

verus! {

} // verus!
