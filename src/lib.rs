//! Turns hexadecimal identifiers, such as commit hashes, into three-word phrases
//! ("adverb adjective noun") that can be rendered in several text cases.
//!
//! The word lists are handed in as a [`Dictionary`]; the library never changes them.

pub mod case;
pub mod dictionary;
pub mod hex;
pub mod listing;
pub mod phrase;
pub mod sha;
pub mod sha_part;
pub mod text;
pub mod web;
pub mod word;

pub use case::{Case, ParseCaseError};
pub use dictionary::{list, Dictionary, Entry, Kind};
pub use phrase::{ParsePhraseError, Phrase};
pub use sha::{ParseShaError, Sha};
pub use sha_part::ShaPart;

use vstd::prelude::*;

use phrase::lookup_outcome;

verus! {

/// Looks up the phrase of an identifier of any length, as long as the characters that count are
/// hexadecimal digits.
pub fn lookup(dict: &Dictionary, sha: &str) -> (r: Result<Phrase, ParsePhraseError>)
    ensures
        lookup_outcome(dict, sha@, r),
{
    Phrase::resolve(dict, sha)
}

} // verus!
