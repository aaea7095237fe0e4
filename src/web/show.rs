//! The name of a single identifier.

use vstd::prelude::*;

use crate::case::Case;
use crate::dictionary::Dictionary;
use crate::lookup;
use crate::phrase::{base_text, rendered, resolved};
use crate::web::param::Format;

verus! {

/// The query of the single-name endpoint.
pub struct Params {
    pub format: Option<Format>,
}

/// The text that an identifier renders to in `case`, or `None` when it selects no phrase.
pub open spec fn name_of(dict: &Dictionary, case: Case, sha: Seq<char>) -> Option<Seq<char>> {
    match resolved(dict, sha) {
        Ok(w) => Some(rendered(case, base_text(w.0, w.1, w.2))),
        Err(_) => None,
    }
}

/// Looks up an identifier and renders its phrase in `case`.
pub fn name_for(dict: &Dictionary, case: Case, sha: &str) -> (r: Option<String>)
    ensures
        r is Some <==> name_of(dict, case, sha@) is Some,
        r is Some ==> r->0@ == name_of(dict, case, sha@)->0,
{
    match lookup(dict, sha) {
        Ok(p) => Some(p.with_case(case).to_string()),
        Err(_) => None,
    }
}

} // verus!
