//! The name of a key drawn at random by the caller.

use vstd::prelude::*;

use crate::case::Case;
use crate::dictionary::Dictionary;
use crate::hex::{all_hex, hex_value, is_lower_hex_digit, to_hex8};
use crate::web::param::Format;
use crate::web::show::{name_for, name_of};

verus! {

/// The query of the random-name endpoint.
pub struct Params {
    pub format: Option<Format>,
}

/// A key written as eight lower-case hexadecimal digits, and its name.
pub struct Name {
    pub name: String,
    pub sha: String,
}

/// The name text of an identifier, empty when it selects no phrase.
pub open spec fn name_or_empty(dict: &Dictionary, case: Case, sha: Seq<char>) -> Seq<char> {
    match name_of(dict, case, sha) {
        Some(n) => n,
        None => Seq::empty(),
    }
}

impl Name {
    /// The key `v` in eight lower-case digits, named in `case`.
    pub fn for_key(dict: &Dictionary, case: Case, v: u32) -> (r: Name)
        ensures
            r.sha@.len() == 8,
            all_hex(r.sha@),
            forall|i: int| 0 <= i < 8 ==> is_lower_hex_digit(#[trigger] r.sha@[i]),
            hex_value(r.sha@) == v,
            r.name@ == name_or_empty(dict, case, r.sha@),
    {
        let sha = to_hex8(v);
        let name = match name_for(dict, case, sha.as_str()) {
            Some(n) => n,
            None => String::new(),
        };
        Name { name, sha }
    }
}

} // verus!
