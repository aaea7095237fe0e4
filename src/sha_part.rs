//! A slice of an identifier read as one number, used to pick a single word.

use vstd::prelude::*;

use crate::hex::{all_hex, hex_prefix_value, hex_value};
use crate::sha::ParseShaError;

verus! {

/// The value of a whole string of hexadecimal digits, when it fits in a `usize`.
pub open spec fn usize_of_hex(s: Seq<char>) -> Option<usize> {
    if s.len() > 0 && all_hex(s) && hex_value(s) <= usize::MAX {
        Some(hex_value(s) as usize)
    } else {
        None
    }
}

/// Reads a whole string as a hexadecimal number that fits in a `usize`.
pub fn parse_hex_usize(s: &str) -> (r: Result<usize, ParseShaError>)
    ensures
        r == (match usize_of_hex(s@) {
            Some(v) => Ok(v),
            None => Err(ParseShaError::NonHexadecimalCharacters),
        }),
{
    let n = s.unicode_len();
    proof {
        assert(s@.take(n as int) =~= s@);
    }
    if n == 0 {
        return Err(ParseShaError::NonHexadecimalCharacters);
    }
    match hex_prefix_value(s, n) {
        Some(v) => {
            if v <= usize::MAX as u64 {
                Ok(v as usize)
            } else {
                Err(ParseShaError::NonHexadecimalCharacters)
            }
        },
        None => Err(ParseShaError::NonHexadecimalCharacters),
    }
}

/// The digits of a part of an identifier together with the number they denote.
#[derive(Debug)]
pub struct ShaPart {
    pub sha: String,
    pub hash: usize,
}

impl ShaPart {
    pub fn parse(s: &str) -> (r: Result<ShaPart, ParseShaError>)
        ensures
            r is Ok <==> usize_of_hex(s@) is Some,
            r is Ok ==> r->Ok_0.sha@ == s@ && Some(r->Ok_0.hash) == usize_of_hex(s@),
            r is Err ==> r->Err_0 == ParseShaError::NonHexadecimalCharacters,
    {
        match parse_hex_usize(s) {
            Ok(hash) => Ok(ShaPart { sha: s.to_owned(), hash }),
            Err(e) => Err(e),
        }
    }

    /// The number that the digits denote.
    pub fn hash(&self) -> (r: usize)
        ensures
            r == self.hash,
    {
        self.hash
    }
}

impl std::str::FromStr for ShaPart {
    type Err = ParseShaError;

    fn from_str(s: &str) -> Result<ShaPart, ParseShaError> {
        ShaPart::parse(s)
    }
}

} // verus!
