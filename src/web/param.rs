//! Values of query parameters.

use vstd::prelude::*;

use crate::case::{case_of_token, Case, ParseCaseError};
use crate::text::{joined, split, texts};

verus! {

/// A comma-separated list of strings.
pub struct CSV(pub Vec<String>);

impl CSV {
    /// Cuts `s` at every comma.
    pub fn parse(s: &str) -> (r: CSV)
        ensures
            r.0@.len() >= 1,
            joined(texts(r.0@), seq![',']) == s@,
            forall|i: int| 0 <= i < r.0@.len() ==> !(#[trigger] r.0@[i]@).contains(','),
    {
        CSV(split(s, ','))
    }

    /// The strings of the list.
    pub fn values(&self) -> (r: &Vec<String>)
        ensures
            r == &self.0,
    {
        &self.0
    }
}

impl std::ops::Deref for CSV {
    type Target = Vec<String>;

    fn deref(&self) -> &Vec<String> {
        &self.0
    }
}

/// The case a response is asked for in.
#[derive(Debug, PartialEq, Eq, Structural, Clone, Copy)]
pub struct Format(pub Case);

impl Format {
    /// Reads a case token; any other text is refused.
    pub fn parse(s: &str) -> (r: Result<Format, ParseCaseError>)
        ensures
            r == (match case_of_token(s@) {
                Some(c) => Ok(Format(c)),
                None => Err(ParseCaseError::InvalidFormat),
            }),
    {
        match Case::parse(s) {
            Ok(c) => Ok(Format(c)),
            Err(e) => Err(e),
        }
    }

    /// The case asked for.
    pub fn case(&self) -> (r: Case)
        ensures
            r == self.0,
    {
        self.0
    }
}

/// The case of an optional format: lower case when none is given.
pub fn case_or_lower(format: Option<Format>) -> (r: Case)
    ensures
        r == (match format {
            Some(f) => f.0,
            None => Case::Lower,
        }),
{
    match format {
        Some(f) => f.0,
        None => Case::Lower,
    }
}

impl std::ops::Deref for Format {
    type Target = Case;

    fn deref(&self) -> &Case {
        &self.0
    }
}

impl From<Case> for Format {
    fn from(case: Case) -> (r: Format) {
        Format(case)
    }
}

impl vstd::std_specs::convert::FromSpecImpl<Case> for Format {
    open spec fn obeys_from_spec() -> bool {
        true
    }

    open spec fn from_spec(case: Case) -> Format {
        Format(case)
    }
}

} // verus!
