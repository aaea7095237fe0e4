//! The text cases a phrase can be rendered in.

use vstd::prelude::*;

use crate::text::str_eq;

verus! {

/// How the three words of a phrase are put together and capitalised.
#[derive(Debug, PartialEq, Eq, Structural, Copy, Clone)]
pub enum Case {
    /// `quickly_brown_fox`
    Snake,
    /// `quickly-brown-fox`
    Kebab,
    /// `QuicklyBrownFox`
    Pascal,
    /// `quicklyBrownFox`
    Camel,
    /// `Quickly Brown Fox`
    Title,
    /// `Quickly brown fox`
    Sentence,
    /// `quickly brown fox`
    Lower,
    /// `QUICKLY BROWN FOX`
    Upper,
}

/// The token names no case.
#[derive(Debug, PartialEq, Eq, Structural, Clone, Copy)]
pub enum ParseCaseError {
    InvalidFormat,
}

/// The case that a token names, if any.
pub open spec fn case_of_token(token: Seq<char>) -> Option<Case> {
    if token == "snake"@ {
        Some(Case::Snake)
    } else if token == "kebab"@ {
        Some(Case::Kebab)
    } else if token == "pascal"@ {
        Some(Case::Pascal)
    } else if token == "camel"@ {
        Some(Case::Camel)
    } else if token == "title"@ {
        Some(Case::Title)
    } else if token == "sentence"@ {
        Some(Case::Sentence)
    } else if token == "lower"@ {
        Some(Case::Lower)
    } else if token == "upper"@ {
        Some(Case::Upper)
    } else {
        None
    }
}

impl Case {
    /// Reads one of the tokens `snake`, `kebab`, `pascal`, `camel`, `title`, `sentence`,
    /// `lower` and `upper`; any other text is refused.
    pub fn parse(token: &str) -> (r: Result<Case, ParseCaseError>)
        ensures
            r == (match case_of_token(token@) {
                Some(c) => Ok(c),
                None => Err(ParseCaseError::InvalidFormat),
            }),
    {
        if str_eq(token, "snake") {
            Ok(Case::Snake)
        } else if str_eq(token, "kebab") {
            Ok(Case::Kebab)
        } else if str_eq(token, "pascal") {
            Ok(Case::Pascal)
        } else if str_eq(token, "camel") {
            Ok(Case::Camel)
        } else if str_eq(token, "title") {
            Ok(Case::Title)
        } else if str_eq(token, "sentence") {
            Ok(Case::Sentence)
        } else if str_eq(token, "lower") {
            Ok(Case::Lower)
        } else if str_eq(token, "upper") {
            Ok(Case::Upper)
        } else {
            Err(ParseCaseError::InvalidFormat)
        }
    }
}

impl std::str::FromStr for Case {
    type Err = ParseCaseError;

    fn from_str(token: &str) -> Result<Case, ParseCaseError> {
        Case::parse(token)
    }
}

} // verus!
