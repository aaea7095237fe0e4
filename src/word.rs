//! One word picked from one list by the number that a string of hexadecimal digits denotes.

use vstd::prelude::*;

use crate::dictionary::word_at;
use crate::sha::ParseShaError;
use crate::sha_part::{parse_hex_usize, usize_of_hex};

verus! {

/// The digits read, the number they denote, and the word picked with it, once it is.
#[derive(Debug)]
pub struct Word {
    pub sha: String,
    pub hash: usize,
    pub word: Option<String>,
}

impl Word {
    /// Reads a whole string as a hexadecimal number; no word is picked yet.
    pub fn parse(s: &str) -> (r: Result<Word, ParseShaError>)
        ensures
            r is Ok <==> usize_of_hex(s@) is Some,
            r is Ok ==> r->Ok_0.sha@ == s@ && Some(r->Ok_0.hash) == usize_of_hex(s@)
                && r->Ok_0.word is None,
            r is Err ==> r->Err_0 == ParseShaError::NonHexadecimalCharacters,
    {
        match parse_hex_usize(s) {
            Ok(hash) => Ok(Word { sha: s.to_owned(), hash, word: None }),
            Err(e) => Err(e),
        }
    }

    /// The word picked, or nothing before one is.
    pub fn to_string(&self) -> (r: String)
        ensures
            r@ == (match self.word {
                Some(w) => w@,
                None => Seq::empty(),
            }),
    {
        match &self.word {
            Some(w) => w.clone(),
            None => String::new(),
        }
    }
}

/// Picks the word of `dict` at the word's number, wrapping around the list's length; an empty
/// list leaves no word.
pub fn lookup(word: Word, dict: &[String]) -> (r: Word)
    ensures
        r.sha == word.sha,
        r.hash == word.hash,
        r.word is Some <==> dict@.len() > 0,
        r.word is Some ==> r.word->0@ == word_at(dict@, word.hash as int),
{
    let picked = if dict.len() == 0 {
        None
    } else {
        Some(dict[word.hash % dict.len()].clone())
    };
    Word { word: picked, ..word }
}

impl std::str::FromStr for Word {
    type Err = ParseShaError;

    fn from_str(s: &str) -> Result<Word, ParseShaError> {
        Word::parse(s)
    }
}

} // verus!
