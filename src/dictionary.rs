//! The three word lists and the lookups into them.

use vstd::prelude::*;

use crate::phrase::ParsePhraseError;
use crate::sha_part::ShaPart;
use crate::text::{joined, split, texts};

verus! {

/// One ordered word list for each class of word. The lists are read, never changed.
pub struct Dictionary {
    pub adverbs: Vec<String>,
    pub adjectives: Vec<String>,
    pub nouns: Vec<String>,
}

/// The class of a word.
#[derive(Copy, Debug, Clone, PartialEq, Eq, Structural)]
pub enum Kind {
    Noun,
    Adj,
    Adv,
}

/// A word of the dictionary together with its class and its position in its list.
#[derive(Debug, Clone, PartialEq, Eq)]
pub struct Entry {
    pub kind: Kind,
    pub word: String,
    pub index: usize,
}

/// No word occurs twice in the list.
pub open spec fn unique_words(words: Seq<String>) -> bool {
    forall|i: int, j: int| 0 <= i < j < words.len() ==> words[i]@ != words[j]@
}

/// The word that position `index` selects in a non-empty list: positions wrap around.
pub open spec fn word_at(words: Seq<String>, index: int) -> Seq<char>
    recommends
        words.len() > 0,
{
    words[index % words.len() as int]@
}

impl Dictionary {
    pub fn new(adverbs: Vec<String>, adjectives: Vec<String>, nouns: Vec<String>) -> (r: Dictionary)
        ensures
            r.adverbs == adverbs,
            r.adjectives == adjectives,
            r.nouns == nouns,
    {
        Dictionary { adverbs, adjectives, nouns }
    }

    pub open spec fn spec_words(&self, kind: Kind) -> Seq<String> {
        match kind {
            Kind::Noun => self.nouns@,
            Kind::Adj => self.adjectives@,
            Kind::Adv => self.adverbs@,
        }
    }

    /// The list of one class of word.
    pub fn words(&self, kind: Kind) -> (r: &Vec<String>)
        ensures
            r@ == self.spec_words(kind),
    {
        match kind {
            Kind::Noun => &self.nouns,
            Kind::Adj => &self.adjectives,
            Kind::Adv => &self.adverbs,
        }
    }

    /// Each list is non-empty and free of repeated words.
    pub open spec fn well_formed(&self) -> bool {
        &&& self.adverbs@.len() > 0
        &&& self.adjectives@.len() > 0
        &&& self.nouns@.len() > 0
        &&& unique_words(self.adverbs@)
        &&& unique_words(self.adjectives@)
        &&& unique_words(self.nouns@)
    }

    /// Whether each list is non-empty and free of repeated words.
    pub fn is_well_formed(&self) -> (r: bool)
        ensures
            r == self.well_formed(),
    {
        self.adverbs.len() > 0 && self.adjectives.len() > 0 && self.nouns.len() > 0
            && has_unique_elements(&self.adverbs) && has_unique_elements(&self.adjectives)
            && has_unique_elements(&self.nouns)
    }
}

/// Whether no word occurs twice in `words`.
pub fn has_unique_elements(words: &[String]) -> (r: bool)
    ensures
        r == unique_words(words@),
{
    let n = words.len();
    let mut j: usize = 1;
    while j < n
        invariant
            n == words@.len(),
            1 <= j || n == 0,
            forall|a: int, b: int| 0 <= a < b < j && b < n ==> words@[a]@ != words@[b]@,
        decreases n - j,
    {
        let mut i: usize = 0;
        while i < j
            invariant
                n == words@.len(),
                i <= j < n,
                forall|a: int, b: int| 0 <= a < b < j ==> words@[a]@ != words@[b]@,
                forall|a: int| 0 <= a < i ==> words@[a]@ != words@[j as int]@,
            decreases j - i,
        {
            if words[i] == words[j] {
                return false;
            }
            i = i + 1;
        }
        j = j + 1;
    }
    true
}

/// The word at `index` in `words`, wrapping around its length; an empty list has none.
pub fn pick(index: usize, words: &[String]) -> (r: Result<String, ParsePhraseError>)
    ensures
        r is Err <==> words@.len() == 0,
        r is Err ==> r->Err_0 == ParsePhraseError::EmptyDictionary,
        r is Ok ==> r->Ok_0@ == word_at(words@, index as int),
{
    if words.len() == 0 {
        return Err(ParsePhraseError::EmptyDictionary);
    }
    Ok(words[index % words.len()].clone())
}

/// The adverb that a part of an identifier selects.
pub fn lookup_adverb(dict: &Dictionary, part: ShaPart) -> (r: Result<String, ParsePhraseError>)
    ensures
        r is Err <==> dict.adverbs@.len() == 0,
        r is Err ==> r->Err_0 == ParsePhraseError::EmptyDictionary,
        r is Ok ==> r->Ok_0@ == word_at(dict.adverbs@, part.hash as int),
{
    pick(part.hash(), dict.adverbs.as_slice())
}

/// The adjective that a part of an identifier selects.
pub fn lookup_adjective(dict: &Dictionary, part: ShaPart) -> (r: Result<String, ParsePhraseError>)
    ensures
        r is Err <==> dict.adjectives@.len() == 0,
        r is Err ==> r->Err_0 == ParsePhraseError::EmptyDictionary,
        r is Ok ==> r->Ok_0@ == word_at(dict.adjectives@, part.hash as int),
{
    pick(part.hash(), dict.adjectives.as_slice())
}

/// The noun that a part of an identifier selects.
pub fn lookup_noun(dict: &Dictionary, part: ShaPart) -> (r: Result<String, ParsePhraseError>)
    ensures
        r is Err <==> dict.nouns@.len() == 0,
        r is Err ==> r->Err_0 == ParsePhraseError::EmptyDictionary,
        r is Ok ==> r->Ok_0@ == word_at(dict.nouns@, part.hash as int),
{
    pick(part.hash(), dict.nouns.as_slice())
}

/// Every word of one class, in order, each with its class and position.
pub fn list(dict: &Dictionary, kind: Kind) -> (r: Vec<Entry>)
    ensures
        r@.len() == dict.spec_words(kind).len(),
        forall|i: int|
            0 <= i < r@.len() ==> (#[trigger] r@[i]).kind == kind && r@[i].index == i
                && r@[i].word@ == dict.spec_words(kind)[i]@,
{
    let words = dict.words(kind);
    let mut entries: Vec<Entry> = Vec::new();
    let mut i: usize = 0;
    while i < words.len()
        invariant
            words@ == dict.spec_words(kind),
            i <= words@.len(),
            entries@.len() == i,
            forall|j: int|
                0 <= j < i ==> (#[trigger] entries@[j]).kind == kind && entries@[j].index == j
                    && entries@[j].word@ == words@[j]@,
        decreases words@.len() - i,
    {
        entries.push(Entry { kind, word: words[i].clone(), index: i });
        i = i + 1;
    }
    entries
}

/// The non-empty strings of `s`, in order.
pub open spec fn non_empty(s: Seq<Seq<char>>) -> Seq<Seq<char>>
    decreases s.len(),
{
    if s.len() == 0 {
        s
    } else if s.last().len() > 0 {
        non_empty(s.drop_last()).push(s.last())
    } else {
        non_empty(s.drop_last())
    }
}

/// The words of a list written one per line, in order; empty lines are skipped.
pub fn word_list(text: &str) -> (r: Vec<String>)
    ensures
        exists|lines: Seq<Seq<char>>|
            joined(lines, seq!['\n']) == text@ && (forall|i: int|
                0 <= i < lines.len() ==> !(#[trigger] lines[i]).contains('\n')) && texts(r@)
                == non_empty(lines),
{
    let lines = split(text, '\n');
    let mut words: Vec<String> = Vec::new();
    let mut i: usize = 0;
    while i < lines.len()
        invariant
            i <= lines@.len(),
            texts(words@) == non_empty(texts(lines@).take(i as int)),
        decreases lines@.len() - i,
    {
        let ghost before = words@;
        let ghost seen = texts(lines@).take(i + 1);
        assert(seen.drop_last() =~= texts(lines@).take(i as int));
        assert(seen.last() == lines@[i as int]@);
        if lines[i].unicode_len() > 0 {
            words.push(lines[i].clone());
            proof {
                assert(texts(words@) =~= texts(before).push(lines@[i as int]@));
            }
        }
        i = i + 1;
    }
    proof {
        assert(texts(lines@).take(lines@.len() as int) =~= texts(lines@));
        assert forall|k: int| 0 <= k < texts(lines@).len() implies !(
        #[trigger] texts(lines@)[k]).contains('\n') by {
            assert(texts(lines@)[k] == lines@[k]@);
        }
    }
    words
}

} // verus!
