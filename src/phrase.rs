//! A phrase of three words, how it is found from an identifier, and how it is rendered.

use vstd::prelude::*;

use crate::case::Case;
use crate::dictionary::{pick, word_at, Dictionary};
use crate::hex::{all_hex, hex_value, zeros};
use crate::sha::{adjective_index, adverb_index, key_text, noun_index, ParseShaError, Sha};

verus! {

/// The text of `s` in snake case, as Inflector's `to_snake_case` writes it.
pub uninterp spec fn snake_of(s: Seq<char>) -> Seq<char>;

/// The text of `s` in kebab case, as Inflector's `to_kebab_case` writes it.
pub uninterp spec fn kebab_of(s: Seq<char>) -> Seq<char>;

/// The text of `s` in Pascal case, as Inflector's `to_pascal_case` writes it.
pub uninterp spec fn pascal_of(s: Seq<char>) -> Seq<char>;

/// The text of `s` in camel case, as Inflector's `to_camel_case` writes it.
pub uninterp spec fn camel_of(s: Seq<char>) -> Seq<char>;

/// The text of `s` in title case, as Inflector's `to_title_case` writes it.
pub uninterp spec fn title_of(s: Seq<char>) -> Seq<char>;

/// The text of `s` in sentence case, as Inflector's `to_sentence_case` writes it.
pub uninterp spec fn sentence_of(s: Seq<char>) -> Seq<char>;

/// The text of `s` upper-cased, as `str::to_uppercase` writes it.
pub uninterp spec fn upper_of(s: Seq<char>) -> Seq<char>;

/// Relies on Inflector's `to_snake_case`, whose result depends on its argument alone.
pub assume_specification[ inflector::cases::snakecase::to_snake_case ](s: &str) -> (r: String)
    ensures
        r@ == snake_of(s@),
;

/// Relies on Inflector's `to_kebab_case`, whose result depends on its argument alone.
pub assume_specification[ inflector::cases::kebabcase::to_kebab_case ](s: &str) -> (r: String)
    ensures
        r@ == kebab_of(s@),
;

/// Relies on Inflector's `to_pascal_case`, whose result depends on its argument alone.
pub assume_specification[ inflector::cases::pascalcase::to_pascal_case ](s: &str) -> (r: String)
    ensures
        r@ == pascal_of(s@),
;

/// Relies on Inflector's `to_camel_case`, whose result depends on its argument alone.
pub assume_specification[ inflector::cases::camelcase::to_camel_case ](s: &str) -> (r: String)
    ensures
        r@ == camel_of(s@),
;

/// Relies on Inflector's `to_title_case`, whose result depends on its argument alone.
pub assume_specification[ inflector::cases::titlecase::to_title_case ](s: &str) -> (r: String)
    ensures
        r@ == title_of(s@),
;

/// Relies on Inflector's `to_sentence_case`, whose result depends on its argument alone.
pub assume_specification[ inflector::cases::sentencecase::to_sentence_case ](s: &str) -> (r: String)
    ensures
        r@ == sentence_of(s@),
;

/// Relies on `str::to_uppercase`, whose result depends on its argument alone.
pub assume_specification[ str::to_uppercase ](s: &str) -> (r: String)
    ensures
        r@ == upper_of(s@),
;

/// A phrase made up of an adverb, an adjective and a noun, and the case it is rendered in.
#[derive(Debug, Clone, PartialEq, Eq)]
pub struct Phrase {
    pub adj: String,
    pub adv: String,
    pub noun: String,
    pub format: Case,
}

/// Why no phrase could be found for an identifier.
#[derive(Debug, PartialEq, Eq, Structural, Clone, Copy)]
pub enum ParsePhraseError {
    /// A word list to choose from is empty.
    EmptyDictionary,
    /// The identifier holds no key.
    Sha(ParseShaError),
}

/// The three words of a phrase, space-separated.
pub open spec fn base_text(adv: Seq<char>, adj: Seq<char>, noun: Seq<char>) -> Seq<char> {
    adv + seq![' '] + adj + seq![' '] + noun
}

/// The text of three space-separated words in a case.
pub open spec fn rendered(case: Case, base: Seq<char>) -> Seq<char> {
    match case {
        Case::Snake => snake_of(base),
        Case::Kebab => kebab_of(base),
        Case::Pascal => pascal_of(base),
        Case::Camel => camel_of(base),
        Case::Title => title_of(base),
        Case::Sentence => sentence_of(base),
        Case::Lower => base,
        Case::Upper => upper_of(base),
    }
}

/// The words (adverb, adjective, noun) that an identifier selects, or why it selects none.
pub open spec fn resolved(dict: &Dictionary, s: Seq<char>) -> Result<
    (Seq<char>, Seq<char>, Seq<char>),
    ParsePhraseError,
> {
    let key = key_text(s);
    if !all_hex(key) {
        Err(ParsePhraseError::Sha(ParseShaError::NonHexadecimalCharacters))
    } else if dict.adverbs@.len() == 0 || dict.adjectives@.len() == 0 || dict.nouns@.len() == 0 {
        Err(ParsePhraseError::EmptyDictionary)
    } else {
        let v = hex_value(key) as u32;
        Ok(
            (
                word_at(dict.adverbs@, adverb_index(v) as int),
                word_at(dict.adjectives@, adjective_index(v) as int),
                word_at(dict.nouns@, noun_index(v) as int),
            ),
        )
    }
}

/// What a lookup of `s` in `dict` returns: the phrase of the resolved words, in lower case,
/// or the error that resolving gives.
pub open spec fn lookup_outcome(
    dict: &Dictionary,
    s: Seq<char>,
    r: Result<Phrase, ParsePhraseError>,
) -> bool {
    match r {
        Ok(p) => resolved(dict, s) == Ok::<_, ParsePhraseError>(p.words()) && p.case_spec()
            == Case::Lower,
        Err(e) => resolved(dict, s) == Err::<(Seq<char>, Seq<char>, Seq<char>), _>(e),
    }
}

impl Phrase {
    /// The adverb, the adjective and the noun.
    pub open spec fn words(&self) -> (Seq<char>, Seq<char>, Seq<char>) {
        (self.adv@, self.adj@, self.noun@)
    }

    pub open spec fn case_spec(&self) -> Case {
        self.format
    }

    /// The text this phrase renders to.
    pub open spec fn text(&self) -> Seq<char> {
        rendered(self.format, base_text(self.adv@, self.adj@, self.noun@))
    }

    /// Finds the phrase that an identifier selects in `dict`, in lower case. Only the first
    /// eight characters of the identifier count; a shorter one is read as if padded with `0`
    /// on the left.
    pub fn resolve(dict: &Dictionary, s: &str) -> (r: Result<Phrase, ParsePhraseError>)
        ensures
            lookup_outcome(dict, s@, r),
    {
        let sha = match Sha::from_identifier(s) {
            Ok(sha) => sha,
            Err(e) => return Err(ParsePhraseError::Sha(e)),
        };
        let adv = pick(sha.adverb(), dict.adverbs.as_slice())?;
        let adj = pick(sha.adjective(), dict.adjectives.as_slice())?;
        let noun = pick(sha.noun(), dict.nouns.as_slice())?;
        Ok(Phrase { adv, adj, noun, format: Case::Lower })
    }

    /// The same words, to be rendered in case `f`.
    pub fn with_case(self, f: Case) -> (r: Phrase)
        ensures
            r.words() == self.words(),
            r.case_spec() == f,
    {
        let mut p = self;
        p.format = f;
        p
    }

    /// The adjective of this phrase.
    pub fn adjective(&self) -> (r: &str)
        ensures
            r@ == self.words().1,
    {
        self.adj.as_str()
    }

    /// The adverb of this phrase.
    pub fn adverb(&self) -> (r: &str)
        ensures
            r@ == self.words().0,
    {
        self.adv.as_str()
    }

    /// The noun of this phrase.
    pub fn noun(&self) -> (r: &str)
        ensures
            r@ == self.words().2,
    {
        self.noun.as_str()
    }

    /// The case this phrase is rendered in.
    pub fn case(&self) -> (r: Case)
        ensures
            r == self.case_spec(),
    {
        self.format
    }

    /// The three words separated by single spaces, in its case.
    pub fn to_string(&self) -> (r: String)
        ensures
            r@ == self.text(),
    {
        let mut base = self.adv.clone();
        base.append(" ");
        base.append(self.adj.as_str());
        base.append(" ");
        base.append(self.noun.as_str());
        proof {
            reveal_strlit(" ");
            assert(base@ =~= base_text(self.adv@, self.adj@, self.noun@));
        }
        match self.format {
            Case::Snake => inflector::cases::snakecase::to_snake_case(base.as_str()),
            Case::Kebab => inflector::cases::kebabcase::to_kebab_case(base.as_str()),
            Case::Pascal => inflector::cases::pascalcase::to_pascal_case(base.as_str()),
            Case::Camel => inflector::cases::camelcase::to_camel_case(base.as_str()),
            Case::Title => inflector::cases::titlecase::to_title_case(base.as_str()),
            Case::Sentence => inflector::cases::sentencecase::to_sentence_case(base.as_str()),
            Case::Lower => base,
            Case::Upper => base.as_str().to_uppercase(),
        }
    }
}

/// Any two lookups of one identifier in one dictionary agree: both fail with the same error,
/// or both give the same three words.
pub proof fn lemma_lookup_deterministic(
    dict: &Dictionary,
    s: Seq<char>,
    first: Result<Phrase, ParsePhraseError>,
    second: Result<Phrase, ParsePhraseError>,
)
    requires
        lookup_outcome(dict, s, first),
        lookup_outcome(dict, s, second),
    ensures
        first is Ok <==> second is Ok,
        first is Ok ==> first->Ok_0.words() == second->Ok_0.words(),
        first is Err ==> first->Err_0 == second->Err_0,
{
}

/// An identifier shorter than eight characters selects what it selects padded on the left
/// with `0` up to eight characters.
pub proof fn lemma_padding_equivalence(dict: &Dictionary, s: Seq<char>)
    requires
        s.len() < 8,
    ensures
        resolved(dict, s) == resolved(dict, zeros((8 - s.len()) as nat) + s),
{
    let padded = zeros((8 - s.len()) as nat) + s;
    assert(padded.take(8) =~= padded);
}

/// Only the first eight characters of an identifier count.
pub proof fn lemma_truncation_equivalence(dict: &Dictionary, s: Seq<char>)
    requires
        s.len() >= 8,
    ensures
        resolved(dict, s) == resolved(dict, s.take(8)),
{
    assert(s.take(8).take(8) =~= s.take(8));
}

/// Lower case leaves the space-separated words as they are: a phrase in lower case renders to
/// its plain words, and rendering that text in lower case again changes nothing.
pub proof fn lemma_lower_idempotent(p: Phrase)
    requires
        p.case_spec() == Case::Lower,
    ensures
        p.text() == base_text(p.words().0, p.words().1, p.words().2),
        rendered(Case::Lower, p.text()) == p.text(),
{
}

} // verus!
