//! Which word lists to show, and the rows they are shown in.

use vstd::prelude::*;

use crate::dictionary::{list, Dictionary, Entry, Kind};
use crate::text::{decimal, decimal_text, pad_left, pad_right, push_left_aligned, push_right_aligned, str_eq};

verus! {

/// The word lists asked for.
pub struct List {
    pub n: bool,
    pub adv: bool,
    pub adj: bool,
}

/// An entry as plain values: class, word, position.
pub open spec fn entry_view(e: Entry) -> (Kind, Seq<char>, usize) {
    (e.kind, e.word@, e.index)
}

/// Entries as plain values.
pub open spec fn entry_views(s: Seq<Entry>) -> Seq<(Kind, Seq<char>, usize)> {
    s.map_values(|e: Entry| entry_view(e))
}

/// The entries of one list, in order.
pub open spec fn kind_entries(dict: &Dictionary, kind: Kind) -> Seq<(Kind, Seq<char>, usize)> {
    Seq::new(
        dict.spec_words(kind).len(),
        |i: int| (kind, dict.spec_words(kind)[i]@, i as usize),
    )
}

/// The entries of several lists, one list after the other.
pub open spec fn entries_for(dict: &Dictionary, kinds: Seq<Kind>) -> Seq<(Kind, Seq<char>, usize)>
    decreases kinds.len(),
{
    if kinds.len() == 0 {
        Seq::empty()
    } else {
        entries_for(dict, kinds.drop_last()) + kind_entries(dict, kinds.last())
    }
}

/// The class of word that a token of the `--include` option names, if any.
pub open spec fn kind_of_token(val: Seq<char>) -> Option<Kind> {
    if val == "n"@ || val == "nouns"@ {
        Some(Kind::Noun)
    } else if val == "adv"@ || val == "adverbs"@ {
        Some(Kind::Adv)
    } else if val == "adj"@ || val == "adjectives"@ {
        Some(Kind::Adj)
    } else {
        None
    }
}

impl List {
    /// The classes to show, in the order nouns, adverbs, adjectives; all three when none was
    /// asked for.
    pub open spec fn kinds(&self) -> Seq<Kind> {
        if !(self.n || self.adv || self.adj) {
            seq![Kind::Noun, Kind::Adv, Kind::Adj]
        } else {
            (if self.n {
                seq![Kind::Noun]
            } else {
                Seq::empty()
            }) + (if self.adv {
                seq![Kind::Adv]
            } else {
                Seq::empty()
            }) + (if self.adj {
                seq![Kind::Adj]
            } else {
                Seq::empty()
            })
        }
    }

    /// Nothing asked for yet.
    pub fn new() -> (r: List)
        ensures
            !r.n && !r.adv && !r.adj,
    {
        List { n: false, adv: false, adj: false }
    }

    /// Adds the list that a token names: `n` or `nouns`, `adv` or `adverbs`, `adj` or
    /// `adjectives`. Any other token changes nothing.
    pub fn apply(&mut self, val: &str)
        ensures
            final(self).n == (old(self).n || kind_of_token(val@) == Some(Kind::Noun)),
            final(self).adv == (old(self).adv || kind_of_token(val@) == Some(Kind::Adv)),
            final(self).adj == (old(self).adj || kind_of_token(val@) == Some(Kind::Adj)),
    {
        if str_eq(val, "n") || str_eq(val, "nouns") {
            self.n = true;
        } else if str_eq(val, "adv") || str_eq(val, "adverbs") {
            self.adv = true;
        } else if str_eq(val, "adj") || str_eq(val, "adjectives") {
            self.adj = true;
        }
    }

    /// The entries of the lists asked for.
    pub fn entries(self, dict: &Dictionary) -> (r: Vec<Entry>)
        ensures
            entry_views(r@) == entries_for(dict, self.kinds()),
    {
        let mut entries: Vec<Entry> = Vec::new();
        let ghost kinds: Seq<Kind> = Seq::empty();
        proof {
            assert(entry_views(entries@) =~= entries_for(dict, kinds));
        }
        if self.n {
            append_kind(&mut entries, dict, Kind::Noun, Ghost(kinds));
            proof {
                kinds = kinds.push(Kind::Noun);
            }
        }
        if self.adv {
            append_kind(&mut entries, dict, Kind::Adv, Ghost(kinds));
            proof {
                kinds = kinds.push(Kind::Adv);
            }
        }
        if self.adj {
            append_kind(&mut entries, dict, Kind::Adj, Ghost(kinds));
            proof {
                kinds = kinds.push(Kind::Adj);
            }
        }
        if !(self.n || self.adv || self.adj) {
            append_kind(&mut entries, dict, Kind::Noun, Ghost(kinds));
            proof {
                kinds = kinds.push(Kind::Noun);
            }
            append_kind(&mut entries, dict, Kind::Adv, Ghost(kinds));
            proof {
                kinds = kinds.push(Kind::Adv);
            }
            append_kind(&mut entries, dict, Kind::Adj, Ghost(kinds));
            proof {
                kinds = kinds.push(Kind::Adj);
            }
        }
        proof {
            assert(kinds =~= self.kinds());
        }
        entries
    }
}

fn append_kind(entries: &mut Vec<Entry>, dict: &Dictionary, kind: Kind, Ghost(kinds): Ghost<Seq<Kind>>)
    requires
        entry_views(old(entries)@) == entries_for(dict, kinds),
    ensures
        entry_views(final(entries)@) == entries_for(dict, kinds.push(kind)),
{
    let mut more = list(dict, kind);
    let ghost before = entries@;
    let ghost added = more@;
    entries.append(&mut more);
    proof {
        assert(kinds.push(kind).drop_last() =~= kinds);
        assert(entry_views(added) =~= kind_entries(dict, kind));
        assert(entry_views(entries@) =~= entry_views(before) + entry_views(added));
    }
}

/// The short name of a class of word.
pub open spec fn kind_label_text(kind: Kind) -> Seq<char> {
    match kind {
        Kind::Noun => "noun"@,
        Kind::Adj => "adj"@,
        Kind::Adv => "adv"@,
    }
}

/// The short name of a class of word: `noun`, `adj` or `adv`.
pub fn kind_label(kind: Kind) -> (r: &'static str)
    ensures
        r@ == kind_label_text(kind),
{
    match kind {
        Kind::Noun => "noun",
        Kind::Adj => "adj",
        Kind::Adv => "adv",
    }
}

/// A row of the fixed-width table: the class right-aligned in 4 characters, the word
/// left-aligned in 20, then the position, separated by single spaces.
pub open spec fn fixed_text(kind: Seq<char>, word: Seq<char>, index: Seq<char>) -> Seq<char> {
    pad_left(kind, 4) + seq![' '] + pad_right(word, 20) + seq![' '] + index
}

/// A row of the comma-separated table.
pub open spec fn csv_text(kind: Seq<char>, word: Seq<char>, index: Seq<char>) -> Seq<char> {
    kind + seq![','] + word + seq![','] + index
}

/// Lays out three cells as a row of the fixed-width table.
pub fn fixed_line(kind: &str, word: &str, index: &str) -> (r: String)
    ensures
        r@ == fixed_text(kind@, word@, index@),
{
    let mut line = String::new();
    push_right_aligned(&mut line, kind, 4);
    line.push(' ');
    push_left_aligned(&mut line, word, 20);
    line.push(' ');
    line.append(index);
    proof {
        assert(line@ =~= fixed_text(kind@, word@, index@));
    }
    line
}

/// Lays out three cells as a row of the comma-separated table.
pub fn csv_line(kind: &str, word: &str, index: &str) -> (r: String)
    ensures
        r@ == csv_text(kind@, word@, index@),
{
    let mut line = kind.to_owned();
    line.push(',');
    line.append(word);
    line.push(',');
    line.append(index);
    proof {
        assert(line@ =~= csv_text(kind@, word@, index@));
    }
    line
}

/// The heading row of the fixed-width table.
pub fn fixed_header() -> (r: String)
    ensures
        r@ == fixed_text("type"@, "word"@, "index"@),
{
    fixed_line("type", "word", "index")
}

/// The heading row of the comma-separated table.
pub fn csv_header() -> (r: String)
    ensures
        r@ == csv_text("type"@, "word"@, "index"@),
{
    csv_line("type", "word", "index")
}

/// An entry as a row of the fixed-width table.
pub fn fixed_row(entry: &Entry) -> (r: String)
    ensures
        r@ == fixed_text(kind_label_text(entry.kind), entry.word@, decimal_text(entry.index as nat)),
{
    fixed_line(kind_label(entry.kind), entry.word.as_str(), decimal(entry.index).as_str())
}

/// An entry as a row of the comma-separated table.
pub fn csv_row(entry: &Entry) -> (r: String)
    ensures
        r@ == csv_text(kind_label_text(entry.kind), entry.word@, decimal_text(entry.index as nat)),
{
    csv_line(kind_label(entry.kind), entry.word.as_str(), decimal(entry.index).as_str())
}

/// The fixed-width table of `entries`: the heading row, then one row per entry.
pub fn fixed_table(entries: &[Entry]) -> (r: Vec<String>)
    ensures
        r@.len() == entries@.len() + 1,
        r@[0]@ == fixed_text("type"@, "word"@, "index"@),
        forall|i: int|
            0 <= i < entries@.len() ==> (#[trigger] r@[i + 1])@ == fixed_text(
                kind_label_text(entries@[i].kind),
                entries@[i].word@,
                decimal_text(entries@[i].index as nat),
            ),
{
    let mut rows: Vec<String> = Vec::new();
    rows.push(fixed_header());
    let mut i: usize = 0;
    while i < entries.len()
        invariant
            i <= entries@.len(),
            rows@.len() == i + 1,
            rows@[0]@ == fixed_text("type"@, "word"@, "index"@),
            forall|j: int|
                0 <= j < i ==> (#[trigger] rows@[j + 1])@ == fixed_text(
                    kind_label_text(entries@[j].kind),
                    entries@[j].word@,
                    decimal_text(entries@[j].index as nat),
                ),
        decreases entries@.len() - i,
    {
        rows.push(fixed_row(&entries[i]));
        i = i + 1;
    }
    rows
}

/// The comma-separated table of `entries`: the heading row, then one row per entry.
pub fn csv_table(entries: &[Entry]) -> (r: Vec<String>)
    ensures
        r@.len() == entries@.len() + 1,
        r@[0]@ == csv_text("type"@, "word"@, "index"@),
        forall|i: int|
            0 <= i < entries@.len() ==> (#[trigger] r@[i + 1])@ == csv_text(
                kind_label_text(entries@[i].kind),
                entries@[i].word@,
                decimal_text(entries@[i].index as nat),
            ),
{
    let mut rows: Vec<String> = Vec::new();
    rows.push(csv_header());
    let mut i: usize = 0;
    while i < entries.len()
        invariant
            i <= entries@.len(),
            rows@.len() == i + 1,
            rows@[0]@ == csv_text("type"@, "word"@, "index"@),
            forall|j: int|
                0 <= j < i ==> (#[trigger] rows@[j + 1])@ == csv_text(
                    kind_label_text(entries@[j].kind),
                    entries@[j].word@,
                    decimal_text(entries@[j].index as nat),
                ),
        decreases entries@.len() - i,
    {
        rows.push(csv_row(&entries[i]));
        i = i + 1;
    }
    rows
}

/// The table of `entries` in the row format named by the `--format` option: comma-separated
/// for `csv`, fixed-width for `fixed`, for any other value and when none is given.
pub fn table(entries: &[Entry], format: Option<&str>) -> (r: Vec<String>)
    ensures
        r@.len() == entries@.len() + 1,
        r@[0]@ == (if format is Some && format->0@ == "csv"@ {
            csv_text("type"@, "word"@, "index"@)
        } else {
            fixed_text("type"@, "word"@, "index"@)
        }),
        forall|i: int|
            0 <= i < entries@.len() ==> (#[trigger] r@[i + 1])@ == (if format is Some
                && format->0@ == "csv"@ {
                csv_text(
                    kind_label_text(entries@[i].kind),
                    entries@[i].word@,
                    decimal_text(entries@[i].index as nat),
                )
            } else {
                fixed_text(
                    kind_label_text(entries@[i].kind),
                    entries@[i].word@,
                    decimal_text(entries@[i].index as nat),
                )
            }),
{
    let csv = match format {
        Some(f) => str_eq(f, "csv"),
        None => false,
    };
    if csv {
        csv_table(entries)
    } else {
        fixed_table(entries)
    }
}

} // verus!
