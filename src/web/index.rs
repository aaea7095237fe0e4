//! The names of a list of identifiers.

use vstd::prelude::*;

use crate::case::Case;
use crate::dictionary::Dictionary;
use crate::web::param::{Format, CSV};
use crate::web::show::{name_for, name_of};

verus! {

/// The query of the bulk endpoint.
pub struct Params {
    pub shas: CSV,
    pub format: Option<Format>,
}

/// Each identifier asked for, once, with its name, or `None` when it has none.
#[derive(Debug, PartialEq, Eq)]
pub struct BulkNames {
    pub names: Vec<(String, Option<String>)>,
}

/// The characters of an optional string.
pub open spec fn opt_text(o: Option<String>) -> Option<Seq<char>> {
    match o {
        Some(s) => Some(s@),
        None => None,
    }
}

/// Some pair of `names` has `key` as its identifier.
pub open spec fn has_key(names: Seq<(String, Option<String>)>, key: Seq<char>) -> bool {
    exists|i: int| 0 <= i < names.len() && (#[trigger] names[i]).0@ == key
}

/// Some string of `shas` is `key`.
pub open spec fn listed(shas: Seq<String>, key: Seq<char>) -> bool {
    exists|k: int| 0 <= k < shas.len() && (#[trigger] shas[k])@ == key
}

/// Whether some pair of `names` has `key` as its identifier.
fn contains_key(names: &Vec<(String, Option<String>)>, key: &String) -> (r: bool)
    ensures
        r == has_key(names@, key@),
{
    let mut i: usize = 0;
    while i < names.len()
        invariant
            i <= names@.len(),
            forall|j: int| 0 <= j < i ==> (#[trigger] names@[j]).0@ != key@,
        decreases names@.len() - i,
    {
        if names[i].0 == *key {
            return true;
        }
        i = i + 1;
    }
    false
}

impl BulkNames {
    pub fn new(names: Vec<(String, Option<String>)>) -> (r: BulkNames)
        ensures
            r.names == names,
    {
        BulkNames { names }
    }

    /// Names every identifier of `shas` in `case`. Each identifier is listed once, with its name
    /// or `None`, and nothing else is.
    pub fn from_list(dict: &Dictionary, case: Case, shas: &[String]) -> (r: BulkNames)
        ensures
            forall|i: int, j: int|
                0 <= i < j < r.names@.len() ==> r.names@[i].0@ != r.names@[j].0@,
            forall|i: int| 0 <= i < r.names@.len() ==> listed(shas@, (#[trigger] r.names@[i]).0@),
            forall|j: int| 0 <= j < shas@.len() ==> has_key(r.names@, (#[trigger] shas@[j])@),
            forall|i: int|
                0 <= i < r.names@.len() ==> opt_text((#[trigger] r.names@[i]).1) == name_of(
                    dict,
                    case,
                    r.names@[i].0@,
                ),
    {
        let mut names: Vec<(String, Option<String>)> = Vec::new();
        let mut j: usize = 0;
        while j < shas.len()
            invariant
                j <= shas@.len(),
                forall|a: int, b: int|
                    0 <= a < b < names@.len() ==> names@[a].0@ != names@[b].0@,
                forall|i: int|
                    0 <= i < names@.len() ==> listed(
                        shas@.take(j as int),
                        (#[trigger] names@[i]).0@,
                    ),
                forall|k: int| 0 <= k < j ==> has_key(names@, (#[trigger] shas@[k])@),
                forall|i: int|
                    0 <= i < names@.len() ==> opt_text((#[trigger] names@[i]).1) == name_of(
                        dict,
                        case,
                        names@[i].0@,
                    ),
            decreases shas@.len() - j,
        {
            let sha = &shas[j];
            let ghost before = names@;
            let ghost seen = shas@.take(j as int);
            let ghost seen_next = shas@.take(j + 1);
            assert(seen_next =~= seen.push(shas@[j as int]));
            if !contains_key(&names, sha) {
                let name = name_for(dict, case, sha.as_str());
                names.push((sha.clone(), name));
                proof {
                    assert(names@[before.len() as int].0@ == sha@);
                    assert(seen_next[j as int] == shas@[j as int]);
                    assert forall|i: int| 0 <= i < names@.len() implies listed(
                        seen_next,
                        (#[trigger] names@[i]).0@,
                    ) by {
                        if i < before.len() {
                            assert(names@[i] == before[i]);
                            let k = choose|k: int|
                                0 <= k < seen.len() && (#[trigger] seen[k])@ == before[i].0@;
                            assert(seen_next[k] == seen[k]);
                        }
                    }
                    assert forall|k: int| 0 <= k < j + 1 implies has_key(
                        names@,
                        (#[trigger] shas@[k])@,
                    ) by {
                        if k < j {
                            let i = choose|i: int|
                                0 <= i < before.len() && (#[trigger] before[i]).0@ == shas@[k]@;
                            assert(names@[i] == before[i]);
                        } else {
                            assert(names@[before.len() as int].0@ == shas@[k]@);
                        }
                    }
                }
            } else {
                proof {
                    assert forall|i: int| 0 <= i < names@.len() implies listed(
                        seen_next,
                        (#[trigger] names@[i]).0@,
                    ) by {
                        let k = choose|k: int|
                            0 <= k < seen.len() && (#[trigger] seen[k])@ == names@[i].0@;
                        assert(seen_next[k] == seen[k]);
                    }
                }
            }
            j = j + 1;
        }
        proof {
            assert(shas@.take(j as int) =~= shas@);
        }
        BulkNames { names }
    }
}

} // verus!
