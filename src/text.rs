//! Small operations on strings that the rest of the library builds on.

use vstd::prelude::*;

verus! {

/// Relies on `String::push`, documented to append the given character to the end of the string.
pub assume_specification[ String::push ](s: &mut String, ch: char)
    ensures
        final(s)@ == old(s)@.push(ch),
;

/// Whether two strings hold the same characters.
pub fn str_eq(a: &str, b: &str) -> (r: bool)
    ensures
        r == (a@ == b@),
{
    let n = a.unicode_len();
    if n != b.unicode_len() {
        return false;
    }
    let mut i: usize = 0;
    while i < n
        invariant
            n == a@.len() == b@.len(),
            i <= n,
            forall|j: int| 0 <= j < i ==> a@[j] == b@[j],
        decreases n - i,
    {
        if a.get_char(i) != b.get_char(i) {
            return false;
        }
        i = i + 1;
    }
    proof {
        assert(a@ =~= b@);
    }
    true
}

/// `words` joined by `sep`, with nothing before the first or after the last.
pub open spec fn joined(words: Seq<Seq<char>>, sep: Seq<char>) -> Seq<char>
    decreases words.len(),
{
    if words.len() == 0 {
        Seq::empty()
    } else if words.len() == 1 {
        words[0]
    } else {
        joined(words.drop_last(), sep) + sep + words.last()
    }
}

/// The characters of each string of a list.
pub open spec fn texts(words: Seq<String>) -> Seq<Seq<char>> {
    words.map_values(|w: String| w@)
}

proof fn lemma_joined_push(words: Seq<Seq<char>>, sep: Seq<char>, w: Seq<char>)
    requires
        words.len() > 0,
    ensures
        joined(words.push(w), sep) == joined(words, sep) + sep + w,
{
    assert(words.push(w).drop_last() =~= words);
}

/// Cuts `s` at every `sep`: the pieces hold no `sep`, and joined by it they give `s` back. An
/// empty string gives one empty piece.
pub fn split(s: &str, sep: char) -> (r: Vec<String>)
    ensures
        r@.len() >= 1,
        joined(texts(r@), seq![sep]) == s@,
        forall|i: int| 0 <= i < r@.len() ==> !(#[trigger] r@[i]@).contains(sep),
{
    let n = s.unicode_len();
    let mut done: Vec<String> = Vec::new();
    let mut cur = String::new();
    let mut i: usize = 0;
    while i < n
        invariant
            n == s@.len(),
            i <= n,
            joined(texts(done@).push(cur@), seq![sep]) == s@.take(i as int),
            forall|j: int| 0 <= j < done@.len() ==> !(#[trigger] done@[j]@).contains(sep),
            !cur@.contains(sep),
        decreases n - i,
    {
        let c = s.get_char(i);
        let ghost before = texts(done@);
        assert(s@.take(i + 1) =~= s@.take(i as int).push(c));
        if c == sep {
            proof {
                lemma_joined_push(before.push(cur@), seq![sep], Seq::empty());
                assert(texts(done@.push(cur)) =~= before.push(cur@));
                assert(texts(done@.push(cur)).push(Seq::empty()) =~= before.push(cur@).push(
                    Seq::empty(),
                ));
            }
            done.push(cur);
            cur = String::new();
            proof {
                assert(joined(texts(done@).push(cur@), seq![sep]) =~= s@.take(i + 1));
            }
        } else {
            let ghost old_cur = cur@;
            cur.push(c);
            proof {
                if before.len() == 0 {
                    assert(before.push(old_cur) =~= seq![old_cur]);
                    assert(before.push(cur@) =~= seq![cur@]);
                } else {
                    lemma_joined_push(before, seq![sep], old_cur);
                    lemma_joined_push(before, seq![sep], cur@);
                }
                assert(joined(before.push(cur@), seq![sep]) =~= s@.take(i + 1));
                assert forall|k: int| 0 <= k < cur@.len() implies cur@[k] != sep by {
                    if k < old_cur.len() {
                        assert(cur@[k] == old_cur[k]);
                    }
                }
            }
        }
        i = i + 1;
    }
    let ghost before = texts(done@);
    done.push(cur);
    proof {
        assert(texts(done@) =~= before.push(cur@));
        assert(s@.take(n as int) =~= s@);
    }
    done
}

/// The character of a decimal digit.
pub open spec fn decimal_digit(d: nat) -> char {
    ((d + 48) as u8) as char
}

/// The decimal digits of `n`, without leading zeros.
pub open spec fn decimal_text(n: nat) -> Seq<char>
    decreases n,
{
    if n < 10 {
        seq![decimal_digit(n)]
    } else {
        decimal_text(n / 10).push(decimal_digit(n % 10))
    }
}

/// `n` spaces.
pub open spec fn spaces(n: nat) -> Seq<char> {
    Seq::new(n, |i: int| ' ')
}

/// `s` right-aligned in a field of `w` characters.
pub open spec fn pad_left(s: Seq<char>, w: nat) -> Seq<char> {
    if s.len() < w {
        spaces((w - s.len()) as nat) + s
    } else {
        s
    }
}

/// `s` left-aligned in a field of `w` characters.
pub open spec fn pad_right(s: Seq<char>, w: nat) -> Seq<char> {
    if s.len() < w {
        s + spaces((w - s.len()) as nat)
    } else {
        s
    }
}

/// `n` written in decimal.
pub fn decimal(n: usize) -> (r: String)
    ensures
        r@ == decimal_text(n as nat),
    decreases n,
{
    let c = (((n % 10) as u8) + 48u8) as char;
    let mut s = if n < 10 {
        String::new()
    } else {
        decimal(n / 10)
    };
    s.push(c);
    proof {
        if n < 10 {
            assert(s@ =~= seq![decimal_digit(n as nat)]);
        }
    }
    s
}

/// Appends `k` spaces.
fn push_spaces(s: &mut String, k: usize)
    ensures
        final(s)@ == old(s)@ + spaces(k as nat),
{
    let mut i: usize = 0;
    while i < k
        invariant
            i <= k,
            s@ == old(s)@ + spaces(i as nat),
        decreases k - i,
    {
        s.push(' ');
        i = i + 1;
        proof {
            assert(s@ =~= old(s)@ + spaces(i as nat));
        }
    }
    proof {
        assert(old(s)@ + spaces(0) =~= old(s)@);
    }
}

/// `t` right-aligned in a field of `w` characters, appended to `s`.
pub fn push_right_aligned(s: &mut String, t: &str, w: usize)
    ensures
        final(s)@ == old(s)@ + pad_left(t@, w as nat),
{
    let n = t.unicode_len();
    if n < w {
        push_spaces(s, w - n);
    }
    s.append(t);
    proof {
        if n >= w {
            assert(s@ =~= old(s)@ + t@);
        } else {
            assert(s@ =~= old(s)@ + (spaces((w - n) as nat) + t@));
        }
    }
}

/// `t` left-aligned in a field of `w` characters, appended to `s`.
pub fn push_left_aligned(s: &mut String, t: &str, w: usize)
    ensures
        final(s)@ == old(s)@ + pad_right(t@, w as nat),
{
    let n = t.unicode_len();
    s.append(t);
    if n < w {
        push_spaces(s, w - n);
    }
    proof {
        if n >= w {
            assert(s@ =~= old(s)@ + t@);
        } else {
            assert(s@ =~= old(s)@ + (t@ + spaces((w - n) as nat)));
        }
    }
}

} // verus!
