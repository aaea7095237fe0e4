//! Hexadecimal digits and the numbers that strings of them denote.

use vstd::prelude::*;

verus! {

/// `c` is one of `0-9`, `a-f` or `A-F`.
pub open spec fn is_hex_digit(c: char) -> bool {
    ('0' <= c && c <= '9') || ('a' <= c && c <= 'f') || ('A' <= c && c <= 'F')
}

/// The value of a hexadecimal digit (0 for any other character).
pub open spec fn hex_digit_value(c: char) -> nat {
    if '0' <= c && c <= '9' {
        (c as u32 - '0' as u32) as nat
    } else if 'a' <= c && c <= 'f' {
        (c as u32 - 'a' as u32 + 10) as nat
    } else if 'A' <= c && c <= 'F' {
        (c as u32 - 'A' as u32 + 10) as nat
    } else {
        0
    }
}

/// Every character of `s` is a hexadecimal digit.
pub open spec fn all_hex(s: Seq<char>) -> bool {
    forall|i: int| 0 <= i < s.len() ==> #[trigger] is_hex_digit(s[i])
}

/// The number that the digits of `s` denote in base 16, most significant first.
pub open spec fn hex_value(s: Seq<char>) -> nat
    decreases s.len(),
{
    if s.len() == 0 {
        0
    } else {
        hex_value(s.drop_last()) * 16 + hex_digit_value(s.last())
    }
}

/// `16^n`.
pub open spec fn pow16(n: nat) -> nat
    decreases n,
{
    if n == 0 {
        1
    } else {
        16 * pow16((n - 1) as nat)
    }
}

/// `n` copies of the digit `0`.
pub open spec fn zeros(n: nat) -> Seq<char> {
    Seq::new(n, |i: int| '0')
}

pub proof fn lemma_hex_digit_value_bound(c: char)
    ensures
        hex_digit_value(c) < 16,
{
}

pub proof fn lemma_pow16_positive(n: nat)
    ensures
        pow16(n) >= 1,
    decreases n,
{
    if n > 0 {
        lemma_pow16_positive((n - 1) as nat);
    }
}

/// The digits of `a` followed by those of `b` denote `a`'s value shifted by `b`'s length.
pub proof fn lemma_hex_value_append(a: Seq<char>, b: Seq<char>)
    ensures
        hex_value(a + b) == hex_value(a) * pow16(b.len()) + hex_value(b),
    decreases b.len(),
{
    if b.len() == 0 {
        assert(a + b =~= a);
        assert(pow16(0) == 1);
        assert(hex_value(b) == 0);
    } else {
        let b0 = b.drop_last();
        assert((a + b).drop_last() =~= a + b0);
        assert((a + b).last() == b.last());
        lemma_hex_value_append(a, b0);
        assert(hex_value(a + b) == (hex_value(a) * pow16(b0.len()) + hex_value(b0)) * 16
            + hex_digit_value(b.last()));
        assert((hex_value(a) * pow16(b0.len()) + hex_value(b0)) * 16 == hex_value(a) * (16
            * pow16(b0.len())) + hex_value(b0) * 16) by (nonlinear_arith);
        assert(pow16(b.len()) == 16 * pow16(b0.len()));
        assert(hex_value(b) == hex_value(b0) * 16 + hex_digit_value(b.last()));
    }
}

/// `n` digits denote less than `16^n`.
pub proof fn lemma_hex_value_bound(s: Seq<char>)
    ensures
        hex_value(s) < pow16(s.len()),
    decreases s.len(),
{
    if s.len() > 0 {
        let s0 = s.drop_last();
        lemma_hex_value_bound(s0);
        lemma_hex_digit_value_bound(s.last());
        assert(hex_value(s0) * 16 + hex_digit_value(s.last()) < pow16(s0.len()) * 16)
            by (nonlinear_arith)
            requires
                hex_value(s0) < pow16(s0.len()),
                hex_digit_value(s.last()) < 16,
        ;
    }
}

pub proof fn lemma_zeros_value(n: nat)
    ensures
        hex_value(zeros(n)) == 0,
    decreases n,
{
    if n > 0 {
        assert(zeros(n).drop_last() =~= zeros((n - 1) as nat));
        lemma_zeros_value((n - 1) as nat);
    }
}

/// Leading zeros change neither the value nor the validity of a string of digits.
pub proof fn lemma_leading_zeros(n: nat, s: Seq<char>)
    ensures
        hex_value(zeros(n) + s) == hex_value(s),
        all_hex(zeros(n) + s) == all_hex(s),
{
    lemma_hex_value_append(zeros(n), s);
    lemma_zeros_value(n);
    let t = zeros(n) + s;
    if all_hex(s) {
        assert forall|i: int| 0 <= i < t.len() implies #[trigger] is_hex_digit(t[i]) by {
            if i >= n {
                assert(t[i] == s[i - n]);
            }
        }
    }
    if all_hex(t) {
        assert forall|i: int| 0 <= i < s.len() implies #[trigger] is_hex_digit(s[i]) by {
            assert(t[i + n] == s[i]);
        }
    }
}

/// The value of one digit, or `None` for any other character.
pub fn hex_digit(c: char) -> (r: Option<u64>)
    ensures
        r is Some <==> is_hex_digit(c),
        r is Some ==> r->0 as nat == hex_digit_value(c),
{
    if '0' <= c && c <= '9' {
        Some((c as u32 - '0' as u32) as u64)
    } else if 'a' <= c && c <= 'f' {
        Some((c as u32 - 'a' as u32 + 10) as u64)
    } else if 'A' <= c && c <= 'F' {
        Some((c as u32 - 'A' as u32 + 10) as u64)
    } else {
        None
    }
}

/// The value of the first `n` characters of `s` read as hexadecimal digits; `None` when one of
/// them is no digit or the value does not fit in 64 bits.
pub fn hex_prefix_value(s: &str, n: usize) -> (r: Option<u64>)
    requires
        n <= s@.len(),
    ensures
        r is Some <==> all_hex(s@.take(n as int)) && hex_value(s@.take(n as int)) <= u64::MAX,
        r is Some ==> r->0 as nat == hex_value(s@.take(n as int)),
{
    let mut value: u64 = 0;
    let mut i: usize = 0;
    while i < n
        invariant
            i <= n <= s@.len(),
            all_hex(s@.take(i as int)),
            value as nat == hex_value(s@.take(i as int)),
        decreases n - i,
    {
        let c = s.get_char(i);
        let ghost next = s@.take(i + 1);
        assert(next.drop_last() =~= s@.take(i as int));
        assert(next.last() == c);
        match hex_digit(c) {
            None => {
                proof {
                    assert(!is_hex_digit(s@.take(n as int)[i as int]));
                }
                return None;
            },
            Some(d) => {
                if value > 0x0fff_ffff_ffff_ffff {
                    proof {
                        lemma_hex_value_append(next, s@.take(n as int).skip(i + 1));
                        assert(next + s@.take(n as int).skip(i + 1) =~= s@.take(n as int));
                        lemma_pow16_positive((n - i - 1) as nat);
                        assert(hex_value(next) * pow16((n - i - 1) as nat) >= hex_value(next))
                            by (nonlinear_arith)
                            requires
                                pow16((n - i - 1) as nat) >= 1,
                        ;
                    }
                    return None;
                }
                value = value * 16 + d;
                proof {
                    assert forall|j: int| 0 <= j < next.len() implies #[trigger] is_hex_digit(
                        next[j],
                    ) by {
                        if j < i {
                            assert(next[j] == s@.take(i as int)[j]);
                        }
                    }
                }
            },
        }
        i = i + 1;
    }
    proof {
        assert(s@.take(n as int) =~= s@.take(i as int));
    }
    Some(value)
}

/// `c` is one of `0-9` or `a-f`.
pub open spec fn is_lower_hex_digit(c: char) -> bool {
    ('0' <= c && c <= '9') || ('a' <= c && c <= 'f')
}

/// The lower-case digit of a value below 16.
pub fn digit_char(d: u32) -> (c: char)
    requires
        d < 16,
    ensures
        is_lower_hex_digit(c),
        is_hex_digit(c),
        hex_digit_value(c) == d,
{
    if d < 10 {
        ((d as u8) + 48u8) as char
    } else {
        ((d as u8) + 87u8) as char
    }
}

pub proof fn lemma_pow16_le(a: nat, b: nat)
    requires
        a <= b,
    ensures
        pow16(a) <= pow16(b),
    decreases b - a,
{
    if a < b {
        lemma_pow16_le(a, (b - 1) as nat);
        lemma_pow16_positive((b - 1) as nat);
    }
}

/// The eight lower-case hexadecimal digits of `v`, with leading zeros.
pub fn to_hex8(v: u32) -> (r: String)
    ensures
        r@.len() == 8,
        all_hex(r@),
        forall|i: int| 0 <= i < 8 ==> is_lower_hex_digit(#[trigger] r@[i]),
        hex_value(r@) == v,
{
    let mut r = String::new();
    let mut d: u32 = 0x1000_0000;
    let mut k: u32 = 0;
    proof {
        reveal_with_fuel(pow16, 9);
        assert(pow16(8) == 0x1_0000_0000);
        assert(pow16(7) == 0x1000_0000);
        assert(v as nat / 0x1_0000_0000 == 0);
        assert(r@ =~= Seq::<char>::empty());
    }
    while k < 8
        invariant
            k <= 8,
            r@.len() == k,
            k < 8 ==> d as nat == pow16((7 - k) as nat),
            all_hex(r@),
            forall|i: int| 0 <= i < k ==> is_lower_hex_digit(#[trigger] r@[i]),
            hex_value(r@) == v as nat / pow16((8 - k) as nat),
        decreases 8 - k,
    {
        proof {
            lemma_pow16_positive((7 - k) as nat);
        }
        let q = v / d;
        let c = digit_char(q % 16);
        let ghost old_r = r@;
        proof {
            let p = pow16((7 - k) as nat);
            assert(pow16((8 - k) as nat) == 16 * p);
            lemma_pow16_positive((7 - k) as nat);
            vstd::arithmetic::div_mod::lemma_div_denominator(v as int, p as int, 16);
            assert(v as nat / pow16((8 - k) as nat) == (q as nat) / 16);
            vstd::arithmetic::div_mod::lemma_fundamental_div_mod(q as int, 16);
        }
        r.push(c);
        proof {
            assert(r@.drop_last() =~= old_r);
            assert forall|i: int| 0 <= i < r@.len() implies #[trigger] is_hex_digit(r@[i]) by {
                if i < old_r.len() {
                    assert(r@[i] == old_r[i]);
                }
            }
            assert forall|i: int| 0 <= i < k + 1 implies is_lower_hex_digit(#[trigger] r@[i]) by {
                if i < old_r.len() {
                    assert(r@[i] == old_r[i]);
                }
            }
        }
        d = d / 16;
        k = k + 1;
    }
    proof {
        assert(pow16(0) == 1);
        assert(v as nat / 1 == v);
    }
    r
}

} // verus!
