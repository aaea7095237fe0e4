//! The 32-bit key read from a hexadecimal identifier, and the three word indices in it.

use vstd::prelude::*;

use crate::hex::{all_hex, hex_prefix_value, hex_value, lemma_hex_value_bound, lemma_leading_zeros, pow16, zeros};

verus! {

/// A 32-bit key. The adverb index is in its top 12 bits, the adjective index in the next 8 and
/// the noun index in the bottom 12.
#[derive(Debug, PartialEq, Eq, Structural, Copy, Clone)]
pub struct Sha(pub u32);

/// Why a string is no key.
#[derive(Debug, PartialEq, Eq, Structural, Clone, Copy)]
pub enum ParseShaError {
    /// A character that is no hexadecimal digit was found where digits were read.
    NonHexadecimalCharacters,
}

pub const KEY_DIGITS: usize = 8;

const ADV_MASK: u32 = 0xfff0_0000;

const ADJ_MASK: u32 = 0x000f_f000;

const NOUN_MASK: u32 = 0x0000_0fff;

pub open spec fn adverb_index(v: u32) -> u32 {
    (v & 0xfff0_0000) >> 20u32
}

pub open spec fn adjective_index(v: u32) -> u32 {
    (v & 0x000f_f000) >> 12u32
}

pub open spec fn noun_index(v: u32) -> u32 {
    v & 0x0000_0fff
}

/// The eight digits that a key is read from: the first eight characters of `s`, or `s` padded
/// on the left with `0` up to eight characters.
pub open spec fn key_text(s: Seq<char>) -> Seq<char> {
    if s.len() >= 8 {
        s.take(8)
    } else {
        zeros((8 - s.len()) as nat) + s
    }
}

/// The three fields cover the 32 bits of a key exactly: each stays within its width, and
/// putting them back in place gives the key again.
pub proof fn lemma_fields_partition(v: u32)
    ensures
        adverb_index(v) <= 4095,
        adjective_index(v) <= 255,
        noun_index(v) <= 4095,
        (adverb_index(v) << 20u32) | (adjective_index(v) << 12u32) | noun_index(v) == v,
{
    assert((v & 0xfff0_0000) >> 20u32 <= 4095) by (bit_vector);
    assert((v & 0x000f_f000) >> 12u32 <= 255) by (bit_vector);
    assert(v & 0x0000_0fff <= 4095) by (bit_vector);
    assert((((v & 0xfff0_0000) >> 20u32) << 20u32) | (((v & 0x000f_f000) >> 12u32) << 12u32) | (v
        & 0x0000_0fff) == v) by (bit_vector);
}

impl Sha {
    /// Reads a whole string as a hexadecimal number of at most 32 bits.
    pub fn parse(s: &str) -> (r: Result<Sha, ParseShaError>)
        ensures
            r is Ok <==> s@.len() > 0 && all_hex(s@) && hex_value(s@) <= u32::MAX,
            r is Ok ==> r->Ok_0.0 as nat == hex_value(s@),
            r is Err ==> r->Err_0 == ParseShaError::NonHexadecimalCharacters,
    {
        let n = s.unicode_len();
        proof {
            assert(s@.take(n as int) =~= s@);
        }
        if n == 0 {
            return Err(ParseShaError::NonHexadecimalCharacters);
        }
        match hex_prefix_value(s, n) {
            Some(v) => {
                if v <= 0xffff_ffff {
                    Ok(Sha(v as u32))
                } else {
                    Err(ParseShaError::NonHexadecimalCharacters)
                }
            },
            None => Err(ParseShaError::NonHexadecimalCharacters),
        }
    }

    /// Reads the key of an identifier of any length: only its first eight characters count, and
    /// a shorter one is read as if padded on the left with `0`.
    pub fn from_identifier(s: &str) -> (r: Result<Sha, ParseShaError>)
        ensures
            r is Ok <==> all_hex(key_text(s@)),
            r is Ok ==> r->Ok_0.0 as nat == hex_value(key_text(s@)),
            r is Err ==> r->Err_0 == ParseShaError::NonHexadecimalCharacters,
    {
        let len = s.unicode_len();
        let n = if len < KEY_DIGITS {
            len
        } else {
            KEY_DIGITS
        };
        let ghost digits = s@.take(n as int);
        proof {
            if len < 8 {
                assert(digits =~= s@);
                lemma_leading_zeros((8 - len) as nat, s@);
            }
            lemma_hex_value_bound(digits);
            reveal_with_fuel(pow16, 9);
            assert(pow16(8) == 0x1_0000_0000);
            if n < 8 {
                crate::hex::lemma_pow16_le(n as nat, 8);
            }
        }
        match hex_prefix_value(s, n) {
            Some(v) => Ok(Sha(v as u32)),
            None => Err(ParseShaError::NonHexadecimalCharacters),
        }
    }

    /// The adverb index: the top 12 bits.
    pub fn adverb(&self) -> (r: usize)
        ensures
            r == adverb_index(self.0),
    {
        ((self.0 & ADV_MASK) >> 20u32) as usize
    }

    /// The adjective index: the 8 bits below the adverb's.
    pub fn adjective(&self) -> (r: usize)
        ensures
            r == adjective_index(self.0),
    {
        ((self.0 & ADJ_MASK) >> 12u32) as usize
    }

    /// The noun index: the bottom 12 bits.
    pub fn noun(&self) -> (r: usize)
        ensures
            r == noun_index(self.0),
    {
        (self.0 & NOUN_MASK) as usize
    }
}

impl std::str::FromStr for Sha {
    type Err = ParseShaError;

    fn from_str(s: &str) -> Result<Sha, ParseShaError> {
        Sha::parse(s)
    }
}

} // verus!
