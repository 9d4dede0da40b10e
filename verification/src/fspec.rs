//! The field specification that opens a record body, and chains of octets
//! that end with a clear extension bit.
//!
//! In each octet of such a chain the least significant bit (FX) says whether
//! another octet follows. In a field specification the other seven bits say
//! which data items the record holds: bit `k` of the presence bits, counted
//! from 0, stands for the item with reference number `k + 1`.

use crate::bits::{fits, BitCursor};
use vstd::prelude::*;

verus! {

/// Why a record was given up.
#[derive(Clone, Copy, Debug, PartialEq, Eq)]
pub enum DecodeError {
    /// The body ends before the field specification or a present item is
    /// complete.
    Truncated,
    /// The field specification asks for an item beyond those of the category.
    UnsupportedItem,
}

/// `value` when `present`, nothing otherwise.
pub open spec fn present_if<T>(present: bool, value: T) -> Option<T> {
    if present {
        Some(value)
    } else {
        None
    }
}

/// The width of an item of `width` bits at `pos`, when it lies inside
/// `bits`.
pub open spec fn fixed_bits(bits: Seq<bool>, pos: int, width: int) -> Option<int> {
    if fits(bits, pos, width) {
        Some(width)
    } else {
        None
    }
}

/// `width` when the item at `pos` starts with an octet inside `bits` and lies
/// inside `bits` as a whole: the width of an item that says in its first
/// octet how long it is.
pub open spec fn counted_bits(bits: Seq<bool>, pos: int, width: int) -> Option<int> {
    if fits(bits, pos, 8) && fits(bits, pos, width) {
        Some(width)
    } else {
        None
    }
}

/// Passes over an item of `octets` octets: the bits it takes, or nothing when
/// fewer are left at `pos`.
pub fn skip_field(cursor: &BitCursor, pos: usize, octets: usize) -> (skipped: Option<usize>)
    ensures
        skipped.is_some() == fits(cursor@, pos as int, octets * 8),
        skipped matches Some(n) ==> Some(n as int) == fixed_bits(cursor@, pos as int, octets * 8),
{
    if pos <= cursor.len_bits() && octets <= cursor.remaining(pos) / 8 {
        Some(octets * 8)
    } else {
        None
    }
}

/// The length in bits of the chain of octets that starts at `pos` and ends
/// with the first octet whose FX bit is clear; nothing when `bits` ends
/// before such an octet.
pub open spec fn fx_chain_bits(bits: Seq<bool>, pos: int) -> Option<int>
    decreases bits.len() - pos,
{
    if !fits(bits, pos, 8) {
        None
    } else if !bits[pos + 7] {
        Some(8)
    } else {
        match fx_chain_bits(bits, pos + 8) {
            Some(n) => Some(n + 8),
            None => None,
        }
    }
}

/// The presence bits of the field specification at `pos`: the seven leading
/// bits of each octet of the chain, FX bits left out.
pub open spec fn fspec_presence(bits: Seq<bool>, pos: int) -> Seq<bool>
    decreases bits.len() - pos,
{
    if !fits(bits, pos, 8) {
        Seq::empty()
    } else if !bits[pos + 7] {
        bits.subrange(pos, pos + 7)
    } else {
        bits.subrange(pos, pos + 7) + fspec_presence(bits, pos + 8)
    }
}

/// A chain that ends inside `bits` is a whole number of octets, at least one,
/// and lies inside `bits`.
pub proof fn lemma_fx_chain_extent(bits: Seq<bool>, pos: int)
    requires
        fx_chain_bits(bits, pos).is_some(),
    ensures
        fx_chain_bits(bits, pos).unwrap() >= 8,
        fx_chain_bits(bits, pos).unwrap() % 8 == 0,
        fits(bits, pos, fx_chain_bits(bits, pos).unwrap()),
    decreases bits.len() - pos,
{
    if bits[pos + 7] {
        lemma_fx_chain_extent(bits, pos + 8);
    }
}

/// In a complete field specification of `n` bits there are `7 * n / 8`
/// presence bits, and the bit for reference number `k + 1` is bit `k % 7` of
/// octet `k / 7`.
pub proof fn lemma_fspec_numbering(bits: Seq<bool>, pos: int, k: int)
    requires
        fx_chain_bits(bits, pos).is_some(),
        0 <= k < fspec_presence(bits, pos).len(),
    ensures
        fspec_presence(bits, pos).len() * 8 == fx_chain_bits(bits, pos).unwrap() * 7,
        fits(bits, pos + 8 * (k / 7), 8),
        fspec_presence(bits, pos)[k] == bits[pos + 8 * (k / 7) + k % 7],
    decreases bits.len() - pos,
{
    lemma_fspec_length(bits, pos);
    if bits[pos + 7] {
        if k >= 7 {
            lemma_fspec_numbering(bits, pos + 8, k - 7);
        }
    }
}

/// A complete field specification of `n` bits has `7 * n / 8` presence bits.
pub proof fn lemma_fspec_length(bits: Seq<bool>, pos: int)
    requires
        fx_chain_bits(bits, pos).is_some(),
    ensures
        fspec_presence(bits, pos).len() * 8 == fx_chain_bits(bits, pos).unwrap() * 7,
    decreases bits.len() - pos,
{
    if bits[pos + 7] {
        lemma_fspec_length(bits, pos + 8);
    }
}

/// Skips a chain of octets that ends with a clear FX bit: its length in
/// bits, or nothing when the view ends first.
pub fn skip_variable_fx(cursor: &BitCursor, pos: usize) -> (skipped: Option<usize>)
    ensures
        skipped.is_some() == fx_chain_bits(cursor@, pos as int).is_some(),
        skipped matches Some(n) ==> Some(n as int) == fx_chain_bits(cursor@, pos as int) && pos + n
            <= usize::MAX,
{
    let ghost bits = cursor@;
    let mut at: usize = pos;
    loop
        invariant
            bits == cursor@,
            pos <= at,
            fx_chain_bits(bits, pos as int) == match fx_chain_bits(bits, at as int) {
                Some(n) => Some(n + (at - pos)),
                None => None,
            },
        decreases bits.len() - at,
    {
        if !cursor.has(at, 8) {
            return None;
        }
        let fx = cursor.bit(at + 7).unwrap();
        if !fx {
            return Some(at - pos + 8);
        }
        at = at + 8;
    }
}

/// Reads the field specification at `pos`: its presence bits and its length
/// in bits, or nothing when the view ends before an octet with a clear FX
/// bit.
pub fn read_fspec(cursor: &BitCursor, pos: usize) -> (fspec: Option<(Vec<bool>, usize)>)
    ensures
        fspec.is_some() == fx_chain_bits(cursor@, pos as int).is_some(),
        fspec matches Some((presence, n)) ==> {
            &&& presence@ == fspec_presence(cursor@, pos as int)
            &&& Some(n as int) == fx_chain_bits(cursor@, pos as int)
            &&& pos + n <= usize::MAX
        },
{
    let ghost bits = cursor@;
    let mut presence: Vec<bool> = Vec::new();
    let mut at: usize = pos;
    loop
        invariant
            bits == cursor@,
            pos <= at,
            fx_chain_bits(bits, pos as int) == match fx_chain_bits(bits, at as int) {
                Some(n) => Some(n + (at - pos)),
                None => None,
            },
            fx_chain_bits(bits, at as int).is_some() ==> fspec_presence(bits, pos as int)
                == presence@ + fspec_presence(bits, at as int),
        decreases bits.len() - at,
    {
        if !cursor.has(at, 8) {
            return None;
        }
        let ghost before = presence@;
        let mut i: usize = 0;
        while i < 7
            invariant
                bits == cursor@,
                fits(bits, at as int, 8),
                at + 8 <= usize::MAX,
                0 <= i <= 7,
                presence@ == before + bits.subrange(at as int, at + i),
            decreases 7 - i,
        {
            let b = cursor.bit(at + i).unwrap();
            presence.push(b);
            assert(presence@ =~= before + bits.subrange(at as int, at + i + 1));
            i = i + 1;
        }
        let fx = cursor.bit(at + 7).unwrap();
        if !fx {
            return Some((presence, at - pos + 8));
        }
        proof {
            if fx_chain_bits(bits, at as int).is_some() {
                assert(before + (bits.subrange(at as int, at + 7) + fspec_presence(bits, at + 8))
                    =~= (before + bits.subrange(at as int, at + 7)) + fspec_presence(
                    bits,
                    at + 8,
                ));
            }
        }
        at = at + 8;
    }
}

} // verus!
