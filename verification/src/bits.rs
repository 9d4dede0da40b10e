//! A read-only cursor over a byte buffer, addressed in bits.
//!
//! Bit 0 of the buffer is the most significant bit of its first octet; a
//! field of several bits is a big-endian number.

use bitvec::field::BitField;
use bitvec::order::Msb0;
use bitvec::view::BitView;
use vstd::arithmetic::power2::{
    lemma2_to64, lemma2_to64_rest, lemma_pow2_strictly_increases, lemma_pow2_unfold, pow2,
};
use vstd::prelude::*;

verus! {

/// The weight of bit `i` of an octet, bit 0 being the most significant.
pub open spec fn msb_weight(i: int) -> int {
    if i == 0 {
        128
    } else if i == 1 {
        64
    } else if i == 2 {
        32
    } else if i == 3 {
        16
    } else if i == 4 {
        8
    } else if i == 5 {
        4
    } else if i == 6 {
        2
    } else {
        1
    }
}

/// Bit `i` of an octet, counted from the most significant bit.
pub open spec fn octet_bit(octet: u8, i: int) -> bool {
    (octet as int / msb_weight(i)) % 2 == 1
}

/// The bits of a byte sequence, most significant bit of each octet first.
pub open spec fn bits_of(bytes: Seq<u8>) -> Seq<bool> {
    Seq::new(bytes.len() * 8, |i: int| octet_bit(bytes[i / 8], i % 8))
}

/// The number that a run of bits spells, most significant bit first.
pub open spec fn be_value(bits: Seq<bool>) -> nat
    decreases bits.len(),
{
    if bits.len() == 0 {
        0
    } else {
        2 * be_value(bits.drop_last()) + if bits.last() {
            1nat
        } else {
            0nat
        }
    }
}

/// Whether `width` bits starting at `pos` lie inside `bits`.
pub open spec fn fits(bits: Seq<bool>, pos: int, width: int) -> bool {
    0 <= pos && 0 <= width && pos + width <= bits.len()
}

/// The unsigned number held by the `width` bits that start at `pos`.
pub open spec fn unsigned(bits: Seq<bool>, pos: int, width: int) -> int {
    be_value(bits.subrange(pos, pos + width)) as int
}

/// The two's-complement number held by the `width` bits that start at `pos`.
pub open spec fn signed(bits: Seq<bool>, pos: int, width: int) -> int {
    if unsigned(bits, pos, width) >= pow2((width - 1) as nat) {
        unsigned(bits, pos, width) - pow2(width as nat)
    } else {
        unsigned(bits, pos, width)
    }
}

/// A run of `n` bits spells a number below 2^n.
pub proof fn lemma_be_value_bound(bits: Seq<bool>)
    ensures
        be_value(bits) < pow2(bits.len()),
    decreases bits.len(),
{
    if bits.len() == 0 {
        lemma2_to64();
    } else {
        lemma_be_value_bound(bits.drop_last());
        lemma_pow2_unfold(bits.len());
    }
}

/// A field of `width` bits holds a number below 2^`width`.
pub proof fn lemma_unsigned_bound(bits: Seq<bool>, pos: int, width: int)
    requires
        fits(bits, pos, width),
    ensures
        0 <= unsigned(bits, pos, width) < pow2(width as nat),
{
    lemma_be_value_bound(bits.subrange(pos, pos + width));
}

/// A field of one bit holds 1 when the bit is set and 0 when it is clear.
pub proof fn lemma_unsigned_single(bits: Seq<bool>, pos: int)
    requires
        fits(bits, pos, 1),
    ensures
        unsigned(bits, pos, 1) == if bits[pos] {
            1int
        } else {
            0int
        },
{
    let s = bits.subrange(pos, pos + 1);
    assert(s.drop_last().len() == 0);
    assert(be_value(s.drop_last()) == 0);
    assert(s.last() == bits[pos]);
}

/// A field splits into its leading bits and its last `low` bits: the leading
/// bits count 2^`low` each.
pub proof fn lemma_unsigned_split(bits: Seq<bool>, pos: int, width: int, low: int)
    requires
        fits(bits, pos, width),
        0 <= low <= width,
    ensures
        unsigned(bits, pos, width) == unsigned(bits, pos, width - low) * pow2(low as nat)
            + unsigned(bits, pos + width - low, low),
    decreases low,
{
    if low == 0 {
        lemma2_to64();
        assert(bits.subrange(pos + width, pos + width).len() == 0);
        assert(unsigned(bits, pos + width, 0) == 0);
        assert(unsigned(bits, pos, width) * 1 == unsigned(bits, pos, width));
    } else {
        let whole = bits.subrange(pos, pos + width);
        let tail = bits.subrange(pos + width - low, pos + width);
        assert(whole.drop_last() =~= bits.subrange(pos, pos + width - 1));
        assert(tail.drop_last() =~= bits.subrange(pos + width - low, pos + width - 1));
        assert(whole.last() == tail.last());
        lemma_unsigned_split(bits, pos, width - 1, low - 1);
        lemma_pow2_unfold(low as nat);
        let head = unsigned(bits, pos, width - low);
        let p = pow2((low - 1) as nat);
        let last: int = if whole.last() {
            1
        } else {
            0
        };
        assert(unsigned(bits, pos, width) == 2 * unsigned(bits, pos, width - 1) + last);
        assert(unsigned(bits, pos + width - low, low) == 2 * unsigned(
            bits,
            pos + width - low,
            low - 1,
        ) + last);
        assert(unsigned(bits, pos, width - 1) == head * p + unsigned(
            bits,
            pos + width - low,
            low - 1,
        ));
        assert(2 * (head * p) == head * (2 * p)) by (nonlinear_arith);
    }
}

/// The number that the eight bits of an octet spell is the octet.
pub proof fn lemma_octet_bits(octet: u8)
    ensures
        be_value(Seq::new(8, |i: int| octet_bit(octet, i))) == octet,
{
    let s = Seq::new(8, |i: int| octet_bit(octet, i));
    let s7 = s.drop_last();
    let s6 = s7.drop_last();
    let s5 = s6.drop_last();
    let s4 = s5.drop_last();
    let s3 = s4.drop_last();
    let s2 = s3.drop_last();
    let s1 = s2.drop_last();
    let s0 = s1.drop_last();
    assert(be_value(s0) == 0);
    assert(s1.last() == octet_bit(octet, 0));
    assert(be_value(s1) == octet / 128);
    assert(s2.last() == octet_bit(octet, 1));
    assert(be_value(s2) == octet / 64);
    assert(s3.last() == octet_bit(octet, 2));
    assert(be_value(s3) == octet / 32);
    assert(s4.last() == octet_bit(octet, 3));
    assert(be_value(s4) == octet / 16);
    assert(s5.last() == octet_bit(octet, 4));
    assert(be_value(s5) == octet / 8);
    assert(s6.last() == octet_bit(octet, 5));
    assert(be_value(s6) == octet / 4);
    assert(s7.last() == octet_bit(octet, 6));
    assert(be_value(s7) == octet / 2);
    assert(s.last() == octet_bit(octet, 7));
}

/// The eight bits of octet `k` of a byte sequence, read as a field, give
/// that octet.
pub proof fn lemma_octet_value(bytes: Seq<u8>, k: int)
    requires
        0 <= k < bytes.len(),
    ensures
        fits(bits_of(bytes), 8 * k, 8),
        unsigned(bits_of(bytes), 8 * k, 8) == bytes[k],
{
    lemma_octet_bits(bytes[k]);
    assert(bits_of(bytes).subrange(8 * k, 8 * k + 8) =~= Seq::new(
        8,
        |i: int| octet_bit(bytes[k], i),
    ));
}

/// `bitvec`'s big-endian load from an `Msb0` view of a byte slice: the bits
/// `from..to` of the slice, read as one unsigned number whose most
/// significant bit is bit `from`. The view is refused by `bitvec` for slices
/// too long to address in bits, and the load for an empty range or one wider
/// than the integer, so those are left out.
#[verifier::external_body]
fn msb0_load_be(bytes: &[u8], from: usize, to: usize) -> (value: u64)
    requires
        bytes@.len() <= usize::MAX / 64,
        from < to,
        to <= bytes@.len() * 8,
        to - from <= 64,
    ensures
        value as nat == be_value(bits_of(bytes@).subrange(from as int, to as int)),
{
    bytes.view_bits::<Msb0>()[from..to].load_be::<u64>()
}

/// `bitvec`'s indexing of an `Msb0` view of a byte slice by a bit position:
/// bit `index` of the slice, bit 0 being the most significant bit of the
/// first octet.
#[verifier::external_body]
fn msb0_bit(bytes: &[u8], index: usize) -> (bit: bool)
    requires
        bytes@.len() <= usize::MAX / 64,
        index < bytes@.len() * 8,
    ensures
        bit == bits_of(bytes@)[index as int],
{
    bytes.view_bits::<Msb0>()[index]
}

/// A window of bits over a borrowed byte buffer. The cursor never changes the
/// buffer; a subview shares it.
#[derive(Clone, Copy, Debug)]
pub struct BitCursor<'a> {
    bytes: &'a [u8],
    start: usize,
    len: usize,
}

impl<'a> View for BitCursor<'a> {
    type V = Seq<bool>;

    /// The bits that the cursor can see, in order.
    closed spec fn view(&self) -> Seq<bool> {
        bits_of(self.bytes@).subrange(self.start as int, self.start + self.len)
    }
}

impl<'a> BitCursor<'a> {
    #[verifier::type_invariant]
    spec fn inv(&self) -> bool {
        &&& self.bytes@.len() <= usize::MAX / 64
        &&& self.start + self.len <= self.bytes@.len() * 8
    }

    /// A cursor over all the bits of `bytes`.
    pub fn new(bytes: &'a [u8]) -> (cursor: Self)
        requires
            bytes@.len() <= usize::MAX / 64,
        ensures
            cursor@ == bits_of(bytes@),
    {
        let cursor = BitCursor { bytes, start: 0, len: bytes.len() * 8 };
        assert(cursor@ =~= bits_of(bytes@));
        cursor
    }

    /// The number of bits in view.
    pub fn len_bits(&self) -> (n: usize)
        ensures
            n == self@.len(),
            n <= usize::MAX / 8,
    {
        proof {
            use_type_invariant(self);
        }
        self.len
    }

    /// The number of bits from `pos` to the end of the view; none past it.
    pub fn remaining(&self, pos: usize) -> (n: usize)
        ensures
            n == if pos <= self@.len() {
                self@.len() - pos
            } else {
                0
            },
    {
        proof {
            use_type_invariant(self);
        }
        if pos <= self.len {
            self.len - pos
        } else {
            0
        }
    }

    /// Whether `width` bits starting at `pos` are in view.
    pub fn has(&self, pos: usize, width: usize) -> (b: bool)
        ensures
            b == fits(self@, pos as int, width as int),
            b ==> pos + width <= usize::MAX,
    {
        proof {
            use_type_invariant(self);
        }
        pos <= self.len && width <= self.len - pos
    }

    /// The bit at `pos`, or nothing when `pos` is past the end.
    pub fn bit(&self, pos: usize) -> (b: Option<bool>)
        ensures
            b == if pos < self@.len() {
                Some(self@[pos as int])
            } else {
                None
            },
    {
        proof {
            use_type_invariant(self);
        }
        if pos < self.len {
            Some(msb0_bit(self.bytes, self.start + pos))
        } else {
            None
        }
    }

    /// The unsigned number in the `width` bits at `pos`, for a width of 1 to
    /// 64 bits that lie in view; nothing otherwise.
    pub fn load_unsigned(&self, pos: usize, width: usize) -> (value: Option<u64>)
        ensures
            value.is_some() == (1 <= width <= 64 && fits(self@, pos as int, width as int)),
            value matches Some(v) ==> v as int == unsigned(self@, pos as int, width as int),
    {
        proof {
            use_type_invariant(self);
        }
        if width < 1 || width > 64 || !self.has(pos, width) {
            return None;
        }
        let from = self.start + pos;
        let v = msb0_load_be(self.bytes, from, from + width);
        assert(self@.subrange(pos as int, pos + width) =~= bits_of(self.bytes@).subrange(
            from as int,
            from + width,
        ));
        Some(v)
    }

    /// The two's-complement number in the `width` bits at `pos`, for a width
    /// of 1 to 64 bits that lie in view; nothing otherwise.
    pub fn load_signed(&self, pos: usize, width: usize) -> (value: Option<i64>)
        ensures
            value.is_some() == (1 <= width <= 64 && fits(self@, pos as int, width as int)),
            value matches Some(v) ==> v as int == signed(self@, pos as int, width as int),
    {
        match self.load_unsigned(pos, width) {
            None => None,
            Some(u) => {
                let half = half_range(width);
                proof {
                    lemma_unsigned_bound(self@, pos as int, width as int);
                    lemma_pow2_unfold(width as nat);
                    lemma2_to64();
                    lemma2_to64_rest();
                    if width < 64 {
                        lemma_pow2_strictly_increases((width - 1) as nat, 63);
                    }
                }
                if u >= half {
                    let low: i64 = (u - half) as i64;
                    if width == 64 {
                        Some(low + i64::MIN)
                    } else {
                        Some(low - (half as i64))
                    }
                } else {
                    Some(u as i64)
                }
            },
        }
    }

    /// The bit at `pos`, which lies in view.
    pub fn flag(&self, pos: usize) -> (b: bool)
        requires
            fits(self@, pos as int, 1),
        ensures
            b == self@[pos as int],
    {
        self.bit(pos).unwrap()
    }

    /// The unsigned number in a field of 1 to 8 bits that lies in view.
    pub fn field_u8(&self, pos: usize, width: usize) -> (v: u8)
        requires
            1 <= width <= 8,
            fits(self@, pos as int, width as int),
        ensures
            v as int == unsigned(self@, pos as int, width as int),
    {
        let v = self.load_unsigned(pos, width).unwrap();
        proof {
            lemma_unsigned_bound(self@, pos as int, width as int);
            lemma2_to64();
            if width < 8 {
                lemma_pow2_strictly_increases(width as nat, 8);
            }
        }
        v as u8
    }

    /// The unsigned number in a field of 1 to 16 bits that lies in view.
    pub fn field_u16(&self, pos: usize, width: usize) -> (v: u16)
        requires
            1 <= width <= 16,
            fits(self@, pos as int, width as int),
        ensures
            v as int == unsigned(self@, pos as int, width as int),
    {
        let v = self.load_unsigned(pos, width).unwrap();
        proof {
            lemma_unsigned_bound(self@, pos as int, width as int);
            lemma2_to64();
            if width < 16 {
                lemma_pow2_strictly_increases(width as nat, 16);
            }
        }
        v as u16
    }

    /// The unsigned number in a field of 1 to 32 bits that lies in view.
    pub fn field_u32(&self, pos: usize, width: usize) -> (v: u32)
        requires
            1 <= width <= 32,
            fits(self@, pos as int, width as int),
        ensures
            v as int == unsigned(self@, pos as int, width as int),
    {
        let v = self.load_unsigned(pos, width).unwrap();
        proof {
            lemma_unsigned_bound(self@, pos as int, width as int);
            lemma2_to64();
            if width < 32 {
                lemma_pow2_strictly_increases(width as nat, 32);
            }
        }
        v as u32
    }

    /// The two's-complement number in a field of 1 to 32 bits that lies in
    /// view.
    pub fn field_i32(&self, pos: usize, width: usize) -> (v: i32)
        requires
            1 <= width <= 32,
            fits(self@, pos as int, width as int),
        ensures
            v as int == signed(self@, pos as int, width as int),
    {
        let v = self.load_signed(pos, width).unwrap();
        proof {
            lemma_unsigned_bound(self@, pos as int, width as int);
            lemma_pow2_unfold(width as nat);
            lemma2_to64();
            if width < 32 {
                lemma_pow2_strictly_increases(width as nat, 32);
            }
        }
        v as i32
    }

    /// The window of `width` bits that starts at `pos`, over the same buffer;
    /// nothing when it would reach past the end.
    pub fn subview(&self, pos: usize, width: usize) -> (sub: Option<BitCursor<'a>>)
        ensures
            sub.is_some() == fits(self@, pos as int, width as int),
            sub matches Some(c) ==> c@ == self@.subrange(pos as int, pos + width),
    {
        proof {
            use_type_invariant(self);
        }
        if !self.has(pos, width) {
            return None;
        }
        let c = BitCursor { bytes: self.bytes, start: self.start + pos, len: width };
        assert(c@ =~= self@.subrange(pos as int, pos + width));
        Some(c)
    }
}

/// 2^(`width` - 1): the least number that a field of `width` bits holds with
/// its sign bit set.
fn half_range(width: usize) -> (half: u64)
    requires
        1 <= width <= 64,
    ensures
        half as nat == pow2((width - 1) as nat),
{
    let mut half: u64 = 1;
    let mut k: usize = 1;
    proof {
        lemma2_to64();
    }
    while k < width
        invariant
            1 <= k <= width <= 64,
            half as nat == pow2((k - 1) as nat),
        decreases width - k,
    {
        proof {
            lemma_pow2_unfold(k as nat);
            lemma_pow2_strictly_increases(k as nat, 64);
            lemma2_to64();
            lemma2_to64_rest();
        }
        half = half * 2;
        k = k + 1;
    }
    half
}

} // verus!
