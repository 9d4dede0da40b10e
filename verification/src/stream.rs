//! The stream driver: frames a capture into records and decodes each.
//!
//! A frame is a category octet, two octets of length and the record body.
//! The length counts the octets of the whole frame; its most significant bit
//! is not part of the number. The next frame starts where the length says,
//! whatever the body was found to hold.

use crate::bits::{
    bits_of, fits, lemma_octet_value, lemma_unsigned_split, unsigned, BitCursor,
};
use crate::cat21::{cat21_record, decode_cat21, lemma_cat21_unterminated_fspec, Cat21};
use crate::cat48::{cat48_record, decode_cat48, lemma_cat48_unterminated_fspec, Cat48};
use crate::fspec::{fx_chain_bits, DecodeError};
use vstd::arithmetic::power2::lemma2_to64;
use vstd::prelude::*;

verus! {

/// A decoded record of one of the two categories.
#[derive(Clone, Copy, Debug, PartialEq, Eq)]
pub enum Record {
    Cat21(Cat21),
    Cat48(Cat48),
}

/// The number of octets of the frame at `pos`, header included: the low 15
/// bits of the two octets after the category.
pub open spec fn frame_octets(bits: Seq<bool>, pos: int) -> int {
    unsigned(bits, pos + 8, 16) % 0x8000
}

/// Whether a whole frame stands at `pos`: its three header octets lie inside
/// `bits`, its length is at least those three, and `bits` holds as many
/// octets as the length says.
pub open spec fn frame_at(bits: Seq<bool>, pos: int) -> bool {
    &&& fits(bits, pos, 24)
    &&& frame_octets(bits, pos) >= 3
    &&& fits(bits, pos, 8 * frame_octets(bits, pos))
}

/// The body of the frame at `pos`: what follows the three header octets, up
/// to the end of the frame.
pub open spec fn frame_body(bits: Seq<bool>, pos: int) -> Seq<bool> {
    bits.subrange(pos + 24, pos + 8 * frame_octets(bits, pos))
}

/// What the frame at `pos` decodes to: nothing for a category other than 21
/// and 48, else the record, or why its body was given up.
pub open spec fn frame_record(bits: Seq<bool>, pos: int) -> Option<Result<Record, DecodeError>> {
    if unsigned(bits, pos, 8) == 21 {
        Some(
            match cat21_record(21, frame_body(bits, pos)) {
                Ok(rec) => Ok(Record::Cat21(rec)),
                Err(e) => Err(e),
            },
        )
    } else if unsigned(bits, pos, 8) == 48 {
        Some(
            match cat48_record(48, frame_body(bits, pos)) {
                Ok(rec) => Ok(Record::Cat48(rec)),
                Err(e) => Err(e),
            },
        )
    } else {
        None
    }
}

/// The limit after one more record.
pub open spec fn one_less(limit: Option<int>) -> Option<int> {
    match limit {
        Some(n) => Some(n - 1),
        None => None,
    }
}

/// The records of the frames from `pos` on, in order, at most `limit` of
/// them where a limit is given. The stream ends where no whole frame stands
/// and at the first frame whose body is given up; a frame of another
/// category is passed over and does not count towards the limit.
pub open spec fn stream_records(bits: Seq<bool>, pos: int, limit: Option<int>) -> Seq<Record>
    decreases bits.len() - pos,
{
    if (limit matches Some(n) && n <= 0) || !frame_at(bits, pos) {
        Seq::empty()
    } else {
        let next = pos + 8 * frame_octets(bits, pos);
        match frame_record(bits, pos) {
            None => stream_records(bits, next, limit),
            Some(Err(_)) => Seq::empty(),
            Some(Ok(rec)) => seq![rec] + stream_records(bits, next, one_less(limit)),
        }
    }
}

/// The limit as a number of records.
pub open spec fn limit_of(limit: Option<usize>) -> Option<int> {
    match limit {
        Some(n) => Some(n as int),
        None => None,
    }
}

/// What reading one frame gave.
#[derive(Clone, Copy, Debug, PartialEq, Eq)]
pub enum Frame {
    /// Fewer than the three octets of a frame header are left at the
    /// position.
    End,
    /// The header at the position gives a length below three octets, or one
    /// that reaches past the end of the capture.
    Malformed,
    /// A frame of a category that is not decoded; the next frame starts at
    /// `next`.
    Skipped { next: usize },
    /// A frame whose body was given up.
    GivenUp { error: DecodeError },
    /// A decoded record; the next frame starts at `next`.
    Decoded { record: Record, next: usize },
}

/// Reads the frame at bit position `pos` of the capture.
pub fn read_frame(cursor: &BitCursor, pos: usize) -> (frame: Frame)
    ensures
        frame is End <==> !fits(cursor@, pos as int, 24),
        frame is Malformed <==> fits(cursor@, pos as int, 24) && !frame_at(cursor@, pos as int),
        frame_at(cursor@, pos as int) ==> match frame_record(cursor@, pos as int) {
            None => frame == (Frame::Skipped {
                next: (pos + 8 * frame_octets(cursor@, pos as int)) as usize,
            }),
            Some(Err(e)) => frame == (Frame::GivenUp { error: e }),
            Some(Ok(rec)) => frame == (Frame::Decoded {
                record: rec,
                next: (pos + 8 * frame_octets(cursor@, pos as int)) as usize,
            }),
        },
        frame_at(cursor@, pos as int) ==> pos + 8 * frame_octets(cursor@, pos as int)
            <= usize::MAX,
{
    if !cursor.has(pos, 24) {
        return Frame::End;
    }
    let category = cursor.field_u8(pos, 8);
    let octets = (cursor.field_u16(pos + 8, 16) % 0x8000) as usize;
    if octets < 3 || !cursor.has(pos, 8 * octets) {
        return Frame::Malformed;
    }
    let next = pos + 8 * octets;
    let body = cursor.subview(pos + 24, 8 * octets - 24).unwrap();
    if category == 21 {
        match decode_cat21(category, &body) {
            Ok(rec) => Frame::Decoded { record: Record::Cat21(rec), next },
            Err(error) => Frame::GivenUp { error },
        }
    } else if category == 48 {
        match decode_cat48(category, &body) {
            Ok(rec) => Frame::Decoded { record: Record::Cat48(rec), next },
            Err(error) => Frame::GivenUp { error },
        }
    } else {
        Frame::Skipped { next }
    }
}

/// Decodes a capture into its records, in the order of the capture, at most
/// `limit` of them where a limit is given.
pub fn decode_stream(bytes: &[u8], limit: Option<usize>) -> (records: Vec<Record>)
    requires
        bytes@.len() <= usize::MAX / 64,
    ensures
        records@ == stream_records(bits_of(bytes@), 0, limit_of(limit)),
{
    let cursor = BitCursor::new(bytes);
    let ghost bits = cursor@;
    let mut records: Vec<Record> = Vec::new();
    let mut pos: usize = 0;
    loop
        invariant
            bits == cursor@,
            bits == bits_of(bytes@),
            pos <= bits.len(),
            limit matches Some(n) ==> records@.len() <= n,
            stream_records(bits, 0, limit_of(limit)) == records@ + stream_records(
                bits,
                pos as int,
                match limit {
                    Some(n) => Some(n - records@.len()),
                    None => None,
                },
            ),
        decreases bits.len() - pos,
    {
        let full = match limit {
            Some(n) => records.len() >= n,
            None => false,
        };
        if full {
            assert(records@ + Seq::<Record>::empty() =~= records@);
            return records;
        }
        match read_frame(&cursor, pos) {
            Frame::End => {
                assert(records@ + Seq::<Record>::empty() =~= records@);
                return records;
            },
            Frame::Malformed => {
                assert(records@ + Seq::<Record>::empty() =~= records@);
                return records;
            },
            Frame::GivenUp { error: _ } => {
                assert(records@ + Seq::<Record>::empty() =~= records@);
                return records;
            },
            Frame::Skipped { next } => {
                pos = next;
            },
            Frame::Decoded { record, next } => {
                let ghost before = records@;
                let ghost rest = stream_records(
                    bits,
                    next as int,
                    one_less(
                        match limit {
                            Some(n) => Some(n - before.len()),
                            None => None,
                        },
                    ),
                );
                records.push(record);
                assert(before + (seq![record] + rest) =~= records@ + rest);
                pos = next;
            },
        }
    }
}

/// After a record decoded from the frame at `pos`, the stream goes on at
/// `pos` plus eight times the frame's length, whatever part of the body the
/// items of the record took.
pub proof fn lemma_next_record_start(bits: Seq<bool>, pos: int, limit: Option<int>, rec: Record)
    requires
        frame_at(bits, pos),
        frame_record(bits, pos) == Some(Ok::<Record, DecodeError>(rec)),
        limit matches Some(n) ==> n > 0,
    ensures
        stream_records(bits, pos, limit) == seq![rec] + stream_records(
            bits,
            pos + 8 * frame_octets(bits, pos),
            one_less(limit),
        ),
        stream_records(bits, pos, limit)[0] == rec,
{
}

/// A frame of a category that is not decoded leaves the records and the
/// limit as they are: the stream goes on at the next frame.
pub proof fn lemma_skipped_frame(bits: Seq<bool>, pos: int, limit: Option<int>)
    requires
        frame_at(bits, pos),
        unsigned(bits, pos, 8) != 21,
        unsigned(bits, pos, 8) != 48,
    ensures
        stream_records(bits, pos, limit) == stream_records(
            bits,
            pos + 8 * frame_octets(bits, pos),
            limit,
        ),
{
}

/// A frame of category 21 or 48 whose field specification does not end
/// inside the body gives no record, and neither does anything after it.
pub proof fn lemma_unterminated_fspec_ends_stream(bits: Seq<bool>, pos: int, limit: Option<int>)
    requires
        frame_at(bits, pos),
        unsigned(bits, pos, 8) == 21 || unsigned(bits, pos, 8) == 48,
        fx_chain_bits(frame_body(bits, pos), 0).is_none(),
    ensures
        frame_record(bits, pos) == Some(Err::<Record, DecodeError>(DecodeError::Truncated)),
        stream_records(bits, pos, limit) == Seq::<Record>::empty(),
{
    lemma_cat21_unterminated_fspec(21, frame_body(bits, pos));
    lemma_cat48_unterminated_fspec(48, frame_body(bits, pos));
}

/// The stream gives no more records than the limit allows.
pub proof fn lemma_stream_within_limit(bits: Seq<bool>, pos: int, limit: int)
    requires
        0 <= limit,
    ensures
        stream_records(bits, pos, Some(limit)).len() <= limit,
    decreases bits.len() - pos,
{
    if limit > 0 && frame_at(bits, pos) {
        let next = pos + 8 * frame_octets(bits, pos);
        match frame_record(bits, pos) {
            None => {
                lemma_stream_within_limit(bits, next, limit);
            },
            Some(Err(_)) => {},
            Some(Ok(rec)) => {
                lemma_stream_within_limit(bits, next, limit - 1);
            },
        }
    }
}

/// In a capture of whole octets, the frame that starts at octet `k` has the
/// category that this octet holds, and a length of the two octets after it
/// read as one big-endian number, without its most significant bit.
pub proof fn lemma_frame_header(bytes: Seq<u8>, k: int)
    requires
        0 <= k,
        k + 3 <= bytes.len(),
    ensures
        fits(bits_of(bytes), 8 * k, 24),
        unsigned(bits_of(bytes), 8 * k, 8) == bytes[k],
        frame_octets(bits_of(bytes), 8 * k) == (bytes[k + 1] * 256 + bytes[k + 2]) % 0x8000,
{
    let bits = bits_of(bytes);
    lemma_octet_value(bytes, k);
    lemma_octet_value(bytes, k + 1);
    lemma_octet_value(bytes, k + 2);
    lemma_unsigned_split(bits, 8 * k + 8, 16, 8);
    lemma2_to64();
}

} // verus!
