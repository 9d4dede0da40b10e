//! Category 21: ADS-B target reports.
//!
//! A record is decoded item by item, in the order of the reference numbers
//! that its field specification marks present. Items that carry nothing the
//! record keeps are passed over by their length.

use crate::bits::{fits, lemma_unsigned_bound, signed, unsigned, BitCursor};
use crate::fspec::{
    counted_bits, fixed_bits, fspec_presence, fx_chain_bits, lemma_fspec_length,
    lemma_fx_chain_extent, present_if, read_fspec, skip_field, skip_variable_fx, DecodeError,
};
use crate::units::{
    feet_metres, feet_to_metres, flight_level_feet, flight_level_metres, is_small, level_feet,
    level_metres, pressure_altitude_feet, pressure_feet, ratio, Scaled,
};
use vstd::arithmetic::power2::lemma2_to64;
use vstd::prelude::*;

verus! {

/// Target report descriptor. GBS, the ground bit, is carried by the first
/// extension octet and absent without one.
#[derive(Clone, Copy, Debug, PartialEq, Eq)]
pub struct TargetReportDescriptor {
    /// Address type, 0 to 7.
    pub atp: u8,
    /// Altitude reporting capability, 0 to 3.
    pub arc: u8,
    /// Range check: set when it failed.
    pub rc: bool,
    /// Report type: set for a field monitor.
    pub rab: bool,
    pub gbs: Option<u8>,
}

/// A decoded category 21 record. An item that the record does not carry is
/// absent. Angles are in degrees, altitudes and heights in flight levels,
/// feet and metres, the pressure in hPa.
#[derive(Clone, Copy, Debug, PartialEq, Eq)]
pub struct Cat21 {
    pub category: u8,
    pub sac: Option<u8>,
    pub sic: Option<u8>,
    pub atp: Option<u8>,
    pub arc: Option<u8>,
    pub rc: Option<bool>,
    pub rab: Option<bool>,
    pub gbs: Option<u8>,
    pub latitude: Option<Scaled>,
    pub longitude: Option<Scaled>,
    /// The 24-bit ICAO address.
    pub icao_address: Option<u32>,
    /// The time of message reception in 1/128 s since midnight.
    pub time_of_reception_position: Option<u32>,
    /// The four octal digits of the Mode-3/A code, as a number below 4096.
    pub mode3a_code: Option<u16>,
    pub flight_level: Option<Scaled>,
    pub altitude_ft: Option<Scaled>,
    pub altitude_m: Option<Scaled>,
    pub height_ft: Option<Scaled>,
    pub height_m: Option<Scaled>,
    /// Indicated air speed in knots.
    pub ias: Option<u16>,
    pub mach: Option<Scaled>,
    pub magnetic_heading: Option<Scaled>,
    /// Eight characters of six bits each, the first in the leading bits.
    pub target_identification: Option<u64>,
    pub barometric_pressure_setting: Option<Scaled>,
    /// Whether the Mode-3/A code is 7777.
    pub is_static: Option<bool>,
}

/// The highest reference number of a category 21 item that is decoded or
/// passed over; a record that marks a higher one present is given up.
pub const CAT21_MAX_FRN: usize = 49;

/// Decodes the data source identification: SAC, SIC and the 16 bits they
/// take.
pub fn decode_data_source_id(cursor: &BitCursor, pos: usize) -> (r: Option<(u8, u8, usize)>)
    ensures
        r == if fits(cursor@, pos as int, 16) {
            Some(
                (
                    unsigned(cursor@, pos as int, 8) as u8,
                    unsigned(cursor@, pos + 8, 8) as u8,
                    16usize,
                ),
            )
        } else {
            None
        },
{
    if !cursor.has(pos, 16) {
        return None;
    }
    Some((cursor.field_u8(pos, 8), cursor.field_u8(pos + 8, 8), 16))
}

/// The target report descriptor whose first octet is at `pos`: ATP in three
/// bits, ARC in two, RC, RAB and FX. The ground bit is the second bit of the
/// first extension octet, the bit of weight 64.
pub open spec fn target_report_descriptor(bits: Seq<bool>, pos: int) -> TargetReportDescriptor {
    TargetReportDescriptor {
        atp: unsigned(bits, pos, 3) as u8,
        arc: unsigned(bits, pos + 3, 2) as u8,
        rc: bits[pos + 5],
        rab: bits[pos + 6],
        gbs: present_if(
            bits[pos + 7],
            if bits[pos + 9] {
                1u8
            } else {
                0u8
            },
        ),
    }
}

/// Decodes the target report descriptor. It takes the whole chain of octets
/// up to the first with a clear FX bit; nothing when the view ends inside
/// the chain.
pub fn decode_target_report_descriptor(cursor: &BitCursor, pos: usize) -> (r: Option<
    (TargetReportDescriptor, usize),
>)
    ensures
        r.is_some() == fx_chain_bits(cursor@, pos as int).is_some(),
        r matches Some((desc, n)) ==> {
            &&& desc == target_report_descriptor(cursor@, pos as int)
            &&& Some(n as int) == fx_chain_bits(cursor@, pos as int)
        },
{
    let n = match skip_variable_fx(cursor, pos) {
        Some(n) => n,
        None => {
            return None;
        },
    };
    proof {
        lemma_fx_chain_extent(cursor@, pos as int);
        if cursor@[pos + 7] {
            lemma_fx_chain_extent(cursor@, pos + 8);
        }
    }
    let extended = cursor.flag(pos + 7);
    let desc = TargetReportDescriptor {
        atp: cursor.field_u8(pos, 3),
        arc: cursor.field_u8(pos + 3, 2),
        rc: cursor.flag(pos + 5),
        rab: cursor.flag(pos + 6),
        gbs: if extended {
            Some(
                if cursor.flag(pos + 9) {
                    1
                } else {
                    0
                },
            )
        } else {
            None
        },
    };
    Some((desc, n))
}

/// Decodes the high-resolution WGS-84 position: latitude and longitude, each
/// a two's-complement number of 32 bits counting 180/2^30 degrees.
pub fn decode_wgs84_coords_high_res(cursor: &BitCursor, pos: usize) -> (r: Option<
    (Scaled, Scaled, usize),
>)
    ensures
        r == if fits(cursor@, pos as int, 64) {
            Some(
                (
                    ratio(signed(cursor@, pos as int, 32) * 180, 0x4000_0000),
                    ratio(signed(cursor@, pos + 32, 32) * 180, 0x4000_0000),
                    64usize,
                ),
            )
        } else {
            None
        },
{
    if !cursor.has(pos, 64) {
        return None;
    }
    let lat: i64 = cursor.field_i32(pos, 32) as i64;
    let lon: i64 = cursor.field_i32(pos + 32, 32) as i64;
    Some(
        (
            Scaled { num: lat * 180, den: 0x4000_0000 },
            Scaled { num: lon * 180, den: 0x4000_0000 },
            64,
        ),
    )
}

/// The air speed in the 16 bits at `pos`: a two-bit selector and 14 bits of
/// speed. Selector 0 gives the indicated air speed in knots, selector 1 the
/// Mach number in thousandths; with any other selector neither is given.
pub open spec fn air_speed(bits: Seq<bool>, pos: int) -> (Option<u16>, Option<Scaled>) {
    (
        present_if(unsigned(bits, pos, 2) == 0, unsigned(bits, pos + 2, 14) as u16),
        present_if(unsigned(bits, pos, 2) == 1, ratio(unsigned(bits, pos + 2, 14), 1000)),
    )
}

/// Decodes the air speed: the indicated air speed or the Mach number,
/// whichever the selector names, and the 16 bits of the item.
pub fn decode_air_speed(cursor: &BitCursor, pos: usize) -> (r: Option<
    (Option<u16>, Option<Scaled>, usize),
>)
    ensures
        r == if fits(cursor@, pos as int, 16) {
            Some((air_speed(cursor@, pos as int).0, air_speed(cursor@, pos as int).1, 16usize))
        } else {
            None
        },
{
    if !cursor.has(pos, 16) {
        return None;
    }
    let selector = cursor.field_u8(pos, 2);
    let speed = cursor.field_u16(pos + 2, 14);
    if selector == 0 {
        Some((Some(speed), None, 16))
    } else if selector == 1 {
        Some((None, Some(Scaled { num: speed as i64, den: 1000 }), 16))
    } else {
        Some((None, None, 16))
    }
}

/// Decodes the 24-bit target address.
pub fn decode_target_address(cursor: &BitCursor, pos: usize) -> (r: Option<(u32, usize)>)
    ensures
        r == if fits(cursor@, pos as int, 24) {
            Some((unsigned(cursor@, pos as int, 24) as u32, 24usize))
        } else {
            None
        },
{
    if !cursor.has(pos, 24) {
        return None;
    }
    Some((cursor.field_u32(pos, 24), 24))
}

/// Decodes the time of message reception for position: the 24-bit count of
/// 1/128 s since midnight.
pub fn decode_time_of_reception_position(cursor: &BitCursor, pos: usize) -> (r: Option<
    (u32, usize),
>)
    ensures
        r == if fits(cursor@, pos as int, 24) {
            Some((unsigned(cursor@, pos as int, 24) as u32, 24usize))
        } else {
            None
        },
{
    if !cursor.has(pos, 24) {
        return None;
    }
    Some((cursor.field_u32(pos, 24), 24))
}

/// Decodes the Mode-3/A code: the low 12 bits of the 16-bit item, which
/// hold four octal digits.
pub fn decode_mode3a_code(cursor: &BitCursor, pos: usize) -> (r: Option<(u16, usize)>)
    ensures
        r == if fits(cursor@, pos as int, 16) {
            Some(((unsigned(cursor@, pos as int, 16) % 4096) as u16, 16usize))
        } else {
            None
        },
{
    if !cursor.has(pos, 16) {
        return None;
    }
    let item = cursor.field_u16(pos, 16);
    Some((item % 4096, 16))
}

/// Decodes the flight level: the 16-bit two's-complement count of quarter
/// levels, as levels.
pub fn decode_flight_level(cursor: &BitCursor, pos: usize) -> (r: Option<(Scaled, usize)>)
    ensures
        r == if fits(cursor@, pos as int, 16) {
            Some((ratio(signed(cursor@, pos as int, 16), 4), 16usize))
        } else {
            None
        },
{
    if !cursor.has(pos, 16) {
        return None;
    }
    let quarters: i64 = cursor.field_i32(pos, 16) as i64;
    Some((Scaled { num: quarters, den: 4 }, 16))
}

/// Decodes the magnetic heading: 16 bits counting 360/65536 degrees.
pub fn decode_magnetic_heading(cursor: &BitCursor, pos: usize) -> (r: Option<(Scaled, usize)>)
    ensures
        r == if fits(cursor@, pos as int, 16) {
            Some((ratio(unsigned(cursor@, pos as int, 16) * 360, 65536), 16usize))
        } else {
            None
        },
{
    if !cursor.has(pos, 16) {
        return None;
    }
    let raw: i64 = cursor.field_u16(pos, 16) as i64;
    Some((Scaled { num: raw * 360, den: 65536 }, 16))
}

/// Decodes the target identification: the 48 bits that hold eight characters
/// of six bits each, the first character in the leading bits.
pub fn decode_target_identification(cursor: &BitCursor, pos: usize) -> (r: Option<(u64, usize)>)
    ensures
        r == if fits(cursor@, pos as int, 48) {
            Some((unsigned(cursor@, pos as int, 48) as u64, 48usize))
        } else {
            None
        },
{
    match cursor.load_unsigned(pos, 48) {
        Some(v) => Some((v, 48)),
        None => None,
    }
}

/// The length in bits of the reserved expansion field at `pos`: its first
/// octet counts the octets of the field, itself included. Nothing when that
/// count is 0 or reaches past the end of `bits`.
pub open spec fn reserved_expansion_bits(bits: Seq<bool>, pos: int) -> Option<int> {
    if fits(bits, pos, 8) && unsigned(bits, pos, 8) >= 1 && fits(
        bits,
        pos,
        8 * unsigned(bits, pos, 8),
    ) {
        Some(8 * unsigned(bits, pos, 8))
    } else {
        None
    }
}

/// The barometric pressure setting that the reserved expansion field at
/// `pos` carries: present when the field has at least four octets and the
/// leading bit of its second octet is set. The setting is the low 12 bits of
/// the two octets that follow, 0.1 hPa each above 800 hPa.
pub open spec fn reserved_expansion_pressure(bits: Seq<bool>, pos: int) -> Option<Scaled> {
    present_if(
        unsigned(bits, pos, 8) >= 4 && bits[pos + 8],
        ratio(unsigned(bits, pos + 20, 12) + 8000, 10),
    )
}

/// Decodes the reserved expansion field: the barometric pressure setting, if
/// the field carries one, and the whole length of the field.
pub fn decode_reserved_expansion(cursor: &BitCursor, pos: usize) -> (r: Option<
    (Option<Scaled>, usize),
>)
    ensures
        r.is_some() == reserved_expansion_bits(cursor@, pos as int).is_some(),
        r matches Some((pressure, n)) ==> {
            &&& pressure == reserved_expansion_pressure(cursor@, pos as int)
            &&& Some(n as int) == reserved_expansion_bits(cursor@, pos as int)
        },
{
    if !cursor.has(pos, 8) {
        return None;
    }
    let octets = cursor.field_u8(pos, 8) as usize;
    if octets < 1 || !cursor.has(pos, 8 * octets) {
        return None;
    }
    let pressure = if octets >= 4 && cursor.flag(pos + 8) {
        let raw: i64 = cursor.field_u16(pos + 20, 12) as i64;
        Some(Scaled { num: raw + 8000, den: 10 })
    } else {
        None
    };
    Some((pressure, 8 * octets))
}

/// The number of set bits in `flags`.
pub open spec fn count_set(flags: Seq<bool>) -> int
    decreases flags.len(),
{
    if flags.len() == 0 {
        0
    } else {
        count_set(flags.drop_last()) + if flags.last() {
            1int
        } else {
            0int
        }
    }
}

/// There are no more set bits than bits.
pub proof fn lemma_count_set_bound(flags: Seq<bool>)
    ensures
        0 <= count_set(flags) <= flags.len(),
    decreases flags.len(),
{
    if flags.len() > 0 {
        lemma_count_set_bound(flags.drop_last());
    }
}

/// The length in bits of the data ages item at `pos`: a field specification
/// of its own, and one octet for each bit that it marks present. Nothing
/// when `bits` ends inside either.
pub open spec fn data_ages_bits(bits: Seq<bool>, pos: int) -> Option<int> {
    match fx_chain_bits(bits, pos) {
        None => None,
        Some(n) => fixed_bits(bits, pos, n + 8 * count_set(fspec_presence(bits, pos))),
    }
}

/// Passes over the data ages item.
pub fn skip_data_ages(cursor: &BitCursor, pos: usize) -> (skipped: Option<usize>)
    ensures
        skipped.is_some() == data_ages_bits(cursor@, pos as int).is_some(),
        skipped matches Some(n) ==> Some(n as int) == data_ages_bits(cursor@, pos as int),
{
    let (presence, n) = match read_fspec(cursor, pos) {
        Some(fspec) => fspec,
        None => {
            return None;
        },
    };
    proof {
        lemma_fspec_length(cursor@, pos as int);
        lemma_fx_chain_extent(cursor@, pos as int);
    }
    let mut ages: usize = 0;
    let mut i: usize = 0;
    while i < presence.len()
        invariant
            0 <= i <= presence@.len(),
            ages == count_set(presence@.subrange(0, i as int)),
            0 <= ages <= i,
        decreases presence@.len() - i,
    {
        assert(presence@.subrange(0, i + 1).drop_last() =~= presence@.subrange(0, i as int));
        if presence[i] {
            ages = ages + 1;
        }
        i = i + 1;
    }
    assert(presence@.subrange(0, i as int) =~= presence@);
    let room = cursor.remaining(pos) - n;
    if ages <= room / 8 {
        Some(n + 8 * ages)
    } else {
        None
    }
}

/// The length in bits of the met information item at `pos`: the leading
/// octet, two octets for each of its first three bits that is set (wind
/// speed, wind direction, temperature) and one octet for the fourth
/// (turbulence).
pub open spec fn met_info_bits(bits: Seq<bool>, pos: int) -> int {
    8 + (if bits[pos] {
        16int
    } else {
        0int
    }) + (if bits[pos + 1] {
        16int
    } else {
        0int
    }) + (if bits[pos + 2] {
        16int
    } else {
        0int
    }) + (if bits[pos + 3] {
        8int
    } else {
        0int
    })
}

/// Passes over the met information item.
pub fn skip_compound_met_info(cursor: &BitCursor, pos: usize) -> (skipped: Option<usize>)
    ensures
        skipped.is_some() == counted_bits(
            cursor@,
            pos as int,
            met_info_bits(cursor@, pos as int),
        ).is_some(),
        skipped matches Some(n) ==> n == met_info_bits(cursor@, pos as int),
{
    if !cursor.has(pos, 8) {
        return None;
    }
    let mut total: usize = 8;
    if cursor.flag(pos) {
        total = total + 16;
    }
    if cursor.flag(pos + 1) {
        total = total + 16;
    }
    if cursor.flag(pos + 2) {
        total = total + 16;
    }
    if cursor.flag(pos + 3) {
        total = total + 8;
    }
    if cursor.has(pos, total) {
        Some(total)
    } else {
        None
    }
}

/// The length in bits of an item made of a repetition octet and `octets`
/// octets for each repetition that it counts.
pub open spec fn repeated_bits(bits: Seq<bool>, pos: int, octets: int) -> int {
    8 + unsigned(bits, pos, 8) * octets * 8
}

/// Passes over an item made of a repetition octet and `octets` octets for
/// each repetition.
fn skip_repeated(cursor: &BitCursor, pos: usize, octets: usize) -> (skipped: Option<usize>)
    requires
        octets <= 255,
    ensures
        skipped.is_some() == counted_bits(
            cursor@,
            pos as int,
            repeated_bits(cursor@, pos as int, octets as int),
        ).is_some(),
        skipped matches Some(n) ==> n == repeated_bits(cursor@, pos as int, octets as int),
{
    if !cursor.has(pos, 8) {
        return None;
    }
    let repetitions = cursor.field_u8(pos, 8) as usize;
    assert(0 <= repetitions * octets <= 255 * 255) by (nonlinear_arith)
        requires
            0 <= repetitions <= 255,
            0 <= octets <= 255,
    ;
    let total = 8 + repetitions * octets * 8;
    if cursor.has(pos, total) {
        Some(total)
    } else {
        None
    }
}

/// Passes over the trajectory intent item: a repetition octet and 15 octets
/// for each repetition.
pub fn skip_compound_trajectory_intent(cursor: &BitCursor, pos: usize) -> (skipped: Option<usize>)
    ensures
        skipped.is_some() == counted_bits(
            cursor@,
            pos as int,
            repeated_bits(cursor@, pos as int, 15),
        ).is_some(),
        skipped matches Some(n) ==> n == repeated_bits(cursor@, pos as int, 15),
{
    skip_repeated(cursor, pos, 15)
}

/// Passes over the Mode S MB data item: a repetition octet and 8 octets for
/// each repetition.
pub fn skip_repetitive_mode_s_mb(cursor: &BitCursor, pos: usize) -> (skipped: Option<usize>)
    ensures
        skipped.is_some() == counted_bits(
            cursor@,
            pos as int,
            repeated_bits(cursor@, pos as int, 8),
        ).is_some(),
        skipped matches Some(n) ==> n == repeated_bits(cursor@, pos as int, 8),
{
    skip_repeated(cursor, pos, 8)
}

/// The number of octets of a category 21 item that is passed over by a
/// fixed length, and 0 for every other reference number.
pub open spec fn cat21_skip_octets(frn: int) -> int {
    if frn == 4 || frn == 18 || frn == 23 || frn == 30 || frn == 35 || frn == 36 || frn == 38
        || frn == 41 {
        1
    } else if frn == 3 || frn == 10 || frn == 16 || frn == 20 || frn == 24 || frn == 25
        || frn == 27 || frn == 32 || frn == 33 {
        2
    } else if frn == 5 || frn == 8 || frn == 14 || frn == 28 {
        3
    } else if frn == 13 || frn == 15 || frn == 26 {
        4
    } else if frn == 6 {
        6
    } else if frn == 40 {
        7
    } else {
        0
    }
}

/// The number of octets of an item that is passed over by a fixed length.
pub fn skip_octets(frn: usize) -> (octets: usize)
    ensures
        octets == cat21_skip_octets(frn as int),
{
    if frn == 4 || frn == 18 || frn == 23 || frn == 30 || frn == 35 || frn == 36 || frn == 38
        || frn == 41 {
        1
    } else if frn == 3 || frn == 10 || frn == 16 || frn == 20 || frn == 24 || frn == 25
        || frn == 27 || frn == 32 || frn == 33 {
        2
    } else if frn == 5 || frn == 8 || frn == 14 || frn == 28 {
        3
    } else if frn == 13 || frn == 15 || frn == 26 {
        4
    } else if frn == 6 {
        6
    } else if frn == 40 {
        7
    } else {
        0
    }
}

/// Whether the category 21 item of reference number `frn` is passed over as
/// a chain of octets up to a clear FX bit.
pub open spec fn cat21_skips_chain(frn: int) -> bool {
    frn == 17 || frn == 37 || 43 <= frn <= 47 || frn == 49
}

/// The number of bits that the category 21 item with reference number `frn`
/// takes at `pos`, or nothing when `bits` ends before the item does.
pub open spec fn cat21_item_bits(bits: Seq<bool>, pos: int, frn: int) -> Option<int> {
    if frn == 1 || frn == 9 || frn == 19 || frn == 21 || frn == 22 {
        fixed_bits(bits, pos, 16)
    } else if frn == 11 || frn == 12 {
        fixed_bits(bits, pos, 24)
    } else if frn == 7 {
        fixed_bits(bits, pos, 64)
    } else if frn == 29 {
        fixed_bits(bits, pos, 48)
    } else if frn == 2 || cat21_skips_chain(frn) {
        fx_chain_bits(bits, pos)
    } else if frn == 31 {
        counted_bits(bits, pos, met_info_bits(bits, pos))
    } else if frn == 34 {
        counted_bits(bits, pos, repeated_bits(bits, pos, 15))
    } else if frn == 39 {
        counted_bits(bits, pos, repeated_bits(bits, pos, 8))
    } else if frn == 42 {
        data_ages_bits(bits, pos)
    } else if frn == 48 {
        reserved_expansion_bits(bits, pos)
    } else if cat21_skip_octets(frn) > 0 {
        fixed_bits(bits, pos, 8 * cat21_skip_octets(frn))
    } else {
        None
    }
}

/// The record `rec` with the item of reference number `frn` that stands at
/// `pos` put in. An item that is passed over leaves the record as it is, and
/// so does a reserved expansion field without a pressure setting.
pub open spec fn cat21_with_item(rec: Cat21, bits: Seq<bool>, pos: int, frn: int) -> Cat21 {
    if frn == 1 {
        Cat21 {
            sac: Some(unsigned(bits, pos, 8) as u8),
            sic: Some(unsigned(bits, pos + 8, 8) as u8),
            ..rec
        }
    } else if frn == 2 {
        Cat21 {
            atp: Some(target_report_descriptor(bits, pos).atp),
            arc: Some(target_report_descriptor(bits, pos).arc),
            rc: Some(target_report_descriptor(bits, pos).rc),
            rab: Some(target_report_descriptor(bits, pos).rab),
            gbs: target_report_descriptor(bits, pos).gbs,
            ..rec
        }
    } else if frn == 7 {
        Cat21 {
            latitude: Some(ratio(signed(bits, pos, 32) * 180, 0x4000_0000)),
            longitude: Some(ratio(signed(bits, pos + 32, 32) * 180, 0x4000_0000)),
            ..rec
        }
    } else if frn == 9 {
        Cat21 { ias: air_speed(bits, pos).0, mach: air_speed(bits, pos).1, ..rec }
    } else if frn == 11 {
        Cat21 { icao_address: Some(unsigned(bits, pos, 24) as u32), ..rec }
    } else if frn == 12 {
        Cat21 { time_of_reception_position: Some(unsigned(bits, pos, 24) as u32), ..rec }
    } else if frn == 19 {
        Cat21 {
            mode3a_code: Some((unsigned(bits, pos, 16) % 4096) as u16),
            is_static: Some(unsigned(bits, pos, 16) % 4096 == 0o7777),
            ..rec
        }
    } else if frn == 21 {
        Cat21 {
            flight_level: Some(ratio(signed(bits, pos, 16), 4)),
            height_ft: Some(level_feet(ratio(signed(bits, pos, 16), 4))),
            height_m: Some(level_metres(ratio(signed(bits, pos, 16), 4))),
            ..rec
        }
    } else if frn == 22 {
        Cat21 { magnetic_heading: Some(ratio(unsigned(bits, pos, 16) * 360, 65536)), ..rec }
    } else if frn == 29 {
        Cat21 { target_identification: Some(unsigned(bits, pos, 48) as u64), ..rec }
    } else if frn == 48 && reserved_expansion_pressure(bits, pos).is_some() {
        Cat21 { barometric_pressure_setting: reserved_expansion_pressure(bits, pos), ..rec }
    } else {
        rec
    }
}

/// What the item of reference number `frn` at `pos` makes of `rec`: the
/// record with the item put in and the position after the item. A reference
/// number that the category does not have gives the record up as holding an
/// unsupported item, an item that `bits` ends in gives it up as truncated.
pub open spec fn cat21_item(rec: Cat21, bits: Seq<bool>, pos: int, frn: int) -> Result<
    (Cat21, int),
    DecodeError,
> {
    if frn < 1 || frn > CAT21_MAX_FRN {
        Err(DecodeError::UnsupportedItem)
    } else {
        match cat21_item_bits(bits, pos, frn) {
            None => Err(DecodeError::Truncated),
            Some(n) => Ok((cat21_with_item(rec, bits, pos, frn), pos + n)),
        }
    }
}

/// The record that the items marked in `presence` from index `k` on give,
/// the first of them standing at `pos`, put into `rec` one after the other.
/// Index `k` stands for reference number `k + 1`. The record is given up at
/// the first present item that gives it up.
pub open spec fn cat21_items(
    bits: Seq<bool>,
    presence: Seq<bool>,
    k: int,
    pos: int,
    rec: Cat21,
) -> Result<Cat21, DecodeError>
    decreases presence.len() - k,
{
    if k < 0 || k >= presence.len() {
        Ok(rec)
    } else if !presence[k] {
        cat21_items(bits, presence, k + 1, pos, rec)
    } else {
        match cat21_item(rec, bits, pos, k + 1) {
            Err(e) => Err(e),
            Ok((next, end)) => cat21_items(bits, presence, k + 1, end, next),
        }
    }
}

/// The position after the items marked in `presence` from index `k` on, the
/// first of them standing at `pos`; nothing when the record is given up.
pub open spec fn cat21_items_end(bits: Seq<bool>, presence: Seq<bool>, k: int, pos: int) -> Option<
    int,
>
    decreases presence.len() - k,
{
    if k < 0 || k >= presence.len() {
        Some(pos)
    } else if !presence[k] {
        cat21_items_end(bits, presence, k + 1, pos)
    } else if k + 1 > CAT21_MAX_FRN {
        None
    } else {
        match cat21_item_bits(bits, pos, k + 1) {
            None => None,
            Some(n) => cat21_items_end(bits, presence, k + 1, pos + n),
        }
    }
}

/// The record of a category with every item absent.
pub open spec fn cat21_empty(category: u8) -> Cat21 {
    Cat21 {
        category,
        sac: None,
        sic: None,
        atp: None,
        arc: None,
        rc: None,
        rab: None,
        gbs: None,
        latitude: None,
        longitude: None,
        icao_address: None,
        time_of_reception_position: None,
        mode3a_code: None,
        flight_level: None,
        altitude_ft: None,
        altitude_m: None,
        height_ft: None,
        height_m: None,
        ias: None,
        mach: None,
        magnetic_heading: None,
        target_identification: None,
        barometric_pressure_setting: None,
        is_static: None,
    }
}

/// The first derivation: a record without a flight level whose ground bit is
/// set gets flight level and altitude 0.
pub open spec fn cat21_pinned(rec: Cat21) -> Cat21 {
    if rec.flight_level.is_none() && rec.gbs == Some(1u8) {
        Cat21 {
            flight_level: Some(ratio(0, 1)),
            altitude_ft: Some(ratio(0, 1)),
            altitude_m: Some(ratio(0, 1)),
            ..rec
        }
    } else {
        rec
    }
}

/// The second derivation: a record with a flight level and a barometric
/// pressure setting gets the altitude that the two give, in feet and in
/// metres.
pub open spec fn cat21_with_altitude(rec: Cat21) -> Cat21 {
    match (rec.flight_level, rec.barometric_pressure_setting) {
        (Some(fl), Some(pressure)) => Cat21 {
            altitude_ft: Some(pressure_feet(fl, pressure)),
            altitude_m: Some(feet_metres(pressure_feet(fl, pressure))),
            ..rec
        },
        _ => rec,
    }
}

/// The record after both derivations, the ground bit first.
pub open spec fn cat21_derived(rec: Cat21) -> Cat21 {
    cat21_with_altitude(cat21_pinned(rec))
}

/// The record that a category 21 body gives: the field specification at the
/// start of `bits`, the items it marks present right after it, and the
/// derivations. The body is given up as truncated when its field
/// specification does not end inside it.
#[verifier::opaque]
pub open spec fn cat21_record(category: u8, bits: Seq<bool>) -> Result<Cat21, DecodeError> {
    match fx_chain_bits(bits, 0) {
        None => Err(DecodeError::Truncated),
        Some(n) => match cat21_items(bits, fspec_presence(bits, 0), 0, n, cat21_empty(category)) {
            Ok(rec) => Ok(cat21_derived(rec)),
            Err(e) => Err(e),
        },
    }
}

/// Whether the flight level and the pressure setting of the record, where
/// present, are small enough for the derivations.
pub open spec fn levels_small(rec: Cat21) -> bool {
    &&& rec.flight_level matches Some(fl) ==> is_small(fl)
    &&& rec.barometric_pressure_setting matches Some(pressure) ==> is_small(pressure)
}

impl Cat21 {
    /// The record of a category with every item absent.
    pub fn new(category: u8) -> (rec: Self)
        ensures
            rec == cat21_empty(category),
    {
        Cat21 {
            category,
            sac: None,
            sic: None,
            atp: None,
            arc: None,
            rc: None,
            rab: None,
            gbs: None,
            latitude: None,
            longitude: None,
            icao_address: None,
            time_of_reception_position: None,
            mode3a_code: None,
            flight_level: None,
            altitude_ft: None,
            altitude_m: None,
            height_ft: None,
            height_m: None,
            ias: None,
            mach: None,
            magnetic_heading: None,
            target_identification: None,
            barometric_pressure_setting: None,
            is_static: None,
        }
    }
}

impl Default for Cat21 {
    /// The record of category 0 with every item absent.
    fn default() -> (rec: Self)
        ensures
            rec == cat21_empty(0),
    {
        Cat21::new(0)
    }
}

/// Decodes the item of reference number `frn` at `pos` into `rec`: the new
/// record and the position after the item, or why the record is given up.
pub fn decode_cat21_item(cursor: &BitCursor, pos: usize, frn: usize, rec: Cat21) -> (r: Result<
    (Cat21, usize),
    DecodeError,
>)
    ensures
        match r {
            Ok((next, end)) => cat21_item(rec, cursor@, pos as int, frn as int) == Ok::<
                (Cat21, int),
                DecodeError,
            >((next, end as int)),
            Err(e) => cat21_item(rec, cursor@, pos as int, frn as int) == Err::<
                (Cat21, int),
                DecodeError,
            >(e),
        },
        r matches Ok((next, end)) ==> {
            &&& pos <= end <= cursor@.len()
            &&& levels_small(rec) ==> levels_small(next)
        },
{
    if frn < 1 || frn > CAT21_MAX_FRN {
        return Err(DecodeError::UnsupportedItem);
    }
    if pos > cursor.len_bits() {
        return Err(DecodeError::Truncated);
    }
    if frn == 1 {
        match decode_data_source_id(cursor, pos) {
            Some((sac, sic, n)) => Ok((Cat21 { sac: Some(sac), sic: Some(sic), ..rec }, pos + n)),
            None => Err(DecodeError::Truncated),
        }
    } else if frn == 2 {
        match decode_target_report_descriptor(cursor, pos) {
            Some((desc, n)) => {
                proof {
                    lemma_fx_chain_extent(cursor@, pos as int);
                }
                Ok(
                    (
                        Cat21 {
                            atp: Some(desc.atp),
                            arc: Some(desc.arc),
                            rc: Some(desc.rc),
                            rab: Some(desc.rab),
                            gbs: desc.gbs,
                            ..rec
                        },
                        pos + n,
                    ),
                )
            },
            None => Err(DecodeError::Truncated),
        }
    } else if frn == 7 {
        match decode_wgs84_coords_high_res(cursor, pos) {
            Some((lat, lon, n)) => Ok(
                (Cat21 { latitude: Some(lat), longitude: Some(lon), ..rec }, pos + n),
            ),
            None => Err(DecodeError::Truncated),
        }
    } else if frn == 9 {
        match decode_air_speed(cursor, pos) {
            Some((ias, mach, n)) => Ok((Cat21 { ias, mach, ..rec }, pos + n)),
            None => Err(DecodeError::Truncated),
        }
    } else if frn == 11 {
        match decode_target_address(cursor, pos) {
            Some((address, n)) => Ok((Cat21 { icao_address: Some(address), ..rec }, pos + n)),
            None => Err(DecodeError::Truncated),
        }
    } else if frn == 12 {
        match decode_time_of_reception_position(cursor, pos) {
            Some((time, n)) => Ok(
                (Cat21 { time_of_reception_position: Some(time), ..rec }, pos + n),
            ),
            None => Err(DecodeError::Truncated),
        }
    } else if frn == 19 {
        match decode_mode3a_code(cursor, pos) {
            Some((code, n)) => Ok(
                (
                    Cat21 { mode3a_code: Some(code), is_static: Some(code == 0o7777), ..rec },
                    pos + n,
                ),
            ),
            None => Err(DecodeError::Truncated),
        }
    } else if frn == 21 {
        match decode_flight_level(cursor, pos) {
            Some((level, n)) => {
                proof {
                    lemma_unsigned_bound(cursor@, pos as int, 16);
                    lemma2_to64();
                }
                Ok(
                    (
                        Cat21 {
                            flight_level: Some(level),
                            height_ft: Some(flight_level_feet(level)),
                            height_m: Some(flight_level_metres(level)),
                            ..rec
                        },
                        pos + n,
                    ),
                )
            },
            None => Err(DecodeError::Truncated),
        }
    } else if frn == 22 {
        match decode_magnetic_heading(cursor, pos) {
            Some((heading, n)) => Ok((Cat21 { magnetic_heading: Some(heading), ..rec }, pos + n)),
            None => Err(DecodeError::Truncated),
        }
    } else if frn == 29 {
        match decode_target_identification(cursor, pos) {
            Some((ident, n)) => Ok(
                (Cat21 { target_identification: Some(ident), ..rec }, pos + n),
            ),
            None => Err(DecodeError::Truncated),
        }
    } else if frn == 48 {
        match decode_reserved_expansion(cursor, pos) {
            Some((pressure, n)) => {
                if pressure.is_some() {
                    proof {
                        lemma_unsigned_bound(cursor@, pos + 20, 12);
                        lemma2_to64();
                    }
                    Ok((Cat21 { barometric_pressure_setting: pressure, ..rec }, pos + n))
                } else {
                    Ok((rec, pos + n))
                }
            },
            None => Err(DecodeError::Truncated),
        }
    } else {
        let skipped = if frn == 17 || frn == 37 || (43 <= frn && frn <= 47) || frn == 49 {
            let n = skip_variable_fx(cursor, pos);
            proof {
                if n.is_some() {
                    lemma_fx_chain_extent(cursor@, pos as int);
                }
            }
            n
        } else if frn == 31 {
            skip_compound_met_info(cursor, pos)
        } else if frn == 34 {
            skip_compound_trajectory_intent(cursor, pos)
        } else if frn == 39 {
            skip_repetitive_mode_s_mb(cursor, pos)
        } else if frn == 42 {
            skip_data_ages(cursor, pos)
        } else {
            skip_field(cursor, pos, skip_octets(frn))
        };
        match skipped {
            Some(n) => Ok((rec, pos + n)),
            None => Err(DecodeError::Truncated),
        }
    }
}

/// Applies the two derivations to a decoded record.
pub fn derive_altitudes(rec: Cat21) -> (derived: Cat21)
    requires
        levels_small(rec),
    ensures
        derived == cat21_derived(rec),
{
    let zero = Scaled { num: 0, den: 1 };
    let pinned = match (rec.flight_level, rec.gbs) {
        (None, Some(1)) => Cat21 {
            flight_level: Some(zero),
            altitude_ft: Some(zero),
            altitude_m: Some(zero),
            ..rec
        },
        _ => rec,
    };
    match (pinned.flight_level, pinned.barometric_pressure_setting) {
        (Some(fl), Some(pressure)) => {
            let feet = pressure_altitude_feet(fl, pressure);
            Cat21 { altitude_ft: Some(feet), altitude_m: Some(feet_to_metres(feet)), ..pinned }
        },
        _ => pinned,
    }
}

/// Decodes a category 21 record body, the octets after the category and
/// length, into a record; or says why the body was given up.
pub fn decode_cat21(category: u8, cursor: &BitCursor) -> (r: Result<Cat21, DecodeError>)
    ensures
        r == cat21_record(category, cursor@),
{
    reveal(cat21_record);
    let (presence, start) = match read_fspec(cursor, 0) {
        Some(fspec) => fspec,
        None => {
            return Err(DecodeError::Truncated);
        },
    };
    let ghost bits = cursor@;
    let mut rec = Cat21::new(category);
    let mut pos = start;
    let mut k: usize = 0;
    while k < presence.len()
        invariant
            bits == cursor@,
            0 <= k <= presence@.len(),
            levels_small(rec),
            cat21_record(category, bits) == match cat21_items(
                bits,
                presence@,
                k as int,
                pos as int,
                rec,
            ) {
                Ok(done) => Ok::<Cat21, DecodeError>(cat21_derived(done)),
                Err(e) => Err(e),
            },
        decreases presence@.len() - k,
    {
        if presence[k] {
            match decode_cat21_item(cursor, pos, k + 1, rec) {
                Ok((next, end)) => {
                    rec = next;
                    pos = end;
                },
                Err(e) => {
                    return Err(e);
                },
            }
        }
        k = k + 1;
    }
    Ok(derive_altitudes(rec))
}

/// An item of category 21 that is decoded or passed over takes a whole
/// number of octets, at least one, and lies inside the body.
pub proof fn lemma_cat21_item_extent(bits: Seq<bool>, pos: int, frn: int)
    requires
        0 <= pos,
        cat21_item_bits(bits, pos, frn).is_some(),
    ensures
        cat21_item_bits(bits, pos, frn).unwrap() >= 8,
        cat21_item_bits(bits, pos, frn).unwrap() % 8 == 0,
        fits(bits, pos, cat21_item_bits(bits, pos, frn).unwrap()),
{
    if frn == 2 || cat21_skips_chain(frn) {
        lemma_fx_chain_extent(bits, pos);
    }
    if frn == 34 || frn == 39 {
        lemma_unsigned_bound(bits, pos, 8);
    }
    if frn == 42 {
        lemma_fx_chain_extent(bits, pos);
        lemma_count_set_bound(fspec_presence(bits, pos));
    }
}

/// A body whose field specification does not end inside it gives no
/// category 21 record.
pub proof fn lemma_cat21_unterminated_fspec(category: u8, bits: Seq<bool>)
    requires
        fx_chain_bits(bits, 0).is_none(),
    ensures
        cat21_record(category, bits) == Err::<Cat21, DecodeError>(DecodeError::Truncated),
{
    reveal(cat21_record);
}

/// The derivations touch the flight level and the altitude only, and a
/// flight level that the record holds stays.
pub proof fn lemma_cat21_derivations_keep_wire_values(rec: Cat21)
    ensures
        rec.flight_level.is_some() ==> cat21_derived(rec).flight_level == rec.flight_level,
        cat21_derived(rec) == (Cat21 {
            flight_level: cat21_derived(rec).flight_level,
            altitude_ft: cat21_derived(rec).altitude_ft,
            altitude_m: cat21_derived(rec).altitude_m,
            ..rec
        }),
{
}

/// A record with its ground bit set, without a flight level and without a
/// pressure setting, is pinned to the ground.
pub proof fn lemma_cat21_ground_bit(rec: Cat21)
    requires
        rec.gbs == Some(1u8),
        rec.flight_level.is_none(),
        rec.barometric_pressure_setting.is_none(),
    ensures
        cat21_derived(rec).flight_level == Some(ratio(0, 1)),
        cat21_derived(rec).altitude_ft == Some(ratio(0, 1)),
        cat21_derived(rec).altitude_m == Some(ratio(0, 1)),
{
}

/// The items of a record that is not given up are read one after the
/// other and end inside the body.
pub proof fn lemma_cat21_items_within_body(
    bits: Seq<bool>,
    presence: Seq<bool>,
    k: int,
    pos: int,
    rec: Cat21,
)
    requires
        0 <= pos <= bits.len(),
    ensures
        cat21_items(bits, presence, k, pos, rec).is_ok() == cat21_items_end(
            bits,
            presence,
            k,
            pos,
        ).is_some(),
        cat21_items_end(bits, presence, k, pos) matches Some(end) ==> pos <= end <= bits.len(),
    decreases presence.len() - k,
{
    if 0 <= k < presence.len() {
        if !presence[k] {
            lemma_cat21_items_within_body(bits, presence, k + 1, pos, rec);
        } else if k + 1 <= CAT21_MAX_FRN {
            match cat21_item_bits(bits, pos, k + 1) {
                None => {},
                Some(n) => {
                    lemma_cat21_item_extent(bits, pos, k + 1);
                    lemma_cat21_items_within_body(
                        bits,
                        presence,
                        k + 1,
                        pos + n,
                        cat21_with_item(rec, bits, pos, k + 1),
                    );
                },
            }
        }
    }
}

} // verus!
