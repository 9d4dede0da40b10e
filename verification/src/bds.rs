//! The Comm-B registers carried in Mode S MB data: BDS 4,0 (selected
//! vertical intention), BDS 5,0 (track and turn report) and BDS 6,0 (heading
//! and speed report). Each is a payload of 56 bits.

use crate::bits::{fits, signed, unsigned, BitCursor};
use crate::units::{ratio, Scaled};
use vstd::prelude::*;

verus! {

/// BDS 4,0. Altitudes are in feet, the pressure in hPa.
#[derive(Clone, Copy, Debug, PartialEq, Eq)]
pub struct BDS40 {
    pub status_mcp: bool,
    pub mcp_alt: u32,
    pub status_fms: bool,
    pub fms_alt: u32,
    pub status_bar: bool,
    pub bar_press: Scaled,
    pub status_mcp_mode: bool,
    pub vnav: bool,
    pub alt_hold: bool,
    pub approach: bool,
    pub status_target: bool,
    /// 0 unknown, 1 aircraft altitude, 2 MCP/FCU, 3 FMS.
    pub target_alt_source: u8,
}

/// BDS 5,0. Angles are in degrees, speeds in knots, the rate in degrees per
/// second.
#[derive(Clone, Copy, Debug, PartialEq, Eq)]
pub struct BDS50 {
    pub status_roll: bool,
    pub roll_angle: Scaled,
    pub status_track: bool,
    pub track_angle: Scaled,
    pub status_gs: bool,
    pub gs: i32,
    pub status_ta_rate: bool,
    pub ta_rate: Scaled,
    pub status_tas: bool,
    pub tas: i32,
}

/// BDS 6,0. The heading is in degrees, the air speed in knots, the vertical
/// rates in feet per minute.
#[derive(Clone, Copy, Debug, PartialEq, Eq)]
pub struct BDS60 {
    pub status_mag_h: bool,
    pub mag_h: Scaled,
    pub status_ias: bool,
    pub ias: u16,
    pub status_mach: bool,
    pub mach: Scaled,
    pub status_bar_rate: bool,
    pub bar_rate: i32,
    pub status_inert_vv: bool,
    pub inert_vv: i32,
}

/// The BDS 4,0 register in the 56 bits at `pos`: a status bit before each of
/// the MCP/FCU altitude (12 bits, 16 ft each), the FMS altitude (the same)
/// and the pressure setting (12 bits, 0.1 hPa each above 800 hPa); eight
/// bits passed over; the mode status and the three mode bits; two bits
/// passed over; the target status and the two-bit altitude source.
pub open spec fn bds_4_0(bits: Seq<bool>, pos: int) -> BDS40 {
    BDS40 {
        status_mcp: bits[pos],
        mcp_alt: (unsigned(bits, pos + 1, 12) * 16) as u32,
        status_fms: bits[pos + 13],
        fms_alt: (unsigned(bits, pos + 14, 12) * 16) as u32,
        status_bar: bits[pos + 26],
        bar_press: ratio(unsigned(bits, pos + 27, 12) + 8000, 10),
        status_mcp_mode: bits[pos + 47],
        vnav: bits[pos + 48],
        alt_hold: bits[pos + 49],
        approach: bits[pos + 50],
        status_target: bits[pos + 53],
        target_alt_source: unsigned(bits, pos + 54, 2) as u8,
    }
}

/// The BDS 5,0 register in the 56 bits at `pos`: five groups of a status bit
/// and a two's-complement number of 10 bits, one after the other, for the
/// roll angle (45/256 degrees each), the track angle (90/512 degrees), the
/// ground speed (2 kt), the track angle rate (8/256 degrees per second) and
/// the true air speed (2 kt). The last bit is not read.
pub open spec fn bds_5_0(bits: Seq<bool>, pos: int) -> BDS50 {
    BDS50 {
        status_roll: bits[pos],
        roll_angle: ratio(signed(bits, pos + 1, 10) * 45, 256),
        status_track: bits[pos + 11],
        track_angle: ratio(signed(bits, pos + 12, 10) * 90, 512),
        status_gs: bits[pos + 22],
        gs: (signed(bits, pos + 23, 10) * 2) as i32,
        status_ta_rate: bits[pos + 33],
        ta_rate: ratio(signed(bits, pos + 34, 10) * 8, 256),
        status_tas: bits[pos + 44],
        tas: (signed(bits, pos + 45, 10) * 2) as i32,
    }
}

/// The BDS 6,0 register in the 56 bits at `pos`: a status bit and the
/// magnetic heading, a two's-complement number of 11 bits (90/512 degrees
/// each); then four groups of a status bit and 10 bits: the indicated air
/// speed (unsigned, 1 kt), the Mach number (unsigned, 2.048/512 each), the
/// barometric altitude rate and the inertial vertical velocity (both two's
/// complement, 32 ft/min each).
pub open spec fn bds_6_0(bits: Seq<bool>, pos: int) -> BDS60 {
    BDS60 {
        status_mag_h: bits[pos],
        mag_h: ratio(signed(bits, pos + 1, 11) * 90, 512),
        status_ias: bits[pos + 12],
        ias: unsigned(bits, pos + 13, 10) as u16,
        status_mach: bits[pos + 23],
        mach: ratio(unsigned(bits, pos + 24, 10) * 2048, 512_000),
        status_bar_rate: bits[pos + 34],
        bar_rate: (signed(bits, pos + 35, 10) * 32) as i32,
        status_inert_vv: bits[pos + 45],
        inert_vv: (signed(bits, pos + 46, 10) * 32) as i32,
    }
}

/// Decodes a BDS 4,0 register: the register and the 56 bits it takes, or
/// nothing when fewer than 56 bits are left at `pos`.
pub fn decode_bds_4_0(cursor: &BitCursor, pos: usize) -> (r: Option<(BDS40, usize)>)
    ensures
        r == if fits(cursor@, pos as int, 56) {
            Some((bds_4_0(cursor@, pos as int), 56usize))
        } else {
            None
        },
{
    if !cursor.has(pos, 56) {
        return None;
    }
    let mcp: u32 = cursor.field_u16(pos + 1, 12) as u32;
    let fms: u32 = cursor.field_u16(pos + 14, 12) as u32;
    let bar: i64 = cursor.field_u16(pos + 27, 12) as i64;
    let register = BDS40 {
        status_mcp: cursor.flag(pos),
        mcp_alt: mcp * 16,
        status_fms: cursor.flag(pos + 13),
        fms_alt: fms * 16,
        status_bar: cursor.flag(pos + 26),
        bar_press: Scaled { num: bar + 8000, den: 10 },
        status_mcp_mode: cursor.flag(pos + 47),
        vnav: cursor.flag(pos + 48),
        alt_hold: cursor.flag(pos + 49),
        approach: cursor.flag(pos + 50),
        status_target: cursor.flag(pos + 53),
        target_alt_source: cursor.field_u8(pos + 54, 2),
    };
    Some((register, 56))
}

/// Decodes a BDS 5,0 register: the register and the 56 bits it takes, or
/// nothing when fewer than 56 bits are left at `pos`.
pub fn decode_bds_5_0(cursor: &BitCursor, pos: usize) -> (r: Option<(BDS50, usize)>)
    ensures
        r == if fits(cursor@, pos as int, 56) {
            Some((bds_5_0(cursor@, pos as int), 56usize))
        } else {
            None
        },
{
    if !cursor.has(pos, 56) {
        return None;
    }
    let roll: i64 = cursor.field_i32(pos + 1, 10) as i64;
    let track: i64 = cursor.field_i32(pos + 12, 10) as i64;
    let gs: i64 = cursor.field_i32(pos + 23, 10) as i64;
    let rate: i64 = cursor.field_i32(pos + 34, 10) as i64;
    let tas: i64 = cursor.field_i32(pos + 45, 10) as i64;
    let register = BDS50 {
        status_roll: cursor.flag(pos),
        roll_angle: Scaled { num: roll * 45, den: 256 },
        status_track: cursor.flag(pos + 11),
        track_angle: Scaled { num: track * 90, den: 512 },
        status_gs: cursor.flag(pos + 22),
        gs: (gs * 2) as i32,
        status_ta_rate: cursor.flag(pos + 33),
        ta_rate: Scaled { num: rate * 8, den: 256 },
        status_tas: cursor.flag(pos + 44),
        tas: (tas * 2) as i32,
    };
    Some((register, 56))
}

/// Decodes a BDS 6,0 register: the register and the 56 bits it takes, or
/// nothing when fewer than 56 bits are left at `pos`.
pub fn decode_bds_6_0(cursor: &BitCursor, pos: usize) -> (r: Option<(BDS60, usize)>)
    ensures
        r == if fits(cursor@, pos as int, 56) {
            Some((bds_6_0(cursor@, pos as int), 56usize))
        } else {
            None
        },
{
    if !cursor.has(pos, 56) {
        return None;
    }
    let heading: i64 = cursor.field_i32(pos + 1, 11) as i64;
    let mach: i64 = cursor.field_u16(pos + 24, 10) as i64;
    let bar_rate: i64 = cursor.field_i32(pos + 35, 10) as i64;
    let inert_vv: i64 = cursor.field_i32(pos + 46, 10) as i64;
    let register = BDS60 {
        status_mag_h: cursor.flag(pos),
        mag_h: Scaled { num: heading * 90, den: 512 },
        status_ias: cursor.flag(pos + 12),
        ias: cursor.field_u16(pos + 13, 10),
        status_mach: cursor.flag(pos + 23),
        mach: Scaled { num: mach * 2048, den: 512_000 },
        status_bar_rate: cursor.flag(pos + 34),
        bar_rate: (bar_rate * 32) as i32,
        status_inert_vv: cursor.flag(pos + 45),
        inert_vv: (inert_vv * 32) as i32,
    };
    Some((register, 56))
}

} // verus!
