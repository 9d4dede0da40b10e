//! Category 48: monoradar target reports.
//!
//! A record is decoded item by item, in the order of the reference numbers
//! that its field specification marks present. Every item decoder takes the
//! cursor over the record body and the position of the item, and gives the
//! item's value with the number of bits that the item takes.

pub use crate::bds::{BDS40, BDS50, BDS60};
use crate::bds::{bds_4_0, bds_5_0, bds_6_0, decode_bds_4_0, decode_bds_5_0, decode_bds_6_0};
use crate::bits::{fits, lemma_unsigned_bound, signed, unsigned, BitCursor};
use crate::fspec::{
    counted_bits, fixed_bits, fspec_presence, fx_chain_bits, lemma_fx_chain_extent, present_if,
    read_fspec, skip_field, skip_variable_fx, DecodeError,
};
use crate::names::{ends_with, flight_status_text, lemma_on_ground_states};
use crate::units::{
    flight_level_feet, flight_level_metres, level_feet, level_metres, ratio, Scaled,
};
use vstd::arithmetic::power2::lemma2_to64;
use vstd::prelude::*;

verus! {

/// Target report descriptor. The fields of the first extension are present
/// when the first octet has its FX bit set, those of the second when the
/// first extension has.
#[derive(Clone, Copy, Debug, PartialEq, Eq)]
pub struct TargetDesc {
    /// Detection type, 0 to 7.
    pub target_type: u8,
    pub simulated: bool,
    pub rdp: bool,
    pub spi: bool,
    pub rab: bool,
    pub test: Option<bool>,
    pub extended_range: Option<bool>,
    pub xpulse: Option<bool>,
    pub military_emergency: Option<bool>,
    pub military_identification: Option<bool>,
    /// Mode 4 friend-or-foe answer, 0 to 3.
    pub foe_fri: Option<u8>,
    pub ads_b_element_populated: Option<bool>,
    pub ads_b_value: Option<bool>,
    pub scn_element_populated: Option<bool>,
    pub scn_value: Option<bool>,
    pub pai_element_populated: Option<bool>,
    pub pai_value: Option<bool>,
}

/// Radar plot characteristics; each value is present when its bit in the
/// leading octet is set. Run lengths and the azimuth difference are in
/// degrees, the range difference in nautical miles.
#[derive(Clone, Copy, Debug, PartialEq, Eq)]
pub struct RadarPlotCharacteristics {
    pub ssr_plot_runlength: Option<Scaled>,
    pub number_of_received_replies_ssr: Option<u8>,
    pub amplitude_of_mssr_reply: Option<u8>,
    pub primary_plot_runlength: Option<Scaled>,
    pub amplitude_of_primary_plot: Option<u8>,
    pub range_psr_ssr: Option<Scaled>,
    pub azimuth_psr_ssr: Option<Scaled>,
}

/// Mode S MB data: the repetition factor, and of each register kind the last
/// block that carries it.
#[derive(Clone, Copy, Debug, PartialEq, Eq)]
pub struct ModeSMBData {
    pub repetition: u8,
    pub bds_4_0: Option<BDS40>,
    pub bds_5_0: Option<BDS50>,
    pub bds_6_0: Option<BDS60>,
}

/// Calculated track velocity: ground speed in knots and heading in degrees.
#[derive(Clone, Copy, Debug, PartialEq, Eq)]
pub struct CalcTrackVelPolar {
    pub groundspeed: Scaled,
    pub heading: Scaled,
}

/// Track status. The last four fields come from the extension octet.
#[derive(Clone, Copy, Debug, PartialEq, Eq)]
pub struct TrackStatus {
    pub conf_vtent: bool,
    /// Sensor type, 0 to 3.
    pub type_of_sensor: u8,
    pub dou: bool,
    pub man_h: bool,
    /// Climbing or descending mode, 0 to 3.
    pub climb_desc: u8,
    pub end_of_track: Option<bool>,
    pub ghost_track: Option<bool>,
    pub sup: Option<bool>,
    pub tcc: Option<bool>,
}

/// Communications and ACAS capability, and flight status.
#[derive(Clone, Copy, Debug, PartialEq, Eq)]
pub struct ComAcas {
    /// Communications capability, 0 to 7.
    pub communications_capability: u8,
    /// Flight status, 0 to 7; 1 and 3 are the two "on ground" states.
    pub flight_status: u8,
    pub si_ii: bool,
    pub mode_s_specific_service_capability: bool,
    pub altitude_reporting_capability: bool,
    pub aircraft_identification_capability: bool,
    pub acas_status: bool,
    pub hybrid_surveillance: bool,
    pub ta_ra: bool,
    /// Applicable MOPS document, 0 to 3.
    pub applicable_mops_doc: u8,
}

/// Measured position in slant polar coordinates.
#[derive(Clone, Copy, Debug, PartialEq, Eq)]
pub struct SlantPolar {
    pub range_nm: Scaled,
    pub range_m: Scaled,
    pub theta: Scaled,
}

/// Decodes the data source identifier: SAC, SIC and the 16 bits they take.
pub fn decode_dsi(cursor: &BitCursor, pos: usize) -> (r: Option<(u8, u8, usize)>)
    ensures
        r == if fits(cursor@, pos as int, 16) {
            Some(
                (
                    unsigned(cursor@, pos as int, 8) as u8,
                    unsigned(cursor@, pos + 8, 8) as u8,
                    16usize,
                ),
            )
        } else {
            None
        },
{
    if !cursor.has(pos, 16) {
        return None;
    }
    Some((cursor.field_u8(pos, 8), cursor.field_u8(pos + 8, 8), 16))
}

/// Decodes the time of day: the 24-bit count of 1/128 s since midnight.
pub fn decode_time_of_day(cursor: &BitCursor, pos: usize) -> (r: Option<(u32, usize)>)
    ensures
        r == if fits(cursor@, pos as int, 24) {
            Some((unsigned(cursor@, pos as int, 24) as u32, 24usize))
        } else {
            None
        },
{
    if !cursor.has(pos, 24) {
        return None;
    }
    Some((cursor.field_u32(pos, 24), 24))
}

/// The target report descriptor whose first octet is at `pos`: the detection
/// type in three bits, then SIM, RDP, SPI, RAB and FX; in the first
/// extension TST, ERR, XPP, ME, MI, the two-bit FOE/FRI and FX; in the
/// second the ADS-B, SCN and PAI pairs, a spare bit and FX.
pub open spec fn target_desc(bits: Seq<bool>, pos: int) -> TargetDesc {
    let first = bits[pos + 7];
    let second = first && bits[pos + 15];
    TargetDesc {
        target_type: unsigned(bits, pos, 3) as u8,
        simulated: bits[pos + 3],
        rdp: bits[pos + 4],
        spi: bits[pos + 5],
        rab: bits[pos + 6],
        test: present_if(first, bits[pos + 8]),
        extended_range: present_if(first, bits[pos + 9]),
        xpulse: present_if(first, bits[pos + 10]),
        military_emergency: present_if(first, bits[pos + 11]),
        military_identification: present_if(first, bits[pos + 12]),
        foe_fri: present_if(first, unsigned(bits, pos + 13, 2) as u8),
        ads_b_element_populated: present_if(second, bits[pos + 16]),
        ads_b_value: present_if(second, bits[pos + 17]),
        scn_element_populated: present_if(second, bits[pos + 18]),
        scn_value: present_if(second, bits[pos + 19]),
        pai_element_populated: present_if(second, bits[pos + 20]),
        pai_value: present_if(second, bits[pos + 21]),
    }
}

/// Decodes the target report descriptor. It takes the whole chain of octets
/// up to the first with a clear FX bit; octets after the second extension
/// are passed over. Nothing when the view ends inside the chain.
pub fn decode_target_desc(cursor: &BitCursor, pos: usize) -> (r: Option<(TargetDesc, usize)>)
    ensures
        r.is_some() == fx_chain_bits(cursor@, pos as int).is_some(),
        r matches Some((desc, n)) ==> {
            &&& desc == target_desc(cursor@, pos as int)
            &&& Some(n as int) == fx_chain_bits(cursor@, pos as int)
        },
{
    let n = match skip_variable_fx(cursor, pos) {
        Some(n) => n,
        None => {
            return None;
        },
    };
    proof {
        lemma_fx_chain_extent(cursor@, pos as int);
        reveal_with_fuel(fx_chain_bits, 3);
        if cursor@[pos + 7] {
            lemma_fx_chain_extent(cursor@, pos + 8);
            if cursor@[pos + 15] {
                lemma_fx_chain_extent(cursor@, pos + 16);
            }
        }
    }
    let first = cursor.flag(pos + 7);
    let second = first && cursor.flag(pos + 15);
    let desc = TargetDesc {
        target_type: cursor.field_u8(pos, 3),
        simulated: cursor.flag(pos + 3),
        rdp: cursor.flag(pos + 4),
        spi: cursor.flag(pos + 5),
        rab: cursor.flag(pos + 6),
        test: if first {
            Some(cursor.flag(pos + 8))
        } else {
            None
        },
        extended_range: if first {
            Some(cursor.flag(pos + 9))
        } else {
            None
        },
        xpulse: if first {
            Some(cursor.flag(pos + 10))
        } else {
            None
        },
        military_emergency: if first {
            Some(cursor.flag(pos + 11))
        } else {
            None
        },
        military_identification: if first {
            Some(cursor.flag(pos + 12))
        } else {
            None
        },
        foe_fri: if first {
            Some(cursor.field_u8(pos + 13, 2))
        } else {
            None
        },
        ads_b_element_populated: if second {
            Some(cursor.flag(pos + 16))
        } else {
            None
        },
        ads_b_value: if second {
            Some(cursor.flag(pos + 17))
        } else {
            None
        },
        scn_element_populated: if second {
            Some(cursor.flag(pos + 18))
        } else {
            None
        },
        scn_value: if second {
            Some(cursor.flag(pos + 19))
        } else {
            None
        },
        pai_element_populated: if second {
            Some(cursor.flag(pos + 20))
        } else {
            None
        },
        pai_value: if second {
            Some(cursor.flag(pos + 21))
        } else {
            None
        },
    };
    Some((desc, n))
}

/// The slant polar position in the 32 bits at `pos`: the range in 1/256 NM,
/// the same range in metres at 1852 m to the mile, and the azimuth in
/// 360/65536 degrees.
pub open spec fn slant_polar(bits: Seq<bool>, pos: int) -> SlantPolar {
    SlantPolar {
        range_nm: ratio(unsigned(bits, pos, 16), 256),
        range_m: ratio(unsigned(bits, pos, 16) * 1852, 256),
        theta: ratio(unsigned(bits, pos + 16, 16) * 360, 65536),
    }
}

/// Decodes the measured position in slant polar coordinates, 32 bits.
pub fn decode_slant_polar(cursor: &BitCursor, pos: usize) -> (r: Option<(SlantPolar, usize)>)
    ensures
        r == if fits(cursor@, pos as int, 32) {
            Some((slant_polar(cursor@, pos as int), 32usize))
        } else {
            None
        },
{
    if !cursor.has(pos, 32) {
        return None;
    }
    let range: i64 = cursor.field_u16(pos, 16) as i64;
    let theta: i64 = cursor.field_u16(pos + 16, 16) as i64;
    let polar = SlantPolar {
        range_nm: Scaled { num: range, den: 256 },
        range_m: Scaled { num: range * 1852, den: 256 },
        theta: Scaled { num: theta * 360, den: 65536 },
    };
    Some((polar, 32))
}

/// Decodes the Mode-3/A code: the low 12 bits of the 16-bit item, which
/// hold four octal digits.
pub fn decode_mode3a_octal(cursor: &BitCursor, pos: usize) -> (r: Option<(u16, usize)>)
    ensures
        r == if fits(cursor@, pos as int, 16) {
            Some(((unsigned(cursor@, pos as int, 16) % 4096) as u16, 16usize))
        } else {
            None
        },
{
    if !cursor.has(pos, 16) {
        return None;
    }
    let item = cursor.field_u16(pos, 16);
    Some((item % 4096, 16))
}

/// Decodes the flight level: the 16-bit two's-complement count of quarter
/// levels, as levels.
pub fn decode_fl_binary(cursor: &BitCursor, pos: usize) -> (r: Option<(Scaled, usize)>)
    ensures
        r == if fits(cursor@, pos as int, 16) {
            Some((ratio(signed(cursor@, pos as int, 16), 4), 16usize))
        } else {
            None
        },
{
    if !cursor.has(pos, 16) {
        return None;
    }
    let quarters: i64 = cursor.field_i32(pos, 16) as i64;
    Some((Scaled { num: quarters, den: 4 }, 16))
}

/// 1 when bit `i` of the octet at `pos` is set, 0 when it is clear.
pub open spec fn gate(bits: Seq<bool>, pos: int, i: int) -> int {
    if bits[pos + i] {
        1
    } else {
        0
    }
}

/// The number of set bits among the first `j` bits of the octet at `pos`.
pub open spec fn gates_before(bits: Seq<bool>, pos: int, j: int) -> int {
    (if j > 0 {
        gate(bits, pos, 0)
    } else {
        0
    }) + (if j > 1 {
        gate(bits, pos, 1)
    } else {
        0
    }) + (if j > 2 {
        gate(bits, pos, 2)
    } else {
        0
    }) + (if j > 3 {
        gate(bits, pos, 3)
    } else {
        0
    }) + (if j > 4 {
        gate(bits, pos, 4)
    } else {
        0
    }) + (if j > 5 {
        gate(bits, pos, 5)
    } else {
        0
    }) + (if j > 6 {
        gate(bits, pos, 6)
    } else {
        0
    })
}

/// The octet that gate `j` of the leading octet at `pos` lets in: it follows
/// the leading octet and the octets of the gates before it.
pub open spec fn gated_octet(bits: Seq<bool>, pos: int, j: int) -> Option<int> {
    present_if(bits[pos + j], unsigned(bits, pos + 8 + 8 * gates_before(bits, pos, j), 8))
}

/// The length in bits of the radar plot characteristics at `pos`: the
/// leading octet and one octet for each of its seven leading bits that is
/// set.
pub open spec fn radar_plot_bits(bits: Seq<bool>, pos: int) -> int {
    8 + 8 * gates_before(bits, pos, 7)
}

/// A run length: 360/8192 degrees for each unit.
pub open spec fn runlength(raw: Option<int>) -> Option<Scaled> {
    match raw {
        Some(v) => Some(ratio(v * 360, 8192)),
        None => None,
    }
}

/// An octet as it stands.
pub open spec fn plain_octet(raw: Option<int>) -> Option<u8> {
    match raw {
        Some(v) => Some(v as u8),
        None => None,
    }
}

/// The radar plot characteristics at `pos`. The seven leading bits of the
/// first octet let in, in this order: the SSR plot run length, the number of
/// SSR replies, the SSR reply amplitude, the primary plot run length, the
/// primary plot amplitude, the range difference (1/256 NM each) and the
/// azimuth difference (360/16384 degrees each).
pub open spec fn radar_plot(bits: Seq<bool>, pos: int) -> RadarPlotCharacteristics {
    RadarPlotCharacteristics {
        ssr_plot_runlength: runlength(gated_octet(bits, pos, 0)),
        number_of_received_replies_ssr: plain_octet(gated_octet(bits, pos, 1)),
        amplitude_of_mssr_reply: plain_octet(gated_octet(bits, pos, 2)),
        primary_plot_runlength: runlength(gated_octet(bits, pos, 3)),
        amplitude_of_primary_plot: plain_octet(gated_octet(bits, pos, 4)),
        range_psr_ssr: match gated_octet(bits, pos, 5) {
            Some(v) => Some(ratio(v, 256)),
            None => None,
        },
        azimuth_psr_ssr: match gated_octet(bits, pos, 6) {
            Some(v) => Some(ratio(v * 360, 16384)),
            None => None,
        },
    }
}

/// Reads the octet that gate `j` of the leading octet at `pos` lets in, if
/// any, and gives the position after it; `at` is the position after the
/// octets of the gates before.
fn read_gated(cursor: &BitCursor, pos: usize, j: usize, at: usize) -> (r: Option<
    (Option<u8>, usize),
>)
    requires
        fits(cursor@, pos as int, 8),
        j < 7,
        at == pos + 8 + 8 * gates_before(cursor@, pos as int, j as int),
        at <= cursor@.len(),
    ensures
        r.is_some() == fits(
            cursor@,
            pos as int,
            8 + 8 * gates_before(cursor@, pos as int, j + 1),
        ),
        r matches Some((octet, next)) ==> {
            &&& gated_octet(cursor@, pos as int, j as int) == match octet {
                Some(v) => Some(v as int),
                None => None,
            }
            &&& next == pos + 8 + 8 * gates_before(cursor@, pos as int, j + 1)
        },
{
    if !cursor.flag(pos + j) {
        Some((None, at))
    } else if cursor.has(at, 8) {
        Some((Some(cursor.field_u8(at, 8)), at + 8))
    } else {
        None
    }
}

/// Decodes the radar plot characteristics: the values and the bits they
/// take, or nothing when the view ends before the last octet let in.
pub fn decode_radar_plot_characteristics(cursor: &BitCursor, pos: usize) -> (r: Option<
    (RadarPlotCharacteristics, usize),
>)
    ensures
        r == if fits(cursor@, pos as int, 8) && fits(
            cursor@,
            pos as int,
            radar_plot_bits(cursor@, pos as int),
        ) {
            Some(
                (radar_plot(cursor@, pos as int), radar_plot_bits(cursor@, pos as int) as usize),
            )
        } else {
            None
        },
{
    if !cursor.has(pos, 8) {
        return None;
    }
    let at = pos + 8;
    let (srl, at) = match read_gated(cursor, pos, 0, at) {
        Some(x) => x,
        None => {
            return None;
        },
    };
    let (srr, at) = match read_gated(cursor, pos, 1, at) {
        Some(x) => x,
        None => {
            return None;
        },
    };
    let (sam, at) = match read_gated(cursor, pos, 2, at) {
        Some(x) => x,
        None => {
            return None;
        },
    };
    let (prl, at) = match read_gated(cursor, pos, 3, at) {
        Some(x) => x,
        None => {
            return None;
        },
    };
    let (pam, at) = match read_gated(cursor, pos, 4, at) {
        Some(x) => x,
        None => {
            return None;
        },
    };
    let (rpd, at) = match read_gated(cursor, pos, 5, at) {
        Some(x) => x,
        None => {
            return None;
        },
    };
    let (apd, at) = match read_gated(cursor, pos, 6, at) {
        Some(x) => x,
        None => {
            return None;
        },
    };
    let plot = RadarPlotCharacteristics {
        ssr_plot_runlength: match srl {
            Some(v) => Some(Scaled { num: v as i64 * 360, den: 8192 }),
            None => None,
        },
        number_of_received_replies_ssr: srr,
        amplitude_of_mssr_reply: sam,
        primary_plot_runlength: match prl {
            Some(v) => Some(Scaled { num: v as i64 * 360, den: 8192 }),
            None => None,
        },
        amplitude_of_primary_plot: pam,
        range_psr_ssr: match rpd {
            Some(v) => Some(Scaled { num: v as i64, den: 256 }),
            None => None,
        },
        azimuth_psr_ssr: match apd {
            Some(v) => Some(Scaled { num: v as i64 * 360, den: 16384 }),
            None => None,
        },
    };
    Some((plot, at - pos))
}

/// Decodes the 24-bit aircraft address.
pub fn decode_aircraft_address(cursor: &BitCursor, pos: usize) -> (r: Option<(u32, usize)>)
    ensures
        r == if fits(cursor@, pos as int, 24) {
            Some((unsigned(cursor@, pos as int, 24) as u32, 24usize))
        } else {
            None
        },
{
    if !cursor.has(pos, 24) {
        return None;
    }
    Some((cursor.field_u32(pos, 24), 24))
}

/// Decodes the aircraft identification: the 48 bits that hold eight
/// characters of six bits each, the first character in the leading bits.
pub fn decode_aircraft_id(cursor: &BitCursor, pos: usize) -> (r: Option<(u64, usize)>)
    ensures
        r == if fits(cursor@, pos as int, 48) {
            Some((unsigned(cursor@, pos as int, 48) as u64, 48usize))
        } else {
            None
        },
{
    match cursor.load_unsigned(pos, 48) {
        Some(v) => Some((v, 48)),
        None => None,
    }
}

/// The length in bits of the Mode S MB data at `pos`: the repetition octet
/// and 64 bits for each block that it counts.
pub open spec fn mode_s_mb_bits(bits: Seq<bool>, pos: int) -> int {
    8 + 64 * unsigned(bits, pos, 8)
}

/// The Mode S MB data at `pos` after its first `n` blocks. A block is 56
/// bits of payload and then the two halves of the register number, four
/// bits each. A block numbered (4,0), (5,0) or (6,0) is decoded and takes
/// the place of an earlier block of the same number; any other is passed
/// over.
pub open spec fn mode_s_mb(bits: Seq<bool>, pos: int, n: int) -> ModeSMBData
    decreases n,
{
    if n <= 0 {
        ModeSMBData {
            repetition: unsigned(bits, pos, 8) as u8,
            bds_4_0: None,
            bds_5_0: None,
            bds_6_0: None,
        }
    } else {
        let before = mode_s_mb(bits, pos, n - 1);
        let block = pos + 8 + 64 * (n - 1);
        let bds1 = unsigned(bits, block + 56, 4);
        let bds2 = unsigned(bits, block + 60, 4);
        if bds1 == 4 && bds2 == 0 {
            ModeSMBData { bds_4_0: Some(bds_4_0(bits, block)), ..before }
        } else if bds1 == 5 && bds2 == 0 {
            ModeSMBData { bds_5_0: Some(bds_5_0(bits, block)), ..before }
        } else if bds1 == 6 && bds2 == 0 {
            ModeSMBData { bds_6_0: Some(bds_6_0(bits, block)), ..before }
        } else {
            before
        }
    }
}

/// Decodes the Mode S MB data: the registers found in its blocks and the
/// bits it takes, or nothing when the view ends before the last block.
pub fn decode_mode_s_mb_data(cursor: &BitCursor, pos: usize) -> (r: Option<(ModeSMBData, usize)>)
    ensures
        r == if fits(cursor@, pos as int, 8) && fits(
            cursor@,
            pos as int,
            mode_s_mb_bits(cursor@, pos as int),
        ) {
            Some(
                (
                    mode_s_mb(cursor@, pos as int, unsigned(cursor@, pos as int, 8)),
                    mode_s_mb_bits(cursor@, pos as int) as usize,
                ),
            )
        } else {
            None
        },
{
    if !cursor.has(pos, 8) {
        return None;
    }
    let repetition = cursor.field_u8(pos, 8);
    let total: usize = 8 + 64 * (repetition as usize);
    if !cursor.has(pos, total) {
        return None;
    }
    let mut data = ModeSMBData { repetition, bds_4_0: None, bds_5_0: None, bds_6_0: None };
    let mut i: usize = 0;
    while i < repetition as usize
        invariant
            0 <= i <= repetition,
            repetition as int == unsigned(cursor@, pos as int, 8),
            total == 8 + 64 * repetition,
            fits(cursor@, pos as int, total as int),
            pos + total <= usize::MAX,
            data == mode_s_mb(cursor@, pos as int, i as int),
        decreases repetition - i,
    {
        let block = pos + 8 + 64 * i;
        let bds1 = cursor.field_u8(block + 56, 4);
        let bds2 = cursor.field_u8(block + 60, 4);
        if bds1 == 4 && bds2 == 0 {
            let (register, _) = decode_bds_4_0(cursor, block).unwrap();
            data.bds_4_0 = Some(register);
        } else if bds1 == 5 && bds2 == 0 {
            let (register, _) = decode_bds_5_0(cursor, block).unwrap();
            data.bds_5_0 = Some(register);
        } else if bds1 == 6 && bds2 == 0 {
            let (register, _) = decode_bds_6_0(cursor, block).unwrap();
            data.bds_6_0 = Some(register);
        }
        i = i + 1;
    }
    Some((data, total))
}

/// Decodes the track number: the low 12 bits of the 16-bit item.
pub fn decode_track_number(cursor: &BitCursor, pos: usize) -> (r: Option<(u16, usize)>)
    ensures
        r == if fits(cursor@, pos as int, 16) {
            Some((unsigned(cursor@, pos + 4, 12) as u16, 16usize))
        } else {
            None
        },
{
    if !cursor.has(pos, 16) {
        return None;
    }
    Some((cursor.field_u16(pos + 4, 12), 16))
}

/// The calculated track velocity in the 32 bits at `pos`: the ground speed
/// at 0.22 kt for each unit, and the heading in 360/65536 degrees.
pub open spec fn calc_track_vel_polar(bits: Seq<bool>, pos: int) -> CalcTrackVelPolar {
    CalcTrackVelPolar {
        groundspeed: ratio(unsigned(bits, pos, 16) * 22, 100),
        heading: ratio(unsigned(bits, pos + 16, 16) * 360, 65536),
    }
}

/// Decodes the calculated track velocity in polar representation, 32 bits.
pub fn decode_calc_track_vel_polar(cursor: &BitCursor, pos: usize) -> (r: Option<
    (CalcTrackVelPolar, usize),
>)
    ensures
        r == if fits(cursor@, pos as int, 32) {
            Some((calc_track_vel_polar(cursor@, pos as int), 32usize))
        } else {
            None
        },
{
    if !cursor.has(pos, 32) {
        return None;
    }
    let speed: i64 = cursor.field_u16(pos, 16) as i64;
    let heading: i64 = cursor.field_u16(pos + 16, 16) as i64;
    let velocity = CalcTrackVelPolar {
        groundspeed: Scaled { num: speed * 22, den: 100 },
        heading: Scaled { num: heading * 360, den: 65536 },
    };
    Some((velocity, 32))
}

/// The length in bits of the track status at `pos`: one octet, and a second
/// when the first has its FX bit set.
pub open spec fn track_status_bits(bits: Seq<bool>, pos: int) -> int {
    if bits[pos + 7] {
        16
    } else {
        8
    }
}

/// The track status at `pos`: CNF, the two-bit sensor type, DOU, MAH, the
/// two-bit climbing mode and FX; in the extension TRE, GHO, SUP and TCC.
pub open spec fn track_status(bits: Seq<bool>, pos: int) -> TrackStatus {
    let extended = bits[pos + 7];
    TrackStatus {
        conf_vtent: bits[pos],
        type_of_sensor: unsigned(bits, pos + 1, 2) as u8,
        dou: bits[pos + 3],
        man_h: bits[pos + 4],
        climb_desc: unsigned(bits, pos + 5, 2) as u8,
        end_of_track: present_if(extended, bits[pos + 8]),
        ghost_track: present_if(extended, bits[pos + 9]),
        sup: present_if(extended, bits[pos + 10]),
        tcc: present_if(extended, bits[pos + 11]),
    }
}

/// Decodes the track status: one octet, or two when the first has its FX
/// bit set; nothing when the view ends before the last of them.
pub fn decode_track_status(cursor: &BitCursor, pos: usize) -> (r: Option<(TrackStatus, usize)>)
    ensures
        r == if fits(cursor@, pos as int, 8) && fits(
            cursor@,
            pos as int,
            track_status_bits(cursor@, pos as int),
        ) {
            Some(
                (
                    track_status(cursor@, pos as int),
                    track_status_bits(cursor@, pos as int) as usize,
                ),
            )
        } else {
            None
        },
{
    if !cursor.has(pos, 8) {
        return None;
    }
    let extended = cursor.flag(pos + 7);
    if extended && !cursor.has(pos, 16) {
        return None;
    }
    let status = TrackStatus {
        conf_vtent: cursor.flag(pos),
        type_of_sensor: cursor.field_u8(pos + 1, 2),
        dou: cursor.flag(pos + 3),
        man_h: cursor.flag(pos + 4),
        climb_desc: cursor.field_u8(pos + 5, 2),
        end_of_track: if extended {
            Some(cursor.flag(pos + 8))
        } else {
            None
        },
        ghost_track: if extended {
            Some(cursor.flag(pos + 9))
        } else {
            None
        },
        sup: if extended {
            Some(cursor.flag(pos + 10))
        } else {
            None
        },
        tcc: if extended {
            Some(cursor.flag(pos + 11))
        } else {
            None
        },
    };
    Some((status, if extended {
        16
    } else {
        8
    }))
}

/// The communications and ACAS capability and flight status in the 16 bits
/// at `pos`: COM and STAT in three bits each, SI/II and a spare bit; then
/// MSSC, ARC, AIC, the ACAS status bit, and four bits of ACAS detail: hybrid
/// surveillance, TA/RA and the two-bit MOPS document.
pub open spec fn com_acas(bits: Seq<bool>, pos: int) -> ComAcas {
    ComAcas {
        communications_capability: unsigned(bits, pos, 3) as u8,
        flight_status: unsigned(bits, pos + 3, 3) as u8,
        si_ii: bits[pos + 6],
        mode_s_specific_service_capability: bits[pos + 8],
        altitude_reporting_capability: bits[pos + 9],
        aircraft_identification_capability: bits[pos + 10],
        acas_status: bits[pos + 11],
        hybrid_surveillance: bits[pos + 12],
        ta_ra: bits[pos + 13],
        applicable_mops_doc: unsigned(bits, pos + 14, 2) as u8,
    }
}

/// Decodes the communications and ACAS capability and flight status, 16
/// bits.
pub fn decode_com_acas_cap_fl_st(cursor: &BitCursor, pos: usize) -> (r: Option<(ComAcas, usize)>)
    ensures
        r == if fits(cursor@, pos as int, 16) {
            Some((com_acas(cursor@, pos as int), 16usize))
        } else {
            None
        },
{
    if !cursor.has(pos, 16) {
        return None;
    }
    let status = ComAcas {
        communications_capability: cursor.field_u8(pos, 3),
        flight_status: cursor.field_u8(pos + 3, 3),
        si_ii: cursor.flag(pos + 6),
        mode_s_specific_service_capability: cursor.flag(pos + 8),
        altitude_reporting_capability: cursor.flag(pos + 9),
        aircraft_identification_capability: cursor.flag(pos + 10),
        acas_status: cursor.flag(pos + 11),
        hybrid_surveillance: cursor.flag(pos + 12),
        ta_ra: cursor.flag(pos + 13),
        applicable_mops_doc: cursor.field_u8(pos + 14, 2),
    };
    Some((status, 16))
}

/// A decoded category 48 record. An item that the record does not carry is
/// absent. Ranges are in nautical miles and metres, angles in degrees,
/// altitudes in flight levels, feet and metres.
#[derive(Clone, Copy, Debug, PartialEq, Eq)]
pub struct Cat48 {
    pub category: u8,
    pub sac: Option<u8>,
    pub sic: Option<u8>,
    /// The time of day in 1/128 s since midnight.
    pub time_of_day: Option<u32>,
    pub target_desc: Option<TargetDesc>,
    pub range_nm: Option<Scaled>,
    pub range_m: Option<Scaled>,
    pub theta: Option<Scaled>,
    /// The four octal digits of the Mode-3/A code, as a number below 4096.
    pub mode3a_code: Option<u16>,
    pub flight_level: Option<Scaled>,
    pub altitude_ft: Option<Scaled>,
    pub altitude_m: Option<Scaled>,
    pub radar_plot_characteristics: Option<RadarPlotCharacteristics>,
    /// The 24-bit ICAO address.
    pub aircraft_address: Option<u32>,
    /// Eight characters of six bits each, the first in the leading bits.
    pub target_identification: Option<u64>,
    pub mode_s_mb_data: Option<ModeSMBData>,
    pub track_number: Option<u16>,
    pub calc_track_vel_polar: Option<CalcTrackVelPolar>,
    pub track_status: Option<TrackStatus>,
    pub com_acas: Option<ComAcas>,
}

/// What a geodesic projection of the target starts from: the slant range in
/// metres, the azimuth in degrees and the altitude in metres.
#[derive(Clone, Copy, Debug, PartialEq, Eq)]
pub struct PolarFix {
    pub range_m: Scaled,
    pub theta: Scaled,
    pub altitude_m: Scaled,
}

/// The highest reference number of a category 48 item that is decoded or
/// passed over; a record that marks a higher one present is given up.
pub const CAT48_MAX_FRN: usize = 21;

/// The record of a category with every item absent.
pub open spec fn cat48_empty(category: u8) -> Cat48 {
    Cat48 {
        category,
        sac: None,
        sic: None,
        time_of_day: None,
        target_desc: None,
        range_nm: None,
        range_m: None,
        theta: None,
        mode3a_code: None,
        flight_level: None,
        altitude_ft: None,
        altitude_m: None,
        radar_plot_characteristics: None,
        aircraft_address: None,
        target_identification: None,
        mode_s_mb_data: None,
        track_number: None,
        calc_track_vel_polar: None,
        track_status: None,
        com_acas: None,
    }
}

/// The number of bits that the category 48 item with reference number `frn`
/// takes at `pos`, or nothing when `bits` ends before the item does. Items
/// 12 and 15 to 20 are passed over: 4 octets, 4 octets, a chain of octets up
/// to a clear FX bit, 2, 4, 2 and 2 octets.
pub open spec fn cat48_item_bits(bits: Seq<bool>, pos: int, frn: int) -> Option<int> {
    if frn == 1 {
        fixed_bits(bits, pos, 16)
    } else if frn == 2 {
        fixed_bits(bits, pos, 24)
    } else if frn == 3 {
        fx_chain_bits(bits, pos)
    } else if frn == 4 {
        fixed_bits(bits, pos, 32)
    } else if frn == 5 {
        fixed_bits(bits, pos, 16)
    } else if frn == 6 {
        fixed_bits(bits, pos, 16)
    } else if frn == 7 {
        counted_bits(bits, pos, radar_plot_bits(bits, pos))
    } else if frn == 8 {
        fixed_bits(bits, pos, 24)
    } else if frn == 9 {
        fixed_bits(bits, pos, 48)
    } else if frn == 10 {
        counted_bits(bits, pos, mode_s_mb_bits(bits, pos))
    } else if frn == 11 {
        fixed_bits(bits, pos, 16)
    } else if frn == 12 {
        fixed_bits(bits, pos, 32)
    } else if frn == 13 {
        fixed_bits(bits, pos, 32)
    } else if frn == 14 {
        counted_bits(bits, pos, track_status_bits(bits, pos))
    } else if frn == 15 {
        fixed_bits(bits, pos, 32)
    } else if frn == 16 {
        fx_chain_bits(bits, pos)
    } else if frn == 17 {
        fixed_bits(bits, pos, 16)
    } else if frn == 18 {
        fixed_bits(bits, pos, 32)
    } else if frn == 19 {
        fixed_bits(bits, pos, 16)
    } else if frn == 20 {
        fixed_bits(bits, pos, 16)
    } else if frn == 21 {
        fixed_bits(bits, pos, 16)
    } else {
        None
    }
}

/// The record `rec` with the item of reference number `frn` that stands at
/// `pos` put in. An item that is passed over leaves the record as it is.
pub open spec fn cat48_with_item(rec: Cat48, bits: Seq<bool>, pos: int, frn: int) -> Cat48 {
    if frn == 1 {
        Cat48 {
            sac: Some(unsigned(bits, pos, 8) as u8),
            sic: Some(unsigned(bits, pos + 8, 8) as u8),
            ..rec
        }
    } else if frn == 2 {
        Cat48 { time_of_day: Some(unsigned(bits, pos, 24) as u32), ..rec }
    } else if frn == 3 {
        Cat48 { target_desc: Some(target_desc(bits, pos)), ..rec }
    } else if frn == 4 {
        Cat48 {
            range_nm: Some(slant_polar(bits, pos).range_nm),
            range_m: Some(slant_polar(bits, pos).range_m),
            theta: Some(slant_polar(bits, pos).theta),
            ..rec
        }
    } else if frn == 5 {
        Cat48 { mode3a_code: Some((unsigned(bits, pos, 16) % 4096) as u16), ..rec }
    } else if frn == 6 {
        Cat48 {
            flight_level: Some(ratio(signed(bits, pos, 16), 4)),
            altitude_ft: Some(level_feet(ratio(signed(bits, pos, 16), 4))),
            altitude_m: Some(level_metres(ratio(signed(bits, pos, 16), 4))),
            ..rec
        }
    } else if frn == 7 {
        Cat48 { radar_plot_characteristics: Some(radar_plot(bits, pos)), ..rec }
    } else if frn == 8 {
        Cat48 { aircraft_address: Some(unsigned(bits, pos, 24) as u32), ..rec }
    } else if frn == 9 {
        Cat48 { target_identification: Some(unsigned(bits, pos, 48) as u64), ..rec }
    } else if frn == 10 {
        Cat48 { mode_s_mb_data: Some(mode_s_mb(bits, pos, unsigned(bits, pos, 8))), ..rec }
    } else if frn == 11 {
        Cat48 { track_number: Some(unsigned(bits, pos + 4, 12) as u16), ..rec }
    } else if frn == 13 {
        Cat48 { calc_track_vel_polar: Some(calc_track_vel_polar(bits, pos)), ..rec }
    } else if frn == 14 {
        Cat48 { track_status: Some(track_status(bits, pos)), ..rec }
    } else if frn == 21 {
        Cat48 { com_acas: Some(com_acas(bits, pos)), ..rec }
    } else {
        rec
    }
}

/// What the item of reference number `frn` at `pos` makes of `rec`: the
/// record with the item put in and the position after the item. A reference
/// number that the category does not have gives the record up as holding an
/// unsupported item, an item that `bits` ends in gives it up as truncated.
pub open spec fn cat48_item(rec: Cat48, bits: Seq<bool>, pos: int, frn: int) -> Result<
    (Cat48, int),
    DecodeError,
> {
    if frn < 1 || frn > CAT48_MAX_FRN {
        Err(DecodeError::UnsupportedItem)
    } else {
        match cat48_item_bits(bits, pos, frn) {
            None => Err(DecodeError::Truncated),
            Some(n) => Ok((cat48_with_item(rec, bits, pos, frn), pos + n)),
        }
    }
}

/// The record that the items marked in `presence` from index `k` on give,
/// the first of them standing at `pos`, put into `rec` one after the other.
/// Index `k` stands for reference number `k + 1`. The record is given up at
/// the first present item that gives it up.
pub open spec fn cat48_items(
    bits: Seq<bool>,
    presence: Seq<bool>,
    k: int,
    pos: int,
    rec: Cat48,
) -> Result<Cat48, DecodeError>
    decreases presence.len() - k,
{
    if k < 0 || k >= presence.len() {
        Ok(rec)
    } else if !presence[k] {
        cat48_items(bits, presence, k + 1, pos, rec)
    } else {
        match cat48_item(rec, bits, pos, k + 1) {
            Err(e) => Err(e),
            Ok((next, end)) => cat48_items(bits, presence, k + 1, end, next),
        }
    }
}

/// The position after the items marked in `presence` from index `k` on, the
/// first of them standing at `pos`; nothing when the record is given up.
pub open spec fn cat48_items_end(bits: Seq<bool>, presence: Seq<bool>, k: int, pos: int) -> Option<
    int,
>
    decreases presence.len() - k,
{
    if k < 0 || k >= presence.len() {
        Some(pos)
    } else if !presence[k] {
        cat48_items_end(bits, presence, k + 1, pos)
    } else if k + 1 > CAT48_MAX_FRN {
        None
    } else {
        match cat48_item_bits(bits, pos, k + 1) {
            None => None,
            Some(n) => cat48_items_end(bits, presence, k + 1, pos + n),
        }
    }
}

/// Whether the record reports one of the two "on ground" flight states.
pub open spec fn reports_on_ground(rec: Cat48) -> bool {
    match rec.com_acas {
        Some(status) => status.flight_status == 1 || status.flight_status == 3,
        None => false,
    }
}

/// The record after the one derivation of this category: a record without
/// an altitude that reports "on ground" gets flight level and altitude 0.
/// An altitude that the record carries is never replaced.
pub open spec fn cat48_pinned(rec: Cat48) -> Cat48 {
    if rec.altitude_m.is_none() && reports_on_ground(rec) {
        Cat48 {
            flight_level: Some(ratio(0, 1)),
            altitude_ft: Some(ratio(0, 1)),
            altitude_m: Some(ratio(0, 1)),
            ..rec
        }
    } else {
        rec
    }
}

/// The record that a category 48 body gives: the field specification at the
/// start of `bits`, the items it marks present right after it, and the
/// derivation. The body is given up as truncated when its field
/// specification does not end inside it.
#[verifier::opaque]
pub open spec fn cat48_record(category: u8, bits: Seq<bool>) -> Result<Cat48, DecodeError> {
    match fx_chain_bits(bits, 0) {
        None => Err(DecodeError::Truncated),
        Some(n) => match cat48_items(bits, fspec_presence(bits, 0), 0, n, cat48_empty(category)) {
            Ok(rec) => Ok(cat48_pinned(rec)),
            Err(e) => Err(e),
        },
    }
}

impl Cat48 {
    /// The record of a category with every item absent.
    pub fn new(category: u8) -> (rec: Self)
        ensures
            rec == cat48_empty(category),
    {
        Cat48 {
            category,
            sac: None,
            sic: None,
            time_of_day: None,
            target_desc: None,
            range_nm: None,
            range_m: None,
            theta: None,
            mode3a_code: None,
            flight_level: None,
            altitude_ft: None,
            altitude_m: None,
            radar_plot_characteristics: None,
            aircraft_address: None,
            target_identification: None,
            mode_s_mb_data: None,
            track_number: None,
            calc_track_vel_polar: None,
            track_status: None,
            com_acas: None,
        }
    }
}

impl Default for Cat48 {
    /// The record of category 0 with every item absent.
    fn default() -> (rec: Self)
        ensures
            rec == cat48_empty(0),
    {
        Cat48::new(0)
    }
}

/// Decodes the item of reference number `frn` at `pos` into `rec`: the new
/// record and the position after the item, or why the record is given up.
pub fn decode_cat48_item(cursor: &BitCursor, pos: usize, frn: usize, rec: Cat48) -> (r: Result<
    (Cat48, usize),
    DecodeError,
>)
    ensures
        match r {
            Ok((next, end)) => cat48_item(rec, cursor@, pos as int, frn as int) == Ok::<
                (Cat48, int),
                DecodeError,
            >((next, end as int)),
            Err(e) => cat48_item(rec, cursor@, pos as int, frn as int) == Err::<
                (Cat48, int),
                DecodeError,
            >(e),
        },
        r matches Ok((next, end)) ==> pos <= end <= cursor@.len(),
{
    if frn < 1 || frn > CAT48_MAX_FRN {
        return Err(DecodeError::UnsupportedItem);
    }
    if pos > cursor.len_bits() {
        return Err(DecodeError::Truncated);
    }
    if frn == 1 {
        match decode_dsi(cursor, pos) {
            Some((sac, sic, n)) => Ok((Cat48 { sac: Some(sac), sic: Some(sic), ..rec }, pos + n)),
            None => Err(DecodeError::Truncated),
        }
    } else if frn == 2 {
        match decode_time_of_day(cursor, pos) {
            Some((time, n)) => Ok((Cat48 { time_of_day: Some(time), ..rec }, pos + n)),
            None => Err(DecodeError::Truncated),
        }
    } else if frn == 3 {
        match decode_target_desc(cursor, pos) {
            Some((desc, n)) => {
                proof {
                    lemma_fx_chain_extent(cursor@, pos as int);
                }
                Ok((Cat48 { target_desc: Some(desc), ..rec }, pos + n))
            },
            None => Err(DecodeError::Truncated),
        }
    } else if frn == 4 {
        match decode_slant_polar(cursor, pos) {
            Some((polar, n)) => Ok(
                (
                    Cat48 {
                        range_nm: Some(polar.range_nm),
                        range_m: Some(polar.range_m),
                        theta: Some(polar.theta),
                        ..rec
                    },
                    pos + n,
                ),
            ),
            None => Err(DecodeError::Truncated),
        }
    } else if frn == 5 {
        match decode_mode3a_octal(cursor, pos) {
            Some((code, n)) => Ok((Cat48 { mode3a_code: Some(code), ..rec }, pos + n)),
            None => Err(DecodeError::Truncated),
        }
    } else if frn == 6 {
        match decode_fl_binary(cursor, pos) {
            Some((level, n)) => {
                proof {
                    lemma_unsigned_bound(cursor@, pos as int, 16);
                    lemma2_to64();
                }
                Ok(
                    (
                        Cat48 {
                            flight_level: Some(level),
                            altitude_ft: Some(flight_level_feet(level)),
                            altitude_m: Some(flight_level_metres(level)),
                            ..rec
                        },
                        pos + n,
                    ),
                )
            },
            None => Err(DecodeError::Truncated),
        }
    } else if frn == 7 {
        match decode_radar_plot_characteristics(cursor, pos) {
            Some((plot, n)) => Ok(
                (Cat48 { radar_plot_characteristics: Some(plot), ..rec }, pos + n),
            ),
            None => Err(DecodeError::Truncated),
        }
    } else if frn == 8 {
        match decode_aircraft_address(cursor, pos) {
            Some((address, n)) => Ok((Cat48 { aircraft_address: Some(address), ..rec }, pos + n)),
            None => Err(DecodeError::Truncated),
        }
    } else if frn == 9 {
        match decode_aircraft_id(cursor, pos) {
            Some((ident, n)) => Ok(
                (Cat48 { target_identification: Some(ident), ..rec }, pos + n),
            ),
            None => Err(DecodeError::Truncated),
        }
    } else if frn == 10 {
        match decode_mode_s_mb_data(cursor, pos) {
            Some((data, n)) => Ok((Cat48 { mode_s_mb_data: Some(data), ..rec }, pos + n)),
            None => Err(DecodeError::Truncated),
        }
    } else if frn == 11 {
        match decode_track_number(cursor, pos) {
            Some((number, n)) => Ok((Cat48 { track_number: Some(number), ..rec }, pos + n)),
            None => Err(DecodeError::Truncated),
        }
    } else if frn == 13 {
        match decode_calc_track_vel_polar(cursor, pos) {
            Some((velocity, n)) => Ok(
                (Cat48 { calc_track_vel_polar: Some(velocity), ..rec }, pos + n),
            ),
            None => Err(DecodeError::Truncated),
        }
    } else if frn == 14 {
        match decode_track_status(cursor, pos) {
            Some((status, n)) => Ok((Cat48 { track_status: Some(status), ..rec }, pos + n)),
            None => Err(DecodeError::Truncated),
        }
    } else if frn == 21 {
        match decode_com_acas_cap_fl_st(cursor, pos) {
            Some((status, n)) => Ok((Cat48 { com_acas: Some(status), ..rec }, pos + n)),
            None => Err(DecodeError::Truncated),
        }
    } else {
        let skipped = if frn == 16 {
            let n = skip_variable_fx(cursor, pos);
            proof {
                if n.is_some() {
                    lemma_fx_chain_extent(cursor@, pos as int);
                }
            }
            n
        } else if frn == 12 || frn == 15 || frn == 18 {
            skip_field(cursor, pos, 4)
        } else {
            skip_field(cursor, pos, 2)
        };
        match skipped {
            Some(n) => Ok((rec, pos + n)),
            None => Err(DecodeError::Truncated),
        }
    }
}

/// Applies the "on ground" derivation to a decoded record.
pub fn pin_on_ground(rec: Cat48) -> (pinned: Cat48)
    ensures
        pinned == cat48_pinned(rec),
{
    let on_ground = match rec.com_acas {
        Some(status) => status.flight_status == 1 || status.flight_status == 3,
        None => false,
    };
    if rec.altitude_m.is_none() && on_ground {
        let zero = Scaled { num: 0, den: 1 };
        Cat48 { flight_level: Some(zero), altitude_ft: Some(zero), altitude_m: Some(zero), ..rec }
    } else {
        rec
    }
}

/// Decodes a category 48 record body, the octets after the category and
/// length, into a record; or says why the body was given up.
pub fn decode_cat48(category: u8, cursor: &BitCursor) -> (r: Result<Cat48, DecodeError>)
    ensures
        r == cat48_record(category, cursor@),
{
    reveal(cat48_record);
    let (presence, start) = match read_fspec(cursor, 0) {
        Some(fspec) => fspec,
        None => {
            return Err(DecodeError::Truncated);
        },
    };
    let ghost bits = cursor@;
    let mut rec = Cat48::new(category);
    let mut pos = start;
    let mut k: usize = 0;
    while k < presence.len()
        invariant
            bits == cursor@,
            0 <= k <= presence@.len(),
            cat48_record(category, bits) == match cat48_items(
                bits,
                presence@,
                k as int,
                pos as int,
                rec,
            ) {
                Ok(done) => Ok::<Cat48, DecodeError>(cat48_pinned(done)),
                Err(e) => Err(e),
            },
        decreases presence@.len() - k,
    {
        if presence[k] {
            match decode_cat48_item(cursor, pos, k + 1, rec) {
                Ok((next, end)) => {
                    rec = next;
                    pos = end;
                },
                Err(e) => {
                    return Err(e);
                },
            }
        }
        k = k + 1;
    }
    Ok(pin_on_ground(rec))
}

impl Cat48 {
    /// What a geodesic projection starts from: present when the record holds
    /// a slant range above zero, an azimuth and an altitude.
    pub fn polar_fix(&self) -> (fix: Option<PolarFix>)
        ensures
            fix == match (self.range_m, self.theta, self.altitude_m) {
                (Some(range_m), Some(theta), Some(altitude_m)) => present_if(
                    range_m.num > 0,
                    (PolarFix { range_m, theta, altitude_m }),
                ),
                _ => None,
            },
    {
        match (self.range_m, self.theta, self.altitude_m) {
            (Some(range_m), Some(theta), Some(altitude_m)) => {
                if range_m.num > 0 {
                    Some(PolarFix { range_m, theta, altitude_m })
                } else {
                    None
                }
            },
            _ => None,
        }
    }
}

/// An item of category 48 that is decoded or passed over takes a whole
/// number of octets, at least one, and lies inside the body.
pub proof fn lemma_cat48_item_extent(bits: Seq<bool>, pos: int, frn: int)
    requires
        0 <= pos,
        cat48_item_bits(bits, pos, frn).is_some(),
    ensures
        cat48_item_bits(bits, pos, frn).unwrap() >= 8,
        cat48_item_bits(bits, pos, frn).unwrap() % 8 == 0,
        fits(bits, pos, cat48_item_bits(bits, pos, frn).unwrap()),
{
    if frn == 3 || frn == 16 {
        lemma_fx_chain_extent(bits, pos);
    }
    if frn == 10 {
        lemma_unsigned_bound(bits, pos, 8);
    }
}

/// A body whose field specification does not end inside it gives no
/// category 48 record.
pub proof fn lemma_cat48_unterminated_fspec(category: u8, bits: Seq<bool>)
    requires
        fx_chain_bits(bits, 0).is_none(),
    ensures
        cat48_record(category, bits) == Err::<Cat48, DecodeError>(DecodeError::Truncated),
{
    reveal(cat48_record);
}

/// The derivation replaces nothing that the record holds: an altitude that
/// is present stays, and every item but flight level and altitude stays in
/// any case.
pub proof fn lemma_cat48_pinning_keeps_wire_values(rec: Cat48)
    ensures
        rec.altitude_m.is_some() ==> cat48_pinned(rec) == rec,
        cat48_pinned(rec) == (Cat48 {
            flight_level: cat48_pinned(rec).flight_level,
            altitude_ft: cat48_pinned(rec).altitude_ft,
            altitude_m: cat48_pinned(rec).altitude_m,
            ..rec
        }),
        cat48_pinned(rec) != rec ==> cat48_pinned(rec).altitude_m == Some(ratio(0, 1)),
{
}

/// The items of a record that is not given up are read one after the
/// other and end inside the body.
pub proof fn lemma_cat48_items_within_body(
    bits: Seq<bool>,
    presence: Seq<bool>,
    k: int,
    pos: int,
    rec: Cat48,
)
    requires
        0 <= pos <= bits.len(),
    ensures
        cat48_items(bits, presence, k, pos, rec).is_ok() == cat48_items_end(
            bits,
            presence,
            k,
            pos,
        ).is_some(),
        cat48_items_end(bits, presence, k, pos) matches Some(end) ==> pos <= end <= bits.len(),
    decreases presence.len() - k,
{
    if 0 <= k < presence.len() {
        if !presence[k] {
            lemma_cat48_items_within_body(bits, presence, k + 1, pos, rec);
        } else if k + 1 <= CAT48_MAX_FRN {
            match cat48_item_bits(bits, pos, k + 1) {
                None => {},
                Some(n) => {
                    lemma_cat48_item_extent(bits, pos, k + 1);
                    lemma_cat48_items_within_body(
                        bits,
                        presence,
                        k + 1,
                        pos + n,
                        cat48_with_item(rec, bits, pos, k + 1),
                    );
                },
            }
        }
    }
}

/// The records that report "on ground" are those whose flight status has a
/// name that ends with "on ground".
pub proof fn lemma_on_ground_by_name(rec: Cat48)
    ensures
        reports_on_ground(rec) <==> (rec.com_acas matches Some(status) && ends_with(
            flight_status_text(status.flight_status),
            "on ground"@,
        )),
{
    if let Some(status) = rec.com_acas {
        lemma_on_ground_states(status.flight_status);
    }
}

} // verus!
