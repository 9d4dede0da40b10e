//! Exact quantities and the altitude derivations.

use vstd::prelude::*;

verus! {

/// An exact quantity, `num / den` of the unit that the field names. Every
/// quantity that the library gives has a positive denominator. Two values
/// with the same ratio but other numerators are different values: every
/// contract fixes both parts.
#[derive(Clone, Copy, Debug, PartialEq, Eq)]
pub struct Scaled {
    pub num: i64,
    pub den: i64,
}

/// The fraction `num / den`, for parts that fit in 64 bits.
pub open spec fn ratio(num: int, den: int) -> Scaled {
    Scaled { num: num as i64, den: den as i64 }
}

/// Numerators and denominators small enough for the derivations below to
/// stay inside 64 bits: a numerator of 32 bits and a denominator from 1 to
/// 100.
pub open spec fn is_small(s: Scaled) -> bool {
    &&& -0x8000_0000 <= s.num <= 0x7FFF_FFFF
    &&& 1 <= s.den <= 100
}

/// Feet for a flight level: one level is 100 ft.
pub open spec fn level_feet(fl: Scaled) -> Scaled {
    ratio(fl.num * 100, fl.den as int)
}

/// Metres for a flight level: one level is 30.48 m.
pub open spec fn level_metres(fl: Scaled) -> Scaled {
    ratio(fl.num * 3048, fl.den * 100)
}

/// Feet for a flight level `fl` and a barometric setting `pressure` in hPa:
/// `fl * 100 + (1013.25 - pressure) * 30`, over the denominator
/// `100 * fl.den * pressure.den`.
pub open spec fn pressure_feet(fl: Scaled, pressure: Scaled) -> Scaled {
    ratio(
        fl.num * 100 * (100 * pressure.den) + (101_325 * pressure.den - 100 * pressure.num) * 30
            * fl.den,
        100 * fl.den * pressure.den,
    )
}

/// Metres for feet: one foot is 0.3048 m.
pub open spec fn feet_metres(ft: Scaled) -> Scaled {
    ratio(ft.num * 3048, ft.den * 10_000)
}

/// The altitude in feet that a flight level stands for.
pub fn flight_level_feet(fl: Scaled) -> (ft: Scaled)
    requires
        is_small(fl),
    ensures
        ft == level_feet(fl),
{
    Scaled { num: fl.num * 100, den: fl.den }
}

/// The altitude in metres that a flight level stands for.
pub fn flight_level_metres(fl: Scaled) -> (m: Scaled)
    requires
        is_small(fl),
    ensures
        m == level_metres(fl),
{
    Scaled { num: fl.num * 3048, den: fl.den * 100 }
}

/// The altitude in feet from a flight level and the barometric pressure
/// setting, by the simplified standard-atmosphere rule of 30 ft per hPa
/// around 1013.25 hPa.
pub fn pressure_altitude_feet(fl: Scaled, pressure: Scaled) -> (ft: Scaled)
    requires
        is_small(fl),
        is_small(pressure),
    ensures
        ft == pressure_feet(fl, pressure),
        ft.den == 100 * fl.den * pressure.den,
        ft.num == fl.num * 100 * (100 * pressure.den) + (101_325 * pressure.den - 100
            * pressure.num) * 30 * fl.den,
        -3_000_000_000_000_000 <= ft.num <= 3_000_000_000_000_000,
        1 <= ft.den <= 1_000_000,
{
    let hundreds: i64 = fl.num * 100;
    let spread: i64 = 100 * pressure.den;
    assert(-2_200_000_000_000_000 <= hundreds * spread <= 2_200_000_000_000_000)
        by (nonlinear_arith)
        requires
            -220_000_000_000 <= hundreds <= 220_000_000_000,
            1 <= spread <= 10_000,
    ;
    let level_part: i64 = hundreds * spread;
    let offset: i64 = (101_325 * pressure.den - 100 * pressure.num) * 30;
    assert(-700_000_000_000_000 <= offset * fl.den <= 700_000_000_000_000) by (nonlinear_arith)
        requires
            -7_000_000_000_000 <= offset <= 7_000_000_000_000,
            1 <= fl.den <= 100,
    ;
    let pressure_part: i64 = offset * fl.den;
    assert(1 <= fl.den * pressure.den <= 10_000) by (nonlinear_arith)
        requires
            1 <= fl.den <= 100,
            1 <= pressure.den <= 100,
    ;
    assert(100 * fl.den * pressure.den == 100 * (fl.den * pressure.den)) by (nonlinear_arith);
    let den: i64 = 100 * (fl.den * pressure.den);
    Scaled { num: level_part + pressure_part, den }
}

/// Metres for an altitude in feet.
pub fn feet_to_metres(ft: Scaled) -> (m: Scaled)
    requires
        -3_000_000_000_000_000 <= ft.num <= 3_000_000_000_000_000,
        1 <= ft.den <= 1_000_000,
    ensures
        m == feet_metres(ft),
        m.num == ft.num * 3048,
        m.den == ft.den * 10_000,
{
    Scaled { num: ft.num * 3048, den: ft.den * 10_000 }
}

/// Whether two quantities with positive denominators are the same number.
pub open spec fn same_value(a: Scaled, b: Scaled) -> bool {
    a.num * b.den == b.num * a.den
}

/// The metres of a flight level are the metres of its feet.
pub proof fn lemma_level_metres_by_feet(fl: Scaled)
    requires
        is_small(fl),
    ensures
        same_value(level_metres(fl), feet_metres(level_feet(fl))),
{
    let n = fl.num as int;
    let d = fl.den as int;
    assert(-0x1_0000_0000_0000 <= n * 3048 <= 0x1_0000_0000_0000);
    assert((n * 3048) * (d * 10_000) == ((n * 100) * 3048) * (d * 100)) by (nonlinear_arith);
}

/// At the standard pressure of 1013.25 hPa the altitude is what the flight
/// level stands for.
pub proof fn lemma_altitude_at_standard_pressure(fl: Scaled)
    requires
        is_small(fl),
    ensures
        same_value(pressure_feet(fl, ratio(101_325, 100)), level_feet(fl)),
{
    let n = fl.num as int;
    let d = fl.den as int;
    let feet = pressure_feet(fl, ratio(101_325, 100));
    assert(n * 100 * (100 * 100) + (101_325 * 100 - 100 * 101_325) * 30 * d == n * 1_000_000)
        by (nonlinear_arith);
    assert(100 * d * 100 == d * 10_000) by (nonlinear_arith);
    assert(feet.num == n * 1_000_000);
    assert(feet.den == d * 10_000);
    assert((n * 1_000_000) * d == (n * 100) * (d * 10_000)) by (nonlinear_arith);
}

} // verus!
