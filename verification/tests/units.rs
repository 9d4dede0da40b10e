use decoderrs::units::{
    feet_to_metres, flight_level_feet, flight_level_metres, pressure_altitude_feet, Scaled,
};

fn value_of(s: Scaled) -> f64 {
    s.num as f64 / s.den as f64
}

#[test]
fn altitude_at_standard_pressure() {
    let fl = Scaled { num: 350, den: 1 };
    let pressure = Scaled { num: 101_325, den: 100 };
    let feet = pressure_altitude_feet(fl, pressure);
    assert_eq!(feet.num, 35_000 * feet.den);
    assert_eq!(value_of(feet), 35_000.0);
    let metres = feet_to_metres(feet);
    assert_eq!(metres.num, 10_668 * metres.den);
    assert_eq!(value_of(metres), 35_000.0 * 0.3048);
}

#[test]
fn altitude_takes_thirty_feet_for_each_hectopascal() {
    // flight level 100 in quarter levels, 1003.2 hPa in tenths
    let feet = pressure_altitude_feet(Scaled { num: 400, den: 4 }, Scaled { num: 10_032, den: 10 });
    assert_eq!(feet, Scaled { num: 400 * 100 * 1000 + (1_013_250 - 1_003_200) * 30 * 4, den: 4000 });
    assert_eq!(value_of(feet), 10_000.0 + 10.05 * 30.0);
    let above = pressure_altitude_feet(Scaled { num: 0, den: 4 }, Scaled { num: 10_500, den: 10 });
    assert_eq!(value_of(above), (1013.25 - 1050.0) * 30.0);
}

#[test]
fn altitude_of_the_extreme_fields() {
    let low = pressure_altitude_feet(
        Scaled { num: -0x8000_0000, den: 1 },
        Scaled { num: 0x7FFF_FFFF, den: 1 },
    );
    assert_eq!(low.den, 100);
    assert_eq!(low.num, -0x8000_0000i64 * 10_000 + (101_325 - 100 * 0x7FFF_FFFFi64) * 30);
    let high = pressure_altitude_feet(
        Scaled { num: 0x7FFF_FFFF, den: 100 },
        Scaled { num: -0x8000_0000, den: 100 },
    );
    assert_eq!(high.den, 1_000_000);
    let metres = feet_to_metres(high);
    assert_eq!(metres.num, high.num * 3048);
    assert_eq!(metres.den, 10_000_000_000);
}

#[test]
fn flight_level_in_feet_and_metres() {
    let fl = Scaled { num: 1400, den: 4 };
    assert_eq!(flight_level_feet(fl), Scaled { num: 140_000, den: 4 });
    assert_eq!(flight_level_metres(fl), Scaled { num: 1400 * 3048, den: 400 });
    assert_eq!(value_of(flight_level_feet(fl)), 35_000.0);
    assert_eq!(value_of(flight_level_metres(fl)), 10_668.0);
    let below = Scaled { num: -4, den: 4 };
    assert_eq!(value_of(flight_level_feet(below)), -100.0);
    assert_eq!(value_of(flight_level_metres(below)), -30.48);
}
