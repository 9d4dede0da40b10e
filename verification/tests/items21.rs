use decoderrs::bits::BitCursor;
use decoderrs::cat21::{
    decode_air_speed, decode_cat21, decode_cat21_item, decode_data_source_id,
    decode_flight_level, decode_magnetic_heading, decode_mode3a_code, decode_reserved_expansion,
    decode_target_address, decode_target_identification, decode_target_report_descriptor,
    decode_time_of_reception_position, decode_wgs84_coords_high_res, derive_altitudes,
    skip_compound_met_info, skip_compound_trajectory_intent, skip_data_ages, skip_octets,
    skip_repetitive_mode_s_mb, Cat21, TargetReportDescriptor,
};
use decoderrs::fspec::DecodeError;
use decoderrs::units::Scaled;

fn value_of(s: Scaled) -> f64 {
    s.num as f64 / s.den as f64
}

#[test]
fn cat21_data_source() {
    let bytes = [0x14, 0x81];
    assert_eq!(decode_data_source_id(&BitCursor::new(&bytes), 0), Some((20, 129, 16)));
    assert_eq!(decode_data_source_id(&BitCursor::new(&bytes[..1]), 0), None);
}

#[test]
fn report_descriptor_fields() {
    // ATP 2, ARC 1, RC 1, RAB 0, no extension
    let bytes = [0b010_01_1_0_0];
    assert_eq!(
        decode_target_report_descriptor(&BitCursor::new(&bytes), 0),
        Some((TargetReportDescriptor { atp: 2, arc: 1, rc: true, rab: false, gbs: None }, 8))
    );
}

#[test]
fn ground_bit_is_the_second_bit_of_the_first_extension() {
    for octet in 0..=255u8 {
        let bytes = [0x01, octet & 0xFE];
        let (desc, n) = decode_target_report_descriptor(&BitCursor::new(&bytes), 0).unwrap();
        assert_eq!(n, 16);
        assert_eq!(desc.gbs, Some((octet >> 6) & 1));
    }
}

#[test]
fn report_descriptor_takes_the_whole_chain() {
    let bytes = [0x01, 0x41, 0x01, 0x00, 0xFF];
    let (desc, n) = decode_target_report_descriptor(&BitCursor::new(&bytes), 0).unwrap();
    assert_eq!((desc.gbs, n), (Some(1), 32));
    assert_eq!(decode_target_report_descriptor(&BitCursor::new(&bytes[..3]), 0), None);
    assert_eq!(decode_target_report_descriptor(&BitCursor::new(&bytes[..1]), 0), None);
}

#[test]
fn high_resolution_position_is_signed() {
    let bytes = [0xE0, 0x00, 0x00, 0x00, 0x00, 0x00, 0x00, 0x01];
    let (lat, lon, n) = decode_wgs84_coords_high_res(&BitCursor::new(&bytes), 0).unwrap();
    assert_eq!(n, 64);
    assert_eq!(lat, Scaled { num: -0x2000_0000 * 180, den: 0x4000_0000 });
    assert_eq!(value_of(lat), -90.0);
    assert_eq!(lon, Scaled { num: 180, den: 0x4000_0000 });
    assert_eq!(decode_wgs84_coords_high_res(&BitCursor::new(&bytes[..7]), 0), None);
}

#[test]
fn air_speed_by_selector() {
    let ias = [0x00, 0xFA];
    assert_eq!(decode_air_speed(&BitCursor::new(&ias), 0), Some((Some(250), None, 16)));
    let mach = [0x43, 0x34];
    assert_eq!(
        decode_air_speed(&BitCursor::new(&mach), 0),
        Some((None, Some(Scaled { num: 820, den: 1000 }), 16))
    );
    let reserved = [0x80, 0xFA];
    assert_eq!(decode_air_speed(&BitCursor::new(&reserved), 0), Some((None, None, 16)));
    let invalid = [0xC0, 0xFA];
    assert_eq!(decode_air_speed(&BitCursor::new(&invalid), 0), Some((None, None, 16)));
    assert_eq!(decode_air_speed(&BitCursor::new(&ias[..1]), 0), None);
}

#[test]
fn address_time_code_level_heading_identification() {
    let bytes = [0x4C, 0xA2, 0xB1, 0x00, 0x80, 0x00, 0x0E, 0x00];
    let cursor = BitCursor::new(&bytes);
    assert_eq!(decode_target_address(&cursor, 0), Some((0x4CA2B1, 24)));
    assert_eq!(decode_time_of_reception_position(&cursor, 24), Some((0x008000, 24)));
    assert_eq!(decode_mode3a_code(&cursor, 48), Some((0o7000, 16)));
    assert_eq!(decode_flight_level(&cursor, 48), Some((Scaled { num: 0x0E00, den: 4 }, 16)));
    assert_eq!(
        decode_magnetic_heading(&cursor, 32),
        Some((Scaled { num: 0x8000 * 360, den: 65536 }, 16))
    );
    assert_eq!(decode_target_identification(&cursor, 16), Some((0xB10080000E00, 48)));
    assert_eq!(decode_target_identification(&cursor, 24), None);
    assert_eq!(decode_magnetic_heading(&cursor, 56), None);
}

#[test]
fn reserved_expansion_with_pressure() {
    // four octets: length, presence, and 1013.2 hPa
    let bytes = [0x04, 0x80, 0x08, 0x54, 0xFF];
    let (pressure, n) = decode_reserved_expansion(&BitCursor::new(&bytes), 0).unwrap();
    assert_eq!(n, 32);
    assert_eq!(pressure, Some(Scaled { num: 0x854 + 8000, den: 10 }));
    assert_eq!(pressure.map(value_of), Some(1013.2));
    // the four leading bits of the setting are not part of it
    let bytes = [0x04, 0x80, 0xF8, 0x54];
    let (pressure, _) = decode_reserved_expansion(&BitCursor::new(&bytes), 0).unwrap();
    assert_eq!(pressure, Some(Scaled { num: 0x854 + 8000, den: 10 }));
}

#[test]
fn reserved_expansion_is_passed_over_by_its_length() {
    let bytes = [0x06, 0x80, 0x08, 0x54, 0xAA, 0xBB, 0xCC];
    let (pressure, n) = decode_reserved_expansion(&BitCursor::new(&bytes), 0).unwrap();
    assert_eq!(n, 48);
    assert!(pressure.is_some());
    let without = [0x03, 0x40, 0x12];
    assert_eq!(decode_reserved_expansion(&BitCursor::new(&without), 0), Some((None, 24)));
    let short = [0x03, 0x80, 0x12];
    assert_eq!(decode_reserved_expansion(&BitCursor::new(&short), 0), Some((None, 24)));
    let alone = [0x01];
    assert_eq!(decode_reserved_expansion(&BitCursor::new(&alone), 0), Some((None, 8)));
}

#[test]
fn reserved_expansion_that_does_not_fit() {
    let bytes = [0x05, 0x80, 0x08, 0x54];
    assert_eq!(decode_reserved_expansion(&BitCursor::new(&bytes), 0), None);
    let zero = [0x00, 0x80, 0x08, 0x54];
    assert_eq!(decode_reserved_expansion(&BitCursor::new(&zero), 0), None);
    assert_eq!(decode_reserved_expansion(&BitCursor::new(&[]), 0), None);
}

#[test]
fn data_ages_take_an_octet_for_each_age() {
    // two octets of presence with five ages
    let bytes = [0b1010_0001, 0b0111_0000, 1, 2, 3, 4, 5, 6];
    assert_eq!(skip_data_ages(&BitCursor::new(&bytes), 0), Some(16 + 5 * 8));
    assert_eq!(skip_data_ages(&BitCursor::new(&bytes[..6]), 0), None);
    assert_eq!(skip_data_ages(&BitCursor::new(&bytes[..1]), 0), None);
    let none = [0x00];
    assert_eq!(skip_data_ages(&BitCursor::new(&none), 0), Some(8));
}

#[test]
fn met_information_by_its_leading_octet() {
    let bytes = [0xF0, 0, 0, 0, 0, 0, 0, 0];
    assert_eq!(skip_compound_met_info(&BitCursor::new(&bytes), 0), Some(64));
    let bytes = [0x90, 0, 0, 0];
    assert_eq!(skip_compound_met_info(&BitCursor::new(&bytes), 0), Some(32));
    let bytes = [0x0F];
    assert_eq!(skip_compound_met_info(&BitCursor::new(&bytes), 0), Some(8));
    let bytes = [0x40, 0];
    assert_eq!(skip_compound_met_info(&BitCursor::new(&bytes), 0), None);
    assert_eq!(skip_compound_met_info(&BitCursor::new(&[]), 0), None);
}

#[test]
fn repeated_items_by_their_count() {
    let mut bytes = vec![2u8];
    bytes.extend([0u8; 30]);
    assert_eq!(skip_compound_trajectory_intent(&BitCursor::new(&bytes), 0), Some(8 + 2 * 15 * 8));
    assert_eq!(skip_repetitive_mode_s_mb(&BitCursor::new(&bytes), 0), Some(8 + 2 * 8 * 8));
    assert_eq!(skip_compound_trajectory_intent(&BitCursor::new(&bytes[..30]), 0), None);
    assert_eq!(skip_repetitive_mode_s_mb(&BitCursor::new(&bytes[..16]), 0), None);
    let none = [0u8];
    assert_eq!(skip_compound_trajectory_intent(&BitCursor::new(&none), 0), Some(8));
    assert_eq!(skip_repetitive_mode_s_mb(&BitCursor::new(&[]), 0), None);
}

#[test]
fn fixed_lengths_of_the_items_passed_over() {
    let octets = [
        (3, 2), (4, 1), (5, 3), (6, 6), (8, 3), (10, 2), (13, 4), (14, 3), (15, 4), (16, 2),
        (18, 1), (20, 2), (23, 1), (24, 2), (25, 2), (26, 4), (27, 2), (28, 3), (30, 1), (32, 2),
        (33, 2), (35, 1), (36, 1), (38, 1), (40, 7), (41, 1),
    ];
    let body = [0u8; 16];
    let cursor = BitCursor::new(&body);
    let rec = Cat21::new(21);
    let mut listed = 0;
    for frn in 1..=49 {
        match octets.iter().find(|(f, _)| *f == frn) {
            Some((_, n)) => {
                listed += 1;
                assert_eq!(skip_octets(frn), *n);
                assert_eq!(decode_cat21_item(&cursor, 8, frn, rec), Ok((rec, 8 + 8 * n)));
                let short = BitCursor::new(&body[..*n]);
                assert_eq!(decode_cat21_item(&short, 8, frn, rec), Err(DecodeError::Truncated));
            }
            None => assert_eq!(skip_octets(frn), 0),
        }
    }
    assert_eq!(listed, 26);
}

#[test]
fn every_item_of_category_21_advances_by_its_length() {
    let body = [0x02u8; 40];
    let cursor = BitCursor::new(&body);
    let rec = Cat21::new(21);
    let decoded = [(1, 16), (7, 64), (9, 16), (11, 24), (12, 24), (19, 16), (21, 16), (22, 16), (29, 48)];
    for (frn, width) in decoded {
        assert_eq!(decode_cat21_item(&cursor, 8, frn, rec).unwrap().1, 8 + width);
    }
    for frn in [2, 17, 37, 43, 44, 45, 46, 47, 49] {
        assert_eq!(decode_cat21_item(&cursor, 8, frn, rec).unwrap().1, 16, "item {}", frn);
    }
    assert_eq!(decode_cat21_item(&cursor, 8, 31, rec).unwrap().1, 16);
    assert_eq!(decode_cat21_item(&cursor, 8, 34, rec).unwrap().1, 16 + 2 * 15 * 8);
    assert_eq!(decode_cat21_item(&cursor, 8, 39, rec).unwrap().1, 16 + 2 * 8 * 8);
    assert_eq!(decode_cat21_item(&cursor, 8, 42, rec).unwrap().1, 16 + 8);
    assert_eq!(decode_cat21_item(&cursor, 8, 48, rec).unwrap().1, 8 + 16);
}

#[test]
fn record_with_position_code_and_level() {
    // FRN 1, 7, 11, 19, 21 and 29
    let mut body = vec![0b1000_0011, 0b0001_0001, 0b0000_1011, 0b0000_0001, 0b1000_0000];
    body.extend([0x14, 0x81]);
    body.extend([0x10, 0, 0, 0, 0xF0, 0, 0, 0]);
    body.extend([0x34, 0xA0, 0xC9]);
    body.extend([0x0F, 0xFF]);
    body.extend([0x05, 0x78]);
    body.extend([0x04, 0x20, 0xF1, 0xCB, 0x38, 0x20]);
    let rec = decode_cat21(21, &BitCursor::new(&body)).unwrap();
    assert_eq!((rec.category, rec.sac, rec.sic), (21, Some(20), Some(129)));
    assert_eq!(rec.latitude.map(value_of), Some(45.0));
    assert_eq!(rec.longitude.map(value_of), Some(-45.0));
    assert_eq!(rec.icao_address, Some(0x34A0C9));
    assert_eq!(rec.mode3a_code, Some(0o7777));
    assert_eq!(rec.is_static, Some(true));
    assert_eq!(rec.flight_level.map(value_of), Some(350.0));
    assert_eq!(rec.height_ft.map(value_of), Some(35_000.0));
    assert_eq!(rec.height_m.map(value_of), Some(10_668.0));
    assert_eq!(rec.altitude_ft, None);
    assert_eq!(rec.target_identification, Some(0x0420F1CB3820));
    assert_eq!(rec.gbs, None);
}

#[test]
fn static_code_is_7777_only() {
    let rec = decode_cat21(21, &BitCursor::new(&[0x01, 0x01, 0x08, 0x0F, 0xFE])).unwrap();
    assert_eq!((rec.mode3a_code, rec.is_static), (Some(0o7776), Some(false)));
    let rec = decode_cat21(21, &BitCursor::new(&[0x01, 0x01, 0x08, 0xFF, 0xFF])).unwrap();
    assert_eq!((rec.mode3a_code, rec.is_static), (Some(0o7777), Some(true)));
}

fn with_level_and_pressure(level: [u8; 2], pressure: [u8; 2]) -> Vec<u8> {
    // FRN 21 and FRN 48
    let mut body = vec![0x01, 0x01, 0x03, 0x01, 0x01, 0x01, 0x04];
    body.extend(level);
    body.extend([0x04, 0x80]);
    body.extend(pressure);
    body
}

#[test]
fn altitude_from_level_and_pressure() {
    let body = with_level_and_pressure([0x05, 0x78], [0x08, 0x54]);
    let rec = decode_cat21(21, &BitCursor::new(&body)).unwrap();
    assert_eq!(rec.flight_level, Some(Scaled { num: 1400, den: 4 }));
    assert_eq!(rec.barometric_pressure_setting, Some(Scaled { num: 10_132, den: 10 }));
    let feet = rec.altitude_ft.unwrap();
    assert_eq!(feet, Scaled { num: 1400 * 100 * 1000 + (1_013_250 - 1_013_200) * 30 * 4, den: 4000 });
    assert_eq!(value_of(feet), 35_001.5);
    let metres = rec.altitude_m.unwrap();
    assert_eq!(metres, Scaled { num: feet.num * 3048, den: 40_000_000 });
    assert_eq!(rec.height_ft.map(value_of), Some(35_000.0));
}

#[test]
fn pressure_without_level_gives_no_altitude() {
    let body = [0x01, 0x01, 0x01, 0x01, 0x01, 0x01, 0x04, 0x04, 0x80, 0x08, 0x54];
    let rec = decode_cat21(21, &BitCursor::new(&body)).unwrap();
    assert_eq!(rec.barometric_pressure_setting.map(value_of), Some(1013.2));
    assert_eq!((rec.flight_level, rec.altitude_ft, rec.altitude_m), (None, None, None));
}

#[test]
fn pinned_level_with_pressure_gives_the_altitude_of_level_zero() {
    // FRN 2 with the ground bit and FRN 48 with 1003.2 hPa
    let body = [0x41, 0x01, 0x01, 0x01, 0x01, 0x01, 0x04, 0x01, 0x40, 0x04, 0x80, 0x07, 0xF0];
    let rec = decode_cat21(21, &BitCursor::new(&body)).unwrap();
    assert_eq!(rec.gbs, Some(1));
    assert_eq!(rec.flight_level, Some(Scaled { num: 0, den: 1 }));
    assert_eq!(rec.altitude_ft.map(value_of), Some(301.5));
    assert_eq!(derive_altitudes(rec).flight_level, rec.flight_level);
}

#[test]
fn extreme_level_and_pressure_fields() {
    for level in [[0x80, 0x00], [0x7F, 0xFF]] {
        for pressure in [[0x00, 0x00], [0xFF, 0xFF]] {
            let body = with_level_and_pressure(level, pressure);
            let rec = decode_cat21(21, &BitCursor::new(&body)).unwrap();
            let fl = value_of(rec.flight_level.unwrap());
            let setting = value_of(rec.barometric_pressure_setting.unwrap());
            let feet = value_of(rec.altitude_ft.unwrap());
            assert!((feet - (fl * 100.0 + (1013.25 - setting) * 30.0)).abs() < 1e-6);
            let metres = value_of(rec.altitude_m.unwrap());
            assert!((metres - feet * 0.3048).abs() < 1e-6);
        }
    }
}

#[test]
fn reference_numbers_outside_category_21() {
    let body = [0u8; 16];
    let cursor = BitCursor::new(&body);
    let rec = Cat21::new(21);
    for frn in [0, 50, 51, 56, usize::MAX] {
        assert_eq!(decode_cat21_item(&cursor, 0, frn, rec), Err(DecodeError::UnsupportedItem));
    }
    assert!(decode_cat21_item(&cursor, 0, 49, rec).is_ok());
    assert_eq!(decode_cat21_item(&cursor, 128, 49, rec), Err(DecodeError::Truncated));
}

#[test]
fn empty_record_of_category_21() {
    assert_eq!(decode_cat21(21, &BitCursor::new(&[0x00])), Ok(Cat21::new(21)));
    assert_eq!(Cat21::default(), Cat21::new(0));
    assert_eq!(derive_altitudes(Cat21::new(21)), Cat21::new(21));
}
