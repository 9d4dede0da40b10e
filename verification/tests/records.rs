use decoderrs::bits::BitCursor;
use decoderrs::cat21::{decode_cat21, Cat21};
use decoderrs::cat48::{decode_cat48, Cat48};
use decoderrs::fspec::DecodeError;
use decoderrs::stream::{decode_stream, read_frame, Frame, Record};
use decoderrs::units::Scaled;

fn value(s: Scaled) -> f64 {
    s.num as f64 / s.den as f64
}

fn frame(category: u8, body: &[u8]) -> Vec<u8> {
    let len = body.len() + 3;
    let mut out = vec![category, (len >> 8) as u8, (len & 0xFF) as u8];
    out.extend_from_slice(body);
    out
}

fn empty48() -> Cat48 {
    Cat48 {
        category: 48,
        sac: None,
        sic: None,
        time_of_day: None,
        target_desc: None,
        range_nm: None,
        range_m: None,
        theta: None,
        mode3a_code: None,
        flight_level: None,
        altitude_ft: None,
        altitude_m: None,
        radar_plot_characteristics: None,
        aircraft_address: None,
        target_identification: None,
        mode_s_mb_data: None,
        track_number: None,
        calc_track_vel_polar: None,
        track_status: None,
        com_acas: None,
    }
}

fn empty21() -> Cat21 {
    Cat21 {
        category: 21,
        sac: None,
        sic: None,
        atp: None,
        arc: None,
        rc: None,
        rab: None,
        gbs: None,
        latitude: None,
        longitude: None,
        icao_address: None,
        time_of_reception_position: None,
        mode3a_code: None,
        flight_level: None,
        altitude_ft: None,
        altitude_m: None,
        height_ft: None,
        height_m: None,
        ias: None,
        mach: None,
        magnetic_heading: None,
        target_identification: None,
        barometric_pressure_setting: None,
        is_static: None,
    }
}

fn cat48(body: &[u8]) -> Result<Cat48, DecodeError> {
    decode_cat48(48, &BitCursor::new(body))
}

fn cat21(body: &[u8]) -> Result<Cat21, DecodeError> {
    decode_cat21(21, &BitCursor::new(body))
}

#[test]
fn two_byte_input_gives_no_record() {
    assert_eq!(decode_stream(&[0x30, 0x00], None), vec![]);
}

#[test]
fn empty_input_gives_no_record() {
    assert_eq!(decode_stream(&[], None), vec![]);
    assert_eq!(decode_stream(&[], Some(3)), vec![]);
}

#[test]
fn cat48_record_with_only_the_data_source() {
    let bytes = frame(48, &[0x80, 0x07, 0x2A]);
    let expected = Cat48 { sac: Some(7), sic: Some(42), ..empty48() };
    assert_eq!(decode_stream(&bytes, None), vec![Record::Cat48(expected)]);
}

#[test]
fn cat48_record_with_a_two_octet_field_specification() {
    let bytes = frame(48, &[0x81, 0x00, 0x07, 0x2A]);
    let expected = Cat48 { sac: Some(7), sic: Some(42), ..empty48() };
    assert_eq!(decode_stream(&bytes, None), vec![Record::Cat48(expected)]);
}

#[test]
fn cat21_ground_bit_pins_the_altitude() {
    let rec = cat21(&[0x40, 0x01, 0x40]).unwrap();
    assert_eq!(rec.gbs, Some(1));
    assert_eq!(rec.flight_level.map(value), Some(0.0));
    assert_eq!(rec.altitude_ft.map(value), Some(0.0));
    assert_eq!(rec.altitude_m.map(value), Some(0.0));
    assert_eq!(rec.atp, Some(0));
    assert_eq!(rec.arc, Some(0));
    assert_eq!(rec.rc, Some(false));
    assert_eq!(rec.rab, Some(false));
    assert_eq!(rec.height_ft, None);
}

#[test]
fn cat21_clear_ground_bit_pins_nothing() {
    let rec = cat21(&[0x40, 0x01, 0xBE]).unwrap();
    assert_eq!(rec.gbs, Some(0));
    assert_eq!(rec.flight_level, None);
    assert_eq!(rec.altitude_ft, None);
    let rec = cat21(&[0x40, 0xFE]).unwrap();
    assert_eq!(rec.gbs, None);
    assert_eq!(rec.atp, Some(7));
    assert_eq!(rec.arc, Some(3));
    assert_eq!(rec.rc, Some(true));
    assert_eq!(rec.rab, Some(true));
    assert_eq!(rec.altitude_m, None);
}

#[test]
fn cat21_flight_level_from_the_wire_is_not_pinned() {
    // FRN 2 with the ground bit, FRN 21 with flight level 10
    let rec = cat21(&[0x41, 0x01, 0x02, 0x01, 0x40, 0x00, 0x28]).unwrap();
    assert_eq!(rec.gbs, Some(1));
    assert_eq!(rec.flight_level, Some(Scaled { num: 40, den: 4 }));
    assert_eq!(rec.height_ft.map(value), Some(1000.0));
    assert_eq!(rec.height_m.map(value), Some(304.8));
    assert_eq!(rec.altitude_ft, None);
    assert_eq!(rec.altitude_m, None);
}

#[test]
fn cat48_mode_s_mb_block_with_bds_4_0() {
    let body = [0x01, 0x20, 0x01, 0xBE, 0x80, 0x00, 0x00, 0x00, 0x00, 0x00, 0x40];
    let rec = cat48(&body).unwrap();
    let mb = rec.mode_s_mb_data.unwrap();
    assert_eq!(mb.repetition, 1);
    let register = mb.bds_4_0.unwrap();
    assert!(register.status_mcp);
    assert_eq!(register.mcp_alt, 0x7D0 * 16);
    assert_eq!(register.mcp_alt, 32_000);
    assert!(!register.status_fms);
    assert_eq!(register.fms_alt, 0);
    assert_eq!(value(register.bar_press), 800.0);
    assert_eq!(mb.bds_5_0, None);
    assert_eq!(mb.bds_6_0, None);
}

#[test]
fn cat21_high_resolution_position() {
    let body = [0x02, 0x20, 0x00, 0x00, 0x00, 0x00, 0x00, 0x00, 0x00];
    let rec = cat21(&body).unwrap();
    assert_eq!(rec.latitude, Some(Scaled { num: 0x2000_0000 * 180, den: 1 << 30 }));
    assert_eq!(rec.latitude.map(value), Some(90.0));
    assert_eq!(rec.longitude.map(value), Some(0.0));
    let body = [0x02, 0x10, 0x00, 0x00, 0x00, 0xF0, 0x00, 0x00, 0x00];
    let rec = cat21(&body).unwrap();
    assert_eq!(rec.latitude.map(value), Some(45.0));
    assert_eq!(rec.longitude.map(value), Some(-45.0));
}

#[test]
fn cat48_slant_polar_position() {
    let rec = cat48(&[0x10, 0x01, 0x00, 0x40, 0x00]).unwrap();
    assert_eq!(rec.range_nm.map(value), Some(1.0));
    assert_eq!(rec.range_m.map(value), Some(1852.0));
    assert_eq!(rec.theta.map(value), Some(90.0));
    let expected = Cat48 {
        range_nm: Some(Scaled { num: 256, den: 256 }),
        range_m: Some(Scaled { num: 256 * 1852, den: 256 }),
        theta: Some(Scaled { num: 0x4000 * 360, den: 65536 }),
        ..empty48()
    };
    assert_eq!(rec, expected);
}

#[test]
fn unterminated_field_specification_drops_the_record() {
    assert_eq!(cat48(&[0x81]), Err(DecodeError::Truncated));
    assert_eq!(cat21(&[0x81, 0x01, 0x01]), Err(DecodeError::Truncated));
    assert_eq!(cat48(&[]), Err(DecodeError::Truncated));
    let mut bytes = frame(48, &[0x81, 0x01]);
    bytes.extend(frame(48, &[0x80, 0x07, 0x2A]));
    assert_eq!(decode_stream(&bytes, None), vec![]);
}

#[test]
fn truncated_item_gives_up_the_record() {
    assert_eq!(cat48(&[0x80, 0x07]), Err(DecodeError::Truncated));
    assert_eq!(cat21(&[0x02, 0x20, 0x00, 0x00, 0x00]), Err(DecodeError::Truncated));
    // the first item is complete, the second is not: nothing is kept
    assert_eq!(cat48(&[0xC0, 0x07, 0x2A, 0x00, 0x01]), Err(DecodeError::Truncated));
}

#[test]
fn item_beyond_the_category_gives_up_the_record() {
    // FRN 22 of category 48
    assert_eq!(cat48(&[0x01, 0x01, 0x01, 0x80, 0, 0, 0, 0]), Err(DecodeError::UnsupportedItem));
    // FRN 21 is the last that is decoded
    assert!(cat48(&[0x01, 0x01, 0x02, 0x20, 0x00]).is_ok());
    // FRN 50 of category 21
    let body = [0x01, 0x01, 0x01, 0x01, 0x01, 0x01, 0x01, 0x80, 0, 0, 0];
    assert_eq!(cat21(&body), Err(DecodeError::UnsupportedItem));
}

#[test]
fn next_record_starts_where_the_length_says() {
    // the first frame carries two octets that no item claims
    let mut bytes = frame(48, &[0x80, 0x07, 0x2A, 0xEE, 0xEE]);
    bytes.extend(frame(21, &[0x80, 0x01, 0x02]));
    bytes.extend(frame(48, &[0x80, 0x03, 0x04]));
    let records = decode_stream(&bytes, None);
    assert_eq!(
        records,
        vec![
            Record::Cat48(Cat48 { sac: Some(7), sic: Some(42), ..empty48() }),
            Record::Cat21(Cat21 { sac: Some(1), sic: Some(2), ..empty21() }),
            Record::Cat48(Cat48 { sac: Some(3), sic: Some(4), ..empty48() }),
        ]
    );
    let cursor = BitCursor::new(&bytes);
    match read_frame(&cursor, 0) {
        Frame::Decoded { next, .. } => assert_eq!(next, 8 * 8),
        other => panic!("{:?}", other),
    }
    match read_frame(&cursor, 64) {
        Frame::Decoded { next, .. } => assert_eq!(next, 64 + 6 * 8),
        other => panic!("{:?}", other),
    }
}

#[test]
fn other_categories_are_passed_over_and_do_not_count() {
    let mut bytes = frame(34, &[0xFF, 0xFF]);
    bytes.extend(frame(48, &[0x80, 0x07, 0x2A]));
    bytes.extend(frame(1, &[]));
    bytes.extend(frame(48, &[0x80, 0x08, 0x2B]));
    bytes.extend(frame(48, &[0x80, 0x09, 0x2C]));
    let all = decode_stream(&bytes, None);
    assert_eq!(all.len(), 3);
    let two = decode_stream(&bytes, Some(2));
    assert_eq!(two, all[..2].to_vec());
    assert_eq!(decode_stream(&bytes, Some(0)), vec![]);
    assert_eq!(decode_stream(&bytes, Some(7)), all);
    assert_eq!(read_frame(&BitCursor::new(&bytes), 0), Frame::Skipped { next: 40 });
}

#[test]
fn length_below_three_ends_the_stream() {
    let mut bytes = frame(48, &[0x80, 0x07, 0x2A]);
    bytes.extend([48, 0, 2, 0x80, 0x07, 0x2A]);
    bytes.extend(frame(48, &[0x80, 0x07, 0x2A]));
    assert_eq!(decode_stream(&bytes, None).len(), 1);
    assert_eq!(read_frame(&BitCursor::new(&bytes), 48), Frame::Malformed);
    assert_eq!(read_frame(&BitCursor::new(&bytes), 48 + 6 * 8 + 6 * 8), Frame::End);
    assert_eq!(read_frame(&BitCursor::new(&bytes), 48 + 6 * 8 + 6 * 8 - 16), Frame::End);
}

#[test]
fn length_past_the_end_ends_the_stream() {
    let mut bytes = frame(48, &[0x80, 0x07, 0x2A]);
    bytes.extend([48, 0, 7, 0x80, 0x07, 0x2A]);
    assert_eq!(decode_stream(&bytes, None).len(), 1);
    assert_eq!(read_frame(&BitCursor::new(&bytes), 48), Frame::Malformed);
}

#[test]
fn top_bit_of_the_length_is_not_counted() {
    let bytes = [48, 0x80, 6, 0x80, 0x07, 0x2A];
    let expected = Cat48 { sac: Some(7), sic: Some(42), ..empty48() };
    assert_eq!(decode_stream(&bytes, None), vec![Record::Cat48(expected)]);
}

#[test]
fn given_up_record_ends_the_stream() {
    let mut bytes = frame(48, &[0x80, 0x07, 0x2A]);
    bytes.extend(frame(48, &[0x80, 0x07]));
    bytes.extend(frame(48, &[0x80, 0x07, 0x2A]));
    assert_eq!(decode_stream(&bytes, None).len(), 1);
    assert_eq!(
        read_frame(&BitCursor::new(&bytes), 48),
        Frame::GivenUp { error: DecodeError::Truncated }
    );
}

#[test]
fn field_specification_ends_at_the_first_clear_extension_bit() {
    // after the one octet 0x80 the items begin: the second 0x00 is the SAC
    let rec = cat48(&[0x80, 0x00, 0x07, 0x2A]).unwrap();
    assert_eq!((rec.sac, rec.sic), (Some(0), Some(7)));
}

#[test]
fn limit_counts_decoded_records_only() {
    let mut bytes = Vec::new();
    for sic in 0..5u8 {
        bytes.extend(frame(2, &[sic]));
        bytes.extend(frame(48, &[0x80, 0x01, sic]));
    }
    for limit in 0..7usize {
        let records = decode_stream(&bytes, Some(limit));
        assert_eq!(records.len(), limit.min(5));
        for (i, record) in records.iter().enumerate() {
            let expected = Cat48 { sac: Some(1), sic: Some(i as u8), ..empty48() };
            assert_eq!(*record, Record::Cat48(expected));
        }
    }
}
