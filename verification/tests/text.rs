use decoderrs::text::{address_string, ident_string, mode3a_string, time_string};

fn six_bit(c: char) -> u64 {
    match c {
        'A'..='Z' => c as u64 - 64,
        '0'..='9' => c as u64,
        _ => 32,
    }
}

fn encode_ident(text: &str) -> u64 {
    let mut raw = 0u64;
    let mut count = 0;
    for c in text.chars() {
        raw = raw * 64 + six_bit(c);
        count += 1;
    }
    while count < 8 {
        raw = raw * 64 + 32;
        count += 1;
    }
    raw
}

#[test]
fn mode3a_round_trip_of_octal_digits() {
    assert_eq!(mode3a_string(0o1234), "1234");
    assert_eq!(mode3a_string(0o7777), "7777");
    assert_eq!(mode3a_string(0), "0000");
    assert_eq!(mode3a_string(0o0705), "0705");
}

#[test]
fn mode3a_round_trip_for_every_code() {
    for a in 0..8u16 {
        for b in 0..8u16 {
            for c in 0..8u16 {
                for d in 0..8u16 {
                    let code = a * 512 + b * 64 + c * 8 + d;
                    assert_eq!(mode3a_string(code), format!("{}{}{}{}", a, b, c, d));
                }
            }
        }
    }
}

#[test]
fn mode3a_reads_only_the_low_twelve_bits() {
    assert_eq!(mode3a_string(0xF000 | 0o1234), "1234");
}

#[test]
fn address_is_six_upper_case_hex_digits() {
    assert_eq!(address_string(0x00AB3F), "00AB3F");
    assert_eq!(address_string(0), "000000");
    assert_eq!(address_string(0xFFFFFF), "FFFFFF");
    assert_eq!(address_string(0x34A0C9), "34A0C9");
    assert_eq!(address_string(0x1234_5678), "345678");
}

#[test]
fn ident_round_trip_abc_123() {
    let raw = encode_ident("ABC 123");
    assert_eq!(ident_string(raw), "ABC 123");
}

#[test]
fn ident_trims_only_the_end() {
    assert_eq!(ident_string(encode_ident(" AB")), " AB");
    assert_eq!(ident_string(encode_ident("")), "");
    assert_eq!(ident_string(encode_ident("RYR12AB9")), "RYR12AB9");
    assert_eq!(ident_string(encode_ident("A      Z")), "A      Z");
}

#[test]
fn ident_maps_unassigned_codes_to_spaces() {
    // codes 0, 27 and 63 are not in the alphabet
    let raw = (1u64 << 42) | (0u64 << 36) | (2u64 << 30) | (27u64 << 24) | (63u64 << 18)
        | (49u64 << 12) | (0u64 << 6) | 0;
    assert_eq!(ident_string(raw), "A B  1");
}

#[test]
fn time_of_day_renders_to_the_millisecond() {
    assert_eq!(time_string(0), "00:00:00.000");
    assert_eq!(time_string(128), "00:00:01.000");
    assert_eq!(time_string(128 * 3661 + 64), "01:01:01.500");
    assert_eq!(time_string(128 * (13 * 3600 + 59 * 60 + 7) + 32), "13:59:07.250");
}

#[test]
fn time_of_day_rounds_like_a_decimal_rendering() {
    for raw in [1u32, 8, 24, 40, 7679, 7672, 123_456, 11_059_199, 16_777_215] {
        let seconds = raw as f64 / 128.0;
        let h = (seconds / 3600.0) as u8 % 24;
        let m = ((seconds % 3600.0) / 60.0) as u8;
        let s = seconds % 60.0;
        assert_eq!(time_string(raw), format!("{:02}:{:02}:{:06.3}", h, m, s));
    }
}

#[test]
fn time_of_day_wraps_at_24_hours() {
    assert_eq!(time_string(128 * 86_400), "00:00:00.000");
    assert_eq!(time_string(128 * (86_400 + 3600)), "01:00:00.000");
}

#[test]
fn time_of_day_agrees_with_a_decimal_rendering_over_a_minute() {
    for raw in (0..=2 * 7680u32).chain((0..0x100_0000).step_by(4099)) {
        let seconds = raw as f64 / 128.0;
        let h = (seconds / 3600.0) as u8 % 24;
        let m = ((seconds % 3600.0) / 60.0) as u8;
        let s = seconds % 60.0;
        assert_eq!(time_string(raw), format!("{:02}:{:02}:{:06.3}", h, m, s), "count {}", raw);
    }
}

#[test]
fn last_count_of_a_minute() {
    assert_eq!(time_string(7679), "00:00:59.992");
    assert_eq!(time_string(128 * 60 * 2 - 1), "00:01:59.992");
    assert_eq!(time_string(0x1B2E50), "03:51:56.625");
}

#[test]
fn address_agrees_with_a_hexadecimal_rendering() {
    for address in (0..0x100_0000u32).step_by(977) {
        assert_eq!(address_string(address), format!("{:06X}", address));
    }
}
