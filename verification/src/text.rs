//! Text renderings of decoded values: octal codes, hexadecimal addresses,
//! identifications in the six-bit alphabet and times of day.

use vstd::arithmetic::div_mod::lemma_fundamental_div_mod_converse;
use vstd::prelude::*;

verus! {

/// The decimal digit `d` as a character, for `d` from 0 to 9.
pub open spec fn digit_char(d: int) -> char {
    ((48 + d) as u8) as char
}

/// The hexadecimal digit `d` as an upper-case character, for `d` from 0 to
/// 15.
pub open spec fn hex_char(d: int) -> char {
    if d < 10 {
        ((48 + d) as u8) as char
    } else {
        ((55 + d) as u8) as char
    }
}

/// The four octal digits of the low 12 bits of a Mode-3/A code, the most
/// significant first.
pub open spec fn mode3a_text(code: int) -> Seq<char> {
    seq![
        digit_char(code / 512 % 8),
        digit_char(code / 64 % 8),
        digit_char(code / 8 % 8),
        digit_char(code % 8),
    ]
}

/// The six upper-case hexadecimal digits of the low 24 bits of an address,
/// the most significant first.
pub open spec fn address_text(address: int) -> Seq<char> {
    seq![
        hex_char(address / 0x10_0000 % 16),
        hex_char(address / 0x1_0000 % 16),
        hex_char(address / 0x1000 % 16),
        hex_char(address / 0x100 % 16),
        hex_char(address / 0x10 % 16),
        hex_char(address % 16),
    ]
}

/// The character that a six-bit code stands for: 1 to 26 are the letters A
/// to Z, 48 to 57 the digits 0 to 9, and every other code, 32 among them, is
/// a space.
pub open spec fn ident_char(code: int) -> char {
    if 1 <= code <= 26 {
        ((64 + code) as u8) as char
    } else if 48 <= code <= 57 {
        (code as u8) as char
    } else {
        ' '
    }
}

/// The weight of character `i` of an identification, the first character
/// being the most significant: 64 to the power `7 - i`.
pub open spec fn ident_weight(i: int) -> int {
    if i == 0 {
        0x400_0000_0000
    } else if i == 1 {
        0x10_0000_0000
    } else if i == 2 {
        0x4000_0000
    } else if i == 3 {
        0x100_0000
    } else if i == 4 {
        0x4_0000
    } else if i == 5 {
        0x1000
    } else if i == 6 {
        0x40
    } else {
        1
    }
}

/// The six-bit code of character `i` of an identification of 48 bits.
pub open spec fn ident_code(raw: int, i: int) -> int {
    raw / ident_weight(i) % 64
}

/// The eight characters of an identification of 48 bits.
pub open spec fn ident_chars(raw: int) -> Seq<char> {
    Seq::new(8, |i: int| ident_char(ident_code(raw, i)))
}

/// `text` without the spaces at its end.
pub open spec fn trim_end(text: Seq<char>) -> Seq<char>
    decreases text.len(),
{
    if text.len() > 0 && text.last() == ' ' {
        trim_end(text.drop_last())
    } else {
        text
    }
}

/// The identification as text: its eight characters without the spaces at
/// the end.
pub open spec fn ident_text(raw: int) -> Seq<char> {
    trim_end(ident_chars(raw))
}

/// The seconds of a time of day within their minute, in milliseconds. `raw`
/// counts 1/128 s; the value is rounded to the nearest millisecond, a tie to
/// the even one.
pub open spec fn time_millis(raw: int) -> int {
    let sixteenths = (raw % 7680) * 125;
    if sixteenths % 16 > 8 || (sixteenths % 16 == 8 && (sixteenths / 16) % 2 == 1) {
        sixteenths / 16 + 1
    } else {
        sixteenths / 16
    }
}

/// The time of day as "HH:MM:SS.mmm", for a count `raw` of 1/128 s since
/// midnight. The hour wraps at 24.
pub open spec fn time_text(raw: int) -> Seq<char> {
    let hours = raw / 460_800 % 24;
    let minutes = raw / 7680 % 60;
    let seconds = time_millis(raw) / 1000;
    let millis = time_millis(raw) % 1000;
    seq![
        digit_char(hours / 10),
        digit_char(hours % 10),
        ':',
        digit_char(minutes / 10),
        digit_char(minutes % 10),
        ':',
        digit_char(seconds / 10),
        digit_char(seconds % 10),
        '.',
        digit_char(millis / 100),
        digit_char(millis / 10 % 10),
        digit_char(millis % 10),
    ]
}

/// Where only spaces follow position `keep` and no space stands just before
/// it, trimming leaves the first `keep` characters.
pub proof fn lemma_trim_end(text: Seq<char>, keep: int)
    requires
        0 <= keep <= text.len(),
        forall|i: int| keep <= i < text.len() ==> text[i] == ' ',
        keep > 0 ==> text[keep - 1] != ' ',
    ensures
        trim_end(text) == text.subrange(0, keep),
    decreases text.len(),
{
    if keep == text.len() {
        assert(text.subrange(0, keep) =~= text);
    } else {
        assert(text.last() == ' ');
        lemma_trim_end(text.drop_last(), keep);
        assert(text.drop_last().subrange(0, keep) =~= text.subrange(0, keep));
    }
}

/// `String::push` of the standard library: the character is appended to the
/// end of the string.
#[verifier::external_body]
fn push_char(text: &mut String, c: char)
    ensures
        final(text)@ == old(text)@.push(c),
{
    text.push(c)
}

fn push_digit(text: &mut String, d: u64)
    requires
        d < 10,
    ensures
        final(text)@ == old(text)@.push(digit_char(d as int)),
{
    push_char(text, ((48 + d) as u8) as char);
}

fn push_hex(text: &mut String, d: u32)
    requires
        d < 16,
    ensures
        final(text)@ == old(text)@.push(hex_char(d as int)),
{
    if d < 10 {
        push_char(text, ((48 + d) as u8) as char);
    } else {
        push_char(text, ((55 + d) as u8) as char);
    }
}

/// Renders a Mode-3/A code as its four octal digits.
pub fn mode3a_string(code: u16) -> (text: String)
    ensures
        text@ == mode3a_text(code as int),
{
    let mut text = String::new();
    let code = code as u64;
    push_digit(&mut text, code / 512 % 8);
    push_digit(&mut text, code / 64 % 8);
    push_digit(&mut text, code / 8 % 8);
    push_digit(&mut text, code % 8);
    assert(text@ =~= mode3a_text(code as int));
    text
}

/// Renders the low 24 bits of an address as six upper-case hexadecimal
/// digits.
pub fn address_string(address: u32) -> (text: String)
    ensures
        text@ == address_text(address as int),
{
    let mut text = String::new();
    push_hex(&mut text, address / 0x10_0000 % 16);
    push_hex(&mut text, address / 0x1_0000 % 16);
    push_hex(&mut text, address / 0x1000 % 16);
    push_hex(&mut text, address / 0x100 % 16);
    push_hex(&mut text, address / 0x10 % 16);
    push_hex(&mut text, address % 16);
    assert(text@ =~= address_text(address as int));
    text
}

/// The weight of character `i` of an identification.
fn weight_of(i: usize) -> (w: u64)
    requires
        i < 8,
    ensures
        w == ident_weight(i as int),
{
    if i == 0 {
        0x400_0000_0000
    } else if i == 1 {
        0x10_0000_0000
    } else if i == 2 {
        0x4000_0000
    } else if i == 3 {
        0x100_0000
    } else if i == 4 {
        0x4_0000
    } else if i == 5 {
        0x1000
    } else if i == 6 {
        0x40
    } else {
        1
    }
}

/// Character `i` of an identification.
fn char_of(raw: u64, i: usize) -> (c: char)
    requires
        i < 8,
    ensures
        c == ident_char(ident_code(raw as int, i as int)),
{
    let code = (raw / weight_of(i) % 64) as u8;
    if 1 <= code && code <= 26 {
        (64 + code) as char
    } else if 48 <= code && code <= 57 {
        code as char
    } else {
        ' '
    }
}

/// Renders an identification of eight six-bit characters, the first in the
/// most significant bits of the low 48 bits of `raw`, without the spaces at
/// its end.
pub fn ident_string(raw: u64) -> (text: String)
    ensures
        text@ == ident_text(raw as int),
{
    let ghost chars = ident_chars(raw as int);
    let mut keep: usize = 8;
    while keep > 0 && char_of(raw, keep - 1) == ' '
        invariant
            0 <= keep <= 8,
            chars == ident_chars(raw as int),
            forall|i: int| keep <= i < 8 ==> chars[i] == ' ',
        decreases keep,
    {
        keep = keep - 1;
    }
    proof {
        lemma_trim_end(chars, keep as int);
    }
    let mut text = String::new();
    let mut i: usize = 0;
    while i < keep
        invariant
            0 <= i <= keep <= 8,
            chars == ident_chars(raw as int),
            text@ == chars.subrange(0, i as int),
        decreases keep - i,
    {
        push_char(&mut text, char_of(raw, i));
        assert(text@ =~= chars.subrange(0, i + 1));
        i = i + 1;
    }
    text
}

/// The milliseconds of the seconds part of a time of day.
fn millis_of(raw: u32) -> (ms: u64)
    ensures
        ms == time_millis(raw as int),
        ms < 60_000,
{
    let sixteenths: u64 = (raw as u64 % 7680) * 125;
    if sixteenths % 16 > 8 || (sixteenths % 16 == 8 && (sixteenths / 16) % 2 == 1) {
        sixteenths / 16 + 1
    } else {
        sixteenths / 16
    }
}

/// Renders a time of day, counted in 1/128 s since midnight, as
/// "HH:MM:SS.mmm".
pub fn time_string(raw: u32) -> (text: String)
    ensures
        text@ == time_text(raw as int),
{
    let hours: u64 = raw as u64 / 460_800 % 24;
    let minutes: u64 = raw as u64 / 7680 % 60;
    let ms = millis_of(raw);
    let seconds = ms / 1000;
    let millis = ms % 1000;
    let mut text = String::new();
    push_digit(&mut text, hours / 10);
    push_digit(&mut text, hours % 10);
    push_char(&mut text, ':');
    push_digit(&mut text, minutes / 10);
    push_digit(&mut text, minutes % 10);
    push_char(&mut text, ':');
    push_digit(&mut text, seconds / 10);
    push_digit(&mut text, seconds % 10);
    push_char(&mut text, '.');
    push_digit(&mut text, millis / 100);
    push_digit(&mut text, millis / 10 % 10);
    push_digit(&mut text, millis % 10);
    assert(text@ =~= time_text(raw as int));
    text
}

/// The seconds of a time of day stay below 60, rounded as they are: the
/// last count of a minute reads 59.992 s.
pub proof fn lemma_seconds_below_sixty(raw: int)
    requires
        0 <= raw,
    ensures
        0 <= time_millis(raw) <= 59_992,
{
}

/// A field of 16 bits whose low 12 bits are the octal digits `a`, `b`, `c`
/// and `d` reads as those four digits, whatever its four leading bits hold.
pub proof fn lemma_mode3a_round_trip(field: int, a: int, b: int, c: int, d: int)
    requires
        0 <= field < 0x1_0000,
        field % 4096 == a * 512 + b * 64 + c * 8 + d,
        0 <= a < 8,
        0 <= b < 8,
        0 <= c < 8,
        0 <= d < 8,
    ensures
        mode3a_text(field % 4096) == seq![
            digit_char(a),
            digit_char(b),
            digit_char(c),
            digit_char(d),
        ],
        mode3a_text(field) == mode3a_text(field % 4096),
{
    lemma_digit(field / 4096 * 8 + a, b, c * 8 + d, 64, 8);
    lemma_digit((field / 4096 * 8 + a) * 8 + b, c, d, 8, 8);
    lemma_digit(((field / 4096 * 8 + a) * 8 + b) * 8 + c, d, 0, 1, 8);
    lemma_digit(field / 4096, a, b * 64 + c * 8 + d, 512, 8);
    lemma_digit(0, a, b * 64 + c * 8 + d, 512, 8);
    lemma_digit(a, b, c * 8 + d, 64, 8);
    lemma_digit(a * 8 + b, c, d, 8, 8);
    lemma_digit((a * 8 + b) * 8 + c, d, 0, 1, 8);
}

/// The six-bit code of a character of the identification alphabet: a
/// letter, a digit or the space.
pub open spec fn ident_code_of(c: char) -> int {
    if 'A' <= c <= 'Z' {
        c as int - 64
    } else if '0' <= c <= '9' {
        c as int
    } else {
        32
    }
}

/// Whether `c` is a letter from A to Z, a digit or the space.
pub open spec fn in_ident_alphabet(c: char) -> bool {
    'A' <= c <= 'Z' || '0' <= c <= '9' || c == ' '
}

/// Eight six-bit codes packed into 48 bits, the first in the leading bits.
pub open spec fn ident_pack(codes: Seq<int>) -> int {
    codes[0] * ident_weight(0) + codes[1] * ident_weight(1) + codes[2] * ident_weight(2)
        + codes[3] * ident_weight(3) + codes[4] * ident_weight(4) + codes[5] * ident_weight(5)
        + codes[6] * ident_weight(6) + codes[7]
}

/// A character of the alphabet comes back from its code.
pub proof fn lemma_ident_char_round_trip(c: char)
    requires
        in_ident_alphabet(c),
    ensures
        0 <= ident_code_of(c) < 64,
        ident_char(ident_code_of(c)) == c,
{
}

/// Eight characters of the alphabet, packed by their codes and decoded, come
/// back without the spaces at the end.
pub proof fn lemma_ident_round_trip(chars: Seq<char>)
    requires
        chars.len() == 8,
        forall|i: int| 0 <= i < 8 ==> in_ident_alphabet(#[trigger] chars[i]),
    ensures
        ident_chars(ident_pack(Seq::new(8, |i: int| ident_code_of(chars[i])))) == chars,
        ident_text(ident_pack(Seq::new(8, |i: int| ident_code_of(chars[i])))) == trim_end(chars),
{
    let codes = Seq::new(8, |i: int| ident_code_of(chars[i]));
    let raw = ident_pack(codes);
    assert forall|i: int| 0 <= i < 8 implies ident_code(raw, i) == codes[i] by {
        lemma_ident_char_round_trip(chars[0]);
        lemma_ident_char_round_trip(chars[1]);
        lemma_ident_char_round_trip(chars[2]);
        lemma_ident_char_round_trip(chars[3]);
        lemma_ident_char_round_trip(chars[4]);
        lemma_ident_char_round_trip(chars[5]);
        lemma_ident_char_round_trip(chars[6]);
        lemma_ident_char_round_trip(chars[7]);
        lemma_packed_code(
            codes[0],
            codes[1],
            codes[2],
            codes[3],
            codes[4],
            codes[5],
            codes[6],
            codes[7],
        );
    }
    assert forall|i: int| 0 <= i < 8 implies ident_chars(raw)[i] == chars[i] by {
        lemma_ident_char_round_trip(chars[i]);
    }
    assert(ident_chars(raw) =~= chars);
}

/// The digit `c` of weight `w`, in a number system of the given base, is
/// read back from a number that has `high` above it and `low` below it.
proof fn lemma_digit(high: int, c: int, low: int, w: int, base: int)
    requires
        w > 0,
        0 <= low < w,
        0 <= c < base,
        0 <= high,
    ensures
        ((high * base + c) * w + low) / w % base == c,
{
    let x = (high * base + c) * w + low;
    lemma_fundamental_div_mod_converse(x, w, high * base + c, low);
    lemma_fundamental_div_mod_converse(high * base + c, base, high, c);
}

/// Each of eight six-bit codes is read back from the packed number.
proof fn lemma_packed_code(c0: int, c1: int, c2: int, c3: int, c4: int, c5: int, c6: int, c7: int)
    requires
        0 <= c0 < 64,
        0 <= c1 < 64,
        0 <= c2 < 64,
        0 <= c3 < 64,
        0 <= c4 < 64,
        0 <= c5 < 64,
        0 <= c6 < 64,
        0 <= c7 < 64,
    ensures
        ({
            let raw = c0 * 0x400_0000_0000 + c1 * 0x10_0000_0000 + c2 * 0x4000_0000 + c3
                * 0x100_0000 + c4 * 0x4_0000 + c5 * 0x1000 + c6 * 0x40 + c7;
            &&& raw / 0x400_0000_0000 % 64 == c0
            &&& raw / 0x10_0000_0000 % 64 == c1
            &&& raw / 0x4000_0000 % 64 == c2
            &&& raw / 0x100_0000 % 64 == c3
            &&& raw / 0x4_0000 % 64 == c4
            &&& raw / 0x1000 % 64 == c5
            &&& raw / 0x40 % 64 == c6
            &&& raw / 1 % 64 == c7
        }),
{
    let l7 = 0int;
    let l6 = c7;
    let l5 = c6 * 0x40 + l6;
    let l4 = c5 * 0x1000 + l5;
    let l3 = c4 * 0x4_0000 + l4;
    let l2 = c3 * 0x100_0000 + l3;
    let l1 = c2 * 0x4000_0000 + l2;
    let l0 = c1 * 0x10_0000_0000 + l1;
    let h0 = 0int;
    let h1 = c0;
    let h2 = h1 * 64 + c1;
    let h3 = h2 * 64 + c2;
    let h4 = h3 * 64 + c3;
    let h5 = h4 * 64 + c4;
    let h6 = h5 * 64 + c5;
    let h7 = h6 * 64 + c6;
    lemma_digit(h0, c0, l0, 0x400_0000_0000, 64);
    lemma_digit(h1, c1, l1, 0x10_0000_0000, 64);
    lemma_digit(h2, c2, l2, 0x4000_0000, 64);
    lemma_digit(h3, c3, l3, 0x100_0000, 64);
    lemma_digit(h4, c4, l4, 0x4_0000, 64);
    lemma_digit(h5, c5, l5, 0x1000, 64);
    lemma_digit(h6, c6, l6, 0x40, 64);
    lemma_digit(h7, c7, l7, 1, 64);
}

} // verus!
