//! Decoding of the text strings found in PDF metadata.
//!
//! A PDF string is a run of bytes whose encoding is marked, if at all, by
//! a leading byte-order mark. A string that opens with `FE FF` is taken as
//! big-endian UTF-16; any other string is taken as UTF-8 where it is valid
//! UTF-8, and as Latin-1 where it is not. Every byte string decodes to some
//! text: unreadable metadata never makes a document unreadable.

use vstd::prelude::*;
use vstd::utf8::*;

verus! {

/// What stands in for a code unit that belongs to no character.
pub const REPLACEMENT_CHARACTER: char = '\u{FFFD}';

/// True when the bytes open with the big-endian byte-order mark `FE FF`.
pub open spec fn has_byte_order_mark(bytes: Seq<u8>) -> bool {
    bytes.len() >= 2 && bytes[0] == 0xFE && bytes[1] == 0xFF
}

/// The 16-bit unit whose high byte is `high` and whose low byte is `low`.
pub open spec fn unit_of(high: u8, low: u8) -> u16 {
    (high as int * 256 + low as int) as u16
}

/// The bytes read two by two as big-endian 16-bit units. A last byte
/// without a partner is left out.
pub open spec fn big_endian_units(bytes: Seq<u8>) -> Seq<u16> {
    Seq::new((bytes.len() / 2) as nat, |i: int| unit_of(bytes[2 * i], bytes[2 * i + 1]))
}

/// True for the units that UTF-16 sets aside to form pairs.
pub open spec fn is_surrogate(unit: u16) -> bool {
    0xD800 <= unit <= 0xDFFF
}

/// True for the first unit of a pair.
pub open spec fn is_lead(unit: u16) -> bool {
    0xD800 <= unit <= 0xDBFF
}

/// True for the second unit of a pair.
pub open spec fn is_trail(unit: u16) -> bool {
    0xDC00 <= unit <= 0xDFFF
}

/// The scalar value that a pair of units stands for.
pub open spec fn pair_value(lead: u16, trail: u16) -> u32 {
    (0x10000 + (lead - 0xD800) * 0x400 + (trail - 0xDC00)) as u32
}

/// True when the units open with a well-formed pair.
pub open spec fn opens_with_pair(units: Seq<u16>) -> bool {
    units.len() >= 2 && is_lead(units[0]) && is_trail(units[1])
}

/// The text that UTF-16 units stand for. A unit outside the surrogate range
/// is its own character, a lead followed by a trail is one character, and
/// every other surrogate becomes one replacement character.
pub open spec fn utf16_lossy(units: Seq<u16>) -> Seq<char>
    decreases units.len(),
{
    if units.len() == 0 {
        Seq::empty()
    } else if !is_surrogate(units[0]) {
        seq![units[0] as char] + utf16_lossy(units.skip(1))
    } else if opens_with_pair(units) {
        seq![pair_value(units[0], units[1]) as char] + utf16_lossy(units.skip(2))
    } else {
        seq![REPLACEMENT_CHARACTER] + utf16_lossy(units.skip(1))
    }
}

/// The bytes read as Latin-1: each byte is the character of the same number.
pub open spec fn latin1(bytes: Seq<u8>) -> Seq<char> {
    Seq::new(bytes.len(), |i: int| bytes[i] as char)
}

/// The text of a PDF string.
pub open spec fn decode_text(bytes: Seq<u8>) -> Seq<char> {
    if has_byte_order_mark(bytes) {
        utf16_lossy(big_endian_units(bytes.skip(2)))
    } else if valid_utf8(bytes) {
        decode_utf8(bytes)
    } else {
        latin1(bytes)
    }
}

/// The units of a character in UTF-16: one below U+10000, a pair from there on.
pub open spec fn utf16_units_of(c: char) -> Seq<u16> {
    let value = c as u32;
    if value < 0x10000 {
        seq![value as u16]
    } else {
        seq![
            (0xD800 + (value - 0x10000) / 0x400) as u16,
            (0xDC00 + (value - 0x10000) % 0x400) as u16,
        ]
    }
}

/// The UTF-16 encoding of a text.
pub open spec fn encode_utf16(text: Seq<char>) -> Seq<u16>
    decreases text.len(),
{
    if text.len() == 0 {
        Seq::empty()
    } else {
        utf16_units_of(text[0]) + encode_utf16(text.skip(1))
    }
}

/// The units written out high byte first.
pub open spec fn big_endian_bytes(units: Seq<u16>) -> Seq<u8> {
    Seq::new(
        2 * units.len(),
        |i: int|
            if i % 2 == 0 {
                (units[i / 2] / 256) as u8
            } else {
                (units[i / 2] % 256) as u8
            },
    )
}

/// `char::from_u32`: the character with the given scalar value, nothing for a
/// surrogate or a number above U+10FFFF.
#[verifier::external_body]
fn scalar_char(value: u32) -> (c: Option<char>)
    ensures
        c is Some <==> is_scalar(value),
        c matches Some(ch) ==> ch as u32 == value,
{
    char::from_u32(value)
}

/// `String::push`: puts one character at the end of the string.
#[verifier::external_body]
fn push_char(text: &mut String, c: char)
    ensures
        final(text)@ == old(text)@.push(c),
{
    text.push(c)
}

/// Makes a string of the given characters in their order.
pub fn string_of(chars: &[char]) -> (text: String)
    ensures
        text@ == chars@,
{
    let mut text = String::new();
    let mut at: usize = 0;
    while at < chars.len()
        invariant
            at <= chars.len(),
            text@ == chars@.subrange(0, at as int),
        decreases chars.len() - at,
    {
        push_char(&mut text, chars[at]);
        at = at + 1;
        assert(chars@.subrange(0, at as int) =~= chars@.subrange(0, at - 1).push(chars@[at - 1]));
    }
    assert(chars@.subrange(0, at as int) =~= chars@);
    text
}

/// Reads `bytes` from position `start` on as big-endian 16-bit units.
fn read_units(bytes: &[u8], start: usize) -> (units: Vec<u16>)
    requires
        start <= bytes.len(),
    ensures
        units@ == big_endian_units(bytes@.skip(start as int)),
{
    let ghost tail = bytes@.skip(start as int);
    let mut units: Vec<u16> = Vec::new();
    let mut at: usize = start;
    while bytes.len() - at >= 2
        invariant
            start <= at <= bytes.len(),
            tail == bytes@.skip(start as int),
            at - start == 2 * units.len(),
            units@ == big_endian_units(tail).subrange(0, units.len() as int),
            units.len() <= tail.len() / 2,
        decreases bytes.len() - at,
    {
        let high: u8 = bytes[at];
        let low: u8 = bytes[at + 1];
        let unit: u16 = (high as u16) * 256 + (low as u16);
        proof {
            let n = units.len() as int;
            assert(tail[2 * n] == high);
            assert(tail[2 * n + 1] == low);
            assert(unit == unit_of(high, low));
            assert(big_endian_units(tail).subrange(0, n + 1) =~= big_endian_units(tail).subrange(
                0,
                n,
            ).push(unit));
        }
        units.push(unit);
        at = at + 2;
    }
    assert(units@ =~= big_endian_units(tail));
    units
}

/// Makes the character with the scalar value `value`.
fn to_char(value: u32) -> (c: char)
    requires
        is_scalar(value),
    ensures
        c == value as char,
{
    match scalar_char(value) {
        Some(c) => {
            proof {
                char_u32_cast(c, value);
            }
            c
        },
        // not reached: every scalar value has its character
        None => REPLACEMENT_CHARACTER,
    }
}

/// Decodes the character that stands at position `at`, and tells how many
/// units it takes up: two for a pair, one for anything else.
fn decode_first(units: &[u16], at: usize) -> (first: (char, usize))
    requires
        at < units.len(),
    ensures
        1 <= first.1 <= 2,
        at + first.1 <= units.len(),
        utf16_lossy(units@.skip(at as int)) == seq![first.0] + utf16_lossy(
            units@.skip(at + first.1),
        ),
{
    let ghost rest = units@.skip(at as int);
    let unit: u16 = units[at];
    assert(rest[0] == unit);
    if unit < 0xD800 || unit > 0xDFFF {
        assert(rest.skip(1) =~= units@.skip(at + 1));
        (to_char(unit as u32), 1)
    } else if unit <= 0xDBFF && units.len() - at >= 2 && 0xDC00 <= units[at + 1] && units[at + 1]
        <= 0xDFFF {
        let trail: u16 = units[at + 1];
        assert(rest[1] == trail);
        assert(rest.skip(2) =~= units@.skip(at + 2));
        let value: u32 = 0x10000 + ((unit - 0xD800) as u32) * 0x400 + ((trail - 0xDC00) as u32);
        (to_char(value), 2)
    } else {
        assert(rest.skip(1) =~= units@.skip(at + 1));
        (REPLACEMENT_CHARACTER, 1)
    }
}

/// Decodes UTF-16 units, putting the replacement character in place of
/// every surrogate that is not part of a pair.
pub fn decode_utf16_lossy(units: &[u16]) -> (text: Vec<char>)
    ensures
        text@ == utf16_lossy(units@),
{
    let mut text: Vec<char> = Vec::new();
    let mut at: usize = 0;
    assert(units@.skip(0) =~= units@);
    while at < units.len()
        invariant
            at <= units.len(),
            utf16_lossy(units@) == text@ + utf16_lossy(units@.skip(at as int)),
        decreases units.len() - at,
    {
        let ghost before = text@;
        let (c, taken) = decode_first(units, at);
        text.push(c);
        assert(text@ + utf16_lossy(units@.skip(at + taken)) =~= before + (seq![c] + utf16_lossy(
            units@.skip(at + taken),
        )));
        at = at + taken;
    }
    assert(text@ + utf16_lossy(units@.skip(at as int)) =~= text@);
    text
}

/// Decodes the UTF-8 encoding of one character that stands at position
/// `at`, and tells how many bytes it takes up. There is nothing to decode
/// where the bytes from `at` on do not open with a well-formed encoding: where
/// the first byte is no leading byte, a continuation byte is missing, the
/// encoding is longer than the character needs, or the number it gives is
/// no scalar value.
fn decode_first_scalar_at(bytes: &[u8], at: usize) -> (first: Option<(char, usize)>)
    requires
        at < bytes.len(),
    ensures
        first is Some <==> valid_first_scalar(bytes@.skip(at as int)),
        first matches Some(found) ==> {
            &&& found.0 == decode_first_scalar(bytes@.skip(at as int)) as char
            &&& found.1 == length_of_first_scalar(bytes@.skip(at as int))
            &&& at + found.1 <= bytes.len()
        },
{
    let ghost rest = bytes@.skip(at as int);
    let left: usize = bytes.len() - at;
    let first: u8 = bytes[at];
    assert(rest[0] == first);
    if first <= 0x7F {
        let value: u32 = (first & 0x7F) as u32;
        assert(value <= 0x7F) by (bit_vector)
            requires
                value == (first & 0x7F) as u32,
        ;
        Some((to_char(value), 1))
    } else if 0xC0 <= first && first <= 0xDF {
        if left < 2 {
            return None;
        }
        let second: u8 = bytes[at + 1];
        assert(rest[1] == second);
        if second < 0x80 || second > 0xBF {
            return None;
        }
        let value: u32 = (((first & 0x1F) as u32) << 6) | ((second & 0x3F) as u32);
        if value < 0x80 {
            return None;
        }
        assert(value <= 0x7FF) by (bit_vector)
            requires
                value == (((first & 0x1F) as u32) << 6) | ((second & 0x3F) as u32),
        ;
        Some((to_char(value), 2))
    } else if 0xE0 <= first && first <= 0xEF {
        if left < 3 {
            return None;
        }
        let second: u8 = bytes[at + 1];
        let third: u8 = bytes[at + 2];
        assert(rest[1] == second);
        assert(rest[2] == third);
        if second < 0x80 || second > 0xBF || third < 0x80 || third > 0xBF {
            return None;
        }
        let value: u32 = (((first & 0x0F) as u32) << 12) | (((second & 0x3F) as u32) << 6) | ((third
            & 0x3F) as u32);
        if value < 0x800 || (0xD800 <= value && value <= 0xDFFF) {
            return None;
        }
        assert(value <= 0xFFFF) by (bit_vector)
            requires
                value == (((first & 0x0F) as u32) << 12) | (((second & 0x3F) as u32) << 6) | ((third
                    & 0x3F) as u32),
        ;
        Some((to_char(value), 3))
    } else if 0xF0 <= first && first <= 0xF7 {
        if left < 4 {
            return None;
        }
        let second: u8 = bytes[at + 1];
        let third: u8 = bytes[at + 2];
        let fourth: u8 = bytes[at + 3];
        assert(rest[1] == second);
        assert(rest[2] == third);
        assert(rest[3] == fourth);
        if second < 0x80 || second > 0xBF || third < 0x80 || third > 0xBF || fourth < 0x80
            || fourth > 0xBF {
            return None;
        }
        let value: u32 = (((first & 0x07) as u32) << 18) | (((second & 0x3F) as u32) << 12) | (((
        third & 0x3F) as u32) << 6) | ((fourth & 0x3F) as u32);
        if value < 0x10000 || value > 0x10FFFF {
            return None;
        }
        Some((to_char(value), 4))
    } else {
        None
    }
}

/// Decodes bytes as UTF-8. There is a text if and only if the bytes are
/// valid UTF-8 from the first to the last.
pub fn decode_utf8_strict(bytes: &[u8]) -> (text: Option<Vec<char>>)
    ensures
        text is Some <==> valid_utf8(bytes@),
        text matches Some(chars) ==> chars@ == decode_utf8(bytes@),
{
    let mut chars: Vec<char> = Vec::new();
    let mut at: usize = 0;
    assert(bytes@.skip(0) =~= bytes@);
    while at < bytes.len()
        invariant
            at <= bytes.len(),
            valid_utf8(bytes@) <==> valid_utf8(bytes@.skip(at as int)),
            valid_utf8(bytes@) ==> decode_utf8(bytes@) == chars@ + decode_utf8(
                bytes@.skip(at as int),
            ),
        decreases bytes.len() - at,
    {
        let ghost rest = bytes@.skip(at as int);
        let ghost before = chars@;
        match decode_first_scalar_at(bytes, at) {
            None => {
                return None;
            },
            Some((c, taken)) => {
                proof {
                    assert(pop_first_scalar(rest) =~= bytes@.skip(at + taken));
                    if valid_utf8(bytes@) {
                        assert(decode_utf8(rest) == seq![c] + decode_utf8(pop_first_scalar(rest)));
                        assert(before + (seq![c] + decode_utf8(bytes@.skip(at + taken)))
                            =~= before.push(c) + decode_utf8(bytes@.skip(at + taken)));
                    }
                }
                chars.push(c);
                at = at + taken;
            },
        }
    }
    assert(chars@ + decode_utf8(bytes@.skip(at as int)) =~= chars@);
    Some(chars)
}

/// Reads every byte as the Latin-1 character of the same number.
pub fn decode_latin1(bytes: &[u8]) -> (text: Vec<char>)
    ensures
        text@ == latin1(bytes@),
{
    let mut text: Vec<char> = Vec::new();
    let mut at: usize = 0;
    while at < bytes.len()
        invariant
            at <= bytes.len(),
            text@ == latin1(bytes@).subrange(0, at as int),
        decreases bytes.len() - at,
    {
        let c: char = bytes[at] as char;
        proof {
            assert(latin1(bytes@).subrange(0, at + 1) =~= latin1(bytes@).subrange(
                0,
                at as int,
            ).push(c));
        }
        text.push(c);
        at = at + 1;
    }
    assert(text@ =~= latin1(bytes@));
    text
}

/// Decodes a PDF text string. There is no byte string on which it fails:
/// bytes that are neither marked as UTF-16 nor valid UTF-8 are read as Latin-1,
/// in which every byte is a character.
pub fn decode_pdf_text(bytes: &[u8]) -> (text: String)
    ensures
        text@ == decode_text(bytes@),
{
    if bytes.len() >= 2 && bytes[0] == 0xFE && bytes[1] == 0xFF {
        let units = read_units(bytes, 2);
        let chars = decode_utf16_lossy(units.as_slice());
        return string_of(chars.as_slice());
    }
    match decode_utf8_strict(bytes) {
        Some(chars) => string_of(chars.as_slice()),
        None => {
            let chars = decode_latin1(bytes);
            string_of(chars.as_slice())
        },
    }
}

/// Reading big-endian bytes back as units gives the units that were written.
proof fn units_survive_bytes(units: Seq<u16>)
    ensures
        big_endian_units(big_endian_bytes(units)) == units,
{
    let bytes = big_endian_bytes(units);
    assert(bytes.len() / 2 == units.len());
    assert forall|i: int| 0 <= i < units.len() implies #[trigger] big_endian_units(bytes)[i]
        == units[i] by {
        assert(bytes[2 * i] == (units[(2 * i) / 2] / 256) as u8);
        assert(bytes[2 * i + 1] == (units[(2 * i + 1) / 2] % 256) as u8);
    }
    assert(big_endian_units(bytes) =~= units);
}

/// Decoding the UTF-16 encoding of a text gives the text: an encoding holds
/// no surrogate outside a pair, so nothing is replaced.
proof fn utf16_survives_encoding(text: Seq<char>)
    ensures
        utf16_lossy(encode_utf16(text)) == text,
    decreases text.len(),
{
    if text.len() > 0 {
        let c = text[0];
        let value = c as u32;
        let rest = encode_utf16(text.skip(1));
        let units = encode_utf16(text);
        utf16_survives_encoding(text.skip(1));
        char_is_scalar(c);
        if value < 0x10000 {
            assert(units[0] == value as u16);
            assert(units.skip(1) =~= rest);
            char_u32_cast(c, value);
            assert(units[0] as char == c);
        } else {
            let offset = (value - 0x10000) as int;
            assert(0 <= offset < 0x100000);
            let lead = units[0];
            let trail = units[1];
            assert(lead == 0xD800 + offset / 0x400);
            assert(trail == 0xDC00 + offset % 0x400);
            assert(units.skip(2) =~= rest);
            assert(pair_value(lead, trail) == value);
            char_u32_cast(c, value);
        }
        assert(utf16_lossy(units) =~= seq![c] + text.skip(1));
        assert(seq![c] + text.skip(1) =~= text);
    }
}

/// A string marked with `FE FF` and written as the big-endian UTF-16 encoding
/// of a text decodes to exactly that text.
pub proof fn marked_utf16_decodes_to_its_text(text: Seq<char>)
    ensures
        decode_text(seq![0xFEu8, 0xFFu8] + big_endian_bytes(encode_utf16(text))) == text,
{
    let payload = big_endian_bytes(encode_utf16(text));
    let bytes = seq![0xFEu8, 0xFFu8] + payload;
    assert(bytes.skip(2) =~= payload);
    units_survive_bytes(encode_utf16(text));
    utf16_survives_encoding(text);
}

/// The UTF-8 encoding of a text decodes to exactly that text. No such
/// encoding opens with the byte-order mark, since `FE` is no byte of UTF-8.
pub proof fn utf8_decodes_to_its_text(text: Seq<char>)
    ensures
        !has_byte_order_mark(encode_utf8(text)),
        decode_text(encode_utf8(text)) == text,
{
    encode_utf8_valid_utf8(text);
    encode_utf8_decode_utf8(text);
}

/// A string that is neither marked as UTF-16 nor valid UTF-8 decodes to one
/// character for each of its bytes, the character of the byte's number.
pub proof fn unreadable_bytes_decode_one_to_one(bytes: Seq<u8>)
    requires
        !has_byte_order_mark(bytes),
        !valid_utf8(bytes),
    ensures
        decode_text(bytes).len() == bytes.len(),
        forall|i: int| 0 <= i < bytes.len() ==> decode_text(bytes)[i] as u32 == bytes[i] as u32,
{
}

} // verus!
