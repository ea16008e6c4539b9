//! Bytes written as text: hexadecimal digits, base64, and the data URI in
//! which a cover travels to the caller.

use vstd::prelude::*;
use vstd::slice::slice_subrange;
use vstd::string::*;

verus! {

/// The digit for a number below sixteen, letters in lower case.
pub open spec fn hex_digit(value: int) -> char {
    if value < 10 {
        ('0' as int + value) as char
    } else {
        ('a' as int + value - 10) as char
    }
}

/// Two lower-case hexadecimal digits for each byte, the high half first.
pub open spec fn hex_lower(bytes: Seq<u8>) -> Seq<char> {
    Seq::new(
        2 * bytes.len(),
        |i: int|
            if i % 2 == 0 {
                hex_digit(bytes[i / 2] as int / 16)
            } else {
                hex_digit(bytes[i / 2] as int % 16)
            },
    )
}

/// True for the sixteen lower-case hexadecimal digits.
pub open spec fn is_hex_digit(c: char) -> bool {
    ('0' <= c <= '9') || ('a' <= c <= 'f')
}

/// The character that base64 writes for a number below sixty-four.
pub open spec fn base64_symbol(value: int) -> char {
    if value < 26 {
        ('A' as int + value) as char
    } else if value < 52 {
        ('a' as int + value - 26) as char
    } else if value < 62 {
        ('0' as int + value - 52) as char
    } else if value == 62 {
        '+'
    } else {
        '/'
    }
}

/// The four characters for a group of three bytes.
pub open spec fn base64_group(first: u8, second: u8, third: u8) -> Seq<char> {
    seq![
        base64_symbol(first as int / 4),
        base64_symbol((first as int % 4) * 16 + second as int / 16),
        base64_symbol((second as int % 16) * 4 + third as int / 64),
        base64_symbol(third as int % 64),
    ]
}

/// Base64 with the standard alphabet: four characters for every three bytes,
/// and a last group of one or two bytes filled up with `=`.
pub open spec fn base64(bytes: Seq<u8>) -> Seq<char>
    decreases bytes.len(),
{
    if bytes.len() == 0 {
        Seq::empty()
    } else if bytes.len() == 1 {
        base64_group(bytes[0], 0, 0).take(2) + seq!['=', '=']
    } else if bytes.len() == 2 {
        base64_group(bytes[0], bytes[1], 0).take(3) + seq!['=']
    } else {
        base64_group(bytes[0], bytes[1], bytes[2]) + base64(bytes.skip(3))
    }
}

/// A URI that carries the bytes in itself, labelled with their MIME type.
pub open spec fn data_uri_of(mime: Seq<char>, bytes: Seq<u8>) -> Seq<char> {
    "data:"@ + mime + ";base64,"@ + base64(bytes)
}

/// The most bytes handed to the encoder in one call: a whole number of
/// groups, whose encoded length fits every `usize`.
pub const CHUNK: usize = 0x30_0000;

/// `hex::encode`: two lower-case hexadecimal digits for each byte.
#[verifier::external_body]
pub(crate) fn hex_encode(bytes: &[u8]) -> (text: String)
    ensures
        text@ == hex_lower(bytes@),
{
    hex::encode(bytes)
}

/// `Engine::encode` of `base64::engine::general_purpose::STANDARD`: base64
/// with the standard alphabet and padding. The engine stops the program where
/// the encoded length does not fit a `usize`; the bound keeps clear of that.
#[verifier::external_body]
fn base64_encode(bytes: &[u8]) -> (text: String)
    requires
        bytes@.len() <= CHUNK,
    ensures
        text@ == base64(bytes@),
{
    base64::Engine::encode(&base64::engine::general_purpose::STANDARD, bytes)
}

/// Bytes that end on a group boundary encode on their own: what follows
/// them is encoded as if it stood alone.
proof fn base64_of_whole_groups(head: Seq<u8>, tail: Seq<u8>)
    requires
        head.len() % 3 == 0,
    ensures
        base64(head + tail) == base64(head) + base64(tail),
    decreases head.len(),
{
    if head.len() == 0 {
        assert(head + tail =~= tail);
        assert(base64(head) + base64(tail) =~= base64(tail));
    } else {
        let whole = head + tail;
        assert(whole.skip(3) =~= head.skip(3) + tail);
        base64_of_whole_groups(head.skip(3), tail);
        assert(base64(whole) =~= base64(head) + base64(tail));
    }
}

/// Encodes bytes as base64, handing them to the encoder chunk by chunk.
pub fn encode_base64(bytes: &[u8]) -> (text: String)
    ensures
        text@ == base64(bytes@),
{
    let mut text = String::new();
    let mut at: usize = 0;
    while bytes.len() - at > CHUNK
        invariant
            at <= bytes.len(),
            at % 3 == 0,
            text@ == base64(bytes@.take(at as int)),
        decreases bytes.len() - at,
    {
        let part = slice_subrange(bytes, at, at + CHUNK);
        let encoded = base64_encode(part);
        proof {
            base64_of_whole_groups(bytes@.take(at as int), part@);
            assert(bytes@.take(at as int) + part@ =~= bytes@.take(at + CHUNK));
        }
        text.append(encoded.as_str());
        at = at + CHUNK;
    }
    let part = slice_subrange(bytes, at, bytes.len());
    let encoded = base64_encode(part);
    proof {
        base64_of_whole_groups(bytes@.take(at as int), part@);
        assert(bytes@.take(at as int) + part@ =~= bytes@);
    }
    text.append(encoded.as_str());
    text
}

/// Writes the data URI of an image: `data:`, the MIME type, `;base64,` and
/// the bytes in base64.
pub fn data_uri(mime: &str, bytes: &[u8]) -> (uri: String)
    ensures
        uri@ == data_uri_of(mime@, bytes@),
{
    let mut uri = String::from_str("data:");
    uri.append(mime);
    uri.append(";base64,");
    let payload = encode_base64(bytes);
    uri.append(payload.as_str());
    uri
}

} // verus!
