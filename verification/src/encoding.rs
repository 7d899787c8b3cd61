//! Hexadecimal text, as the `hex` crate writes and reads it.
use vstd::prelude::*;

verus! {

/// The lower-case hexadecimal digit of a value below 16.
pub open spec fn hex_digit(n: int) -> char {
    seq!['0', '1', '2', '3', '4', '5', '6', '7', '8', '9', 'a', 'b', 'c', 'd', 'e', 'f'][n]
}

/// Lower-case hexadecimal text of a byte string: two digits per byte,
/// the high nibble first.
pub open spec fn hex_lower(data: Seq<u8>) -> Seq<char> {
    Seq::new(
        2 * data.len(),
        |i: int|
            if i % 2 == 0 {
                hex_digit((data[i / 2] / 16) as int)
            } else {
                hex_digit((data[i / 2] % 16) as int)
            },
    )
}

/// The value of one hexadecimal digit byte, in either case.
pub open spec fn hex_value(c: u8) -> Option<u8> {
    if 0x30 <= c <= 0x39 {
        Some((c - 0x30) as u8)
    } else if 0x61 <= c <= 0x66 {
        Some((c - 0x61 + 10) as u8)
    } else if 0x41 <= c <= 0x46 {
        Some((c - 0x41 + 10) as u8)
    } else {
        None
    }
}

/// Bytes denoted by hexadecimal text: `None` when the text has odd length
/// or holds a byte that is no hexadecimal digit.
pub open spec fn hex_decode_spec(text: Seq<u8>) -> Option<Seq<u8>> {
    if text.len() % 2 != 0 {
        None
    } else if forall|i: int| 0 <= i < text.len() ==> (#[trigger] hex_value(text[i])) is Some {
        Some(
            Seq::new(
                text.len() / 2,
                |i: int|
                    (hex_value(text[2 * i])->0 * 16 + hex_value(text[2 * i + 1])->0) as u8,
            ),
        )
    } else {
        None
    }
}

/// `hex::encode`. The contract claims that it writes two lower-case
/// hexadecimal digits per byte, the high nibble first, as its source does.
#[verifier::external_body]
pub(crate) fn hex_encode(data: &[u8]) -> (res: String)
    ensures
        res@ == hex_lower(data@),
{
    hex::encode(data)
}

/// `hex::decode`, with any error reduced to `None`. The contract claims what
/// its source does: text of odd length, or holding a byte that is no
/// hexadecimal digit of either case, is refused; otherwise each pair of
/// digits gives one byte, the first digit high.
#[verifier::external_body]
pub(crate) fn hex_decode(text: &[u8]) -> (res: Option<Vec<u8>>)
    ensures
        match res {
            Some(v) => hex_decode_spec(text@) == Some(v@),
            None => hex_decode_spec(text@) is None,
        },
{
    hex::decode(text).ok()
}

proof fn lemma_hex_digit(n: int)
    requires
        0 <= n < 16,
    ensures
        '0' <= hex_digit(n) <= '\u{7f}',
        hex_value(hex_digit(n) as u8) == Some(n as u8),
        hex_digit(n) != '.',
{
}

/// Hexadecimal text is pure ASCII and never holds a dot.
pub proof fn lemma_hex_lower_ascii(data: Seq<u8>)
    ensures
        vstd::utf8::is_ascii_chars(hex_lower(data)),
        forall|i: int| 0 <= i < hex_lower(data).len() ==> hex_lower(data)[i] != '.',
{
    assert forall|i: int| 0 <= i < hex_lower(data).len() implies '\0' <= #[trigger] hex_lower(
        data,
    )[i] <= '\u{7f}' && hex_lower(data)[i] != '.' by {
        let b = data[i / 2];
        lemma_hex_digit((b / 16) as int);
        lemma_hex_digit((b % 16) as int);
    }
}

proof fn lemma_byte_split(b: u8)
    ensures
        ((b / 16) as u8 * 16 + (b % 16) as u8) as u8 == b,
{
}

/// Decoding the text that `hex_lower` writes gives the bytes back.
pub proof fn lemma_hex_roundtrip(data: Seq<u8>)
    ensures
        hex_decode_spec(vstd::utf8::encode_utf8(hex_lower(data))) == Some(data),
{
    let chars = hex_lower(data);
    lemma_hex_lower_ascii(data);
    vstd::utf8::is_ascii_chars_encode_utf8(chars);
    let bytes = vstd::utf8::encode_utf8(chars);
    assert forall|i: int| 0 <= i < bytes.len() implies (#[trigger] hex_value(bytes[i])) is Some by {
        let b = data[i / 2];
        assert(bytes[i] == chars[i] as u8);
        lemma_hex_digit((b / 16) as int);
        lemma_hex_digit((b % 16) as int);
    }
    let decoded = hex_decode_spec(bytes)->0;
    assert forall|i: int| 0 <= i < data.len() implies #[trigger] decoded[i] == data[i] by {
        let b = data[i];
        assert(bytes[2 * i] == chars[2 * i] as u8);
        assert(bytes[2 * i + 1] == chars[2 * i + 1] as u8);
        assert((2 * i) / 2 == i);
        assert((2 * i + 1) / 2 == i);
        assert((2 * i) % 2 == 0);
        assert((2 * i + 1) % 2 == 1);
        lemma_hex_digit((b / 16) as int);
        lemma_hex_digit((b % 16) as int);
        lemma_byte_split(b);
    }
    assert(decoded =~= data);
}

} // verus!
