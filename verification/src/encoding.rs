//! Percent-encoding of text for use inside a URL.
//!
//! The encoding works on the UTF-8 bytes of the text. A byte of the encode
//! set is written as `%` and its two upper-case hexadecimal digits; every
//! other byte stands for itself.

use vstd::prelude::*;
use vstd::utf8::encode_utf8;
use url::percent_encoding::{utf8_percent_encode, DEFAULT_ENCODE_SET};

verus! {

/// The bytes that are escaped: controls, everything past `~`, and
/// space, `"`, `#`, `<`, `>`, `` ` ``, `?`, `{`, `}`.
pub open spec fn in_encode_set(byte: u8) -> bool {
    ||| byte < 0x20
    ||| byte > 0x7E
    ||| byte == 0x20
    ||| byte == 0x22
    ||| byte == 0x23
    ||| byte == 0x3C
    ||| byte == 0x3E
    ||| byte == 0x60
    ||| byte == 0x3F
    ||| byte == 0x7B
    ||| byte == 0x7D
}

/// The upper-case hexadecimal digit for a value below sixteen.
pub open spec fn hex_digit(value: int) -> char {
    if value < 10 {
        ((0x30 + value) as u8) as char
    } else {
        ((0x41 + value - 10) as u8) as char
    }
}

/// What one byte becomes.
pub open spec fn encoded_byte(byte: u8) -> Seq<char> {
    if in_encode_set(byte) {
        seq!['%', hex_digit(byte as int / 16), hex_digit(byte as int % 16)]
    } else {
        seq![byte as char]
    }
}

/// What a run of bytes becomes: the encodings of its bytes, in order.
pub open spec fn encoded_bytes(bytes: Seq<u8>) -> Seq<char>
    decreases bytes.len(),
{
    if bytes.len() == 0 {
        Seq::empty()
    } else {
        encoded_byte(bytes[0]) + encoded_bytes(bytes.drop_first())
    }
}

/// The percent-encoding of a text.
pub open spec fn percent_encoded(text: Seq<char>) -> Seq<char> {
    encoded_bytes(encode_utf8(text))
}

/// Whether a character may stand in a URL as it is: it is ASCII and not of
/// the encode set.
pub open spec fn is_plain(c: char) -> bool {
    (c as u32) < 0x80 && !in_encode_set(c as u8)
}

proof fn lemma_encoded_byte_is_plain(byte: u8)
    ensures
        forall|i: int| 0 <= i < encoded_byte(byte).len() ==> is_plain(#[trigger] encoded_byte(byte)[i]),
{
}

proof fn lemma_encoded_bytes_are_plain(bytes: Seq<u8>)
    ensures
        forall|i: int| 0 <= i < encoded_bytes(bytes).len() ==> is_plain(#[trigger] encoded_bytes(bytes)[i]),
    decreases bytes.len(),
{
    if bytes.len() > 0 {
        let head = encoded_byte(bytes[0]);
        let tail = encoded_bytes(bytes.drop_first());
        lemma_encoded_byte_is_plain(bytes[0]);
        lemma_encoded_bytes_are_plain(bytes.drop_first());
        assert forall|i: int| 0 <= i < encoded_bytes(bytes).len() implies is_plain(
            #[trigger] encoded_bytes(bytes)[i],
        ) by {
            if i < head.len() {
                assert(encoded_bytes(bytes)[i] == head[i]);
            } else {
                assert(encoded_bytes(bytes)[i] == tail[i - head.len()]);
            }
        }
    }
}

/// Nothing in an encoded text needs encoding: every character of it is
/// ASCII and outside the encode set. So an encoded text holds no space, no
/// quote and no control character, whatever the text was.
pub proof fn lemma_encoded_is_plain(text: Seq<char>)
    ensures
        forall|i: int| 0 <= i < percent_encoded(text).len() ==> is_plain(#[trigger] percent_encoded(text)[i]),
{
    lemma_encoded_bytes_are_plain(encode_utf8(text));
}

/// Trusted: `url::percent_encoding::utf8_percent_encode` with
/// `DEFAULT_ENCODE_SET`, its pieces gathered into one string. The contract
/// claims that the outside function walks the UTF-8 bytes of `input` in
/// order, writes `%XX` in upper-case hexadecimal for each byte of the set
/// and leaves every other byte as it is.
#[verifier::external_body]
pub(crate) fn percent_encode(input: &str) -> (encoded: String)
    ensures
        encoded@ == percent_encoded(input@),
{
    utf8_percent_encode(input, DEFAULT_ENCODE_SET).collect()
}

} // verus!
