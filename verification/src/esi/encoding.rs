use vstd::prelude::*;

verus! {

/// The bytes that stand for themselves in a percent-encoded text: the ASCII
/// digits and letters, `-`, `.`, `_` and `~`.
pub open spec fn is_unreserved(byte: u8) -> bool {
    ||| 0x30 <= byte <= 0x39
    ||| 0x41 <= byte <= 0x5a
    ||| 0x61 <= byte <= 0x7a
    ||| byte == 0x2d
    ||| byte == 0x2e
    ||| byte == 0x5f
    ||| byte == 0x7e
}

/// One byte, percent-encoded: itself where it is unreserved, else `%` and
/// its two hexadecimal digits in upper case.
pub open spec fn escaped(byte: u8) -> Seq<char> {
    if is_unreserved(byte) {
        seq![byte as char]
    } else {
        seq!['%', "0123456789ABCDEF"@[byte as int / 16], "0123456789ABCDEF"@[byte as int % 16]]
    }
}

/// A text, percent-encoded: each byte of its UTF-8 form, escaped.
pub open spec fn percent_encoded(text: Seq<char>) -> Seq<char> {
    vstd::utf8::encode_utf8(text).map_values(|byte: u8| escaped(byte)).flatten()
}

/// The character that stands for six bits in the URL-safe base64 alphabet.
pub open spec fn base64_char(sextet: int) -> char {
    "ABCDEFGHIJKLMNOPQRSTUVWXYZabcdefghijklmnopqrstuvwxyz0123456789-_"@[sextet]
}

/// Bytes in base64 with the URL-safe alphabet: each three bytes give four
/// characters, and what is left at the end is filled up with `=`.
pub open spec fn base64_bytes(bytes: Seq<u8>) -> Seq<char>
    decreases bytes.len(),
{
    if bytes.len() == 0 {
        Seq::empty()
    } else if bytes.len() == 1 {
        let a = bytes[0] as int;
        seq![base64_char(a / 4), base64_char(a % 4 * 16), '=', '=']
    } else if bytes.len() == 2 {
        let a = bytes[0] as int;
        let b = bytes[1] as int;
        seq![base64_char(a / 4), base64_char(a % 4 * 16 + b / 16), base64_char(b % 16 * 4), '=']
    } else {
        let a = bytes[0] as int;
        let b = bytes[1] as int;
        let c = bytes[2] as int;
        seq![
            base64_char(a / 4),
            base64_char(a % 4 * 16 + b / 16),
            base64_char(b % 16 * 4 + c / 64),
            base64_char(c % 64),
        ] + base64_bytes(bytes.skip(3))
    }
}

/// The UTF-8 form of a text in base64, with the URL-safe alphabet and with
/// padding.
pub open spec fn base64_url(text: Seq<char>) -> Seq<char> {
    base64_bytes(vstd::utf8::encode_utf8(text))
}

/// Calls `urlencoding::encode`, which percent-encodes every byte of a text
/// but the unreserved ones.
#[verifier::external_body]
pub(crate) fn percent_encode(text: &str) -> (r: String)
    ensures
        r@ == percent_encoded(text@),
{
    urlencoding::encode(text).into_owned()
}

/// Calls `base64::Engine::encode` on the engine
/// `base64::engine::general_purpose::URL_SAFE`, which writes bytes in base64
/// with the URL-safe alphabet and with padding. The call panics only where
/// the length of the output does not fit `usize`, which no text in memory
/// reaches.
#[verifier::external_body]
pub(crate) fn base64_url_encode(text: &str) -> (r: String)
    ensures
        r@ == base64_url(text@),
{
    base64::Engine::encode(&base64::engine::general_purpose::URL_SAFE, text)
}

/// The shape of a nonce: 36 characters, each a hexadecimal digit in lower
/// case or a hyphen.
pub open spec fn is_nonce(text: Seq<char>) -> bool {
    &&& text.len() == 36
    &&& forall|i: int|
        0 <= i < text.len() ==> {
            ||| '0' <= #[trigger] text[i] <= '9'
            ||| 'a' <= text[i] <= 'f'
            ||| text[i] == '-'
        }
}

/// Calls `uuid::Uuid::new_v4` and writes the identifier as text. The
/// identifier is random: the contract says only what holds of every one,
/// the shape in which it is written. The call panics where the system hands
/// out no random bytes.
#[verifier::external_body]
pub(crate) fn fresh_nonce() -> (r: String)
    ensures
        is_nonce(r@),
{
    uuid::Uuid::new_v4().to_string()
}

} // verus!
