//! Calls into other crates. Each contract here is taken on trust from the
//! crate's source or documentation; nothing in this file is proved.

use sha2::Digest;
use vstd::prelude::*;

verus! {

/// The SHA-256 digest of a byte string.
pub uninterp spec fn sha256(data: Seq<u8>) -> Seq<u8>;

/// What `serde_json` reads from a text as a list of strings; `None` where the
/// text is not a JSON array of strings.
pub uninterp spec fn json_string_list(text: Seq<char>) -> Option<Seq<Seq<char>>>;

/// The JSON text that `serde_json` writes for a list of strings.
pub uninterp spec fn string_list_json(list: Seq<Seq<char>>) -> Seq<char>;

/// Whether `serde_json` reads a text as a JSON value.
pub uninterp spec fn json_is_valid(text: Seq<char>) -> bool;

/// The text that `str::to_lowercase` gives for a text.
pub uninterp spec fn lowercase(text: Seq<char>) -> Seq<char>;

/// The text that `str::to_uppercase` gives for a text.
pub uninterp spec fn uppercase(text: Seq<char>) -> Seq<char>;

/// The text that the standard base-64 engine of `base64` writes for bytes.
pub uninterp spec fn base64_text(bytes: Seq<u8>) -> Seq<char>;

/// Whether a character has the Unicode property White_Space: the controls
/// from tab to carriage return, the space, the next-line control, the
/// no-break space, the Ogham space mark, the spaces from en quad to hair
/// space, the line and paragraph separators, the narrow no-break space, the
/// medium mathematical space, and the ideographic space.
pub open spec fn is_white_space(c: char) -> bool {
    let u = c as u32;
    (0x09 <= u <= 0x0d) || u == 0x20 || u == 0x85 || u == 0xa0 || u == 0x1680 || (0x2000 <= u
        <= 0x200a) || u == 0x2028 || u == 0x2029 || u == 0x202f || u == 0x205f || u == 0x3000
}

/// The sixteen lower-case hexadecimal digits.
pub open spec fn hex_digits() -> Seq<char> {
    seq!['0', '1', '2', '3', '4', '5', '6', '7', '8', '9', 'a', 'b', 'c', 'd', 'e', 'f']
}

/// The sixteen upper-case hexadecimal digits.
pub open spec fn upper_hex_digits() -> Seq<char> {
    seq!['0', '1', '2', '3', '4', '5', '6', '7', '8', '9', 'A', 'B', 'C', 'D', 'E', 'F']
}

/// Whether a byte stands for itself in a percent-encoded text: an ASCII
/// letter or digit, or one of `-`, `.`, `_`, `~`.
pub open spec fn is_unreserved(b: u8) -> bool {
    (0x30 <= b <= 0x39) || (0x41 <= b <= 0x5a) || (0x61 <= b <= 0x7a) || b == 0x2d || b == 0x2e
        || b == 0x5f || b == 0x7e
}

/// What one byte becomes in a percent-encoded text: itself, or a percent
/// sign and its two upper-case hexadecimal digits.
pub open spec fn percent_encoded_byte(b: u8) -> Seq<char> {
    if is_unreserved(b) {
        seq![b as char]
    } else {
        seq!['%', upper_hex_digits()[b as int / 16], upper_hex_digits()[b as int % 16]]
    }
}

/// The percent-encoded form of the first `n` bytes.
pub open spec fn percent_encoded(bytes: Seq<u8>, n: nat) -> Seq<char>
    decreases n,
{
    if n == 0 {
        Seq::empty()
    } else {
        percent_encoded(bytes, (n - 1) as nat) + percent_encoded_byte(bytes[n - 1])
    }
}

/// Two lower-case hexadecimal digits for each byte, high digit first.
pub open spec fn hex_text(bytes: Seq<u8>) -> Seq<char> {
    Seq::new(
        2 * bytes.len(),
        |i: int|
            if i % 2 == 0 {
                hex_digits()[bytes[i / 2] as int / 16]
            } else {
                hex_digits()[bytes[i / 2] as int % 16]
            },
    )
}

/// `sha2::Sha256::digest`: the digest is a function of the input alone and is
/// 32 bytes long.
#[verifier::external_body]
pub(crate) fn sha256_digest(data: &[u8]) -> (digest: Vec<u8>)
    ensures
        digest@ == sha256(data@),
        digest@.len() == 32,
{
    sha2::Sha256::digest(data).to_vec()
}

/// `hex::encode`: each byte becomes two lower-case hexadecimal digits.
#[verifier::external_body]
pub(crate) fn hex_encode(bytes: &[u8]) -> (text: String)
    ensures
        text@ == hex_text(bytes@),
{
    hex::encode(bytes)
}

/// Whether a character is a lower-case hexadecimal digit.
pub open spec fn is_lower_hex(c: char) -> bool {
    ('0' <= c <= '9') || ('a' <= c <= 'f')
}

/// Whether a text has the hyphenated form of a UUID: 36 characters, with a
/// hyphen at the positions 8, 13, 18 and 23 and a lower-case hexadecimal
/// digit at every other.
pub open spec fn is_hyphenated_id(id: Seq<char>) -> bool {
    id.len() == 36 && forall|i: int|
        0 <= i < 36 ==> if i == 8 || i == 13 || i == 18 || i == 23 {
            #[trigger] id[i] == '-'
        } else {
            is_lower_hex(id[i])
        }
}

/// `uuid::Uuid::new_v4`, written by `to_string`, which gives the hyphenated
/// form in lower case. The value is random: only its form is promised.
#[verifier::external_body]
pub(crate) fn random_uuid() -> (id: String)
    ensures
        is_hyphenated_id(id@),
{
    uuid::Uuid::new_v4().to_string()
}

/// `chrono::Utc::now`, written by `to_rfc3339`. Nothing is promised of the
/// text: it depends on the clock. The call panics where the clock of the
/// system stands before 1970.
#[verifier::external_body]
pub(crate) fn now_rfc3339() -> (now: String)
{
    chrono::Utc::now().to_rfc3339()
}

/// `chrono::Utc::now`, as seconds since the Unix epoch by `timestamp`.
/// Nothing is promised of the number: it depends on the clock. The call
/// panics where the clock of the system stands before 1970.
#[verifier::external_body]
pub(crate) fn now_timestamp() -> (now: i64)
{
    chrono::Utc::now().timestamp()
}

/// `std::path::Path::join`: the second path adjoined to the first by the
/// rules of the platform. Nothing is promised of the text: separators and
/// the notion of an absolute path differ between platforms.
#[verifier::external_body]
pub(crate) fn join_path(base: &str, path: &str) -> (joined: String)
{
    std::path::Path::new(base).join(path).to_string_lossy().into_owned()
}

/// `serde_json::from_str` at the type `Vec<String>`; a text that is refused
/// gives `None`.
#[verifier::external_body]
pub(crate) fn parse_string_list(text: &str) -> (list: Option<Vec<String>>)
    ensures
        list.deep_view() == json_string_list(text@),
{
    serde_json::from_str::<Vec<String>>(text).ok()
}

/// `serde_json::to_string` on a list of strings; the empty text stands for a
/// failure to write.
#[verifier::external_body]
pub(crate) fn write_string_list(list: &Vec<String>) -> (text: String)
    ensures
        text@ == string_list_json(list.deep_view()),
{
    serde_json::to_string(list).unwrap_or_default()
}

/// `serde_json::from_str` at the type `serde_json::Value`: whether the text
/// is accepted.
#[verifier::external_body]
pub(crate) fn parses_as_json(text: &str) -> (ok: bool)
    ensures
        ok == json_is_valid(text@),
{
    serde_json::from_str::<serde_json::Value>(text).is_ok()
}

/// `str::to_lowercase` of the standard library.
#[verifier::external_body]
pub(crate) fn to_lowercase(text: &str) -> (lower: String)
    ensures
        lower@ == lowercase(text@),
{
    text.to_lowercase()
}

/// `str::to_uppercase` of the standard library.
#[verifier::external_body]
pub(crate) fn to_uppercase(text: &str) -> (upper: String)
    ensures
        upper@ == uppercase(text@),
{
    text.to_uppercase()
}

/// `base64::Engine::encode` on the engine `STANDARD`. The call panics where
/// the length of the encoded text would not fit in `usize`; those inputs are
/// left out.
#[verifier::external_body]
pub(crate) fn base64_encode(bytes: &[u8]) -> (text: String)
    requires
        bytes@.len() + 2 <= usize::MAX / 4 * 3,
    ensures
        text@ == base64_text(bytes@),
{
    base64::Engine::encode(&base64::engine::general_purpose::STANDARD, bytes)
}

/// `urlencoding::encode`: every byte of the UTF-8 form is percent-encoded
/// but for the letters and digits of ASCII and `-`, `.`, `_`, `~`.
#[verifier::external_body]
pub(crate) fn url_encode(text: &str) -> (encoded: String)
    ensures
        encoded@ == percent_encoded(
            vstd::utf8::encode_utf8(text@),
            vstd::utf8::encode_utf8(text@).len(),
        ),
{
    urlencoding::encode(text).into_owned()
}

/// `char::is_whitespace` of the standard library: whether the character has
/// the Unicode property White_Space.
#[verifier::external_body]
pub(crate) fn char_is_whitespace(c: char) -> (r: bool)
    ensures
        r == is_white_space(c),
{
    c.is_whitespace()
}

/// `String::push` of the standard library: the character is appended.
#[verifier::external_body]
pub(crate) fn push_char(text: &mut String, c: char)
    ensures
        final(text)@ == old(text)@.push(c),
{
    text.push(c)
}

} // verus!
