//! Trusted items: each wraps one outside function (of std or of a crate this
//! library depends on) and states what that function's source or
//! documentation shows.  Results that take pages to state, but depend on the
//! arguments alone, are given names here.
use vstd::prelude::*;
use sha2::Digest;
use rand::Rng;
use base64::Engine;
use argon2::PasswordHasher;
use crate::models::Timestamp;
use vstd::utf8::encode_utf8;

verus! {

/// `String::push`: appends one character.
#[verifier::external_body]
pub fn push_char(s: &mut String, c: char)
    ensures
        final(s)@ == old(s)@.push(c),
{
    s.push(c)
}

/// The SHA-256 digest of a byte sequence.
pub uninterp spec fn sha256_digest(data: Seq<u8>) -> Seq<u8>;

/// `sha2::Sha256::digest`: the 32-byte SHA-256 digest of `data`.
#[verifier::external_body]
pub fn sha256(data: &[u8]) -> (res: Vec<u8>)
    ensures
        res@ == sha256_digest(data@),
        res@.len() == 32,
{
    sha2::Sha256::digest(data).to_vec()
}

/// The lower-case hexadecimal digit of `d` (for `d < 16`).
pub open spec fn hex_digit(d: nat) -> char {
    if d < 10 {
        crate::text::digit_char(d)
    } else if d == 10 { 'a' }
    else if d == 11 { 'b' }
    else if d == 12 { 'c' }
    else if d == 13 { 'd' }
    else if d == 14 { 'e' }
    else { 'f' }
}

/// Lower-case hexadecimal text of bytes: two digits per byte, high nibble
/// first.
pub open spec fn hex_lower(data: Seq<u8>) -> Seq<char>
    decreases data.len(),
{
    if data.len() == 0 {
        Seq::empty()
    } else {
        hex_lower(data.drop_last()) + seq![
            hex_digit((data.last() / 16) as nat),
            hex_digit((data.last() % 16) as nat),
        ]
    }
}

/// `hex::encode`: the lower-case hexadecimal text of `data`.
#[verifier::external_body]
pub fn hex_encode(data: &[u8]) -> (res: String)
    ensures
        res@ == hex_lower(data@),
{
    hex::encode(data)
}

/// `rand::thread_rng().gen::<u8>()`: a byte from the thread's
/// cryptographically secure generator.  Nothing is promised of its value.
#[verifier::external_body]
pub fn random_byte() -> (res: u8) {
    rand::thread_rng().gen::<u8>()
}

/// The character of a 6-bit value in the standard Base64 alphabet
/// (`A`-`Z`, `a`-`z`, `0`-`9`, `+`, `/`).
pub open spec fn base64_char(v: int) -> char {
    if v < 26 {
        (65 + v) as char
    } else if v < 52 {
        (97 + v - 26) as char
    } else if v < 62 {
        (48 + v - 52) as char
    } else if v == 62 {
        '+'
    } else {
        '/'
    }
}

/// The standard Base64 text (RFC 4648 alphabet, `=` padding) of bytes:
/// each group of three bytes gives four characters, a last group of one or
/// two bytes is padded with `=`.
pub open spec fn base64_standard_encode(data: Seq<u8>) -> Seq<char>
    decreases data.len(),
{
    let b0 = data[0] as int;
    let b1 = data[1] as int;
    let b2 = data[2] as int;
    if data.len() == 0 {
        Seq::empty()
    } else if data.len() == 1 {
        seq![base64_char(b0 / 4), base64_char((b0 % 4) * 16), '=', '=']
    } else if data.len() == 2 {
        seq![
            base64_char(b0 / 4),
            base64_char((b0 % 4) * 16 + b1 / 16),
            base64_char((b1 % 16) * 4),
            '=',
        ]
    } else {
        seq![
            base64_char(b0 / 4),
            base64_char((b0 % 4) * 16 + b1 / 16),
            base64_char((b1 % 16) * 4 + b2 / 64),
            base64_char(b2 % 64),
        ] + base64_standard_encode(data.subrange(3, data.len() as int))
    }
}

/// `base64::engine::general_purpose::STANDARD.encode`: the standard Base64
/// text of `data`.
#[verifier::external_body]
pub fn base64_encode(data: &[u8]) -> (res: String)
    ensures
        res@ == base64_standard_encode(data@),
{
    base64::engine::general_purpose::STANDARD.encode(data)
}

/// The bytes that standard Base64 text decodes to, with canonical padding
/// required; `None` where the text is not such Base64.
pub uninterp spec fn base64_standard_decode(data: Seq<u8>) -> Option<Seq<u8>>;

/// `base64::engine::general_purpose::STANDARD.decode`, with the decoding
/// error's message.  The engine requires canonical padding, so a text whose
/// length in bytes is not a multiple of four never decodes.  The message is
/// not described.
#[verifier::external_body]
pub fn base64_decode(data: &str) -> (res: Result<Vec<u8>, String>)
    ensures
        res is Ok <==> base64_standard_decode(encode_utf8(data@)) is Some,
        res matches Ok(v) ==> base64_standard_decode(encode_utf8(data@)) == Some(v@),
        encode_utf8(data@).len() % 4 != 0 ==> res is Err,
{
    base64::engine::general_purpose::STANDARD.decode(data).map_err(|e| e.to_string())
}

/// The standard Base64 text of bytes without padding (the "B64" encoding
/// of the PHC string format): three bytes give four characters, a last
/// group of one or two bytes gives two or three.
pub open spec fn base64_unpadded_encode(data: Seq<u8>) -> Seq<char>
    decreases data.len(),
{
    let b0 = data[0] as int;
    let b1 = data[1] as int;
    let b2 = data[2] as int;
    if data.len() == 0 {
        Seq::empty()
    } else if data.len() == 1 {
        seq![base64_char(b0 / 4), base64_char((b0 % 4) * 16)]
    } else if data.len() == 2 {
        seq![
            base64_char(b0 / 4),
            base64_char((b0 % 4) * 16 + b1 / 16),
            base64_char((b1 % 16) * 4),
        ]
    } else {
        seq![
            base64_char(b0 / 4),
            base64_char((b0 % 4) * 16 + b1 / 16),
            base64_char((b1 % 16) * 4 + b2 / 64),
            base64_char(b2 % 64),
        ] + base64_unpadded_encode(data.subrange(3, data.len() as int))
    }
}

/// The PHC "B64" text that a salt is encoded as.
pub open spec fn phc_salt_text(salt: Seq<u8>) -> Seq<char> {
    base64_unpadded_encode(salt)
}

/// The B64 text of `n` bytes has `(4n + 2) / 3` characters.
pub proof fn lemma_base64_unpadded_len(data: Seq<u8>)
    ensures
        base64_unpadded_encode(data).len() == (4 * data.len() + 2) / 3,
    decreases data.len(),
{
    if data.len() >= 3 {
        lemma_base64_unpadded_len(data.subrange(3, data.len() as int));
    }
}

/// `password_hash::SaltString::encode_b64`, giving the salt's B64 text.
/// It fails exactly when the text would not fit the 64-character salt
/// buffer, that is for salts longer than 48 bytes.  The error message is
/// not described.
#[verifier::external_body]
pub fn encode_salt(salt: &[u8]) -> (res: Result<String, String>)
    ensures
        res is Ok <==> salt@.len() <= 48,
        res matches Ok(t) ==> t@ == phc_salt_text(salt@),
{
    argon2::password_hash::SaltString::encode_b64(salt)
        .map(|s| s.as_str().to_string())
        .map_err(|e| e.to_string())
}

/// The 32 output bytes of the Argon2id hash (default parameters) of a
/// password with a PHC salt text; `None` where hashing fails.
pub uninterp spec fn argon2_default_hash(password: Seq<u8>, salt_text: Seq<char>) -> Option<
    Seq<u8>,
>;

/// `argon2::Argon2::default().hash_password` with the salt given as PHC
/// text (`SaltString::from_b64`), returning the bytes of the hash output.
/// With the default parameters the output is 32 bytes.  Hashing fails for
/// a salt text shorter than 11 characters, which decodes to fewer than the
/// 8 bytes Argon2 needs; it succeeds for the B64 text of a salt of 8 to 48
/// bytes and a password of at most `u32::MAX` bytes.  Error messages are
/// not described.
#[verifier::external_body]
pub fn argon2_hash(password: &str, salt_text: &str) -> (res: Result<Option<Vec<u8>>, String>)
    ensures
        res is Ok <==> argon2_default_hash(encode_utf8(password@), salt_text@) is Some,
        res matches Ok(o) ==> (o matches Some(k) && argon2_default_hash(
            encode_utf8(password@),
            salt_text@,
        ) == Some(k@) && k@.len() == 32),
        salt_text@.len() < 11 ==> res is Err,
        (exists|salt: Seq<u8>| 8 <= salt.len() <= 48 && salt_text@ == phc_salt_text(salt))
            && encode_utf8(password@).len() <= 0xffff_ffff ==> res is Ok,
{
    let salt = argon2::password_hash::SaltString::from_b64(salt_text).map_err(|e| e.to_string())?;
    let hashed = argon2::Argon2::default()
        .hash_password(password.as_bytes(), &salt)
        .map_err(|e| e.to_string())?;
    Ok(hashed.hash.map(|o| o.as_bytes().to_vec()))
}

/// Whether `c` is a lower-case hexadecimal digit.
pub open spec fn is_lower_hex(c: char) -> bool {
    ('0' <= c <= '9') || ('a' <= c <= 'f')
}

/// Whether `s` is a UUID in hyphenated lower-case form:
/// `xxxxxxxx-xxxx-xxxx-xxxx-xxxxxxxxxxxx`.
pub open spec fn is_uuid_text(s: Seq<char>) -> bool {
    &&& s.len() == 36
    &&& forall|i: int|
        0 <= i < 36 ==> (if i == 8 || i == 13 || i == 18 || i == 23 {
            s[i] == '-'
        } else {
            is_lower_hex(s[i])
        })
}

/// The hyphenated lower-case form of the UUID that a text denotes; `None`
/// where `uuid::Uuid::parse_str` refuses the text.
pub uninterp spec fn uuid_parse_text(s: Seq<char>) -> Option<Seq<char>>;

/// `uuid::Uuid::new_v4().to_string()`: a fresh random UUID in hyphenated
/// lower-case form, which `Uuid::parse_str` reads back as itself.  Nothing
/// else is promised of its value.
#[verifier::external_body]
pub fn new_uuid() -> (res: String)
    ensures
        is_uuid_text(res@),
        uuid_parse_text(res@) == Some(res@),
{
    uuid::Uuid::new_v4().to_string()
}

/// `uuid::Uuid::parse_str`, giving the parsed UUID in hyphenated
/// lower-case form, or the parse error's message (not described).  A text
/// already in that form parses to itself.
#[verifier::external_body]
pub fn parse_uuid(s: &str) -> (res: Result<String, String>)
    ensures
        res is Ok <==> uuid_parse_text(s@) is Some,
        res matches Ok(t) ==> uuid_parse_text(s@) == Some(t@) && is_uuid_text(t@),
        res is Err ==> !is_uuid_text(s@),
        res matches Ok(t) ==> (is_uuid_text(s@) ==> t@ == s@),
{
    uuid::Uuid::parse_str(s).map(|u| u.to_string()).map_err(|e| e.to_string())
}

/// The RFC 3339 text (as `to_rfc3339` writes it, in UTC) of the instant a
/// text denotes; `None` where `parse::<DateTime<Utc>>` refuses the text.
pub uninterp spec fn utc_parse_text(s: Seq<char>) -> Option<Seq<char>>;

/// The Unix seconds (`timestamp()`) of the instant a text denotes; `None`
/// where `parse::<DateTime<Utc>>` refuses the text.
pub uninterp spec fn utc_text_seconds(s: Seq<char>) -> Option<int>;

/// `chrono::Utc::now()`, as its Unix seconds and its RFC 3339 text.  It
/// reads the clock, so nothing is promised of the instant; but both fields
/// describe the same instant: the text (written by `to_rfc3339`, with every
/// fractional digit the instant has) parses back to that instant, whose
/// seconds are `unix_seconds` and whose RFC 3339 text is the text itself.
#[verifier::external_body]
pub fn utc_now() -> (res: Timestamp)
    ensures
        utc_text_seconds(res.rfc3339@) == Some(res.unix_seconds as int),
        utc_parse_text(res.rfc3339@) == Some(res.rfc3339@),
{
    let now = chrono::Utc::now();
    Timestamp { unix_seconds: now.timestamp(), rfc3339: now.to_rfc3339() }
}

/// Whether `t` describes one instant consistently, as every clock reading
/// does: its text parses back to itself and denotes the instant of its
/// Unix seconds.
pub open spec fn clock_reading(t: Timestamp) -> bool {
    &&& utc_text_seconds(t.rfc3339@) == Some(t.unix_seconds as int)
    &&& utc_parse_text(t.rfc3339@) == Some(t.rfc3339@)
}

/// Whether `s` is the RFC 3339 text of a clock reading: it parses back to
/// itself and denotes an instant.
pub open spec fn clock_text(s: Seq<char>) -> bool {
    &&& utc_parse_text(s) == Some(s)
    &&& utc_text_seconds(s) is Some
}

/// `s.parse::<chrono::DateTime<chrono::Utc>>()`, giving the instant's
/// RFC 3339 text, or the parse error's message (not described).  The text
/// given back denotes the same instant and parses back to itself.
#[verifier::external_body]
pub fn parse_utc(s: &str) -> (res: Result<String, String>)
    ensures
        res is Ok <==> utc_parse_text(s@) is Some,
        res is Ok <==> utc_text_seconds(s@) is Some,
        res matches Ok(t) ==> utc_parse_text(s@) == Some(t@),
        res matches Ok(t) ==> utc_text_seconds(t@) == utc_text_seconds(s@),
        res matches Ok(t) ==> utc_parse_text(t@) == Some(t@),
{
    s.parse::<chrono::DateTime<chrono::Utc>>().map(|t| t.to_rfc3339()).map_err(|e| e.to_string())
}

/// The `%Y-%m-%d %H:%M:%S` rendering of the instant a text denotes; `None`
/// where `parse::<DateTime<Utc>>` refuses the text.
pub uninterp spec fn utc_summary_text(s: Seq<char>) -> Option<Seq<char>>;

/// `DateTime::<Utc>::format("%Y-%m-%d %H:%M:%S")` of the instant that `s`
/// denotes, or `None` where `s` does not parse as one.
#[verifier::external_body]
pub fn format_utc_summary(s: &str) -> (res: Option<String>)
    ensures
        res is Some <==> utc_summary_text(s@) is Some,
        res matches Some(t) ==> utc_summary_text(s@) == Some(t@),
{
    s.parse::<chrono::DateTime<chrono::Utc>>().ok().map(|t| t.format("%Y-%m-%d %H:%M:%S").to_string())
}

/// How JSON writes one character inside a string literal: the quote and
/// the backslash escaped, the control characters below `U+0020` by their
/// short escapes or as `\u00XX` (lower-case hexadecimal), every other
/// character as it is.
pub open spec fn json_escaped_char(c: char) -> Seq<char> {
    if c == '"' {
        seq!['\\', '"']
    } else if c == '\\' {
        seq!['\\', '\\']
    } else if c == '\u{8}' {
        seq!['\\', 'b']
    } else if c == '\t' {
        seq!['\\', 't']
    } else if c == '\n' {
        seq!['\\', 'n']
    } else if c == '\u{c}' {
        seq!['\\', 'f']
    } else if c == '\r' {
        seq!['\\', 'r']
    } else if (c as int) < 32 {
        seq!['\\', 'u', '0', '0', hex_digit((c as nat) / 16), hex_digit((c as nat) % 16)]
    } else {
        seq![c]
    }
}

/// The escaped characters of a text, in order.
pub open spec fn json_escaped(s: Seq<char>) -> Seq<char>
    decreases s.len(),
{
    if s.len() == 0 {
        Seq::empty()
    } else {
        json_escaped(s.drop_last()) + json_escaped_char(s.last())
    }
}

/// The JSON string literal of a text, as `serde_json` writes it: the
/// escaped text between double quotes.
pub open spec fn json_string_literal(s: Seq<char>) -> Seq<char> {
    seq!['"'] + json_escaped(s) + seq!['"']
}

/// `serde_json::to_string` of a `str`: its JSON string literal.
/// Serializing a string never fails.
#[verifier::external_body]
pub fn json_quote(s: &str) -> (res: Result<String, String>)
    ensures
        res is Ok,
        res matches Ok(t) ==> t@ == json_string_literal(s@),
{
    serde_json::to_string(s).map_err(|e| e.to_string())
}

/// The compact JSON text of the value a JSON text denotes; `None` where
/// `serde_json::from_str::<Value>` refuses the text.
pub uninterp spec fn json_compact_text(s: Seq<char>) -> Option<Seq<char>>;

/// `serde_json::from_str::<serde_json::Value>` followed by `to_string`,
/// giving the value's compact text, or the parse error's message (not
/// described).
#[verifier::external_body]
pub fn json_normalize(s: &str) -> (res: Result<String, String>)
    ensures
        res is Ok <==> json_compact_text(s@) is Some,
        res matches Ok(t) ==> json_compact_text(s@) == Some(t@),
{
    serde_json::from_str::<serde_json::Value>(s).map(|v| v.to_string()).map_err(|e| e.to_string())
}

} // verus!
