//! Session identifiers: 32 letters and digits, drawn from the operating
//! system's random number generator.

use rand::distributions::Alphanumeric;
use rand::rngs::OsRng;
use rand::Rng;
use std::string::FromUtf8Error;
use vstd::prelude::*;
use vstd::utf8::*;

verus! {

/// The number of characters in a session identifier.
pub const SESSION_ID_LEN: usize = 32;

/// An ASCII letter or digit.
pub open spec fn is_alphanumeric(c: char) -> bool {
    ||| '0' <= c <= '9'
    ||| 'A' <= c <= 'Z'
    ||| 'a' <= c <= 'z'
}

/// The shape of a session identifier: `SESSION_ID_LEN` characters, each an
/// ASCII letter or digit.
pub open spec fn is_session_id(id: Seq<char>) -> bool {
    &&& id.len() == SESSION_ID_LEN
    &&& forall|i: int| 0 <= i < id.len() ==> is_alphanumeric(#[trigger] id[i])
}

/// The text that `bytes` spell: their decoding where they are valid UTF-8,
/// and the empty text where they are not.
pub open spec fn text_of(bytes: Seq<u8>) -> Seq<char> {
    if valid_utf8(bytes) {
        decode_utf8(bytes)
    } else {
        Seq::empty()
    }
}

#[verifier::external_type_specification]
#[verifier::external_body]
pub struct ExFromUtf8Error(FromUtf8Error);

/// One draw of `rand::distributions::Alphanumeric` from `rand::rngs::OsRng`,
/// through `Rng::sample`.
///
/// Trusted: the byte is one of `A`-`Z`, `a`-`z`, `0`-`9`, which is the table
/// that the distribution picks from. Which of them comes is left open. The
/// generator panics if the operating system refuses it random bytes.
#[verifier::external_body]
fn sample_alphanumeric() -> (byte: u8)
    ensures
        is_alphanumeric(byte as char),
{
    OsRng.sample(Alphanumeric)
}

/// `String::from_utf8`.
///
/// Trusted: the call succeeds exactly on valid UTF-8, and the string then
/// holds the characters that the bytes encode.
#[verifier::external_body]
fn string_from_utf8(bytes: Vec<u8>) -> (decoded: Result<String, FromUtf8Error>)
    ensures
        decoded is Ok <==> valid_utf8(bytes@),
        decoded matches Ok(text) ==> text@ == decode_utf8(bytes@),
{
    String::from_utf8(bytes)
}

/// Bytes below 128 are valid UTF-8 and decode one to one.
proof fn lemma_ascii_decodes_bytewise(bytes: Seq<u8>)
    requires
        forall|i: int| 0 <= i < bytes.len() ==> #[trigger] bytes[i] < 128,
    ensures
        valid_utf8(bytes),
        decode_utf8(bytes).len() == bytes.len(),
        forall|i: int| 0 <= i < bytes.len() ==> #[trigger] decode_utf8(bytes)[i] == bytes[i] as char,
{
    let chars = Seq::new(bytes.len(), |i: int| bytes[i] as char);
    assert(is_ascii_chars(chars));
    is_ascii_chars_encode_utf8(chars);
    assert forall|i: int| 0 <= i < bytes.len() implies encode_utf8(chars)[i] == bytes[i] by {
        assert(chars[i] as u8 == encode_utf8(chars)[i]);
    }
    assert(encode_utf8(chars) =~= bytes);
    encode_utf8_valid_utf8(chars);
    encode_utf8_decode_utf8(chars);
}

/// The text that `bytes` spell, or the empty string where they are not
/// valid UTF-8.
pub fn text_from_bytes(bytes: Vec<u8>) -> (text: String)
    ensures
        text@ == text_of(bytes@),
{
    match string_from_utf8(bytes) {
        Ok(text) => text,
        Err(_) => String::new(),
    }
}

/// A new session identifier.
///
/// Every call draws afresh, so nothing relates two results. Identifiers are
/// not compared with those in use: with 62 choices at each of 32 places a
/// repeat is not expected.
pub fn generate_session_id() -> (id: String)
    ensures
        is_session_id(id@),
{
    let mut value: Vec<u8> = Vec::new();
    while value.len() < SESSION_ID_LEN
        invariant
            value@.len() <= SESSION_ID_LEN,
            forall|i: int| 0 <= i < value@.len() ==> is_alphanumeric(#[trigger] value@[i] as char),
        decreases SESSION_ID_LEN - value@.len(),
    {
        let byte = sample_alphanumeric();
        value.push(byte);
    }
    proof {
        assert forall|i: int| 0 <= i < value@.len() implies #[trigger] value@[i] < 128 by {
            assert(is_alphanumeric(value@[i] as char));
        }
        lemma_ascii_decodes_bytewise(value@);
    }
    text_from_bytes(value)
}

} // verus!
