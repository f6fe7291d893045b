//! Reading and writing document text: the size cap and the decoding rule.
//!
//! A file is read as raw bytes by the caller; this module decides whether
//! the size is acceptable and turns the bytes into text. Valid UTF-8 is
//! decoded as UTF-8; anything else falls back to mapping each byte to the
//! character with the same numeric value. The fallback is lossy for
//! multi-byte non-UTF-8 encodings by design (simplicity over fidelity),
//! and it means a read never fails because of its encoding alone.

use vstd::prelude::*;
use vstd::string::StrSliceExecFns;
use vstd::utf8::{valid_utf8, decode_utf8, encode_utf8};
use vstd::utf8::{encode_utf8_valid_utf8, encode_utf8_decode_utf8};

verus! {

/// Largest file the editor will open, in bytes.
pub const MAX_FILE_SIZE: u64 = 10 * 1024 * 1024;

/// Why a file operation failed. `TooLarge` carries the file size in
/// whole mebibytes; `Io` carries the operating system's own message.
pub enum FileError {
    NotFound,
    TooLarge(u64),
    Io(String),
}

impl FileError {
    /// Whether this is the path-does-not-exist error.
    pub fn is_not_found(&self) -> (r: bool)
        ensures
            r == (self is NotFound),
    {
        match self {
            FileError::NotFound => true,
            _ => false,
        }
    }
}

/// Accept or reject a file by its size in bytes: too big is rejected
/// with the size in whole mebibytes, anything else is accepted.
pub fn check_file_size(len: u64) -> (r: Result<(), FileError>)
    ensures
        r is Ok <==> len <= MAX_FILE_SIZE,
        len > MAX_FILE_SIZE ==> (r matches Err(e) && e matches FileError::TooLarge(m) && m
            == len / 1024 / 1024),
{
    if len > MAX_FILE_SIZE {
        Err(FileError::TooLarge(len / 1024 / 1024))
    } else {
        Ok(())
    }
}

/// The text a byte sequence denotes: its UTF-8 decoding when it is valid
/// UTF-8, otherwise one character per byte, each byte mapped to the
/// character with the same numeric value.
pub open spec fn spec_decode_text(b: Seq<u8>) -> Seq<char> {
    if valid_utf8(b) {
        decode_utf8(b)
    } else {
        Seq::new(b.len(), |i: int| b[i] as char)
    }
}

/// Relies on `String::from_utf8`: it succeeds exactly on valid UTF-8 and
/// returns the string those bytes encode.
#[verifier::external_body]
fn utf8_to_string(bytes: &Vec<u8>) -> (r: Option<String>)
    ensures
        r matches Some(s) ==> valid_utf8(bytes@) && s@ == decode_utf8(bytes@),
        r is None ==> !valid_utf8(bytes@),
{
    String::from_utf8(bytes.clone()).ok()
}

/// Relies on `String::push`: it appends exactly the given character.
#[verifier::external_body]
pub(crate) fn push_char(s: &mut String, c: char)
    ensures
        final(s)@ == old(s)@.push(c),
{
    s.push(c)
}

/// Decode file bytes into text, with the byte-for-byte fallback for
/// content that is not valid UTF-8.
pub fn decode_text(bytes: &Vec<u8>) -> (r: String)
    ensures
        r@ == spec_decode_text(bytes@),
{
    match utf8_to_string(bytes) {
        Some(s) => s,
        None => {
            let mut out = String::new();
            let mut i: usize = 0;
            while i < bytes.len()
                invariant
                    i <= bytes.len(),
                    out@ =~= bytes@.take(i as int).map(|j: int, b: u8| b as char),
                decreases bytes.len() - i,
            {
                let b = bytes[i];
                push_char(&mut out, b as char);
                proof {
                    assert(bytes@.take(i + 1 as int) =~= bytes@.take(i as int).push(b));
                    assert(out@ =~= bytes@.take(i + 1 as int).map(|j: int, b: u8| b as char));
                }
                i += 1;
            }
            proof {
                assert(bytes@.take(bytes@.len() as int) =~= bytes@);
                assert(bytes@.map(|j: int, b: u8| b as char) =~= Seq::new(
                    bytes@.len(),
                    |i: int| bytes@[i] as char,
                ));
            }
            out
        },
    }
}

/// Encode text as the UTF-8 bytes that are written to disk.
pub fn encode_text(text: &str) -> (r: Vec<u8>)
    ensures
        r@ == encode_utf8(text@),
{
    text.as_bytes_vec()
}

/// Writing a text and reading the file back yields the same text: the
/// written bytes are its UTF-8 encoding, which is valid UTF-8 and
/// decodes to the original characters.
pub proof fn lemma_write_read_roundtrip(text: Seq<char>)
    ensures
        spec_decode_text(encode_utf8(text)) == text,
{
    broadcast use encode_utf8_valid_utf8;
    broadcast use encode_utf8_decode_utf8;

}

} // verus!
