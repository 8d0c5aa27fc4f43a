//! Checking a file's contents against the size and SHA-1 digest that a
//! content descriptor expects.

use vstd::prelude::*;
use crate::text::str_eq;

verus! {

/// The SHA-1 digest of `data` in hexadecimal, as the `sha1` crate writes
/// it.
pub uninterp spec fn sha1_hex(data: Seq<u8>) -> Seq<char>;

/// SHA-1 is defined for messages of fewer than 2^64 bits, which is this
/// many bytes.
pub const SHA1_MAX_BYTES: u64 = 0x2000_0000_0000_0000;

/// `sha1::Sha1::from(data).hexdigest()`: the digest of the bytes, written in
/// hexadecimal. It depends on the bytes alone. The crate counts the
/// message's bits in a `u64`, so the message must be short enough for that.
#[verifier::external_body]
fn sha1_hexdigest(data: &[u8]) -> (hex: String)
    requires
        data@.len() < SHA1_MAX_BYTES,
    ensures
        hex@ == sha1_hex(data@),
{
    sha1::Sha1::from(data).hexdigest()
}

/// Whether a file counts as present: it exists (`content` is its bytes), it
/// has the expected size, and its digest is the expected one. A file too
/// long to have a SHA-1 digest matches nothing.
pub open spec fn file_valid(content: Option<Seq<u8>>, sha1: Seq<char>, size: u64) -> bool {
    &&& content matches Some(bytes)
    &&& bytes.len() == size
    &&& bytes.len() < SHA1_MAX_BYTES
    &&& sha1_hex(bytes) == sha1
}

/// The bytes of an optional slice.
pub open spec fn content_view(content: Option<&[u8]>) -> Option<Seq<u8>> {
    match content {
        Some(bytes) => Some(bytes@),
        None => None,
    }
}

/// Whether a file of the given length, if it exists at all, has the
/// expected size. This needs no byte of the file.
pub fn size_matches(length: Option<u64>, size: u64) -> (ok: bool)
    ensures
        ok == (length == Some(size)),
{
    match length {
        Some(n) => n == size,
        None => false,
    }
}

/// Checks a file against its descriptor. `content` is `None` where the file
/// does not exist. The size is compared first; the digest is computed over
/// every byte only where the size is right.
pub fn check_file(content: Option<&[u8]>, sha1: &str, size: u64) -> (ok: bool)
    ensures
        ok == file_valid(content_view(content), sha1@, size),
{
    match content {
        None => false,
        Some(bytes) => {
            let length = bytes.len();
            if length as u64 != size || size >= SHA1_MAX_BYTES {
                return false;
            }
            let digest = sha1_hexdigest(bytes);
            str_eq(digest.as_str(), sha1)
        },
    }
}

/// A file that holds exactly the expected number of bytes, with the
/// expected digest, is valid.
pub proof fn lemma_matching_content_valid(bytes: Seq<u8>, sha1: Seq<char>, size: u64)
    requires
        bytes.len() == size,
        size < SHA1_MAX_BYTES,
        sha1_hex(bytes) == sha1,
    ensures
        file_valid(Some(bytes), sha1, size),
{
}

/// A missing file is never valid, and neither is one of the wrong size,
/// whatever its digest.
pub proof fn lemma_absent_or_missized_invalid(content: Option<Seq<u8>>, sha1: Seq<char>, size: u64)
    requires
        content matches Some(bytes) ==> bytes.len() != size,
    ensures
        !file_valid(content, sha1, size),
{
}

} // verus!
