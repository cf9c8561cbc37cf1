//! Placeholder-frame detection: the MD5 content fingerprint of a frame
//! and its comparison against the one known sentinel value.

use vstd::prelude::*;
use crate::text::str_eq;

verus! {

/// The MD5 digest of a byte sequence, written as 32 lowercase
/// hexadecimal characters. A function of the bytes alone.
pub uninterp spec fn md5_hex_of(bytes: Seq<u8>) -> Seq<char>;

/// The fingerprint of the known "camera preview unavailable" sentinel
/// image.
pub open spec fn sentinel_fingerprint() -> Seq<char> {
    "64a9507f752d598345378763b25bdcaf"@
}

/// Relies on md5::compute and the md5 crate's `LowerHex` rendering of a
/// digest: the 16-byte MD5 digest of the input written as two lowercase
/// hexadecimal characters per byte, a function of the bytes alone.
#[verifier::external_body]
fn md5_hex(frame: &Vec<u8>) -> (r: String)
    ensures
        r@ == md5_hex_of(frame@),
        r@.len() == 32,
{
    format!("{:x}", md5::compute(frame.as_slice()))
}

/// The content fingerprint of a frame: its MD5 digest in lowercase hex.
pub fn fingerprint_hex(frame: &Vec<u8>) -> (r: String)
    ensures
        r@ == md5_hex_of(frame@),
        r@.len() == 32,
{
    md5_hex(frame)
}

/// True exactly when a fingerprint equals the sentinel fingerprint.
pub fn fingerprint_matches_sentinel(fingerprint: &str) -> (r: bool)
    ensures
        r == (fingerprint@ == sentinel_fingerprint()),
{
    str_eq(fingerprint, "64a9507f752d598345378763b25bdcaf")
}

/// Placeholder detection: true exactly when the frame's fingerprint
/// equals the sentinel fingerprint. Applied only to frames obtained over
/// HTTP; the process-based source never inspects bytes.
pub fn is_placeholder(frame: &Vec<u8>) -> (r: bool)
    ensures
        r == (md5_hex_of(frame@) == sentinel_fingerprint()),
{
    let fp = fingerprint_hex(frame);
    fingerprint_matches_sentinel(fp.as_str())
}

} // verus!
