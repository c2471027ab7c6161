use crate::codec::{encode_hex, hex_text};
use vstd::prelude::*;

verus! {

/// The SHA-256 digest of a byte string.
pub uninterp spec fn sha256_digest(data: Seq<u8>) -> Seq<u8>;

/// The SHA-256 digest of a byte string, by `sha2::Sha256::digest`. Not proved: that the digest is
/// a function of the bytes alone, which is all that is claimed of it.
#[verifier::external_body]
pub(crate) fn sha256_by_sha2(data: &[u8]) -> (digest: [u8; 32])
    ensures
        digest@ == sha256_digest(data@),
{
    <sha2::Sha256 as sha2::Digest>::digest(data).into()
}

/// The SHA-256 digest of a byte string.
pub fn sha256(data: &[u8]) -> (digest: [u8; 32])
    ensures
        digest@ == sha256_digest(data@),
{
    sha256_by_sha2(data)
}

/// The lower-case hexadecimal text of the SHA-256 digest of a byte string.
pub fn sha256_hex(data: &[u8]) -> (text: String)
    ensures
        text@ == hex_text(sha256_digest(data@)),
{
    encode_hex(sha256(data).as_slice())
}

} // verus!
