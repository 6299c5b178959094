//! The transfer key: the SHA-256 digest of the shared password.
use sha2::{Digest, Sha256};
use vstd::prelude::*;
use vstd::string::StringSliceAdditionalSpecFns;

verus! {

/// The SHA-256 digest of `msg`.
pub uninterp spec fn sha256_of(msg: Seq<u8>) -> Seq<u8>;

/// Relies on sha2's `Sha256::digest`: the 32-byte digest of `msg`.
#[verifier::external_body]
fn sha256(msg: &[u8]) -> (r: [u8; 32])
    ensures
        r@ == sha256_of(msg@),
{
    Sha256::digest(msg).into()
}

/// The 32-byte key that both peers derive from the password `s`.
pub fn get_password(s: &str) -> (r: [u8; 32])
    ensures
        r@ == sha256_of(s.spec_bytes()),
        r@.len() == 32,
{
    sha256(s.as_bytes())
}

} // verus!
