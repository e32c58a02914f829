//! Passwords, kept only as the digest of what was typed.

use vstd::prelude::*;
use vstd::utf8::encode_utf8;
use sha2::Digest;
use crate::common::result::ResultApp;
use crate::text::hex_digits;

verus! {

/// The SHA-256 digest of `data`, as `sha2::Sha256` computes it.
pub uninterp spec fn sha256_digest(data: Seq<u8>) -> Seq<u8>;

/// `data` in lower-case hexadecimal: two digits for each byte, the high
/// half first.
pub open spec fn hex_lower(data: Seq<u8>) -> Seq<char> {
    Seq::new(
        2 * data.len(),
        |i: int|
            if i % 2 == 0 {
                hex_digits()[data[i / 2] as int / 16]
            } else {
                hex_digits()[data[i / 2] as int % 16]
            },
    )
}

/// The digest under which the password `plain` is kept: its bytes in UTF-8,
/// hashed with SHA-256, written in lower-case hexadecimal.
pub open spec fn digest_of(plain: Seq<char>) -> Seq<char> {
    hex_lower(sha256_digest(encode_utf8(plain)))
}

/// Hashes `data` with `sha2::Sha256::digest` and copies the digest out.
/// The contract claims that the digest is a function of the data alone,
/// named `sha256_digest`, and has the 32 bytes of SHA-256.
#[verifier::external_body]
fn sha256(data: &[u8]) -> (digest: Vec<u8>)
    ensures
        digest@ == sha256_digest(data@),
        digest@.len() == 32,
{
    sha2::Sha256::digest(data).to_vec()
}

/// Writes `data` in hexadecimal with `hex::encode`. The contract claims
/// what that function documents: lower case, two digits for each byte.
#[verifier::external_body]
fn hex_encode(data: &[u8]) -> (text: String)
    ensures
        text@ == hex_lower(data@),
{
    hex::encode(data)
}

/// A password, held as its digest.
#[derive(Debug)]
pub struct Password(String);

impl Clone for Password {
    fn clone(&self) -> (copy: Self)
        ensures
            copy@ == self@,
    {
        Password(self.0.clone())
    }
}

impl View for Password {
    type V = Seq<char>;

    closed spec fn view(&self) -> Seq<char> {
        self.0@
    }
}

impl Password {
    /// Hashes the password `value` and keeps the digest. Nothing is
    /// rejected.
    pub fn new(value: String) -> (r: ResultApp<Self>)
        ensures
            r matches Ok(p) && p@ == digest_of(value@) && p@.len() == 64,
    {
        let digest = sha256(value.as_str().as_bytes());
        let text = hex_encode(digest.as_slice());
        Ok(Self(text))
    }

    /// Wraps a digest that was made before, as it is. `value` must never be
    /// a password in plain text.
    pub fn new_from_hashed_value(value: String) -> (p: Self)
        ensures
            p@ == value@,
    {
        Self(value)
    }

    /// The digest.
    pub fn value(&self) -> (s: String)
        ensures
            s@ == self@,
    {
        self.0.clone()
    }
}

} // verus!
