//! Password digests and fresh session access keys.
use vstd::prelude::*;
use vstd::utf8::encode_utf8;
use rand::Rng;
use sha3::{Digest, Sha3_512};
use crate::text::{hex_upper, is_upper_hex, lemma_hex_upper_shape, push_char, to_hex_upper};

verus! {

/// The SHA3-512 digest of a byte sequence, as the `sha3` crate computes it.
pub uninterp spec fn sha3_512_digest(data: Seq<u8>) -> Seq<u8>;

/// `<Sha3_512 as Digest>::digest`: the SHA3-512 digest of `data`, whose output
/// size the crate fixes at 64 bytes. What the digest is, is left to the name.
#[verifier::external_body]
fn sha3_512_bytes(data: &[u8]) -> (d: Vec<u8>)
    ensures
        d@ == sha3_512_digest(data@),
        d@.len() == 64,
{
    Sha3_512::digest(data).to_vec()
}

/// The stored form of a password: upper-case hexadecimal text of the SHA3-512
/// digest of its UTF-8 bytes.
pub open spec fn password_digest(s: Seq<char>) -> Seq<char> {
    hex_upper(sha3_512_digest(encode_utf8(s)))
}

/// SHA3-512 of the UTF-8 bytes of `s`, written as upper-case hexadecimal.
pub fn sha3_512(s: String) -> (h: String)
    ensures
        h@ == password_digest(s@),
        h@.len() == 128,
        forall|i: int| 0 <= i < h@.len() ==> is_upper_hex(#[trigger] h@[i]),
{
    let bytes = s.as_str().as_bytes();
    let digest = sha3_512_bytes(bytes);
    let h = to_hex_upper(digest.as_slice());
    proof {
        lemma_hex_upper_shape(digest@);
    }
    h
}

/// Whether `c` is an ASCII letter or digit.
pub open spec fn is_alphanumeric(c: char) -> bool {
    ('A' <= c <= 'Z') || ('a' <= c <= 'z') || ('0' <= c <= '9')
}

/// Length of a session access key.
pub const ACCESS_KEY_LEN: usize = 32;

/// `rand::thread_rng().sample(Alphanumeric)`: one character drawn from
/// `A-Z`, `a-z` and `0-9`. Which one is left open.
#[verifier::external_body]
fn random_alphanumeric() -> (c: char)
    ensures
        is_alphanumeric(c),
{
    rand::thread_rng().sample(rand::distributions::Alphanumeric) as char
}

/// Whether `k` has the shape of a session access key.
pub open spec fn is_access_key(k: Seq<char>) -> bool {
    &&& k.len() == ACCESS_KEY_LEN
    &&& forall|i: int| 0 <= i < k.len() ==> is_alphanumeric(#[trigger] k[i])
}

/// A fresh random access key of 32 letters and digits.
pub fn new_access_key() -> (k: String)
    ensures
        is_access_key(k@),
{
    let mut k = String::new();
    let mut i: usize = 0;
    while i < ACCESS_KEY_LEN
        invariant
            i <= ACCESS_KEY_LEN,
            k@.len() == i,
            forall|j: int| 0 <= j < k@.len() ==> is_alphanumeric(#[trigger] k@[j]),
        decreases ACCESS_KEY_LEN - i,
    {
        let c = random_alphanumeric();
        push_char(&mut k, c);
        i = i + 1;
    }
    k
}

} // verus!
