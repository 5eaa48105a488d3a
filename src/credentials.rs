//! Password digests and generated public identifiers, both computed with the
//! standard library's `DefaultHasher` and written in lower-case hexadecimal.
use std::collections::hash_map::DefaultHasher;
use std::hash::Hasher;
use vstd::bytes::{spec_u64_to_le_bytes, u64_to_le_bytes};
use vstd::prelude::*;
use vstd::std_specs::hash::DefaultHasherAdditionalSpecFns;
use vstd::utf8::encode_utf8;

use crate::text::{radix_digits, radix_string};

verus! {

/// The digest of a password: its UTF-8 bytes fed to a fresh `DefaultHasher`
/// followed by the `0xff` terminator, exactly as hashing a `str` does.
pub open spec fn password_digest(p: Seq<char>) -> u64 {
    DefaultHasher::spec_finish(seq![encode_utf8(p), seq![0xffu8]])
}

/// The stored form of a password: its digest in lower-case hexadecimal.
pub open spec fn password_hash_text(p: Seq<char>) -> Seq<char> {
    radix_digits(password_digest(p) as nat, 16)
}

/// The digest of a 64-bit value hashed on its own by a fresh `DefaultHasher`.
pub open spec fn word_digest(n: u64) -> u64 {
    DefaultHasher::spec_finish(seq![spec_u64_to_le_bytes(n)])
}

/// The public identifier minted from a timestamp: `"tutor_"` and the
/// hexadecimal digest of the digest of the timestamp.
pub open spec fn secure_id_text(timestamp: u64) -> Seq<char> {
    "tutor_"@ + radix_digits(word_digest(word_digest(timestamp)) as nat, 16)
}

/// The stored form of `password`.
pub fn hash_password(password: &str) -> (r: String)
    ensures
        r@ == password_hash_text(password@),
{
    let mut hasher = DefaultHasher::new();
    hasher.write(password.as_bytes());
    let terminator: [u8; 1] = [0xff];
    hasher.write(&terminator);
    proof {
        assert(terminator@ =~= seq![0xffu8]);
        assert(hasher@ =~= seq![encode_utf8(password@), seq![0xffu8]]);
    }
    radix_string(hasher.finish(), 16)
}

/// Whether `hash` is the stored form of `password`.
pub fn verify_password(password: &str, hash: &str) -> (r: bool)
    ensures
        r == (password_hash_text(password@) == hash@),
{
    hash_password(password) == String::from_str(hash)
}

/// The digest of `n` hashed on its own.
fn hash_word(n: u64) -> (r: u64)
    ensures
        r == word_digest(n),
{
    let mut hasher = DefaultHasher::new();
    let bytes = u64_to_le_bytes(n);
    hasher.write(bytes.as_slice());
    proof {
        assert(hasher@ =~= seq![spec_u64_to_le_bytes(n)]);
    }
    hasher.finish()
}

/// A public identifier for a tutor, minted from the current time.
pub fn secure_id_from_timestamp(timestamp: u64) -> (r: String)
    ensures
        r@ == secure_id_text(timestamp),
{
    let prefix = "tutor_";
    let digits = radix_string(hash_word(hash_word(timestamp)), 16);
    String::from_str(prefix).concat(digits.as_str())
}

} // verus!
