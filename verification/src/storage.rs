//! Encrypted local storage: how the storage key is derived from the user's
//! secret and the stored salt, and the sealed form of every stored text
//! (a random nonce followed by its AES-256-GCM encryption).

use vstd::prelude::*;
use argon2::password_hash::PasswordHasher;
use rand::RngCore;
use vstd::utf8::{decode_utf8, encode_utf8, valid_utf8};
use crate::security::{gcm_open, gcm_seal, AEAD_ERROR};

verus! {

/// The lower-case hexadecimal digit for `n < 16`.
pub open spec fn hex_lower_digit(n: u8) -> char {
    if n < 10 {
        (n + 48) as char
    } else {
        (n + 87) as char
    }
}

/// `hex::encode`: two lower-case hexadecimal digits per byte.
pub open spec fn hex_lower(bs: Seq<u8>) -> Seq<char>
    decreases bs.len(),
{
    if bs.len() == 0 {
        seq![]
    } else {
        hex_lower(bs.drop_last()) + seq![hex_lower_digit(bs.last() / 16), hex_lower_digit(bs.last() % 16)]
    }
}

/// `hex::encode`: the text is `hex_lower` of the bytes, as its source shows.
#[verifier::external_body]
pub(crate) fn hex_encode(bytes: &[u8]) -> (r: String)
    ensures
        r@ == hex_lower(bytes@),
{
    hex::encode(bytes)
}

/// `OsRng::fill_bytes`: fills `buf` from the operating system's
/// generator. Nothing is promised of the bytes.
#[verifier::external_body]
fn os_fill_bytes(buf: &mut [u8])
    ensures
        final(buf)@.len() == old(buf)@.len(),
{
    rand::rngs::OsRng.fill_bytes(buf)
}

/// A salt in the form this library stores: 32 lower-case hexadecimal
/// digits.
pub open spec fn is_hex_salt(s: Seq<char>) -> bool {
    s.len() == 32 && forall|i: int| 0 <= i < s.len() ==> ('0' <= #[trigger] s[i] <= '9' || 'a' <= s[i] <= 'f')
}

proof fn lemma_hex_lower_form(b: Seq<u8>)
    ensures
        hex_lower(b).len() == 2 * b.len(),
        forall|i: int| 0 <= i < hex_lower(b).len() ==> ('0' <= #[trigger] hex_lower(b)[i] <= '9' || 'a' <= hex_lower(b)[i] <= 'f'),
    decreases b.len(),
{
    if b.len() > 0 {
        lemma_hex_lower_form(b.drop_last());
        let a = hex_lower(b.drop_last());
        let hi = b.last() / 16;
        let lo = b.last() % 16;
        let d = seq![hex_lower_digit(hi), hex_lower_digit(lo)];
        if hi < 10 {
            assert(((hi + 48) as char) as u32 == hi + 48);
        } else {
            assert(((hi + 87) as char) as u32 == hi + 87);
        }
        if lo < 10 {
            assert(((lo + 48) as char) as u32 == lo + 48);
        } else {
            assert(((lo + 87) as char) as u32 == lo + 87);
        }
        assert forall|i: int| 0 <= i < (a + d).len() implies ('0' <= #[trigger] (a + d)[i] <= '9' || 'a' <= (a + d)[i]
            <= 'f') by {
            if i < a.len() {
                assert((a + d)[i] == a[i]);
            } else {
                assert((a + d)[i] == d[i - a.len()]);
            }
        }
    }
}

/// A fresh salt in its stored form: 16 random bytes in hexadecimal.
pub fn new_salt_text() -> (s: String)
    ensures
        exists|b: Seq<u8>| b.len() == 16 && s@ == #[trigger] hex_lower(b),
        is_hex_salt(s@),
{
    let mut b = [0u8; 16];
    os_fill_bytes(&mut b);
    let s = hex_encode(&b);
    assert(b@.len() == 16);
    proof {
        lemma_hex_lower_form(b@);
    }
    s
}

/// A salt text that `SaltString::from_b64` takes: 4 to 64 characters, each
/// a letter, a digit or one of `/+.-`.
pub open spec fn is_b64_salt_text(s: Seq<char>) -> bool {
    &&& 4 <= s.len() <= 64
    &&& forall|i: int|
        0 <= i < s.len() ==> ('a' <= #[trigger] s[i] <= 'z' || 'A' <= s[i] <= 'Z' || '0' <= s[i] <= '9' || s[i] == '/'
            || s[i] == '+' || s[i] == '.' || s[i] == '-')
}

/// The name for the 32-byte key Argon2id (default parameters) derives from
/// a secret and a salt given in B64 form.
pub uninterp spec fn argon2_key(secret: Seq<u8>, salt: Seq<char>) -> Seq<u8>;

/// Why key derivation failed.
#[derive(Debug, Clone, PartialEq, Eq)]
pub enum KdfFailure {
    /// The salt text is no valid B64 salt; the error's text.
    Salt(String),
    /// Argon2 refused; the error's text.
    Kdf(String),
    /// No output hash was produced.
    NoOutput,
}

/// `SaltString::from_b64` then `Argon2::default().hash_password`: on
/// success the first 32 bytes of the output hash, named `argon2_key`. A
/// salt text outside the characters and length `from_b64` accepts is a salt
/// error. A salt of 32 hexadecimal digits decodes (unpadded B64) to 24
/// bytes, above Argon2's minimum of 8, so with a secret that fits in 32
/// bits of length the derivation succeeds. Which other salts pass is left
/// unsaid.
#[verifier::external_body]
fn argon2_derive(secret: &[u8], salt_b64: &str) -> (r: Result<[u8; 32], KdfFailure>)
    ensures
        r matches Ok(k) ==> k@ == argon2_key(secret@, salt_b64@),
        !is_b64_salt_text(salt_b64@) ==> r matches Err(KdfFailure::Salt(_)),
        is_hex_salt(salt_b64@) && secret@.len() <= 0xffff_ffff ==> r is Ok,
{
    let salt = argon2::password_hash::SaltString::from_b64(salt_b64).map_err(|e| KdfFailure::Salt(format!("{}", e)))?;
    let hash = argon2::Argon2::default().hash_password(secret, &salt).map_err(|e| KdfFailure::Kdf(format!("{}", e)))?;
    match hash.hash {
        Some(out) => {
            let mut key = [0u8; 32];
            key.copy_from_slice(&out.as_bytes()[..32]);
            Ok(key)
        },
        None => Err(KdfFailure::NoOutput),
    }
}

/// The storage key for `user_secret` and the stored salt, or why it could
/// not be derived (the salt error or the key-derivation error, each with
/// its text).
pub fn storage_key(user_secret: &[u8], salt: &str) -> (r: Result<[u8; 32], String>)
    ensures
        r matches Ok(k) ==> k@ == argon2_key(user_secret@, salt@),
        !is_b64_salt_text(salt@) ==> (r matches Err(e) && e@.len() >= 12 && e@.take(12) == "Salt error: "@),
        is_hex_salt(salt@) && user_secret@.len() <= 0xffff_ffff ==> r is Ok,
{
    match argon2_derive(user_secret, salt) {
        Ok(k) => Ok(k),
        Err(KdfFailure::Salt(t)) => {
            let mut m = String::from_str("Salt error: ");
            crate::text::push_str(&mut m, t.as_str());
            proof {
                reveal_strlit("Salt error: ");
                assert(("Salt error: "@ + t@).take(12) =~= "Salt error: "@);
            }
            Err(m)
        },
        Err(KdfFailure::Kdf(t)) => {
            let mut m = String::from_str("KDF error: ");
            crate::text::push_str(&mut m, t.as_str());
            Err(m)
        },
        Err(KdfFailure::NoOutput) => Err(String::from_str("KDF output generation failed")),
    }
}

/// The stored form of `data` under `key` with `nonce`: the nonce followed
/// by the encryption of the text's UTF-8 bytes. Refused while the storage
/// is locked (no key).
pub fn encrypt_record(key: Option<&[u8; 32]>, nonce: &[u8; 12], data: &str) -> (r: Result<Vec<u8>, String>)
    ensures
        key is None ==> (r matches Err(e) && e@ == "Storage is locked"@),
        key matches Some(k) ==> match gcm_seal(k@, nonce@, encode_utf8(data@)) {
            Some(ct) => r matches Ok(p) && p@ == nonce@ + ct,
            None => r matches Err(e) && e@ == "Encryption error: "@ + AEAD_ERROR@,
        },
{
    match key {
        None => Err(String::from_str("Storage is locked")),
        Some(k) => match crate::security::seal_secret(k, nonce, data.as_bytes()) {
            Ok(p) => Ok(p),
            Err(_) => {
                let mut m = String::from_str("Encryption error: ");
                crate::text::push_str(&mut m, AEAD_ERROR);
                Err(m)
            },
        },
    }
}

/// The stored form of `data` under a fresh nonce from the operating
/// system's generator (see `encrypt_record`): whatever nonce came back, the
/// result is that nonce followed by the encryption under it, or the
/// encryption error; refused while the storage is locked.
pub fn encrypt_record_fresh(key: Option<&[u8; 32]>, data: &str) -> (r: Result<Vec<u8>, String>)
    ensures
        key is None ==> (r matches Err(e) && e@ == "Storage is locked"@),
        key matches Some(k) ==> exists|nonce: Seq<u8>|
            nonce.len() == 12 && match #[trigger] gcm_seal(k@, nonce, encode_utf8(data@)) {
                Some(ct) => r matches Ok(p) && p@ == nonce + ct,
                None => r matches Err(e) && e@ == "Encryption error: "@ + AEAD_ERROR@,
            },
{
    match key {
        None => Err(String::from_str("Storage is locked")),
        Some(_) => {
            let mut nonce = [0u8; 12];
            os_fill_bytes(&mut nonce);
            let r = encrypt_record(key, &nonce, data);
            assert(nonce@.len() == 12);
            r
        },
    }
}

/// A stored text read back: refused while locked, when shorter than a
/// nonce, when it does not decrypt, or when it decrypts to something other
/// than UTF-8. What `encrypt_record` stored for `data` under the same key
/// reads back as `data`.
pub fn decrypt_record(key: Option<&[u8; 32]>, stored: &[u8]) -> (r: Result<String, String>)
    ensures
        key is None ==> (r matches Err(e) && e@ == "Storage is locked"@),
        key is Some && stored@.len() < 12 ==> (r matches Err(e) && e@ == "Invalid encrypted data"@),
        key matches Some(k) ==> (stored@.len() >= 12 ==> match gcm_open(k@, stored@.take(12), stored@.skip(12)) {
            Some(v) => if valid_utf8(v) {
                r matches Ok(s) && s@ == decode_utf8(v)
            } else {
                r matches Err(e) && e@ == "Invalid UTF-8 after decryption"@
            },
            None => r matches Err(e) && e@ == "Decryption error: "@ + AEAD_ERROR@,
        }),
        key matches Some(k) ==> forall|nonce: Seq<u8>, data: Seq<char>|
            nonce.len() == 12 && #[trigger] gcm_seal(k@, nonce, encode_utf8(data)) is Some && stored@ == nonce + gcm_seal(
                k@,
                nonce,
                encode_utf8(data),
            )->0 ==> (r matches Ok(s) && s@ == data),
{
    match key {
        None => Err(String::from_str("Storage is locked")),
        Some(k) => {
            if stored.len() < 12 {
                return Err(String::from_str("Invalid encrypted data"));
            }
            match crate::security::open_secret(k, stored) {
                Ok(plain) => {
                    let ghost pv = plain@;
                    match crate::text::utf8_string(plain) {
                        Some(s) => {
                            proof {
                                assert forall|nonce: Seq<u8>, data: Seq<char>|
                                    nonce.len() == 12 && #[trigger] gcm_seal(k@, nonce, encode_utf8(data)) is Some
                                        && stored@ == nonce + gcm_seal(k@, nonce, encode_utf8(data))->0 implies s@ == data by {
                                    vstd::utf8::encode_utf8_decode_utf8(data);
                                }
                            }
                            Ok(s)
                        },
                        None => {
                            proof {
                                assert forall|nonce: Seq<u8>, data: Seq<char>|
                                    nonce.len() == 12 && #[trigger] gcm_seal(k@, nonce, encode_utf8(data)) is Some
                                        && stored@ == nonce + gcm_seal(k@, nonce, encode_utf8(data))->0 implies false by {
                                    vstd::utf8::encode_utf8_valid_utf8(data);
                                }
                            }
                            Err(String::from_str("Invalid UTF-8 after decryption"))
                        },
                    }
                },
                Err(_) => {
                    let mut m = String::from_str("Decryption error: ");
                    crate::text::push_str(&mut m, AEAD_ERROR);
                    Err(m)
                },
            }
        },
    }
}

} // verus!
