//! Sealing and unsealing of a single text value: a fresh 12-byte nonce is
//! prepended to the AES-256-GCM ciphertext and tag, and the whole payload is
//! carried as base64 text. Unsealing reverses the encoding, splits the nonce
//! off and verifies and decrypts the rest.

use crate::codec::{b64_decode_exec, b64_decode_of, b64_encode, b64_encode_exec, utf8_decode_exec};
use ring::aead::{Aad, LessSafeKey, Nonce, UnboundKey, AES_256_GCM};
use ring::rand::{SecureRandom, SystemRandom};
use vstd::prelude::*;
use vstd::utf8::{decode_utf8, encode_utf8, encode_utf8_decode_utf8, encode_utf8_valid_utf8,
    valid_utf8};

verus! {

/// Number of bytes of the nonce that prefixes every sealed payload.
pub const NONCE_LEN: usize = 12;

/// Number of bytes the AEAD transform appends as its authentication tag.
pub const TAG_LEN: usize = 16;

/// Number of bytes of a secret key.
pub const KEY_LEN: usize = 32;

/// Why a sealing operation failed. Sealing draws on the random source and on
/// the AEAD implementation; each fallible step reports its own failure.
#[derive(Clone, Copy, Debug, PartialEq, Eq, Structural)]
pub enum SealError {
    /// The random source would not fill a nonce.
    NonceUnavailable,
    /// The AEAD implementation rejected the key.
    KeyRejected,
    /// The AEAD implementation rejected the encryption request.
    EncryptionFailed,
}

/// Why an unsealing operation failed.
#[derive(Clone, Copy, Debug, PartialEq, Eq, Structural)]
pub enum UnsealError {
    /// The text is not valid base64.
    BadEncoding,
    /// The decoded payload is no longer than a nonce, so it cannot hold a
    /// ciphertext.
    Malformed,
    /// The AEAD verification failed: tampering, a wrong key, or a corrupted
    /// or truncated ciphertext, indistinguishable by design.
    AuthenticationFailed,
    /// The decrypted bytes are not valid UTF-8 text.
    InvalidUtf8,
}

/// What AES-256-GCM sealing produces over (key, nonce, plaintext, empty
/// associated data): the ciphertext with the 16-byte tag appended. The result
/// is a function of the three arguments alone.
pub uninterp spec fn aead_seal_of(key: Seq<u8>, nonce: Seq<u8>, plaintext: Seq<u8>) -> Seq<u8>;

/// What AES-256-GCM opening yields on a sealed region: the plaintext where
/// key, nonce and tag agree, `None` where verification fails. A function of
/// the three arguments alone.
pub uninterp spec fn aead_open_of(key: Seq<u8>, nonce: Seq<u8>, sealed: Seq<u8>) -> Option<Seq<u8>>;

/// The stored form of one sealing: the nonce, then the ciphertext and tag,
/// all base64 encoded.
pub open spec fn seal_encoding(key: Seq<u8>, nonce: Seq<u8>, plaintext: Seq<char>) -> Seq<char> {
    b64_encode(nonce + aead_seal_of(key, nonce, encode_utf8(plaintext)))
}

/// The exact outcome of unsealing a text under a key: decode the base64,
/// split the nonce off the front, verify and decrypt the rest, and decode the
/// plaintext as UTF-8; the first step that fails names the error.
pub open spec fn unseal_spec(key: Seq<u8>, value: Seq<char>) -> Result<Seq<char>, UnsealError> {
    match b64_decode_of(value) {
        Option::None => Result::Err(UnsealError::BadEncoding),
        Option::Some(data) => if data.len() <= 12 {
            Result::Err(UnsealError::Malformed)
        } else {
            match aead_open_of(key, data.take(12), data.skip(12)) {
                Option::None => Result::Err(UnsealError::AuthenticationFailed),
                Option::Some(plain) => if valid_utf8(plain) {
                    Result::Ok(decode_utf8(plain))
                } else {
                    Result::Err(UnsealError::InvalidUtf8)
                },
            }
        },
    }
}

/// Relies on ring's `SystemRandom` (`SecureRandom::fill`) to fill 12 bytes
/// from the system's random source. Nothing is stated of the bytes
/// themselves: they are random.
#[verifier::external_body]
fn random_nonce() -> (r: Result<Vec<u8>, SealError>)
    ensures
        r matches Ok(n) ==> n@.len() == 12,
{
    let mut nonce = vec![0u8; 12];
    match SystemRandom::new().fill(&mut nonce) {
        Ok(()) => Ok(nonce),
        Err(_) => Err(SealError::NonceUnavailable),
    }
}

/// Relies on ring's AES-256-GCM: `UnboundKey::new` accepts a 32-byte key, and
/// `LessSafeKey::seal_in_place_append_tag` encrypts the plaintext in place
/// under the 12-byte nonce with empty associated data and appends the 16-byte
/// tag. The result is a function of key, nonce and plaintext alone, and
/// opening it under the same key and nonce yields the plaintext back.
#[verifier::external_body]
fn aead_seal_exec(key: &[u8], nonce: &[u8], plaintext: &[u8]) -> (r: Result<Vec<u8>, SealError>)
    requires
        key@.len() == 32,
        nonce@.len() == 12,
    ensures
        r matches Ok(c) ==> {
            &&& c@ == aead_seal_of(key@, nonce@, plaintext@)
            &&& c@.len() == plaintext@.len() + 16
            &&& aead_open_of(key@, nonce@, c@) == Some(plaintext@)
        },
{
    let unbound = UnboundKey::new(&AES_256_GCM, key).map_err(|_| SealError::KeyRejected)?;
    let sealing_key = LessSafeKey::new(unbound);
    let n = Nonce::try_assume_unique_for_key(nonce).map_err(|_| SealError::EncryptionFailed)?;
    let mut buf = plaintext.to_vec();
    sealing_key
        .seal_in_place_append_tag(n, Aad::empty(), &mut buf)
        .map_err(|_| SealError::EncryptionFailed)?;
    Ok(buf)
}

/// Relies on ring's AES-256-GCM: `LessSafeKey::open_in_place` verifies the
/// tag and decrypts in place under the 12-byte nonce with empty associated
/// data; whether it succeeds, and what plaintext it yields, is a function of
/// key, nonce and sealed bytes alone.
#[verifier::external_body]
fn aead_open_exec(key: &[u8], nonce: &[u8], sealed: &[u8]) -> (r: Option<Vec<u8>>)
    requires
        key@.len() == 32,
        nonce@.len() == 12,
    ensures
        r matches Some(p) ==> aead_open_of(key@, nonce@, sealed@) == Some(p@),
        r is None ==> aead_open_of(key@, nonce@, sealed@) is None,
{
    let unbound = match UnboundKey::new(&AES_256_GCM, key) {
        Ok(k) => k,
        Err(_) => return None,
    };
    let opening_key = LessSafeKey::new(unbound);
    let n = match Nonce::try_assume_unique_for_key(nonce) {
        Ok(n) => n,
        Err(_) => return None,
    };
    let mut buf = sealed.to_vec();
    match opening_key.open_in_place(n, Aad::empty(), &mut buf) {
        Ok(plain) => Some(plain.to_vec()),
        Err(_) => None,
    }
}

/// Seal a plaintext under a 32-byte key: draw a fresh random nonce, encrypt
/// and authenticate the plaintext's UTF-8 bytes, and encode nonce, ciphertext
/// and tag as base64 text. On success the result unseals, under the same key,
/// to exactly the plaintext that went in.
pub fn seal(plaintext: &str, key: &[u8]) -> (r: Result<String, SealError>)
    requires
        key@.len() == 32,
    ensures
        r matches Ok(enc) ==> {
            &&& unseal_spec(key@, enc@) == Result::<Seq<char>, UnsealError>::Ok(plaintext@)
            &&& exists|nonce: Seq<u8>|
                nonce.len() == 12 && enc@ == #[trigger] seal_encoding(key@, nonce, plaintext@)
        },
{
    let nonce = match random_nonce() {
        Ok(n) => n,
        Err(e) => return Err(e),
    };
    let ghost nonce_seq = nonce@;
    let pt = plaintext.as_bytes();
    let cipher = match aead_seal_exec(key, nonce.as_slice(), pt) {
        Ok(c) => c,
        Err(e) => return Err(e),
    };
    let mut payload = nonce;
    payload.extend_from_slice(cipher.as_slice());
    let enc = b64_encode_exec(payload.as_slice());
    proof {
        assert(payload@ =~= nonce_seq + cipher@);
        assert(pt@ == encode_utf8(plaintext@));
        encode_utf8_valid_utf8(plaintext@);
        encode_utf8_decode_utf8(plaintext@);
        assert(payload@.take(12) =~= nonce_seq);
        assert(payload@.skip(12) =~= cipher@);
        assert(enc@ == seal_encoding(key@, nonce_seq, plaintext@));
    }
    Ok(enc)
}

/// Unseal a base64 text under a 32-byte key. The result, success or the exact
/// error, is what `unseal_spec` says of the text and key: `BadEncoding` where
/// the base64 is rejected, `Malformed` where the payload is no longer than a
/// nonce, `AuthenticationFailed` where AEAD verification fails, `InvalidUtf8`
/// where the decrypted bytes are not text.
pub fn unseal(value: &str, key: &[u8]) -> (r: Result<String, UnsealError>)
    requires
        key@.len() == 32,
    ensures
        r matches Ok(p) ==> unseal_spec(key@, value@) == Result::<Seq<char>, UnsealError>::Ok(p@),
        r matches Err(e) ==> unseal_spec(key@, value@) == Result::<Seq<char>, UnsealError>::Err(e),
{
    let data = match b64_decode_exec(value) {
        Some(d) => d,
        None => return Err(UnsealError::BadEncoding),
    };
    if data.len() <= NONCE_LEN {
        return Err(UnsealError::Malformed);
    }
    let nonce = vstd::slice::slice_subrange(data.as_slice(), 0, NONCE_LEN);
    let sealed = vstd::slice::slice_subrange(data.as_slice(), NONCE_LEN, data.len());
    proof {
        assert(nonce@ =~= data@.take(12));
        assert(sealed@ =~= data@.skip(12));
    }
    let plain = match aead_open_exec(key, nonce, sealed) {
        Some(p) => p,
        None => return Err(UnsealError::AuthenticationFailed),
    };
    match utf8_decode_exec(plain) {
        Some(s) => Ok(s),
        None => Err(UnsealError::InvalidUtf8),
    }
}

/// Round trip: whatever `seal` produces, `unseal` under the same key hands
/// the original plaintext back; a failure can only come from sealing itself,
/// never from unsealing what was just sealed.
pub fn seal_then_unseal(plaintext: &str, key: &[u8]) -> (r: Result<String, SealError>)
    requires
        key@.len() == 32,
    ensures
        r matches Ok(p) ==> p@ == plaintext@,
{
    let enc = match seal(plaintext, key) {
        Ok(e) => e,
        Err(e) => return Err(e),
    };
    match unseal(enc.as_str(), key) {
        Ok(p) => Ok(p),
        Err(_) => vstd::pervasive::unreached(),
    }
}

} // verus!
