//! Token vault: authenticated symmetric encryption of provider tokens at
//! rest, and decoding of the master key supplied at process start.

use vstd::prelude::*;

use crate::errors::{ConfigError, CryptoError, DecryptionError};

verus! {

/// What AES-256-GCM decryption yields for a key, ciphertext and nonce:
/// the plaintext when the authentication tag verifies, nothing otherwise.
pub uninterp spec fn gcm_open(key: Seq<u8>, ciphertext: Seq<u8>, nonce: Seq<u8>) -> Option<
    Seq<u8>,
>;

/// The standard padded base64 text of a byte string.
pub uninterp spec fn b64_of(bytes: Seq<u8>) -> Seq<char>;

/// What standard padded base64 decoding yields for a text: the bytes, or
/// nothing when the text is not valid base64.
pub uninterp spec fn b64_decode_of(s: Seq<char>) -> Option<Seq<u8>>;

/// Relies on getrandom::getrandom: fills the buffer with random bytes from
/// the operating system. Only the length of the result is promised.
#[verifier::external_body]
fn fresh_nonce() -> (r: Result<Vec<u8>, CryptoError>)
    ensures
        r matches Ok(v) ==> v@.len() == 12,
{
    let mut buf = [0u8; 12];
    match getrandom::getrandom(&mut buf) {
        Ok(()) => Ok(buf.to_vec()),
        Err(_) => Err(CryptoError::RandomSource),
    }
}

/// Relies on aes_gcm (Aes256Gcm, Aead::encrypt): authenticated encryption
/// with a 256-bit key and 96-bit nonce; decrypting the result with the same
/// key and nonce yields the plaintext again. The ciphertext is the
/// plaintext's length plus the appended 128-bit tag.
#[verifier::external_body]
fn aead_seal(key: &[u8], nonce: &[u8], plaintext: &[u8]) -> (r: Result<Vec<u8>, CryptoError>)
    requires
        key@.len() == 32,
        nonce@.len() == 12,
    ensures
        r matches Ok(ct) ==> gcm_open(key@, ct@, nonce@) == Some(plaintext@) && ct@.len()
            == plaintext@.len() + 16,
{
    let k = aes_gcm::Key::<aes_gcm::Aes256Gcm>::from_slice(key);
    let cipher = <aes_gcm::Aes256Gcm as aes_gcm::KeyInit>::new(k);
    let n = aes_gcm::Nonce::from_slice(nonce);
    match aes_gcm::aead::Aead::encrypt(&cipher, n, plaintext) {
        Ok(ct) => Ok(ct),
        Err(_) => Err(CryptoError::Seal),
    }
}

/// Relies on aes_gcm (Aes256Gcm, Aead::decrypt): returns the plaintext
/// exactly when the authentication tag verifies for this key, ciphertext and
/// nonce, and fails otherwise.
#[verifier::external_body]
fn aead_open(key: &[u8], ciphertext: &[u8], nonce: &[u8]) -> (r: Result<Vec<u8>, DecryptionError>)
    requires
        key@.len() == 32,
        nonce@.len() == 12,
    ensures
        r matches Ok(p) ==> gcm_open(key@, ciphertext@, nonce@) == Some(p@),
        r is Err ==> gcm_open(key@, ciphertext@, nonce@) is None,
{
    let k = aes_gcm::Key::<aes_gcm::Aes256Gcm>::from_slice(key);
    let cipher = <aes_gcm::Aes256Gcm as aes_gcm::KeyInit>::new(k);
    let n = aes_gcm::Nonce::from_slice(nonce);
    match aes_gcm::aead::Aead::decrypt(&cipher, n, ciphertext) {
        Ok(p) => Ok(p),
        Err(_) => Err(DecryptionError),
    }
}

/// Relies on base64 (STANDARD engine, Engine::encode): the padded standard
/// base64 text of the input — four characters per three-byte group, the
/// last group padded — and decoding that text yields the input again.
#[verifier::external_body]
pub(crate) fn b64_encode(bytes: &[u8]) -> (r: String)
    ensures
        r@ == b64_of(bytes@),
        b64_decode_of(r@) == Some(bytes@),
        r@.len() == 4 * ((bytes@.len() + 2) / 3),
{
    base64::Engine::encode(&base64::engine::general_purpose::STANDARD, bytes)
}

/// Relies on base64 (STANDARD engine, Engine::decode): yields the bytes a
/// valid padded standard base64 text denotes, and nothing otherwise.
#[verifier::external_body]
fn b64_decode(s: &str) -> (r: Option<Vec<u8>>)
    ensures
        r matches Some(v) ==> b64_decode_of(s@) == Some(v@),
        r is None ==> b64_decode_of(s@) is None,
{
    match base64::Engine::decode(&base64::engine::general_purpose::STANDARD, s) {
        Ok(v) => Some(v),
        Err(_) => None,
    }
}

/// The key text with an optional `base64:` marker removed.
pub open spec fn strip_key_prefix(s: Seq<char>) -> Seq<char> {
    if s.len() >= 7 && s.subrange(0, 7) == "base64:"@ {
        s.subrange(7, s.len() as int)
    } else {
        s
    }
}

/// Decode the master key supplied at process start: an optional `base64:`
/// marker followed by the padded standard base64 text of exactly 32 bytes.
pub fn parse_master_key(encoded: &str) -> (r: Result<Vec<u8>, ConfigError>)
    ensures
        match r {
            Ok(k) => b64_decode_of(strip_key_prefix(encoded@)) == Some(k@) && k@.len() == 32,
            Err(ConfigError::MasterKeyEncoding) => b64_decode_of(strip_key_prefix(encoded@))
                is None,
            Err(ConfigError::MasterKeyLength) => (b64_decode_of(strip_key_prefix(encoded@))
                matches Some(k) && k.len() != 32),
            Err(_) => false,
        },
{
    proof {
        reveal_strlit("base64:");
    }
    let n = encoded.unicode_len();
    let has_marker = n >= 7 && encoded.get_char(0) == 'b' && encoded.get_char(1) == 'a'
        && encoded.get_char(2) == 's' && encoded.get_char(3) == 'e' && encoded.get_char(4) == '6'
        && encoded.get_char(5) == '4' && encoded.get_char(6) == ':';
    let tail: &str = if has_marker {
        proof {
            assert(encoded@.subrange(0, 7) =~= "base64:"@);
        }
        encoded.substring_char(7, n)
    } else {
        proof {
            if encoded@.len() >= 7 && encoded@.subrange(0, 7) == "base64:"@ {
                assert(encoded@.subrange(0, 7)[0] == 'b');
                assert(encoded@.subrange(0, 7)[1] == 'a');
                assert(encoded@.subrange(0, 7)[2] == 's');
                assert(encoded@.subrange(0, 7)[3] == 'e');
                assert(encoded@.subrange(0, 7)[4] == '6');
                assert(encoded@.subrange(0, 7)[5] == '4');
                assert(encoded@.subrange(0, 7)[6] == ':');
            }
        }
        encoded
    };
    proof {
        assert(tail@ == strip_key_prefix(encoded@));
    }
    match b64_decode(tail) {
        Some(bytes) => {
            if bytes.len() == 32 {
                Ok(bytes)
            } else {
                Err(ConfigError::MasterKeyLength)
            }
        },
        None => Err(ConfigError::MasterKeyEncoding),
    }
}

/// Encrypt one provider token under the master key with a fresh 96-bit
/// nonce, never reused: the ciphertext — the plaintext's length plus the
/// 128-bit tag — and the nonce it was sealed with.
pub fn encrypt(master_key: &[u8], plaintext: &[u8]) -> (r: Result<(Vec<u8>, Vec<u8>), CryptoError>)
    requires
        master_key@.len() == 32,
    ensures
        r matches Ok(p) ==> p.1@.len() == 12 && gcm_open(master_key@, p.0@, p.1@) == Some(
            plaintext@,
        ) && p.0@.len() == plaintext@.len() + 16,
{
    let nonce = fresh_nonce()?;
    let ciphertext = aead_seal(master_key, nonce.as_slice(), plaintext)?;
    Ok((ciphertext, nonce))
}

/// Decrypt one stored provider token; fails with `DecryptionError` exactly
/// when the authentication tag does not verify (tamper, wrong key, or
/// corrupted storage).
pub fn decrypt(master_key: &[u8], ciphertext: &[u8], nonce_bytes: &[u8]) -> (r: Result<
    Vec<u8>,
    DecryptionError,
>)
    requires
        master_key@.len() == 32,
        nonce_bytes@.len() == 12,
    ensures
        r matches Ok(p) ==> gcm_open(master_key@, ciphertext@, nonce_bytes@) == Some(p@),
        r is Err ==> gcm_open(master_key@, ciphertext@, nonce_bytes@) is None,
{
    aead_open(master_key, ciphertext, nonce_bytes)
}

/// Law: decrypting what `encrypt` produced, with the same master key and
/// the nonce it returned, gives back exactly the plaintext that was sealed.
/// The first premise is what `encrypt` ensures of its output; the other two
/// are what `decrypt` ensures of any result it may return for that output;
/// together they force that result to carry the sealed plaintext.
pub proof fn lemma_vault_round_trip(
    key: Seq<u8>,
    m: Seq<u8>,
    ct: Seq<u8>,
    nonce: Seq<u8>,
    r: Result<Vec<u8>, DecryptionError>,
)
    requires
        gcm_open(key, ct, nonce) == Some(m),
        r matches Ok(p) ==> gcm_open(key, ct, nonce) == Some(p@),
        r is Err ==> gcm_open(key, ct, nonce) is None,
    ensures
        r matches Ok(p) && p@ == m,
{
}

} // verus!
