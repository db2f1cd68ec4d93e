//! Passwords sealed at rest with AES-256 in CBC mode.
//!
//! A sealed password is the standard base64 text of the initialization
//! vector followed by the ciphertext of the password's UTF-8 bytes. The vector
//! is chosen by the caller, freshly for each password, and travels with the
//! ciphertext, so that decryption needs the key alone.

use vstd::prelude::*;
use vstd::slice::slice_subrange;
use vstd::pervasive::unreached;
use vstd::utf8::{decode_utf8, encode_utf8, valid_utf8, encode_utf8_decode_utf8, encode_utf8_valid_utf8};
use crate::encoding::{base64_decode, base64_decoded, base64_encode, base64_encoded};
use crate::secret::{get_secret_key, opt_view, resolved_secret, ConfigError, SecretKey, SECRET_LEN};

verus! {

/// The length in bytes of a CBC initialization vector for AES.
pub const IV_LEN: usize = 16;

/// The AES-256-CBC ciphertext (PKCS#7 padding) of `data` under `key` and `iv`.
pub uninterp spec fn aes256_cbc_encrypted(key: Seq<u8>, iv: Seq<u8>, data: Seq<u8>) -> Seq<u8>;

/// The AES-256-CBC plaintext of `data` under `key` and `iv`, or `None`
/// where `data` is not a validly padded ciphertext under them.
pub uninterp spec fn aes256_cbc_decrypted(key: Seq<u8>, iv: Seq<u8>, data: Seq<u8>) -> Option<Seq<u8>>;

/// The length of a PKCS#7-padded AES ciphertext of `n` bytes.
pub open spec fn padded_len(n: nat) -> nat {
    16 * (n / 16 + 1)
}

#[verifier::external_type_specification]
#[verifier::external_body]
pub struct ExErrorStack(openssl::error::ErrorStack);

/// Relies on `openssl::symm::encrypt` with `Cipher::aes_256_cbc()` and an
/// explicit IV: with a 32-byte key and a 16-byte IV it fails only where
/// memory cannot be had; with padding on, the ciphertext is a function of
/// key, IV and data, padded to the next whole block.
#[verifier::external_body]
fn aes256_cbc_encrypt(key: &[u8], iv: &[u8], data: &[u8]) -> (r: Result<Vec<u8>, openssl::error::ErrorStack>)
    requires
        key@.len() == SECRET_LEN,
        iv@.len() == IV_LEN,
    ensures
        r is Ok,
        r matches Ok(c) ==> c@ == aes256_cbc_encrypted(key@, iv@, data@),
        r matches Ok(c) ==> c@.len() == padded_len(data@.len()),
{
    openssl::symm::encrypt(openssl::symm::Cipher::aes_256_cbc(), key, Some(iv), data)
}

/// Relies on `openssl::symm::decrypt` with `Cipher::aes_256_cbc()` and an
/// explicit IV: a function of key, IV and data that fails, but for want of
/// memory, exactly where the data is not a non-empty whole number of blocks
/// with valid padding; and the inverse of `openssl::symm::encrypt` under the
/// same key and IV.
#[verifier::external_body]
fn aes256_cbc_decrypt(key: &[u8], iv: &[u8], data: &[u8]) -> (r: Result<Vec<u8>, openssl::error::ErrorStack>)
    requires
        key@.len() == SECRET_LEN,
        iv@.len() == IV_LEN,
    ensures
        r matches Ok(v) ==> aes256_cbc_decrypted(key@, iv@, data@) == Some(v@),
        r is Err ==> aes256_cbc_decrypted(key@, iv@, data@) is None,
        r is Ok ==> data@.len() > 0 && data@.len() % 16 == 0,
        r matches Ok(v) ==> forall|p: Seq<u8>| data@ == aes256_cbc_encrypted(key@, iv@, p) ==> v@ == p,
        r is Err ==> forall|p: Seq<u8>| data@ != aes256_cbc_encrypted(key@, iv@, p),
{
    openssl::symm::decrypt(openssl::symm::Cipher::aes_256_cbc(), key, Some(iv), data)
}

/// Relies on `String::from_utf8`: it succeeds exactly on valid UTF-8, and the
/// string then holds the decoded characters.
#[verifier::external_body]
fn string_from_utf8(v: Vec<u8>) -> (r: Option<String>)
    ensures
        r is Some <==> valid_utf8(v@),
        r matches Some(s) ==> s@ == decode_utf8(v@),
{
    String::from_utf8(v).ok()
}

/// Why a sealed password could not be opened.
#[derive(Debug, Clone, Copy, PartialEq, Eq, Structural)]
pub enum DecryptError {
    /// The text is too short to hold an IV, or the cipher rejected it
    /// (bad padding, wrong key).
    Cipher,
    /// The decrypted bytes are not valid UTF-8.
    Utf8,
}

/// The sealed text of password `p` under `key` and `iv`.
pub open spec fn sealed_password(key: Seq<u8>, iv: Seq<u8>, p: Seq<char>) -> Seq<char> {
    base64_encoded(iv + aes256_cbc_encrypted(key, iv, encode_utf8(p)))
}

/// The bytes that a sealed text carries: malformed base64 counts as no bytes.
pub open spec fn sealed_bytes(token: Seq<char>) -> Seq<u8> {
    match base64_decoded(token) {
        Some(b) => b,
        None => Seq::empty(),
    }
}

/// The IV part of the carried bytes.
pub open spec fn sealed_iv(b: Seq<u8>) -> Seq<u8> {
    b.subrange(0, IV_LEN as int)
}

/// The ciphertext part of the carried bytes.
pub open spec fn sealed_cipher(b: Seq<u8>) -> Seq<u8> {
    b.subrange(IV_LEN as int, b.len() as int)
}

/// What the sealed text `token` opens to under `key`: `None` where it does
/// not carry an IV and a validly padded ciphertext, or where the plaintext
/// is not UTF-8.
pub open spec fn opened_password(key: Seq<u8>, token: Seq<char>) -> Option<Seq<char>> {
    let b = sealed_bytes(token);
    if b.len() < IV_LEN {
        None
    } else {
        match aes256_cbc_decrypted(key, sealed_iv(b), sealed_cipher(b)) {
            Some(m) => if valid_utf8(m) {
                Some(decode_utf8(m))
            } else {
                None
            },
            None => None,
        }
    }
}

/// Seals `password` with the secret resolved from `secret_config` and the
/// initialization vector `iv`. Sealing succeeds whenever the secret resolves.
pub fn encrypt_password(password: &str, secret_config: Option<&str>, iv: &[u8]) -> (r: Result<String, ConfigError>)
    requires
        iv@.len() == IV_LEN,
    ensures
        match resolved_secret(opt_view(secret_config)) {
            Ok(k) => r matches Ok(t) && t@ == sealed_password(k, iv@, password@),
            Err(e) => r == Err::<String, ConfigError>(e),
        },
{
    let key = match get_secret_key(secret_config) {
        Ok(k) => k,
        Err(e) => return Err(e),
    };
    let encrypted = match aes256_cbc_encrypt(key.as_bytes(), iv, password.as_bytes()) {
        Ok(c) => c,
        Err(_) => unreached(),
    };
    let mut sealed: Vec<u8> = Vec::new();
    let mut i: usize = 0;
    while i < iv.len()
        invariant
            i <= iv@.len(),
            sealed@ == iv@.subrange(0, i as int),
        decreases iv@.len() - i,
    {
        sealed.push(iv[i]);
        i = i + 1;
    }
    let mut j: usize = 0;
    while j < encrypted.len()
        invariant
            j <= encrypted@.len(),
            sealed@ == iv@ + encrypted@.subrange(0, j as int),
        decreases encrypted@.len() - j,
    {
        sealed.push(encrypted[j]);
        j = j + 1;
    }
    assert(iv@.subrange(0, iv@.len() as int) == iv@);
    assert(encrypted@.subrange(0, encrypted@.len() as int) == encrypted@);
    Ok(base64_encode(sealed.as_slice()))
}

/// Opens a sealed password with `secret_key`. Text that is not valid base64
/// is read as no bytes at all, and is then refused for want of an IV. A text
/// that [`encrypt_password`] sealed under the same key opens to the password.
pub fn decrypt_password(encrypted_password: &str, secret_key: &SecretKey) -> (r: Result<String, DecryptError>)
    ensures
        match opened_password(secret_key@, encrypted_password@) {
            Some(p) => r matches Ok(s) && s@ == p,
            None => r is Err,
        },
        r matches Err(DecryptError::Utf8) ==> ({
            let b = sealed_bytes(encrypted_password@);
            b.len() >= IV_LEN && (aes256_cbc_decrypted(secret_key@, sealed_iv(b), sealed_cipher(b)) matches Some(m)
                && !valid_utf8(m))
        }),
        r matches Err(DecryptError::Cipher) ==> ({
            let b = sealed_bytes(encrypted_password@);
            b.len() < IV_LEN || aes256_cbc_decrypted(secret_key@, sealed_iv(b), sealed_cipher(b)) is None
        }),
        sealed_bytes(encrypted_password@).len() < IV_LEN ==> r == Err::<String, DecryptError>(DecryptError::Cipher),
        sealed_bytes(encrypted_password@).len() >= IV_LEN ==> ({
            let n = sealed_cipher(sealed_bytes(encrypted_password@)).len();
            n == 0 || n % 16 != 0
        }) ==> r == Err::<String, DecryptError>(DecryptError::Cipher),
        forall|iv: Seq<u8>, p: Seq<char>|
            iv.len() == IV_LEN && encrypted_password@ == #[trigger] sealed_password(secret_key@, iv, p)
            ==> (r matches Ok(s) && s@ == p),
        forall|iv: Seq<u8>, p: Seq<char>|
            iv.len() == IV_LEN && encrypted_password@ == #[trigger] sealed_password(secret_key@, iv, p)
            ==> opened_password(secret_key@, encrypted_password@) == Some(p),
{
    let bytes = match base64_decode(encrypted_password) {
        Ok(b) => b,
        Err(_) => Vec::new(),
    };
    if bytes.len() < IV_LEN {
        return Err(DecryptError::Cipher);
    }
    let key = secret_key.as_bytes();
    let iv = slice_subrange(bytes.as_slice(), 0, IV_LEN);
    let data = slice_subrange(bytes.as_slice(), IV_LEN, bytes.len());
    proof {
        assert forall|iv0: Seq<u8>, p: Seq<char>|
            iv0.len() == IV_LEN && encrypted_password@ == #[trigger] sealed_password(secret_key@, iv0, p)
            implies iv@ == iv0 && data@ == aes256_cbc_encrypted(secret_key@, iv0, encode_utf8(p)) by {
            let c = aes256_cbc_encrypted(secret_key@, iv0, encode_utf8(p));
            assert(bytes@ == iv0 + c);
            assert(bytes@.subrange(0, IV_LEN as int) =~= iv0);
            assert(bytes@.subrange(IV_LEN as int, bytes@.len() as int) =~= c);
        }
    }
    let plain = match aes256_cbc_decrypt(key, iv, data) {
        Ok(v) => v,
        Err(_) => return Err(DecryptError::Cipher),
    };
    proof {
        assert forall|iv0: Seq<u8>, p: Seq<char>|
            iv0.len() == IV_LEN && encrypted_password@ == #[trigger] sealed_password(secret_key@, iv0, p)
            implies plain@ == encode_utf8(p) by {
        }
    }
    match string_from_utf8(plain) {
        Some(s) => {
            proof {
                assert forall|iv0: Seq<u8>, p: Seq<char>|
                    iv0.len() == IV_LEN && encrypted_password@ == #[trigger] sealed_password(secret_key@, iv0, p)
                    implies s@ == p by {
                    encode_utf8_decode_utf8(p);
                }
            }
            Ok(s)
        },
        None => {
            proof {
                assert forall|iv0: Seq<u8>, p: Seq<char>|
                    iv0.len() == IV_LEN && encrypted_password@ == #[trigger] sealed_password(secret_key@, iv0, p)
                    implies false by {
                    encode_utf8_valid_utf8(p);
                }
            }
            Err(DecryptError::Utf8)
        },
    }
}

} // verus!
