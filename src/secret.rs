//! Resolution of the process-wide secret material from its configured,
//! base64-encoded value.

use vstd::prelude::*;
use crate::encoding::{base64_decode, base64_decoded};

verus! {

/// The length in bytes of the secret material.
pub const SECRET_LEN: usize = 32;

/// Why the configured secret cannot be used.
#[derive(Debug, Clone, Copy, PartialEq, Eq, Structural)]
pub enum ConfigError {
    /// No value is configured.
    SecretNotSet,
    /// The value is not valid standard base64.
    SecretMalformed,
    /// The value decodes to a byte count other than [`SECRET_LEN`].
    SecretWrongLength,
}

/// Secret material that has passed validation: exactly [`SECRET_LEN`] bytes.
/// The only way to obtain one is [`get_secret_key`].
pub struct SecretKey {
    bytes: Vec<u8>,
}

impl View for SecretKey {
    type V = Seq<u8>;

    closed spec fn view(&self) -> Seq<u8> {
        self.bytes@
    }
}

impl SecretKey {
    #[verifier::type_invariant]
    spec fn inv(self) -> bool {
        self.bytes@.len() == SECRET_LEN
    }

    /// The key bytes.
    pub fn as_bytes(&self) -> (r: &[u8])
        ensures
            r@ == self@,
            r@.len() == SECRET_LEN,
    {
        proof {
            use_type_invariant(self);
        }
        self.bytes.as_slice()
    }
}

/// What resolving a configured value gives: the decoded bytes, or the reason
/// they cannot serve as the secret.
pub open spec fn resolved_secret(config: Option<Seq<char>>) -> Result<Seq<u8>, ConfigError> {
    match config {
        None => Err(ConfigError::SecretNotSet),
        Some(text) => match base64_decoded(text) {
            None => Err(ConfigError::SecretMalformed),
            Some(bytes) => if bytes.len() == SECRET_LEN {
                Ok(bytes)
            } else {
                Err(ConfigError::SecretWrongLength)
            },
        },
    }
}

/// The view of an optional configured text.
pub open spec fn opt_view(config: Option<&str>) -> Option<Seq<char>> {
    match config {
        None => None,
        Some(s) => Some(s@),
    }
}

/// Resolves the secret material from the configured value `config` (absent
/// where the setting is not present): decodes it as standard base64 and
/// accepts it only if it is exactly [`SECRET_LEN`] bytes long.
pub fn get_secret_key(config: Option<&str>) -> (r: Result<SecretKey, ConfigError>)
    ensures
        match r {
            Ok(k) => resolved_secret(opt_view(config)) == Ok::<Seq<u8>, ConfigError>(k@),
            Err(e) => resolved_secret(opt_view(config)) == Err::<Seq<u8>, ConfigError>(e),
        },
{
    match config {
        None => Err(ConfigError::SecretNotSet),
        Some(text) => match base64_decode(text) {
            Err(_) => Err(ConfigError::SecretMalformed),
            Ok(bytes) => {
                if bytes.len() == SECRET_LEN {
                    Ok(SecretKey { bytes })
                } else {
                    Err(ConfigError::SecretWrongLength)
                }
            },
        },
    }
}

/// A configured value whose decoding is not [`SECRET_LEN`] bytes long is
/// refused with [`ConfigError::SecretWrongLength`], never accepted as a key.
pub proof fn lemma_wrong_length_refused(text: Seq<char>, bytes: Seq<u8>)
    requires
        base64_decoded(text) == Some(bytes),
        bytes.len() != SECRET_LEN,
    ensures
        resolved_secret(Some(text)) == Err::<Seq<u8>, ConfigError>(ConfigError::SecretWrongLength),
{
}

} // verus!
