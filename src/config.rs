//! The gateway's process-wide settings: the Ed25519 signing key, given as
//! base64 text, and the secret shared with the verification service.
use vstd::prelude::*;

verus! {

/// What the standard base64 engine (RFC 4648 alphabet, with padding)
/// decodes `text` to, or `None` where it rejects the text.
pub uninterp spec fn base64_standard_decoding(text: Seq<char>) -> Option<Seq<u8>>;

/// Relies on base64's `Engine::decode` with the `STANDARD` engine: the
/// outcome depends on the text alone.
#[verifier::external_body]
fn base64_decode(text: &str) -> (r: Option<Vec<u8>>)
    ensures
        r matches Some(v) ==> base64_standard_decoding(text@) == Some(v@),
        r is None ==> base64_standard_decoding(text@) is None,
{
    base64::Engine::decode(&base64::engine::general_purpose::STANDARD, text).ok()
}

/// Why the settings cannot serve a request. Each is a server fault.
#[derive(Debug, Clone, Copy, PartialEq, Eq, Structural)]
pub enum ConfigError {
    /// The signing key is empty or absent.
    SigningKeyNotSet,
    /// The signing key is not valid base64.
    SigningKeyInvalid,
    /// The signing key does not decode to exactly 32 bytes.
    SigningKeyLength,
    /// The verification secret is empty or absent.
    VerificationSecretNotSet,
}

/// The settings, checked: a 32-byte signing key and a non-empty secret.
pub struct GatewayConfig {
    signing_key: [u8; 32],
    verification_secret: String,
}

/// The bytes of a decoded key, if there are any.
pub open spec fn bytes_view(decoded: Option<Vec<u8>>) -> Option<Seq<u8>> {
    match decoded {
        Some(v) => Some(v@),
        None => None,
    }
}

/// The outcome of checking the settings once the key text has been decoded.
pub open spec fn decoded_config_outcome(
    decoded_key: Option<Seq<u8>>,
    verification_secret: Seq<char>,
) -> Result<(Seq<u8>, Seq<char>), ConfigError> {
    match decoded_key {
        None => Err(ConfigError::SigningKeyInvalid),
        Some(key) => if key.len() != 32 {
            Err(ConfigError::SigningKeyLength)
        } else if verification_secret.len() == 0 {
            Err(ConfigError::VerificationSecretNotSet)
        } else {
            Ok((key, verification_secret))
        },
    }
}

/// The outcome of checking the settings as they are given: the key's base64
/// text and the verification secret.
pub open spec fn config_outcome(encoded_key: Seq<char>, verification_secret: Seq<char>) -> Result<
    (Seq<u8>, Seq<char>),
    ConfigError,
> {
    if encoded_key.len() == 0 {
        Err(ConfigError::SigningKeyNotSet)
    } else {
        decoded_config_outcome(base64_standard_decoding(encoded_key), verification_secret)
    }
}

impl GatewayConfig {
    /// The 32-byte signing key.
    pub closed spec fn spec_signing_key(&self) -> Seq<u8> {
        self.signing_key@
    }

    /// The secret shared with the verification service.
    pub closed spec fn spec_verification_secret(&self) -> Seq<char> {
        self.verification_secret@
    }

    /// A checked configuration holds a 32-byte key and a non-empty secret.
    pub open spec fn wf(&self) -> bool {
        &&& self.spec_signing_key().len() == 32
        &&& self.spec_verification_secret().len() > 0
    }

    /// Checks the settings once the key text has been decoded (`None` where
    /// it was not valid base64).
    pub fn from_decoded(decoded_key: Option<Vec<u8>>, verification_secret: &str) -> (r: Result<
        GatewayConfig,
        ConfigError,
    >)
        ensures
            r matches Ok(c) ==> c.wf(),
            match (r, decoded_config_outcome(bytes_view(decoded_key), verification_secret@)) {
                (Ok(c), Ok(parts)) => c.spec_signing_key() == parts.0
                    && c.spec_verification_secret() == parts.1,
                (Err(e), Err(f)) => e == f,
                _ => false,
            },
    {
        let key = match decoded_key {
            None => {
                return Err(ConfigError::SigningKeyInvalid);
            },
            Some(key) => key,
        };
        if key.len() != 32 {
            return Err(ConfigError::SigningKeyLength);
        }
        if verification_secret.is_empty() {
            return Err(ConfigError::VerificationSecretNotSet);
        }
        let mut signing_key: [u8; 32] = [0u8; 32];
        let mut i: usize = 0;
        while i < 32
            invariant
                key@.len() == 32,
                i <= 32,
                forall|j: int| 0 <= j < i ==> signing_key@[j] == key@[j],
            decreases 32 - i,
        {
            signing_key[i] = key[i];
            i = i + 1;
        }
        assert(signing_key@ =~= key@);
        Ok(GatewayConfig { signing_key, verification_secret: verification_secret.to_owned() })
    }

    /// Checks the settings as they are given: the signing key as base64 text
    /// and the verification secret.
    pub fn from_settings(encoded_key: &str, verification_secret: &str) -> (r: Result<
        GatewayConfig,
        ConfigError,
    >)
        ensures
            r matches Ok(c) ==> c.wf(),
            match (r, config_outcome(encoded_key@, verification_secret@)) {
                (Ok(c), Ok(parts)) => c.spec_signing_key() == parts.0
                    && c.spec_verification_secret() == parts.1,
                (Err(e), Err(f)) => e == f,
                _ => false,
            },
    {
        if encoded_key.is_empty() {
            return Err(ConfigError::SigningKeyNotSet);
        }
        let decoded = base64_decode(encoded_key);
        GatewayConfig::from_decoded(decoded, verification_secret)
    }

    /// The 32-byte signing key.
    pub fn signing_key(&self) -> (r: &[u8; 32])
        ensures
            r@ == self.spec_signing_key(),
    {
        &self.signing_key
    }

    /// The secret shared with the verification service.
    pub fn verification_secret(&self) -> (r: &str)
        ensures
            r@ == self.spec_verification_secret(),
    {
        self.verification_secret.as_str()
    }
}

} // verus!
