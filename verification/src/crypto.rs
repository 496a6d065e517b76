use vstd::prelude::*;
use aes_gcm::aead::Aead;
use aes_gcm::aead::Generate;
use aes_gcm::aead::KeyInit;
use base64::Engine;
use sha2::Digest;
use crate::textutil::str_eq;

verus! {

/// What decrypting a sealed token yields for a given fingerprint: a
/// function of the fingerprint and the sealed text alone; `None` where the
/// text is malformed or sealed under another key.
pub uninterp spec fn decrypt_of(fingerprint: Seq<char>, encrypted: Seq<char>) -> Option<
    Seq<char>,
>;

/// A token cipher bound to one device fingerprint; the key is derived
/// afresh from the fingerprint at each use.
pub struct TokenEncryption {
    fingerprint: String,
}

impl TokenEncryption {
    /// The fingerprint this cipher is bound to.
    pub closed spec fn spec_fingerprint(self) -> Seq<char> {
        self.fingerprint@
    }

    /// A cipher bound to the given device fingerprint.
    pub fn from_device_fingerprint(device_id: &str) -> (r: TokenEncryption)
        ensures
            r.spec_fingerprint() == device_id@,
    {
        TokenEncryption { fingerprint: crate::store::str_of(device_id) }
    }

    /// Relies on sha2's Sha256, aes_gcm's encrypt with a fresh random nonce
    /// (drawn fallibly, so a failed system random source is an error, not a
    /// panic) and base64's standard engine: the sealed text, prefixed with
    /// its nonce. The output is random, but unsealing it with the same
    /// fingerprint gives the token back, which is aes_gcm's round-trip
    /// guarantee.
    #[verifier::external_body]
    pub fn encrypt_token(&self, token: &str) -> (r: Result<String, String>)
        ensures
            r matches Ok(c) ==> decrypt_of(self.spec_fingerprint(), c@) == Some(token@),
    {
        let key = sha2::Sha256::new().chain_update(b"liidi-token-key-salt-v1")
            .chain_update(self.fingerprint.as_bytes()).finalize();
        let nonce = aes_gcm::aead::Nonce::<aes_gcm::Aes256Gcm>::try_generate()
            .map_err(|e| e.to_string())?;
        let ciphertext = aes_gcm::Aes256Gcm::new(&key).encrypt(&nonce, token.as_bytes())
            .map_err(|e| e.to_string())?;
        let mut result = nonce.to_vec();
        result.extend_from_slice(&ciphertext);
        Ok(base64::engine::general_purpose::STANDARD.encode(result))
    }

    /// Relies on base64's standard engine and aes_gcm's decrypt: unseals a
    /// nonce-prefixed sealed token. The result depends on the fingerprint
    /// and the sealed text alone.
    #[verifier::external_body]
    pub fn decrypt_token(&self, encrypted: &str) -> (r: Result<String, String>)
        ensures
            match (r, decrypt_of(self.spec_fingerprint(), encrypted@)) {
                (Ok(s), Some(v)) => s@ == v,
                (Err(_), None) => true,
                _ => false,
            },
    {
        let data = base64::engine::general_purpose::STANDARD.decode(encrypted).map_err(|e| e.to_string())?;
        if data.len() < 12 {
            return Err("Invalid encrypted data".to_string());
        }
        let (nonce_bytes, ciphertext) = data.split_at(12);
        let nonce = aes_gcm::aead::Nonce::<aes_gcm::Aes256Gcm>::try_from(nonce_bytes)
            .map_err(|_| "Invalid encrypted data".to_string())?;
        let key = sha2::Sha256::new().chain_update(b"liidi-token-key-salt-v1")
            .chain_update(self.fingerprint.as_bytes()).finalize();
        let plaintext = aes_gcm::Aes256Gcm::new(&key).decrypt(&nonce, ciphertext)
            .map_err(|e| e.to_string())?;
        String::from_utf8(plaintext).map_err(|e| e.to_string())
    }
}

/// Whether the stored fingerprint is the one this device computes; the
/// caller supplies the device's current fingerprint.
pub fn verify_device_fingerprint(stored: &str, current: &str) -> (r: bool)
    ensures
        r == (stored@ == current@),
{
    str_eq(stored, current)
}

} // verus!
