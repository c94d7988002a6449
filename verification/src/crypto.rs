//! Crypto primitives: AES-256-GCM envelope encryption of local secrets and
//! HMAC-SHA-256 request-signature verification. The ciphers themselves are
//! outside calls; everything around them — key parsing, nonce framing,
//! hex comparison, prefix handling — is verified.

use vstd::prelude::*;

use crate::hexcode::{hex_bytes_of, hex_decode, hex_encode, hex_of, is_hex_str, lemma_hex_bytes_len, lemma_hex_of_len, lemma_hex_round_trip};
use crate::text::str_eq;
use vstd::string::StringSliceAdditionalSpecFns;

verus! {

/// Largest plaintext AES-GCM accepts (2^36 - 32 bytes).
pub const AES_GCM_MAX_PLAINTEXT: u64 = 68719476704;

/// The HMAC-SHA-256 digest of a message under a key.
pub uninterp spec fn hmac_sha256_of(key: Seq<u8>, data: Seq<u8>) -> Seq<u8>;

/// The AES-256-GCM ciphertext-with-tag for a key, nonce and plaintext.
pub uninterp spec fn aes256_gcm_seal(key: Seq<u8>, nonce: Seq<u8>, plaintext: Seq<u8>) -> Seq<u8>;

/// What AES-256-GCM decryption yields for a key, nonce and ciphertext:
/// the plaintext, or nothing when the tag does not authenticate.
pub uninterp spec fn aes256_gcm_open(key: Seq<u8>, nonce: Seq<u8>, ciphertext: Seq<u8>) -> Option<
    Seq<u8>,
>;

/// Relies on hmac's `Hmac<Sha256>` (`new_from_slice`, `update`, `finalize`):
/// the digest is 32 bytes and depends on the key and message alone; HMAC
/// accepts keys of any length.
#[verifier::external_body]
fn hmac_sha256(key: &[u8], data: &[u8]) -> (r: Vec<u8>)
    ensures
        r@ == hmac_sha256_of(key@, data@),
        r@.len() == 32,
{
    let mut mac = <hmac::Hmac<sha2::Sha256> as hmac::KeyInit>::new_from_slice(key)
        .expect("HMAC accepts keys of any length");
    hmac::Mac::update(&mut mac, data);
    hmac::Mac::finalize(mac).into_bytes().to_vec()
}

/// Relies on aes_gcm's `Aes256Gcm` encryption (`aead::Aead::encrypt`): the
/// ciphertext carries a 16-byte tag, is a function of key, nonce and
/// plaintext alone, and decrypts back to the plaintext under the same key
/// and nonce.
#[verifier::external_body]
fn aes256_gcm_encrypt(key: &[u8], nonce: &[u8], plaintext: &[u8]) -> (r: Vec<u8>)
    requires
        key@.len() == 32,
        nonce@.len() == 12,
        plaintext@.len() <= AES_GCM_MAX_PLAINTEXT,
    ensures
        r@ == aes256_gcm_seal(key@, nonce@, plaintext@),
        r@.len() == plaintext@.len() + 16,
        aes256_gcm_open(key@, nonce@, r@) == Some(plaintext@),
{
    let cipher = <aes_gcm::Aes256Gcm as aes_gcm::KeyInit>::new_from_slice(key)
        .expect("the key is 32 bytes");
    let mut nonce_arr = [0u8; 12];
    nonce_arr.copy_from_slice(nonce);
    aes_gcm::aead::Aead::encrypt(&cipher, &nonce_arr.into(), plaintext)
        .expect("the plaintext is within the AES-GCM bound")
}

/// Relies on aes_gcm's `Aes256Gcm` decryption (`aead::Aead::decrypt`):
/// recovery or tag rejection is a function of key, nonce and ciphertext
/// alone.
#[verifier::external_body]
fn aes256_gcm_decrypt(key: &[u8], nonce: &[u8], ciphertext: &[u8]) -> (r: Option<Vec<u8>>)
    requires
        key@.len() == 32,
        nonce@.len() == 12,
    ensures
        r matches Some(p) ==> aes256_gcm_open(key@, nonce@, ciphertext@) == Some(p@),
        r is None ==> aes256_gcm_open(key@, nonce@, ciphertext@) is None,
{
    let cipher = <aes_gcm::Aes256Gcm as aes_gcm::KeyInit>::new_from_slice(key)
        .expect("the key is 32 bytes");
    let mut nonce_arr = [0u8; 12];
    nonce_arr.copy_from_slice(nonce);
    aes_gcm::aead::Aead::decrypt(&cipher, &nonce_arr.into(), ciphertext).ok()
}

/// Relies on rand::fill over `ThreadRng`, a cryptographically secure
/// generator; nothing is promised of the bytes beyond their count.
#[verifier::external_body]
fn random_bytes(n: usize) -> (r: Vec<u8>)
    ensures
        r@.len() == n,
{
    let mut buf = vec![0u8; n];
    rand::fill(&mut buf[..]);
    buf
}

/// Why building or using the envelope cipher failed.
#[derive(Clone, Copy, PartialEq, Eq, Structural, Debug)]
pub enum CryptoError {
    /// The master key is not 64 lowercase hex characters.
    BadMasterKey,
    /// The encrypted blob is shorter than a nonce.
    TooShort,
    /// The authentication tag did not verify.
    AuthFailed,
}

/// What decrypting a stored blob under a key yields: the blob is a 12-byte
/// nonce followed by ciphertext-with-tag.
pub open spec fn spec_decrypt(key: Seq<u8>, data: Seq<u8>) -> Option<Seq<u8>> {
    if data.len() < 12 {
        None
    } else {
        aes256_gcm_open(key, data.take(12), data.skip(12))
    }
}

/// A signature string with one optional `sha256=` prefix removed.
pub open spec fn strip_sig_prefix(s: Seq<char>) -> Seq<char> {
    if s.len() >= 7 && s.take(7) == "sha256="@ {
        s.skip(7)
    } else {
        s
    }
}

/// Character-for-character equality that touches every position before
/// answering, with no early exit on a mismatch; only the (public) length
/// can short-circuit. The digest comparison of a signature check goes
/// through here.
fn str_eq_ct(a: &str, b: &str) -> (r: bool)
    ensures
        r <==> a@ == b@,
{
    let na = a.unicode_len();
    let nb = b.unicode_len();
    if na != nb {
        assert(a@.len() != b@.len());
        return false;
    }
    let mut same = true;
    for i in 0..na
        invariant
            na == a@.len(),
            na == b@.len(),
            same <==> (forall|j: int| 0 <= j < i ==> a@[j] == b@[j]),
    {
        if a.get_char(i) != b.get_char(i) {
            same = false;
        }
    }
    proof {
        if same {
            assert(a@ =~= b@);
        }
    }
    same
}

/// The envelope cipher: a 32-byte master key.
pub struct Crypto {
    key: Vec<u8>,
}

impl Crypto {
    /// The key is the right size for AES-256.
    pub closed spec fn wf(&self) -> bool {
        self.key@.len() == 32
    }

    /// The raw key bytes.
    pub closed spec fn key_bytes(&self) -> Seq<u8> {
        self.key@
    }

    /// Build the cipher from the master key file's content: exactly 64
    /// lowercase hex characters denoting 32 bytes.
    pub fn from_key_hex(key_hex: &str) -> (r: Result<Crypto, CryptoError>)
        ensures
            r is Ok <==> is_hex_str(key_hex@) && key_hex@.len() == 64,
            r matches Ok(c) ==> c.wf() && c.key_bytes() == hex_bytes_of(key_hex@),
            r is Err ==> r == Err::<Crypto, CryptoError>(CryptoError::BadMasterKey),
    {
        proof {
            if is_hex_str(key_hex@) {
                lemma_hex_bytes_len(key_hex@);
            }
        }
        match hex_decode(key_hex) {
            Some(key) => {
                if key.len() == 32 {
                    Ok(Crypto { key })
                } else {
                    Err(CryptoError::BadMasterKey)
                }
            },
            None => Err(CryptoError::BadMasterKey),
        }
    }

    /// A fresh random master key, already hex-encoded for the key file.
    pub fn generate_key_hex() -> (r: String)
        ensures
            is_hex_str(r@),
            r@.len() == 64,
    {
        let key = random_bytes(32);
        let out = hex_encode(key.as_slice());
        proof {
            lemma_hex_round_trip(key@);
            lemma_hex_of_len(key@);
        }
        out
    }

    /// Encrypt a secret for local storage: a fresh random 12-byte nonce,
    /// then the ciphertext-with-tag. Decrypting the result under the same
    /// key gives the plaintext back.
    pub fn encrypt(&self, plaintext: &[u8]) -> (r: Vec<u8>)
        requires
            self.wf(),
            plaintext@.len() <= AES_GCM_MAX_PLAINTEXT,
        ensures
            r@.len() == plaintext@.len() + 28,
            r@.skip(12) == aes256_gcm_seal(self.key_bytes(), r@.take(12), plaintext@),
            spec_decrypt(self.key_bytes(), r@) == Some(plaintext@),
    {
        let nonce = random_bytes(12);
        let sealed = aes256_gcm_encrypt(self.key.as_slice(), nonce.as_slice(), plaintext);
        let mut out = nonce;
        let ghost nonce_view = out@;
        let mut sealed = sealed;
        out.append(&mut sealed);
        proof {
            assert(out@.take(12) =~= nonce_view);
            assert(out@.skip(12) =~= aes256_gcm_seal(self.key@, nonce_view, plaintext@));
        }
        out
    }

    /// Decrypt a stored blob: fails on anything shorter than a nonce and on
    /// any tampered ciphertext.
    pub fn decrypt(&self, data: &[u8]) -> (r: Result<Vec<u8>, CryptoError>)
        requires
            self.wf(),
        ensures
            r is Ok <==> spec_decrypt(self.key_bytes(), data@) is Some,
            r matches Ok(p) ==> spec_decrypt(self.key_bytes(), data@) == Some(p@),
            data@.len() < 12 <==> r == Err::<Vec<u8>, CryptoError>(CryptoError::TooShort),
            r == Err::<Vec<u8>, CryptoError>(CryptoError::AuthFailed) <==> data@.len() >= 12
                && spec_decrypt(self.key_bytes(), data@) is None,
    {
        if data.len() < 12 {
            return Err(CryptoError::TooShort);
        }
        let (nonce, ciphertext) = data.split_at(12);
        match aes256_gcm_decrypt(self.key.as_slice(), nonce, ciphertext) {
            Some(p) => Ok(p),
            None => Err(CryptoError::AuthFailed),
        }
    }

    /// Check an HMAC-SHA-256 request signature: hex-encode the digest of
    /// the body under the secret and compare it with the supplied
    /// signature, after removing one optional `sha256=` prefix.
    pub fn verify_signature(secret: &str, body: &[u8], signature_hex: &str) -> (r: bool)
        ensures
            r <==> strip_sig_prefix(signature_hex@) == hex_of(
                hmac_sha256_of(secret.spec_bytes(), body@),
            ),
    {
        let digest = hmac_sha256(secret.as_bytes(), body);
        let expected = hex_encode(digest.as_slice());
        let n = signature_hex.unicode_len();
        let clean: &str = if n >= 7 {
            let prefix = signature_hex.substring_char(0, 7);
            if str_eq(prefix, "sha256=") {
                proof {
                    assert(signature_hex@.take(7) =~= prefix@);
                }
                let rest = signature_hex.substring_char(7, n);
                proof {
                    assert(rest@ =~= signature_hex@.skip(7));
                }
                rest
            } else {
                proof {
                    assert(signature_hex@.take(7) =~= prefix@);
                }
                signature_hex
            }
        } else {
            signature_hex
        };
        str_eq_ct(clean, expected.as_str())
    }
}

/// A signature produced from the body and secret verifies: the hex digest
/// string carries no `sha256=` prefix, so verification compares it with
/// itself.
pub proof fn lemma_verify_accepts_own_signature(secret: Seq<u8>, body: Seq<u8>)
    ensures
        strip_sig_prefix(hex_of(hmac_sha256_of(secret, body))) == hex_of(
            hmac_sha256_of(secret, body),
        ),
{
    let sig = hex_of(hmac_sha256_of(secret, body));
    reveal_strlit("sha256=");
    if sig.len() >= 7 && sig.take(7) == "sha256="@ {
        lemma_hex_round_trip(hmac_sha256_of(secret, body));
        assert(sig.take(7)[0] == 's');
        assert(sig[0] == 's');
        assert(crate::hexcode::hex_val(sig[0]) >= 0);
        assert(false);
    }
}

} // verus!
