//! AES-256-GCM sealing of stored tokens: a random 12-byte nonce followed by the
//! ciphertext and its 16-byte tag.
use vstd::prelude::*;
use crate::job::DomainError;
use aes_gcm::aead::rand_core::RngCore;
use aes_gcm::aead::{Aead, KeyInit};

verus! {

/// Nonce length in bytes.
pub const NONCE_LEN: usize = 12;

/// Largest plaintext AES-GCM accepts: 2^36 bytes.
pub const MAX_PLAINTEXT: u64 = 68719476736;

/// What AES-256-GCM encryption gives for a key, a nonce and a plaintext (ciphertext with
/// the tag appended, no associated data).
pub uninterp spec fn aes256gcm_seal(key: Seq<u8>, nonce: Seq<u8>, plaintext: Seq<u8>) -> Seq<u8>;

/// What AES-256-GCM decryption gives for a key, a nonce and a ciphertext with its tag:
/// `None` when authentication fails.
pub uninterp spec fn aes256gcm_open(key: Seq<u8>, nonce: Seq<u8>, ciphertext: Seq<u8>) -> Option<
    Seq<u8>,
>;

/// Encrypts `plaintext` under `key` with `nonce`.
///
/// Trusted: `aes_gcm::Aes256Gcm::new` and `aead::Aead::encrypt`. The contract names the
/// result, states that it is 16 bytes (the tag) longer than the plaintext, and that
/// decrypting it with the same key and nonce gives the plaintext back; the cipher itself
/// is not stated. Encryption fails only above `MAX_PLAINTEXT` bytes, which `requires`
/// rules out.
#[verifier::external_body]
fn aes_gcm_encrypt(key: &[u8; 32], nonce: &[u8; 12], plaintext: &[u8]) -> (res: Vec<u8>)
    requires
        plaintext@.len() <= MAX_PLAINTEXT,
    ensures
        res@ == aes256gcm_seal(key@, nonce@, plaintext@),
        res@.len() == plaintext@.len() + 16,
        aes256gcm_open(key@, nonce@, res@) == Some(plaintext@),
{
    let cipher = aes_gcm::Aes256Gcm::new(key.into());
    cipher.encrypt(aes_gcm::Nonce::from_slice(nonce), plaintext).expect("plaintext within P_MAX")
}

/// Decrypts and authenticates `ciphertext` under `key` with `nonce`.
///
/// Trusted: `aes_gcm::Aes256Gcm::new` and `aead::Aead::decrypt`. The contract names the
/// result; on failure it returns the error's text, which the contract does not state.
#[verifier::external_body]
fn aes_gcm_decrypt(key: &[u8; 32], nonce: &[u8], ciphertext: &[u8]) -> (res: Result<
    Vec<u8>,
    String,
>)
    requires
        nonce@.len() == 12,
    ensures
        match res {
            Ok(p) => aes256gcm_open(key@, nonce@, ciphertext@) == Some(p@),
            Err(_) => aes256gcm_open(key@, nonce@, ciphertext@) is None,
        },
{
    let cipher = aes_gcm::Aes256Gcm::new(key.into());
    match cipher.decrypt(aes_gcm::Nonce::from_slice(nonce), ciphertext) {
        Ok(p) => Ok(p),
        Err(e) => Err(e.to_string()),
    }
}

/// Twelve bytes from the operating system's random source.
///
/// Trusted: `rand_core::RngCore::fill_bytes` on `aes_gcm::aead::OsRng`. Nothing is stated
/// of the bytes.
#[verifier::external_body]
fn random_nonce() -> (res: [u8; 12]) {
    let mut nonce = [0u8; 12];
    aes_gcm::aead::OsRng.fill_bytes(&mut nonce);
    nonce
}

/// Seals and opens token payloads with AES-256-GCM.
pub struct TokenCipher {
    key: [u8; 32],
}

/// The decryption of a stored blob: too short when it has no ciphertext after the nonce,
/// otherwise the authenticated plaintext, or a failure.
pub open spec fn open_blob(key: Seq<u8>, blob: Seq<u8>) -> Option<Seq<u8>> {
    if blob.len() <= 12 {
        None
    } else {
        aes256gcm_open(key, blob.take(12), blob.skip(12))
    }
}

impl TokenCipher {
    /// The key.
    pub closed spec fn key_spec(&self) -> Seq<u8> {
        self.key@
    }

    /// A cipher for the 32-byte `key`.
    pub fn new(key: &[u8; 32]) -> (res: Self)
        ensures
            res.key_spec() == key@,
    {
        TokenCipher { key: *key }
    }

    /// Seals `plaintext` under a fresh random nonce: `[nonce][ciphertext || tag]`.
    pub fn encrypt(&self, plaintext: &[u8]) -> (res: Vec<u8>)
        requires
            plaintext@.len() <= MAX_PLAINTEXT,
        ensures
            res@.len() == NONCE_LEN + plaintext@.len() + 16,
            res@.skip(12) == aes256gcm_seal(self.key_spec(), res@.take(12), plaintext@),
            open_blob(self.key_spec(), res@) == Some(plaintext@),
    {
        let nonce = random_nonce();
        let mut sealed = aes_gcm_encrypt(&self.key, &nonce, plaintext);
        let ghost sealed_view = sealed@;
        let mut out: Vec<u8> = Vec::new();
        let mut i: usize = 0;
        while i < 12
            invariant
                i <= 12,
                nonce@.len() == 12,
                out@ == nonce@.take(i as int),
            decreases 12 - i,
        {
            out.push(nonce[i]);
            assert(nonce@.take(i + 1) =~= nonce@.take(i as int).push(nonce@[i as int]));
            i = i + 1;
        }
        assert(nonce@.take(12) =~= nonce@);
        out.append(&mut sealed);
        assert(out@.take(12) =~= nonce@);
        assert(out@.skip(12) =~= sealed_view);
        out
    }

    /// Opens a blob made by [`TokenCipher::encrypt`].
    pub fn decrypt(&self, blob: &[u8]) -> (res: Result<Vec<u8>, DomainError>)
        ensures
            match res {
                Ok(p) => open_blob(self.key_spec(), blob@) == Some(p@),
                Err(e) => open_blob(self.key_spec(), blob@) is None && e is Crypto,
            },
            blob@.len() <= 12 ==> (res matches Err(DomainError::Crypto(m)) && m@
                == "encrypted blob too short"@),
    {
        if blob.len() <= NONCE_LEN {
            return Err(DomainError::Crypto("encrypted blob too short".to_owned()));
        }
        let nonce = crate::crypto::slice_part(blob, 0, 12);
        let ciphertext = crate::crypto::slice_part(blob, 12, blob.len());
        match aes_gcm_decrypt(&self.key, nonce.as_slice(), ciphertext.as_slice()) {
            Ok(p) => Ok(p),
            Err(msg) => Err(DomainError::Crypto(msg)),
        }
    }
}

/// The bytes of `s` between `from` and `to`.
fn slice_part(s: &[u8], from: usize, to: usize) -> (res: Vec<u8>)
    requires
        from <= to <= s@.len(),
    ensures
        res@ == s@.subrange(from as int, to as int),
{
    let mut out: Vec<u8> = Vec::new();
    let mut i: usize = from;
    while i < to
        invariant
            from <= i <= to <= s@.len(),
            out@ == s@.subrange(from as int, i as int),
        decreases to - i,
    {
        out.push(s[i]);
        assert(s@.subrange(from as int, i + 1) =~= s@.subrange(from as int, i as int).push(
            s@[i as int],
        ));
        i = i + 1;
    }
    out
}

} // verus!
