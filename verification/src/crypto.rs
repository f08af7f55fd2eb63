//! Cryptographic envelope subsystem.
//!
//! Sensitive fields are encrypted one by one under a 256-bit data key
//! with AES-256-GCM, and the data key itself is protected at rest by a
//! password-derived wrapping key with ChaCha20-Poly1305 — a second AEAD
//! algorithm, kept distinct on purpose as defense in depth.  The
//! wrapping key comes from Argon2id over the password and a fresh
//! random salt, so that brute-forcing the password offline is
//! expensive.

use vstd::prelude::*;
use vstd::string::StringSliceAdditionalSpecFns;

use aes_gcm::aead::Aead;
use aes_gcm::KeyInit;
use rand::rngs::OsRng;
use rand::RngCore;
use zeroize::Zeroize;

verus! {

/// Errors of the cryptographic operations.  Length violations carry
/// the observed length, so a caller can see what was handed in.
#[derive(Clone, Copy, Debug, PartialEq, Eq, Structural)]
pub enum CryptoError {
    /// The underlying cipher reported an internal failure.
    EncryptionFailed,
    /// Authentication-tag mismatch: wrong key, wrong password, or
    /// tampered ciphertext, nonce or tag.
    DecryptionFailed,
    /// A length or format violation caught before any cryptography
    /// ran; carries the observed length.
    InvalidData(usize),
    /// A recognized option was malformed.
    InvalidConfiguration,
    /// No active master-key record exists.
    MasterKeyNotFound,
}

/// Number of bytes of a symmetric key.
pub const KEY_SIZE: usize = 32;

/// Number of bytes of an AEAD nonce (96 bits).
pub const NONCE_SIZE: usize = 12;

/// Number of bytes of an AEAD authentication tag.
pub const TAG_SIZE: usize = 16;

/// Number of bytes of the Argon2id salt persisted with a wrapped key.
pub const SALT_SIZE: usize = 16;

/// A 256-bit secret key.  The bytes are private; [`Self::as_bytes`]
/// gives a read-only view, and on release the bytes are overwritten
/// with zeros before the memory is reclaimed.
pub struct EncryptionKey([u8; 32]);

impl View for EncryptionKey {
    type V = Seq<u8>;

    closed spec fn view(&self) -> Seq<u8> {
        self.0@
    }
}

/// Relies on rand's `OsRng`: fills the buffer from the OS-backed
/// cryptographically secure source.  Nothing can be promised of the
/// value beyond its length.
#[verifier::external_body]
fn os_random_bytes(n: usize) -> (r: Vec<u8>)
    ensures
        r@.len() == n,
{
    let mut buf = vec![0u8; n];
    OsRng.fill_bytes(&mut buf);
    buf
}

/// Relies on zeroize's `Zeroize` for byte slices: overwrites every
/// byte with zero, so intermediate buffers of key material do not
/// outlive their use.
#[verifier::external_body]
fn wipe_bytes(bytes: &mut [u8])
    ensures
        final(bytes)@ == Seq::new(old(bytes)@.len(), |i: int| 0u8),
{
    bytes.zeroize();
}

impl EncryptionKey {
    /// Creates a new key filled from the OS random source.
    pub fn generate() -> (r: Self)
        ensures
            r@.len() == 32,
    {
        let mut bytes = os_random_bytes(KEY_SIZE);
        let mut key = [0u8; 32];
        let mut i: usize = 0;
        while i < 32
            invariant
                i <= 32,
                bytes@.len() == 32,
            decreases 32 - i,
        {
            key[i] = bytes[i];
            i += 1;
        }
        wipe_bytes(bytes.as_mut_slice());
        EncryptionKey(key)
    }

    /// Creates a key from existing bytes; succeeds only on exactly 32
    /// bytes, and never truncates or pads silently.
    pub fn from_bytes(bytes: &[u8]) -> (r: Result<Self, CryptoError>)
        ensures
            bytes@.len() == 32 ==> (r matches Ok(k) && k@ == bytes@),
            bytes@.len() != 32 ==> r == Err::<Self, CryptoError>(
                CryptoError::InvalidData(bytes@.len() as usize),
            ),
    {
        if bytes.len() != 32 {
            return Err(CryptoError::InvalidData(bytes.len()));
        }
        let mut key = [0u8; 32];
        let mut i: usize = 0;
        while i < 32
            invariant
                i <= 32,
                bytes@.len() == 32,
                forall|j: int| 0 <= j < i ==> key@[j] == bytes@[j],
            decreases 32 - i,
        {
            key[i] = bytes[i];
            i += 1;
        }
        proof {
            assert(key@ =~= bytes@);
        }
        Ok(EncryptionKey(key))
    }

    /// Read-only view of the key bytes for the cipher engines.
    pub fn as_bytes(&self) -> (r: &[u8])
        ensures
            r@ == self@,
            r@.len() == 32,
    {
        self.0.as_slice()
    }
}

impl Clone for EncryptionKey {
    /// The clone carries the same 32 bytes and wipes itself
    /// independently when it is released.
    fn clone(&self) -> (r: Self)
        ensures
            r@ == self@,
    {
        EncryptionKey(self.0)
    }
}

/// Data encrypted by one of the AEAD engines, together with the nonce
/// that was drawn for it.  The authentication tag is appended to the
/// ciphertext, as the engines produce it; the master-key record layer
/// splits it off for storage.
#[derive(Debug)]
pub struct EncryptedData {
    /// Ciphertext with the 16-byte authentication tag appended.
    pub ciphertext: Vec<u8>,
    /// The 12-byte nonce used for this encryption, single-use per key.
    pub nonce: Vec<u8>,
}

impl Clone for EncryptedData {
    fn clone(&self) -> (r: Self)
        ensures
            r.ciphertext@ == self.ciphertext@,
            r.nonce@ == self.nonce@,
    {
        EncryptedData {
            ciphertext: vstd::slice::slice_to_vec(self.ciphertext.as_slice()),
            nonce: vstd::slice::slice_to_vec(self.nonce.as_slice()),
        }
    }
}

/// What AES-256-GCM verified decryption returns for a key, nonce,
/// associated data and ciphertext: the plaintext when the
/// authentication tag verifies, nothing otherwise.  The result is a
/// function of the four arguments alone.
pub uninterp spec fn aes_gcm_open(key: Seq<u8>, nonce: Seq<u8>, aad: Seq<u8>, ct: Seq<u8>) -> Option<
    Seq<u8>,
>;

/// What ChaCha20-Poly1305 verified decryption returns for a key, nonce
/// and ciphertext, in the same sense as [`aes_gcm_open`].
pub uninterp spec fn chacha_open(key: Seq<u8>, nonce: Seq<u8>, ct: Seq<u8>) -> Option<Seq<u8>>;

/// What Argon2id (default parameters) derives from a password and a
/// salt: a 32-byte wrapping key, a function of the two arguments
/// alone, deliberately slow and memory-hard.
pub uninterp spec fn derived_wrap_key(password: Seq<u8>, salt: Seq<u8>) -> Seq<u8>;

/// Relies on aes_gcm's `Aes256Gcm` with the aead `encrypt` method: the
/// result is the plaintext encrypted under key, nonce and associated
/// data with the 16-byte tag appended, verified decryption of it under
/// the same three returns exactly the plaintext, and encryption fails
/// only on a plaintext longer than 2^36 bytes or associated data
/// longer than 2^36 bytes.
#[verifier::external_body]
fn aes_gcm_seal(key: &[u8], nonce: &[u8], aad: &[u8], data: &[u8]) -> (r: Result<
    Vec<u8>,
    CryptoError,
>)
    requires
        key@.len() == 32,
        nonce@.len() == 12,
    ensures
        r matches Ok(c) ==> c@.len() == data@.len() + 16
            && aes_gcm_open(key@, nonce@, aad@, c@) == Some(data@),
        r matches Err(e) ==> e == CryptoError::EncryptionFailed,
        data@.len() <= 0x10_0000_0000 && aad@.len() <= 0x10_0000_0000 ==> r is Ok,
{
    let cipher = aes_gcm::Aes256Gcm::new(aes_gcm::Key::<aes_gcm::Aes256Gcm>::from_slice(key));
    cipher
        .encrypt(aes_gcm::Nonce::from_slice(nonce), aes_gcm::aead::Payload { msg: data, aad })
        .map_err(|_| CryptoError::EncryptionFailed)
}

/// Relies on aes_gcm's `Aes256Gcm` with the aead `decrypt` method:
/// verified decryption is a function of key, nonce, associated data
/// and ciphertext alone; it returns the plaintext exactly when the
/// authentication tag verifies and fails otherwise.
#[verifier::external_body]
fn aes_gcm_unseal(key: &[u8], nonce: &[u8], aad: &[u8], ct: &[u8]) -> (r: Result<
    Vec<u8>,
    CryptoError,
>)
    requires
        key@.len() == 32,
        nonce@.len() == 12,
    ensures
        r is Ok <==> aes_gcm_open(key@, nonce@, aad@, ct@) is Some,
        r matches Ok(p) ==> Some(p@) == aes_gcm_open(key@, nonce@, aad@, ct@),
        r matches Err(e) ==> e == CryptoError::DecryptionFailed,
{
    let cipher = aes_gcm::Aes256Gcm::new(aes_gcm::Key::<aes_gcm::Aes256Gcm>::from_slice(key));
    cipher
        .decrypt(aes_gcm::Nonce::from_slice(nonce), aes_gcm::aead::Payload { msg: ct, aad })
        .map_err(|_| CryptoError::DecryptionFailed)
}

/// Encrypts a byte payload under `key` with AES-256-GCM (the field
/// encryption algorithm), binding the given associated data and
/// drawing a fresh random 96-bit nonce.
pub fn encrypt_with_aad(data: &[u8], aad: &[u8], key: &EncryptionKey) -> (r: Result<
    EncryptedData,
    CryptoError,
>)
    ensures
        r matches Ok(b) ==> b.nonce@.len() == 12
            && b.ciphertext@.len() == data@.len() + 16
            && aes_gcm_open(key@, b.nonce@, aad@, b.ciphertext@) == Some(data@),
        r matches Err(e) ==> e == CryptoError::EncryptionFailed,
        data@.len() <= 0x10_0000_0000 && aad@.len() <= 0x10_0000_0000 ==> r is Ok,
{
    let nonce = os_random_bytes(NONCE_SIZE);
    let ciphertext = aes_gcm_seal(key.as_bytes(), nonce.as_slice(), aad, data)?;
    Ok(EncryptedData { ciphertext, nonce })
}

/// Encrypts a byte payload under `key` with AES-256-GCM, with no
/// associated data, drawing a fresh random 96-bit nonce.
pub fn encrypt(data: &[u8], key: &EncryptionKey) -> (r: Result<EncryptedData, CryptoError>)
    ensures
        r matches Ok(b) ==> b.nonce@.len() == 12
            && b.ciphertext@.len() == data@.len() + 16
            && aes_gcm_open(key@, b.nonce@, Seq::<u8>::empty(), b.ciphertext@) == Some(data@),
        r matches Err(e) ==> e == CryptoError::EncryptionFailed,
        data@.len() <= 0x10_0000_0000 ==> r is Ok,
{
    let aad: Vec<u8> = Vec::new();
    encrypt_with_aad(data, aad.as_slice(), key)
}

/// What [`decrypt_with_aad`] returns for a key, nonce, associated
/// data and ciphertext: a nonce of the wrong length is rejected before
/// any cryptography runs, and otherwise the AEAD verification decides.
pub open spec fn spec_decrypt(key: Seq<u8>, nonce: Seq<u8>, aad: Seq<u8>, ct: Seq<u8>) -> Result<
    Seq<u8>,
    CryptoError,
> {
    if nonce.len() != 12 {
        Err(CryptoError::InvalidData(nonce.len() as usize))
    } else {
        match aes_gcm_open(key, nonce, aad, ct) {
            Some(p) => Ok(p),
            None => Err(CryptoError::DecryptionFailed),
        }
    }
}

/// Decrypts a box produced by [`encrypt_with_aad`] under the same
/// associated data.  On a tag mismatch (wrong key, wrong associated
/// data, tampered ciphertext or tampered nonce) it fails with
/// `DecryptionFailed` and releases no partial plaintext.
pub fn decrypt_with_aad(encrypted: &EncryptedData, aad: &[u8], key: &EncryptionKey) -> (r: Result<
    Vec<u8>,
    CryptoError,
>)
    ensures
        r matches Ok(p) ==> spec_decrypt(key@, encrypted.nonce@, aad@, encrypted.ciphertext@)
            == Ok::<Seq<u8>, CryptoError>(p@),
        r matches Err(e) ==> spec_decrypt(key@, encrypted.nonce@, aad@, encrypted.ciphertext@)
            == Err::<Seq<u8>, CryptoError>(e),
{
    if encrypted.nonce.len() != NONCE_SIZE {
        return Err(CryptoError::InvalidData(encrypted.nonce.len()));
    }
    aes_gcm_unseal(
        key.as_bytes(),
        encrypted.nonce.as_slice(),
        aad,
        encrypted.ciphertext.as_slice(),
    )
}

/// Decrypts a box produced by [`encrypt`], with no associated data.
pub fn decrypt(encrypted: &EncryptedData, key: &EncryptionKey) -> (r: Result<Vec<u8>, CryptoError>)
    ensures
        r matches Ok(p) ==> spec_decrypt(
            key@,
            encrypted.nonce@,
            Seq::<u8>::empty(),
            encrypted.ciphertext@,
        ) == Ok::<Seq<u8>, CryptoError>(p@),
        r matches Err(e) ==> spec_decrypt(
            key@,
            encrypted.nonce@,
            Seq::<u8>::empty(),
            encrypted.ciphertext@,
        ) == Err::<Seq<u8>, CryptoError>(e),
{
    let aad: Vec<u8> = Vec::new();
    decrypt_with_aad(encrypted, aad.as_slice(), key)
}

/// Round trip of field encryption: any box that [`encrypt_with_aad`]
/// or [`encrypt`] returned for a plaintext and key decrypts under that
/// same key and associated data to exactly the original plaintext.
pub proof fn lemma_encrypt_decrypt_round_trip(
    key: Seq<u8>,
    nonce: Seq<u8>,
    aad: Seq<u8>,
    ct: Seq<u8>,
    data: Seq<u8>,
)
    requires
        nonce.len() == 12,
        aes_gcm_open(key, nonce, aad, ct) == Some(data),
    ensures
        spec_decrypt(key, nonce, aad, ct) == Ok::<Seq<u8>, CryptoError>(data),
{
}

/// Relies on chacha20poly1305's `ChaCha20Poly1305` with the aead
/// `encrypt` method: the result is the plaintext encrypted under key
/// and nonce with the 16-byte tag appended, and verified decryption of
/// it under the same key and nonce returns exactly the plaintext.  The
/// keystream spans 2^32 - 2 blocks of 64 bytes (one block feeds the
/// Poly1305 key), and a longer plaintext makes the cipher panic, so
/// the precondition excludes it; every admitted plaintext encrypts.
#[verifier::external_body]
fn chacha_seal(key: &[u8], nonce: &[u8], data: &[u8]) -> (r: Result<Vec<u8>, CryptoError>)
    requires
        key@.len() == 32,
        nonce@.len() == 12,
        data@.len() <= 0x3F_FFFF_FF80,
    ensures
        r matches Ok(c) ==> c@.len() == data@.len() + 16
            && chacha_open(key@, nonce@, c@) == Some(data@),
        r is Ok,
{
    let cipher = chacha20poly1305::ChaCha20Poly1305::new(
        chacha20poly1305::Key::from_slice(key),
    );
    cipher
        .encrypt(chacha20poly1305::Nonce::from_slice(nonce), data)
        .map_err(|_| CryptoError::EncryptionFailed)
}

/// Relies on chacha20poly1305's `ChaCha20Poly1305` with the aead
/// `decrypt` method: verified decryption is a function of key, nonce
/// and ciphertext alone; it returns the plaintext exactly when the
/// authentication tag verifies and fails otherwise.  A ciphertext
/// whose body outruns the 2^32 - 2 keystream blocks would make the
/// cipher panic after a valid tag, so the precondition excludes it.
#[verifier::external_body]
fn chacha_unseal(key: &[u8], nonce: &[u8], ct: &[u8]) -> (r: Result<Vec<u8>, CryptoError>)
    requires
        key@.len() == 32,
        nonce@.len() == 12,
        ct@.len() <= 0x3F_FFFF_FF90,
    ensures
        r is Ok <==> chacha_open(key@, nonce@, ct@) is Some,
        r matches Ok(p) ==> Some(p@) == chacha_open(key@, nonce@, ct@),
        r matches Err(e) ==> e == CryptoError::DecryptionFailed,
{
    let cipher = chacha20poly1305::ChaCha20Poly1305::new(
        chacha20poly1305::Key::from_slice(key),
    );
    cipher
        .decrypt(chacha20poly1305::Nonce::from_slice(nonce), ct)
        .map_err(|_| CryptoError::DecryptionFailed)
}

/// Relies on argon2's `Argon2::hash_password_into` with the default
/// Argon2id parameters: the derived 32-byte key is a function of
/// password and salt alone, and derivation succeeds whenever the salt
/// has 16 bytes and the password at most 2^32 - 1 bytes.
#[verifier::external_body]
fn argon2_derive(password: &[u8], salt: &[u8]) -> (r: Result<[u8; 32], CryptoError>)
    ensures
        r matches Ok(k) ==> k@ == derived_wrap_key(password@, salt@),
        salt@.len() == 16 && password@.len() <= 0xFFFF_FFFF ==> r is Ok,
{
    let mut out = [0u8; 32];
    match argon2::Argon2::default().hash_password_into(password, salt, &mut out) {
        Ok(()) => Ok(out),
        Err(_) => Err(CryptoError::InvalidConfiguration),
    }
}

/// A wrapped (encrypted) symmetric key together with the random salt
/// its wrapping key was derived with; the salt is persisted beside the
/// ciphertext so the same wrapping key can be re-derived later.
#[derive(Debug)]
pub struct WrappedKey {
    /// The key bytes encrypted under the password-derived wrapping key.
    pub data: EncryptedData,
    /// The 16-byte random Argon2id salt.
    pub salt: Vec<u8>,
}

/// Protects a symmetric key at rest under a password: derives a
/// 32-byte wrapping key with Argon2id from the password and a fresh
/// random 16-byte salt, then encrypts the key's 32 bytes with
/// ChaCha20-Poly1305 — an AEAD algorithm distinct from the field
/// encryption one — under a fresh random 96-bit nonce.
pub fn wrap_key(key: &EncryptionKey, password: &str) -> (r: Result<WrappedKey, CryptoError>)
    ensures
        r matches Ok(w) ==> w.salt@.len() == 16
            && w.data.nonce@.len() == 12
            && w.data.ciphertext@.len() == 48
            && password.spec_bytes().len() <= 0xFFFF_FFFF
            && chacha_open(
                derived_wrap_key(password.spec_bytes(), w.salt@),
                w.data.nonce@,
                w.data.ciphertext@,
            ) == Some(key@),
        r matches Err(e) ==> e == CryptoError::InvalidData(password.spec_bytes().len() as usize),
        password.spec_bytes().len() <= 0xFFFF_FFFF ==> r is Ok,
{
    let pw = password.as_bytes();
    if pw.len() > 0xFFFF_FFFF {
        return Err(CryptoError::InvalidData(pw.len()));
    }
    let salt = os_random_bytes(SALT_SIZE);
    let mut wrapping_key = match argon2_derive(pw, salt.as_slice()) {
        Ok(k) => k,
        Err(e) => return Err(e),
    };
    let nonce = os_random_bytes(NONCE_SIZE);
    let ciphertext = match chacha_seal(wrapping_key.as_slice(), nonce.as_slice(), key.as_bytes()) {
        Ok(c) => c,
        Err(e) => return Err(e),
    };
    wipe_bytes(vstd::array::ref_mut_array_unsizing_coercion(&mut wrapping_key));
    Ok(WrappedKey { data: EncryptedData { ciphertext, nonce }, salt })
}

/// What [`unwrap_key`] returns for a wrapped box, password and salt:
/// length violations are rejected before any cryptography runs, a tag
/// mismatch — in particular a wrong password — fails, and a recovered
/// plaintext is accepted only if it has exactly 32 bytes.
pub open spec fn spec_unwrap_key(
    ct: Seq<u8>,
    nonce: Seq<u8>,
    password: Seq<u8>,
    salt: Seq<u8>,
) -> Result<Seq<u8>, CryptoError> {
    if nonce.len() != 12 {
        Err(CryptoError::InvalidData(nonce.len() as usize))
    } else if salt.len() != 16 {
        Err(CryptoError::InvalidData(salt.len() as usize))
    } else if password.len() > 0xFFFF_FFFF {
        Err(CryptoError::InvalidData(password.len() as usize))
    } else if ct.len() > 0x3F_FFFF_FF90 {
        Err(CryptoError::InvalidData(ct.len() as usize))
    } else {
        match chacha_open(derived_wrap_key(password, salt), nonce, ct) {
            Some(p) => if p.len() == 32 {
                Ok(p)
            } else {
                Err(CryptoError::InvalidData(p.len() as usize))
            },
            None => Err(CryptoError::DecryptionFailed),
        }
    }
}

/// Recovers a symmetric key wrapped by [`wrap_key`]: re-derives the
/// wrapping key from the password and the persisted salt, decrypts,
/// and accepts the result only if it is exactly 32 bytes.  Length
/// violations — including a ciphertext too long for the cipher's
/// keystream — are rejected as `InvalidData` before any cryptography
/// runs.  A wrong
/// password fails deterministically with `DecryptionFailed` through
/// the authentication-tag rejection; a corrupted value is never
/// silently accepted.
pub fn unwrap_key(encrypted: &EncryptedData, password: &str, salt: &[u8]) -> (r: Result<
    EncryptionKey,
    CryptoError,
>)
    ensures
        r matches Ok(k) ==> spec_unwrap_key(
            encrypted.ciphertext@,
            encrypted.nonce@,
            password.spec_bytes(),
            salt@,
        ) == Ok::<Seq<u8>, CryptoError>(k@),
        r matches Err(e) ==> spec_unwrap_key(
            encrypted.ciphertext@,
            encrypted.nonce@,
            password.spec_bytes(),
            salt@,
        ) == Err::<Seq<u8>, CryptoError>(e),
{
    if encrypted.nonce.len() != NONCE_SIZE {
        return Err(CryptoError::InvalidData(encrypted.nonce.len()));
    }
    if salt.len() != SALT_SIZE {
        return Err(CryptoError::InvalidData(salt.len()));
    }
    let pw = password.as_bytes();
    if pw.len() > 0xFFFF_FFFF {
        return Err(CryptoError::InvalidData(pw.len()));
    }
    if encrypted.ciphertext.len() as u64 > 0x3F_FFFF_FF90u64 {
        return Err(CryptoError::InvalidData(encrypted.ciphertext.len()));
    }
    let mut wrapping_key = match argon2_derive(pw, salt) {
        Ok(k) => k,
        Err(e) => return Err(e),
    };
    let unsealed = chacha_unseal(
        wrapping_key.as_slice(),
        encrypted.nonce.as_slice(),
        encrypted.ciphertext.as_slice(),
    );
    wipe_bytes(vstd::array::ref_mut_array_unsizing_coercion(&mut wrapping_key));
    let mut plaintext = match unsealed {
        Ok(p) => p,
        Err(e) => return Err(e),
    };
    let result = EncryptionKey::from_bytes(plaintext.as_slice());
    wipe_bytes(plaintext.as_mut_slice());
    result
}

/// Round trip of key wrapping: a wrapped box that [`wrap_key`]
/// returned for a key and password unwraps, with the same password and
/// the salt it returned, to exactly the original key.
pub proof fn lemma_wrap_unwrap_round_trip(
    key: Seq<u8>,
    password: Seq<u8>,
    salt: Seq<u8>,
    nonce: Seq<u8>,
    ct: Seq<u8>,
)
    requires
        key.len() == 32,
        salt.len() == 16,
        nonce.len() == 12,
        password.len() <= 0xFFFF_FFFF,
        ct.len() <= 0x3F_FFFF_FF90,
        chacha_open(derived_wrap_key(password, salt), nonce, ct) == Some(key),
    ensures
        spec_unwrap_key(ct, nonce, password, salt) == Ok::<Seq<u8>, CryptoError>(key),
{
}

impl Drop for EncryptionKey {
    /// Relies on zeroize's `Zeroize` for byte slices: overwrites all
    /// 32 bytes with zeros when the last owner releases the key, on
    /// every exit path.
    #[verifier::external_body]
    fn drop(&mut self)
        opens_invariants none
        no_unwind
    {
        self.0.zeroize();
    }
}

} // verus!
