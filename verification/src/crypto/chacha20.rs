//! ChaCha20-Poly1305 with a random nonce in front of each ciphertext.

use vstd::prelude::*;
use vstd::slice::slice_to_vec;
use vstd::string::*;
use chacha20poly1305::aead::Aead;
use chacha20poly1305::aead::KeyInit;
use crate::crypto::derive_key;
use crate::crypto::derived_key;
use crate::crypto::fresh_nonce;
use crate::crypto::Block;
use crate::crypto::CipherError;
use crate::crypto::KEY_LEN;
use crate::crypto::MAX_PLAINTEXT_LEN;
use crate::crypto::NONCE_LEN;
use crate::crypto::TAG_LEN;

verus! {

/// The ciphertext and tag that ChaCha20-Poly1305 gives for a key, a nonce
/// and a plaintext, with no associated data.
pub uninterp spec fn chacha20poly1305_sealed(key: Seq<u8>, nonce: Seq<u8>, plain: Seq<u8>) -> Seq<
    u8,
>;

/// The plaintext that ChaCha20-Poly1305 recovers for a key and a nonce from
/// a ciphertext with its tag; `None` where it rejects them.
pub uninterp spec fn chacha20poly1305_opened(
    key: Seq<u8>,
    nonce: Seq<u8>,
    sealed: Seq<u8>,
) -> Option<Seq<u8>>;

/// Whether the cipher takes a plaintext of `len` bytes.
pub open spec fn chacha20_takes(len: nat) -> bool {
    len <= MAX_PLAINTEXT_LEN
}

/// Calls `encrypt` of `chacha20poly1305::ChaCha20Poly1305`, made by `new`
/// for `key`. The call fails only for a plaintext of `u32::MAX` blocks of
/// 64 bytes or more, which `requires` leaves out with room to spare. The
/// contract names the output, which is 16 bytes longer than the plaintext,
/// and states that the cipher opens what it sealed.
#[verifier::external_body]
fn chacha20poly1305_seal(key: &[u8], nonce: &[u8], plain: &[u8]) -> (r: Option<Vec<u8>>)
    requires
        key@.len() == KEY_LEN,
        nonce@.len() == NONCE_LEN,
        plain@.len() <= MAX_PLAINTEXT_LEN,
    ensures
        r is Some,
        r matches Some(sealed) ==> {
            &&& sealed@ == chacha20poly1305_sealed(key@, nonce@, plain@)
            &&& sealed@.len() == plain@.len() + TAG_LEN
            &&& chacha20poly1305_opened(key@, nonce@, sealed@) == Some(plain@)
        },
{
    let cipher = chacha20poly1305::ChaCha20Poly1305::new(chacha20poly1305::Key::from_slice(key));
    cipher.encrypt(chacha20poly1305::Nonce::from_slice(nonce), plain).ok()
}

/// Calls `decrypt` of `chacha20poly1305::ChaCha20Poly1305`, made by `new`
/// for `key`. The contract names the outcome.
#[verifier::external_body]
fn chacha20poly1305_open(key: &[u8], nonce: &[u8], sealed: &[u8]) -> (r: Option<Vec<u8>>)
    requires
        key@.len() == KEY_LEN,
        nonce@.len() == NONCE_LEN,
        sealed@.len() <= MAX_PLAINTEXT_LEN + TAG_LEN,
    ensures
        match r {
            Some(plain) => chacha20poly1305_opened(key@, nonce@, sealed@) == Some(plain@),
            None => chacha20poly1305_opened(key@, nonce@, sealed@) is None,
        },
{
    let cipher = chacha20poly1305::ChaCha20Poly1305::new(chacha20poly1305::Key::from_slice(key));
    cipher.decrypt(chacha20poly1305::Nonce::from_slice(nonce), sealed).ok()
}

/// What a ChaCha20-Poly1305 block with `key` recovers from `data`, laid out
/// as nonce, ciphertext, tag.
pub open spec fn chacha20_block_opened(key: Seq<u8>, data: Seq<u8>) -> Option<Seq<u8>> {
    if data.len() < NONCE_LEN + TAG_LEN || data.len() > MAX_PLAINTEXT_LEN + NONCE_LEN + TAG_LEN {
        None
    } else {
        chacha20poly1305_opened(
            key,
            data.subrange(0, NONCE_LEN as int),
            data.subrange(NONCE_LEN as int, data.len() as int),
        )
    }
}

/// ChaCha20-Poly1305 with a 32-byte key. Each encryption draws a fresh
/// 12-byte nonce; the output is the nonce, the ciphertext and the 16-byte
/// tag.
pub struct ChaCha20Poly1305Block {
    key: Vec<u8>,
}

impl ChaCha20Poly1305Block {
    #[verifier::type_invariant]
    spec fn key_fits(&self) -> bool {
        self.key@.len() == KEY_LEN
    }

    /// The key bytes.
    pub closed spec fn key(&self) -> Seq<u8> {
        self.key@
    }

    /// Makes the cipher for a 32-byte key.
    pub fn new(key: &[u8; 32]) -> (r: Self)
        ensures
            r.key() == key@,
    {
        Self { key: slice_to_vec(key.as_slice()) }
    }

    /// Makes the cipher for a string: its bytes, cut or zero-padded to 32.
    pub fn from_string(s: &str) -> (r: Self)
        ensures
            r.key() == derived_key(s.spec_bytes()),
    {
        Self { key: derive_key(s.as_bytes()) }
    }

    /// Encrypts `data` in place with the nonce `nonce`: the buffer becomes
    /// the nonce, the ciphertext and the tag. This is all of an encryption
    /// but the drawing of the nonce. It fails for a plaintext that the
    /// cipher does not take, and only then; the buffer is unchanged then.
    pub fn seal_with_nonce(&self, nonce: &[u8], data: &mut Vec<u8>) -> (r: Result<(), CipherError>)
        requires
            nonce@.len() == NONCE_LEN,
        ensures
            r is Ok <==> self.accepts(old(data)@),
            r is Ok ==> final(data)@ == nonce@ + chacha20poly1305_sealed(self.key(), nonce@, old(data)@),
            r is Ok ==> self.opened(final(data)@) == Some(old(data)@),
            r is Ok ==> final(data)@.len() == self.sealed_len(old(data)@.len()),
            r matches Err(e) ==> e == CipherError::EncryptionFailed && final(data)@ == old(data)@,
    {
        proof {
            use_type_invariant(self);
        }
        if data.len() > MAX_PLAINTEXT_LEN {
            return Err(CipherError::EncryptionFailed);
        }
        match chacha20poly1305_seal(self.key.as_slice(), nonce, data.as_slice()) {
            Some(sealed) => {
                data.clear();
                data.extend_from_slice(nonce);
                data.extend_from_slice(sealed.as_slice());
                proof {
                    assert(data@ =~= nonce@ + sealed@);
                    assert(data@.subrange(0, NONCE_LEN as int) =~= nonce@);
                    assert(data@.subrange(NONCE_LEN as int, data@.len() as int) =~= sealed@);
                }
                Ok(())
            },
            None => Err(CipherError::EncryptionFailed),
        }
    }
}

impl Block for ChaCha20Poly1305Block {
    open spec fn opened(&self, data: Seq<u8>) -> Option<Seq<u8>> {
        chacha20_block_opened(self.key(), data)
    }

    open spec fn accepts(&self, plain: Seq<u8>) -> bool {
        chacha20_takes(plain.len())
    }

    open spec fn sealed_len(&self, plain_len: nat) -> nat {
        plain_len + NONCE_LEN as nat + TAG_LEN as nat
    }

    open spec fn deterministic(&self) -> bool {
        false
    }

    fn encrypt(&self, data: &mut Vec<u8>) -> (r: Result<(), CipherError>)
        ensures
            r matches Err(e) ==> e == CipherError::EncryptionFailed || e
                == CipherError::RandomnessFailed,
            r matches Err(e) ==> (e == CipherError::EncryptionFailed) == !self.accepts(old(data)@),
            r is Ok ==> exists|nonce: Seq<u8>|
                nonce.len() == NONCE_LEN && final(data)@ == nonce + #[trigger] chacha20poly1305_sealed(
                    self.key(),
                    nonce,
                    old(data)@,
                ),
    {
        if data.len() > MAX_PLAINTEXT_LEN {
            return Err(CipherError::EncryptionFailed);
        }
        match fresh_nonce() {
            Some(nonce) => self.seal_with_nonce(nonce.as_slice(), data),
            None => Err(CipherError::RandomnessFailed),
        }
    }

    fn decrypt(&self, data: &mut Vec<u8>) -> (r: Result<(), CipherError>)
        ensures
            r matches Err(e) ==> (e == CipherError::TooShort) == (old(data)@.len() < NONCE_LEN
                + TAG_LEN),
            r matches Err(e) ==> e == CipherError::TooShort || e == CipherError::DecryptionFailed,
    {
        proof {
            use_type_invariant(self);
        }
        if data.len() < NONCE_LEN + TAG_LEN {
            return Err(CipherError::TooShort);
        }
        if data.len() > MAX_PLAINTEXT_LEN + NONCE_LEN + TAG_LEN {
            return Err(CipherError::DecryptionFailed);
        }
        let nonce = slice_to_vec(vstd::slice::slice_subrange(data.as_slice(), 0, NONCE_LEN));
        let sealed = slice_to_vec(
            vstd::slice::slice_subrange(data.as_slice(), NONCE_LEN, data.len()),
        );
        match chacha20poly1305_open(self.key.as_slice(), nonce.as_slice(), sealed.as_slice()) {
            Some(plain) => {
                data.clear();
                data.extend_from_slice(plain.as_slice());
                assert(data@ =~= plain@);
                Ok(())
            },
            None => Err(CipherError::DecryptionFailed),
        }
    }
}

} // verus!
