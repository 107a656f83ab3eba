//! Ciphers for frame payloads: AES-256-GCM, ChaCha20-Poly1305, XOR
//! obfuscation and a pass-through.

pub mod aes256;
pub mod chacha20;
pub mod plain;
pub mod xor;

use vstd::prelude::*;
use vstd::string::*;
use vstd::utf8::encode_utf8;
use rand::RngCore;
use crate::crypto::aes256::Aes256Block;
use crate::crypto::chacha20::ChaCha20Poly1305Block;
use crate::crypto::plain::PlainBlock;
use crate::crypto::xor::XorBlock;
use crate::crypto::xor::xor_with;
use crate::utils::text::begins_with;
use crate::utils::text::has_prefix;
use crate::utils::text::tail_from;

verus! {

/// Why a cipher refused a buffer.
#[derive(Clone, Copy, Debug, PartialEq, Eq, Structural)]
pub enum CipherError {
    /// The buffer is shorter than a nonce and a tag.
    TooShort,
    /// The cipher does not take a plaintext of this length.
    EncryptionFailed,
    /// The operating system gave no random bytes for a nonce.
    RandomnessFailed,
    /// The tag does not match the ciphertext.
    DecryptionFailed,
}

/// Length of an AEAD key in bytes.
pub const KEY_LEN: usize = 32;

/// Length of an AEAD nonce in bytes.
pub const NONCE_LEN: usize = 12;

/// Length of an AEAD authentication tag in bytes.
pub const TAG_LEN: usize = 16;

/// The longest plaintext that the AEAD ciphers of this crate take: far
/// more than a frame holds, and well inside what the ciphers allow.
pub const MAX_PLAINTEXT_LEN: usize = 0x7fff_ffff;

/// A symmetric cipher that works on a buffer in place.
///
/// `opened` says what `decrypt` makes of a buffer, `accepts` which
/// plaintexts `encrypt` takes, and `sealed_len` how long its output is.
/// Whatever `encrypt` writes, `decrypt` turns it back into the plaintext.
/// A cipher that is `deterministic` encrypts every plaintext that it
/// accepts; one that draws random numbers may fail when there are none.
pub trait Block: Send + Sync {
    /// The plaintext that `decrypt` recovers from `data`; `None` where it
    /// rejects `data`.
    spec fn opened(&self, data: Seq<u8>) -> Option<Seq<u8>>;

    /// Whether `encrypt` takes the plaintext `plain`.
    spec fn accepts(&self, plain: Seq<u8>) -> bool;

    /// The length of what `encrypt` writes for a plaintext of `plain_len`
    /// bytes.
    spec fn sealed_len(&self, plain_len: nat) -> nat;

    /// Whether `encrypt` depends on nothing but the plaintext.
    spec fn deterministic(&self) -> bool;

    /// Encrypts `data` in place. On failure `data` is unchanged.
    fn encrypt(&self, data: &mut Vec<u8>) -> (r: Result<(), CipherError>)
        ensures
            r is Ok ==> self.accepts(old(data)@),
            self.deterministic() && self.accepts(old(data)@) ==> r is Ok,
            r is Ok ==> self.opened(final(data)@) == Some(old(data)@),
            r is Ok ==> final(data)@.len() == self.sealed_len(old(data)@.len()),
            r is Err ==> final(data)@ == old(data)@,
    ;

    /// Decrypts `data` in place. On failure `data` is unchanged.
    fn decrypt(&self, data: &mut Vec<u8>) -> (r: Result<(), CipherError>)
        ensures
            r is Ok <==> self.opened(old(data)@) is Some,
            r is Ok ==> final(data)@ == self.opened(old(data)@)->0,
            r is Err ==> final(data)@ == old(data)@,
    ;
}

/// The key of an AEAD cipher made from key material of any length: the
/// first 32 bytes, filled up with zeros.
pub open spec fn derived_key(material: Seq<u8>) -> Seq<u8> {
    Seq::new(
        KEY_LEN as nat,
        |i: int|
            if i < material.len() {
                material[i]
            } else {
                0u8
            },
    )
}

/// Cuts or zero-pads `material` to the 32 bytes of an AEAD key.
pub fn derive_key(material: &[u8]) -> (key: Vec<u8>)
    ensures
        key@ == derived_key(material@),
{
    let mut key: Vec<u8> = Vec::new();
    let mut i: usize = 0;
    while i < KEY_LEN
        invariant
            i <= KEY_LEN,
            key@.len() == i,
            forall|j: int|
                0 <= j < i ==> key@[j] == (if j < material@.len() {
                    material@[j]
                } else {
                    0u8
                }),
        decreases KEY_LEN - i,
    {
        if i < material.len() {
            key.push(material[i]);
        } else {
            key.push(0);
        }
        i += 1;
    }
    assert(key@ =~= derived_key(material@));
    key
}

/// Draws a nonce from the operating system's random number generator, by
/// `try_fill_bytes` of `OsRng`. The generator may fail, which gives `None`.
/// Nothing is claimed of the bytes but their number.
#[verifier::external_body]
pub(crate) fn fresh_nonce() -> (r: Option<Vec<u8>>)
    ensures
        r matches Some(nonce) ==> nonce@.len() == NONCE_LEN,
{
    let mut nonce = [0u8; 12];
    match aes_gcm::aead::OsRng.try_fill_bytes(&mut nonce) {
        Ok(()) => Some(nonce.to_vec()),
        Err(_) => None,
    }
}

/// Which cipher to use, and its key material.
#[derive(Debug, Clone)]
pub enum CryptoConfig {
    /// AES-256-GCM, keyed by the string cut or zero-padded to 32 bytes.
    Aes256(String),
    /// ChaCha20-Poly1305, keyed by the string cut or zero-padded to 32 bytes.
    ChaCha20Poly1305(String),
    /// No encryption.
    Plain,
    /// XOR with the bytes of the string, which must not be empty.
    Xor(String),
}

impl CryptoConfig {
    /// Whether a cipher can be made from this configuration.
    pub open spec fn valid(&self) -> bool {
        self matches CryptoConfig::Xor(key) ==> encode_utf8(key@).len() > 0
    }

    /// What the configured cipher recovers from `data`.
    pub open spec fn opened(&self, data: Seq<u8>) -> Option<Seq<u8>> {
        match self {
            CryptoConfig::Aes256(key) => aes256::aes256_block_opened(
                derived_key(encode_utf8(key@)),
                data,
            ),
            CryptoConfig::ChaCha20Poly1305(key) => chacha20::chacha20_block_opened(
                derived_key(encode_utf8(key@)),
                data,
            ),
            CryptoConfig::Plain => Some(data),
            CryptoConfig::Xor(key) => Some(xor_with(encode_utf8(key@), data)),
        }
    }

    /// Which plaintexts the configured cipher takes.
    pub open spec fn accepts(&self, plain: Seq<u8>) -> bool {
        match self {
            CryptoConfig::Aes256(_) => aes256::aes256_takes(plain.len()),
            CryptoConfig::ChaCha20Poly1305(_) => chacha20::chacha20_takes(plain.len()),
            CryptoConfig::Plain => true,
            CryptoConfig::Xor(_) => true,
        }
    }

    /// Whether the configured cipher draws no random numbers.
    pub open spec fn deterministic(&self) -> bool {
        self is Plain || self is Xor
    }

    /// How long the configured cipher's output is for `plain_len` bytes.
    pub open spec fn sealed_len(&self, plain_len: nat) -> nat {
        match self {
            CryptoConfig::Aes256(_) => plain_len + NONCE_LEN as nat + TAG_LEN as nat,
            CryptoConfig::ChaCha20Poly1305(_) => plain_len + NONCE_LEN as nat + TAG_LEN as nat,
            CryptoConfig::Plain => plain_len,
            CryptoConfig::Xor(_) => plain_len,
        }
    }
}

/// Why a cipher setting was not understood.
#[derive(Clone, Copy, Debug, PartialEq, Eq, Structural)]
pub enum CryptoConfigError {
    /// The setting is none of `plain`, `aes256:<key>`, `chacha20:<key>` and
    /// `xor:<key>`.
    UnknownCipher,
    /// The XOR cipher needs a key.
    EmptyKey,
}

/// What a cipher setting means.
pub ghost enum CryptoSetting {
    Plain,
    Aes256 { key: Seq<char> },
    ChaCha20 { key: Seq<char> },
    Xor { key: Seq<char> },
    Unknown,
}

/// What the cipher setting `text` means: `plain` stands for itself, and a
/// keyed cipher is named before a colon, with everything behind the colon
/// as its key.
pub open spec fn crypto_setting(text: Seq<char>) -> CryptoSetting {
    if text == "plain"@ {
        CryptoSetting::Plain
    } else if begins_with(text, "aes256:"@) {
        CryptoSetting::Aes256 { key: text.subrange("aes256:"@.len() as int, text.len() as int) }
    } else if begins_with(text, "chacha20:"@) {
        CryptoSetting::ChaCha20 { key: text.subrange("chacha20:"@.len() as int, text.len() as int) }
    } else if begins_with(text, "xor:"@) {
        CryptoSetting::Xor { key: text.subrange("xor:"@.len() as int, text.len() as int) }
    } else {
        CryptoSetting::Unknown
    }
}

/// Reads a cipher setting: `plain`, `aes256:<key>`, `chacha20:<key>` or
/// `xor:<key>`. The key of the XOR cipher must not be empty.
pub fn parse_crypto_config(text: &str) -> (r: Result<CryptoConfig, CryptoConfigError>)
    ensures
        match crypto_setting(text@) {
            CryptoSetting::Plain => r matches Ok(CryptoConfig::Plain),
            CryptoSetting::Aes256 { key } => r matches Ok(CryptoConfig::Aes256(k)) && k@ == key,
            CryptoSetting::ChaCha20 { key } => r matches Ok(CryptoConfig::ChaCha20Poly1305(k))
                && k@ == key,
            CryptoSetting::Xor { key } => if encode_utf8(key).len() > 0 {
                r matches Ok(CryptoConfig::Xor(k)) && k@ == key
            } else {
                r == Err::<CryptoConfig, CryptoConfigError>(CryptoConfigError::EmptyKey)
            },
            CryptoSetting::Unknown => r == Err::<CryptoConfig, CryptoConfigError>(
                CryptoConfigError::UnknownCipher,
            ),
        },
        r matches Ok(cfg) ==> cfg.valid(),
{
    if has_prefix(text, "plain") && has_prefix("plain", text) {
        assert(text@ =~= "plain"@);
        return Ok(CryptoConfig::Plain);
    }
    assert(text@ != "plain"@) by {
        if text@ == "plain"@ {
            assert(text@.subrange(0, text@.len() as int) =~= text@);
        }
    }
    if has_prefix(text, "aes256:") {
        return Ok(CryptoConfig::Aes256(tail_from(text, "aes256:".unicode_len())));
    }
    if has_prefix(text, "chacha20:") {
        return Ok(CryptoConfig::ChaCha20Poly1305(tail_from(text, "chacha20:".unicode_len())));
    }
    if has_prefix(text, "xor:") {
        let key = tail_from(text, "xor:".unicode_len());
        if key.as_str().as_bytes().len() == 0 {
            return Err(CryptoConfigError::EmptyKey);
        }
        return Ok(CryptoConfig::Xor(key));
    }
    Err(CryptoConfigError::UnknownCipher)
}

/// One of the four ciphers, chosen when the program starts.
pub enum Cipher {
    Aes256(Aes256Block),
    ChaCha20Poly1305(ChaCha20Poly1305Block),
    Plain(PlainBlock),
    Xor(XorBlock),
}

impl Block for Cipher {
    open spec fn opened(&self, data: Seq<u8>) -> Option<Seq<u8>> {
        match self {
            Cipher::Aes256(block) => block.opened(data),
            Cipher::ChaCha20Poly1305(block) => block.opened(data),
            Cipher::Plain(block) => block.opened(data),
            Cipher::Xor(block) => block.opened(data),
        }
    }

    open spec fn accepts(&self, plain: Seq<u8>) -> bool {
        match self {
            Cipher::Aes256(block) => block.accepts(plain),
            Cipher::ChaCha20Poly1305(block) => block.accepts(plain),
            Cipher::Plain(block) => block.accepts(plain),
            Cipher::Xor(block) => block.accepts(plain),
        }
    }

    open spec fn sealed_len(&self, plain_len: nat) -> nat {
        match self {
            Cipher::Aes256(block) => block.sealed_len(plain_len),
            Cipher::ChaCha20Poly1305(block) => block.sealed_len(plain_len),
            Cipher::Plain(block) => block.sealed_len(plain_len),
            Cipher::Xor(block) => block.sealed_len(plain_len),
        }
    }

    open spec fn deterministic(&self) -> bool {
        match self {
            Cipher::Aes256(block) => block.deterministic(),
            Cipher::ChaCha20Poly1305(block) => block.deterministic(),
            Cipher::Plain(block) => block.deterministic(),
            Cipher::Xor(block) => block.deterministic(),
        }
    }

    fn encrypt(&self, data: &mut Vec<u8>) -> (r: Result<(), CipherError>) {
        match self {
            Cipher::Aes256(block) => block.encrypt(data),
            Cipher::ChaCha20Poly1305(block) => block.encrypt(data),
            Cipher::Plain(block) => block.encrypt(data),
            Cipher::Xor(block) => block.encrypt(data),
        }
    }

    fn decrypt(&self, data: &mut Vec<u8>) -> (r: Result<(), CipherError>) {
        match self {
            Cipher::Aes256(block) => block.decrypt(data),
            Cipher::ChaCha20Poly1305(block) => block.decrypt(data),
            Cipher::Plain(block) => block.decrypt(data),
            Cipher::Xor(block) => block.decrypt(data),
        }
    }
}

/// Makes the cipher that `cfg` describes.
pub fn new_block(cfg: &CryptoConfig) -> (block: Cipher)
    requires
        cfg.valid(),
    ensures
        forall|data: Seq<u8>| #[trigger] block.opened(data) == cfg.opened(data),
        forall|plain: Seq<u8>| #[trigger] block.accepts(plain) == cfg.accepts(plain),
        forall|n: nat| #[trigger] block.sealed_len(n) == cfg.sealed_len(n),
        block.deterministic() == cfg.deterministic(),
        match cfg {
            CryptoConfig::Aes256(_) => block is Aes256,
            CryptoConfig::ChaCha20Poly1305(_) => block is ChaCha20Poly1305,
            CryptoConfig::Plain => block is Plain,
            CryptoConfig::Xor(_) => block is Xor,
        },
{
    match cfg {
        CryptoConfig::Aes256(key) => Cipher::Aes256(Aes256Block::from_string(key.as_str())),
        CryptoConfig::ChaCha20Poly1305(key) => Cipher::ChaCha20Poly1305(
            ChaCha20Poly1305Block::from_string(key.as_str()),
        ),
        CryptoConfig::Xor(key) => Cipher::Xor(XorBlock::from_string(key.as_str())),
        CryptoConfig::Plain => Cipher::Plain(PlainBlock::new()),
    }
}

} // verus!
