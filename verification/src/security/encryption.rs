//! Sealing, opening and signing messages.
//!
//! The ciphers and the HMAC are those of the `ring` crate, the text form of
//! a signature that of the `base64` crate. How a sealed message is framed,
//! and what is asked of the two crates, is decided here.

use base64::Engine;
use ring::aead;
use ring::hmac;
use ring::rand::SecureRandom;
use vstd::prelude::*;
use vstd::string::*;

verus! {

#[verifier::external_type_specification]
#[verifier::external_body]
pub struct ExUnspecified(ring::error::Unspecified);

/// The length of the tag that sealing adds, in bytes.
pub const TAG_LEN: usize = 16;

/// The length of a nonce, in bytes.
pub const NONCE_LEN: usize = 12;

/// The length of a key, in bytes.
pub const KEY_LEN: usize = 32;

/// The length of an HMAC-SHA256 tag, in bytes.
pub const SIGNATURE_LEN: usize = 32;

/// The most bytes that are signed at once: 2^60.
pub open spec fn input_limit() -> nat {
    0x1000_0000_0000_0000
}

/// The cipher.
#[derive(Debug, Clone, Copy, PartialEq, Eq, Structural)]
pub enum EncryptionAlgorithm {
    AES256GCM,
    ChaCha20,
}

/// What sealing `data` under `key` and `nonce` gives, the tag at the end:
/// the result of `LessSafeKey::seal_in_place_append_tag` without
/// associated data, with AES-256-GCM or, where `chacha` holds, with
/// ChaCha20-Poly1305; nothing where it fails.
pub uninterp spec fn sealed(chacha: bool, key: Seq<u8>, nonce: Seq<u8>, data: Seq<u8>) -> Option<
    Seq<u8>,
>;

/// What the buffer holds after opening `data` under `key` and `nonce`:
/// the state in which `LessSafeKey::open_in_place` without associated data
/// leaves it, the plain text first; nothing where it fails.
pub uninterp spec fn opened(chacha: bool, key: Seq<u8>, nonce: Seq<u8>, data: Seq<u8>) -> Option<
    Seq<u8>,
>;

/// The HMAC-SHA256 of `data` under `key`: the result of `hmac::sign`.
pub uninterp spec fn hmac_tag(key: Seq<u8>, data: Seq<u8>) -> Seq<u8>;

/// `bytes` in base64 with the standard alphabet and padding: the result of
/// `Engine::encode` of the standard engine.
pub uninterp spec fn base64_text(bytes: Seq<u8>) -> Seq<char>;

/// The bytes that `text` writes in base64 with the standard alphabet and
/// padding, where it writes any: the result of `Engine::decode` of the
/// standard engine.
pub uninterp spec fn base64_bytes(text: Seq<char>) -> Option<Seq<u8>>;

impl EncryptionAlgorithm {
    /// The cipher is ChaCha20-Poly1305.
    pub open spec fn is_chacha(self) -> bool {
        self == EncryptionAlgorithm::ChaCha20
    }

    /// `Algorithm::tag_len` of the cipher: 16 for both ciphers.
    #[verifier::external_body]
    fn cipher_tag_len(&self) -> (n: usize)
        ensures
            n == TAG_LEN,
    {
        match self {
            EncryptionAlgorithm::AES256GCM => aead::AES_256_GCM.tag_len(),
            EncryptionAlgorithm::ChaCha20 => aead::CHACHA20_POLY1305.tag_len(),
        }
    }

    /// The length of the tag that sealing with the cipher adds, in bytes.
    pub fn tag_len(&self) -> (n: usize)
        ensures
            n == TAG_LEN,
    {
        self.cipher_tag_len()
    }

    /// `Algorithm::nonce_len` of the cipher: 12 for both ciphers.
    #[verifier::external_body]
    fn nonce_len(&self) -> (n: usize)
        ensures
            n == NONCE_LEN,
    {
        match self {
            EncryptionAlgorithm::AES256GCM => aead::AES_256_GCM.nonce_len(),
            EncryptionAlgorithm::ChaCha20 => aead::CHACHA20_POLY1305.nonce_len(),
        }
    }

    /// As many zero bytes as a tag is long.
    pub fn zero_array(&self) -> (v: Vec<u8>)
        ensures
            v@ == Seq::new(TAG_LEN as nat, |i: int| 0u8),
    {
        let n = self.tag_len();
        let mut v: Vec<u8> = Vec::new();
        let mut i: usize = 0;
        while i < n
            invariant
                i <= n,
                v@ == Seq::new(i as nat, |j: int| 0u8),
            decreases n - i,
        {
            v.push(0);
            i += 1;
            assert(v@ =~= Seq::new(i as nat, |j: int| 0u8));
        }
        v
    }
}

/// `SecureRandom::fill` of the random source of the system on twelve
/// bytes. Nothing is claimed of the bytes.
#[verifier::external_body]
fn random_nonce() -> Result<[u8; 12], ring::error::Unspecified> {
    let mut nonce = [0u8; 12];
    ring::rand::SystemRandom::new().fill(&mut nonce)?;
    Ok(nonce)
}

/// What the answer `outcome` of the random source comes to: the bytes it
/// gave, or the error that stands for every failure of the crate behind
/// it.
pub fn nonce_outcome(outcome: Result<[u8; 12], ring::error::Unspecified>) -> (r: Result<
    [u8; 12],
    EncryptionError,
>)
    ensures
        match outcome {
            Ok(nonce) => r == Ok::<[u8; 12], EncryptionError>(nonce),
            Err(_) => r == Err::<[u8; 12], EncryptionError>(EncryptionError::Unspecified),
        },
{
    match outcome {
        Ok(nonce) => Ok(nonce),
        Err(_) => Err(EncryptionError::Unspecified),
    }
}

/// `LessSafeKey::seal_in_place_append_tag` on a copy of `data`, under the
/// key that `UnboundKey::new` makes of `key` for the cipher, with the nonce
/// `nonce` and no associated data. What it returns is what [`sealed`]
/// names; it is the input and a tag of 16 bytes after it.
#[verifier::external_body]
fn seal(algorithm: EncryptionAlgorithm, key: &Vec<u8>, nonce: &[u8; 12], data: &Vec<u8>) -> (r:
    Result<Vec<u8>, ring::error::Unspecified>)
    ensures
        match r {
            Ok(out) => sealed(algorithm.is_chacha(), key@, nonce@, data@) == Some(out@)
                && out.len() == data.len() + TAG_LEN,
            Err(_) => sealed(algorithm.is_chacha(), key@, nonce@, data@) is None,
        },
{
    let cipher = match algorithm {
        EncryptionAlgorithm::AES256GCM => &aead::AES_256_GCM,
        EncryptionAlgorithm::ChaCha20 => &aead::CHACHA20_POLY1305,
    };
    let key = aead::LessSafeKey::new(aead::UnboundKey::new(cipher, key)?);
    let mut in_out = data.clone();
    let nonce = aead::Nonce::assume_unique_for_key(*nonce);
    key.seal_in_place_append_tag(nonce, aead::Aad::empty(), &mut in_out)?;
    Ok(in_out)
}

/// `LessSafeKey::open_in_place` on a copy of `data`, under the key that
/// `UnboundKey::new` makes of `key` for the cipher, with the nonce that
/// `Nonce::try_assume_unique_for_key` makes of `nonce` and no associated
/// data. It returns the whole buffer, which is what [`opened`] names; the
/// buffer keeps its length, and data shorter than a tag is never opened.
#[verifier::external_body]
fn open(algorithm: EncryptionAlgorithm, key: &Vec<u8>, nonce: &Vec<u8>, data: &Vec<u8>) -> (r:
    Result<Vec<u8>, ring::error::Unspecified>)
    ensures
        match r {
            Ok(out) => opened(algorithm.is_chacha(), key@, nonce@, data@) == Some(out@)
                && out.len() == data.len() && out.len() >= TAG_LEN,
            Err(_) => opened(algorithm.is_chacha(), key@, nonce@, data@) is None,
        },
{
    let cipher = match algorithm {
        EncryptionAlgorithm::AES256GCM => &aead::AES_256_GCM,
        EncryptionAlgorithm::ChaCha20 => &aead::CHACHA20_POLY1305,
    };
    let key = aead::LessSafeKey::new(aead::UnboundKey::new(cipher, key)?);
    let mut in_out = data.clone();
    let nonce = aead::Nonce::try_assume_unique_for_key(nonce)?;
    key.open_in_place(nonce, aead::Aad::empty(), &mut in_out)?;
    Ok(in_out)
}

/// `hmac::sign` with HMAC-SHA256 under the key that `hmac::Key::new` makes
/// of `key`. The tag is what [`hmac_tag`] names, and 32 bytes long.
#[verifier::external_body]
fn hmac_sha256(key: &[u8], data: &[u8]) -> (tag: Vec<u8>)
    requires
        data@.len() <= input_limit(),
    ensures
        tag@ == hmac_tag(key@, data@),
        tag.len() == SIGNATURE_LEN,
{
    let key = hmac::Key::new(hmac::HMAC_SHA256, key);
    hmac::sign(&key, data).as_ref().to_vec()
}

/// `hmac::verify` with HMAC-SHA256 under the key that `hmac::Key::new`
/// makes of `key`: whether the HMAC of `data` equals `tag`.
#[verifier::external_body]
fn hmac_sha256_verify(key: &[u8], data: &[u8], tag: &Vec<u8>) -> (ok: bool)
    requires
        data@.len() <= input_limit(),
    ensures
        ok == (tag@ == hmac_tag(key@, data@)),
{
    let key = hmac::Key::new(hmac::HMAC_SHA256, key);
    hmac::verify(&key, data, tag).is_ok()
}

/// `Engine::encode` of the standard engine, for bytes few enough that the
/// length of their text, four characters for every three bytes, can be
/// counted. The text is what [`base64_text`] names, and decoding it gives
/// the bytes back.
#[verifier::external_body]
fn base64_encode(bytes: &Vec<u8>) -> (text: String)
    requires
        (bytes.len() / 3 + 1) * 4 <= usize::MAX,
    ensures
        text@ == base64_text(bytes@),
        base64_bytes(text@) == Some(bytes@),
{
    base64::engine::general_purpose::STANDARD.encode(bytes)
}

/// `Engine::decode` of the standard engine. The bytes are what
/// [`base64_bytes`] names.
#[verifier::external_body]
fn base64_decode(text: &str) -> (r: Option<Vec<u8>>)
    ensures
        match r {
            Some(bytes) => base64_bytes(text@) == Some(bytes@),
            None => base64_bytes(text@) is None,
        },
{
    base64::engine::general_purpose::STANDARD.decode(text).ok()
}

/// Why a message could not be sealed or opened, or a key not be taken.
#[derive(Debug, Clone, Copy, PartialEq, Eq, Structural)]
pub enum EncryptionError {
    /// The key for AES-256-GCM is not 32 bytes long.
    AesKeyLength,
    /// The key for ChaCha20-Poly1305 is not 32 bytes long.
    ChaChaKeyLength,
    /// The sealed message is shorter than a nonce.
    Truncated,
    /// The cipher or the random source failed.
    Unspecified,
}

impl EncryptionError {
    /// The error in words.
    pub fn message(&self) -> (r: &'static str)
        ensures
            r@ == match *self {
                EncryptionError::AesKeyLength => "AES key length must be 32 bytes (256 bits)"@,
                EncryptionError::ChaChaKeyLength =>
                    "ChaCha20 key length must be 32 bytes (256 bits)"@,
                EncryptionError::Truncated => "sealed message is shorter than a nonce"@,
                EncryptionError::Unspecified => "ring::error::Unspecified"@,
            },
    {
        match self {
            EncryptionError::AesKeyLength => "AES key length must be 32 bytes (256 bits)",
            EncryptionError::ChaChaKeyLength => "ChaCha20 key length must be 32 bytes (256 bits)",
            EncryptionError::Truncated => "sealed message is shorter than a nonce",
            EncryptionError::Unspecified => "ring::error::Unspecified",
        }
    }
}

/// A key for sealing and a password for signing.
pub struct Encryption {
    key: Vec<u8>,
    auth_password: String,
    algorithm: EncryptionAlgorithm,
}

/// What an [`Encryption`] holds.
pub struct EncryptionView {
    pub key: Seq<u8>,
    pub auth_password: Seq<char>,
    pub algorithm: EncryptionAlgorithm,
}

impl View for Encryption {
    type V = EncryptionView;

    closed spec fn view(&self) -> EncryptionView {
        EncryptionView {
            key: self.key@,
            auth_password: self.auth_password@,
            algorithm: self.algorithm,
        }
    }
}

/// As many zero bytes as a tag is long.
pub open spec fn tag_room() -> Seq<u8> {
    Seq::new(TAG_LEN as nat, |i: int| 0u8)
}

impl EncryptionView {
    /// The sealed form of `data` under the nonce `nonce`: the nonce, then
    /// what sealing `data` and the room for a tag gives; nothing where
    /// sealing fails.
    pub open spec fn encrypted(self, nonce: Seq<u8>, data: Seq<u8>) -> Option<Seq<u8>> {
        match sealed(self.algorithm.is_chacha(), self.key, nonce, data + tag_room()) {
            Some(body) => Some(nonce + body),
            None => None,
        }
    }

    /// What opening the sealed message `data` gives: the first 12 bytes are
    /// the nonce, the rest is opened, and the last 16 bytes of the opened
    /// buffer are dropped.
    pub open spec fn decrypted(self, data: Seq<u8>) -> Result<Seq<u8>, EncryptionError> {
        if data.len() < NONCE_LEN {
            Err(EncryptionError::Truncated)
        } else {
            match opened(
                self.algorithm.is_chacha(),
                self.key,
                data.take(NONCE_LEN as int),
                data.skip(NONCE_LEN as int),
            ) {
                Some(buffer) => Ok(buffer.take(buffer.len() - TAG_LEN)),
                None => Err(EncryptionError::Unspecified),
            }
        }
    }

    /// The signature of `data`: its HMAC under the password, in base64.
    pub open spec fn signature(self, data: Seq<u8>) -> Seq<char> {
        base64_text(hmac_tag(vstd::utf8::encode_utf8(self.auth_password), data))
    }

    /// `signature` is a signature of `data`: it writes, in base64, the HMAC
    /// of `data` under the password.
    pub open spec fn accepts(self, data: Seq<u8>, signature: Seq<char>) -> bool {
        base64_bytes(signature) == Some(
            hmac_tag(vstd::utf8::encode_utf8(self.auth_password), data),
        )
    }
}

impl Encryption {
    /// The key `key` for the cipher `algorithm` and the password
    /// `auth_password` for signing; an error where the key is not 32 bytes
    /// long.
    pub fn new(key: String, auth_password: String, algorithm: EncryptionAlgorithm) -> (r: Result<
        Self,
        EncryptionError,
    >)
        ensures
            match r {
                Ok(e) => vstd::utf8::encode_utf8(key@).len() == KEY_LEN && e@ == (EncryptionView {
                    key: vstd::utf8::encode_utf8(key@),
                    auth_password: auth_password@,
                    algorithm,
                }),
                Err(e) => vstd::utf8::encode_utf8(key@).len() != KEY_LEN && e == match algorithm {
                    EncryptionAlgorithm::AES256GCM => EncryptionError::AesKeyLength,
                    EncryptionAlgorithm::ChaCha20 => EncryptionError::ChaChaKeyLength,
                },
            },
    {
        let bytes = key.as_str().as_bytes_vec();
        if bytes.len() != 32 {
            return Err(
                match algorithm {
                    EncryptionAlgorithm::AES256GCM => EncryptionError::AesKeyLength,
                    EncryptionAlgorithm::ChaCha20 => EncryptionError::ChaChaKeyLength,
                },
            );
        }
        Ok(Encryption { key: bytes, auth_password, algorithm })
    }

    /// `data` sealed under the nonce `nonce`.
    pub fn encrypt_with(&self, nonce: &[u8; 12], data: &[u8]) -> (r: Result<
        Vec<u8>,
        EncryptionError,
    >)
        ensures
            match self@.encrypted(nonce@, data@) {
                Some(out) => r matches Ok(v) && v@ == out,
                None => r == Err::<Vec<u8>, EncryptionError>(EncryptionError::Unspecified),
            },
    {
        let mut in_out: Vec<u8> = Vec::new();
        let mut i: usize = 0;
        while i < data.len()
            invariant
                i <= data.len(),
                in_out@ == data@.take(i as int),
            decreases data.len() - i,
        {
            in_out.push(data[i]);
            i += 1;
        }
        assert(data@.take(data.len() as int) =~= data@);
        let mut room = self.algorithm.zero_array();
        in_out.append(&mut room);
        assert(in_out@ =~= data@ + tag_room());
        match seal(self.algorithm, &self.key, nonce, &in_out) {
            Ok(body) => {
                let mut out: Vec<u8> = Vec::new();
                let mut k: usize = 0;
                while k < 12
                    invariant
                        k <= 12,
                        out@ == nonce@.take(k as int),
                    decreases 12 - k,
                {
                    out.push(nonce[k]);
                    k += 1;
                }
                assert(nonce@.take(12) =~= nonce@);
                let mut body = body;
                out.append(&mut body);
                Ok(out)
            },
            Err(_) => Err(EncryptionError::Unspecified),
        }
    }

    /// `data` sealed under a random nonce.
    pub fn encrypt(&self, data: &[u8]) -> (r: Result<Vec<u8>, EncryptionError>)
        ensures
            r matches Ok(v) ==> exists|nonce: Seq<u8>| #[trigger]
                self@.encrypted(nonce, data@) == Some(v@),
            r matches Err(e) ==> e == EncryptionError::Unspecified,
    {
        let nonce = match self.generate_nonce() {
            Ok(n) => n,
            Err(e) => {
                return Err(e);
            },
        };
        self.encrypt_with(&nonce, data)
    }

    /// What opening the sealed message `data` gives.
    pub fn decrypt(&self, data: &[u8]) -> (r: Result<Vec<u8>, EncryptionError>)
        ensures
            match self@.decrypted(data@) {
                Ok(out) => r matches Ok(v) && v@ == out,
                Err(e) => r == Err::<Vec<u8>, EncryptionError>(e),
            },
    {
        let nonce_size = self.algorithm.nonce_len();
        if data.len() < nonce_size {
            return Err(EncryptionError::Truncated);
        }
        let mut nonce: Vec<u8> = Vec::new();
        let mut ciphertext: Vec<u8> = Vec::new();
        let mut i: usize = 0;
        while i < data.len()
            invariant
                i <= data.len(),
                nonce_size == NONCE_LEN,
                nonce_size <= data.len(),
                nonce@ == data@.take(if i < nonce_size {
                    i as int
                } else {
                    nonce_size as int
                }),
                ciphertext@ == data@.subrange(
                    nonce_size as int,
                    if i < nonce_size {
                        nonce_size as int
                    } else {
                        i as int
                    },
                ),
            decreases data.len() - i,
        {
            if i < nonce_size {
                nonce.push(data[i]);
            } else {
                ciphertext.push(data[i]);
            }
            i += 1;
        }
        assert(ciphertext@ =~= data@.skip(NONCE_LEN as int));
        match open(self.algorithm, &self.key, &nonce, &ciphertext) {
            Ok(buffer) => {
                let mut in_out = buffer;
                let tag_len = self.algorithm.tag_len();
                let keep = in_out.len() - tag_len;
                in_out.truncate(keep);
                Ok(in_out)
            },
            Err(_) => Err(EncryptionError::Unspecified),
        }
    }

    /// Twelve random bytes; where the random source fails, the error that
    /// stands for every failure of the crate behind it.
    pub fn generate_nonce(&self) -> (r: Result<[u8; 12], EncryptionError>)
        ensures
            r matches Err(e) ==> e == EncryptionError::Unspecified,
    {
        nonce_outcome(random_nonce())
    }

    /// The signature of `data`.
    pub fn sign(&self, data: &str) -> (out: String)
        requires
            data.spec_bytes().len() <= input_limit(),
        ensures
            out@ == self@.signature(data.spec_bytes()),
            self@.accepts(data.spec_bytes(), out@),
    {
        let tag = hmac_sha256(self.auth_password.as_str().as_bytes(), data.as_bytes());
        base64_encode(&tag)
    }

    /// Whether `signature` is a signature of `data`.
    pub fn verify(&self, data: &str, signature: &str) -> (ok: bool)
        requires
            data.spec_bytes().len() <= input_limit(),
        ensures
            ok == self@.accepts(data.spec_bytes(), signature@),
    {
        let signature_bytes = match base64_decode(signature) {
            Some(bytes) => bytes,
            None => {
                return false;
            },
        };
        hmac_sha256_verify(
            self.auth_password.as_str().as_bytes(),
            data.as_bytes(),
            &signature_bytes,
        )
    }
}

} // verus!
