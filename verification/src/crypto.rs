//! End-to-end encryption of messages with the key of their channel.
use chacha20poly1305::aead::{Aead, KeyInit};
use chacha20poly1305::{ChaCha20Poly1305, Key, Nonce};
use rand::RngCore;

use vstd::prelude::*;
use vstd::utf8::{decode_utf8, encode_utf8, valid_utf8};

verus! {

/// The number of bytes of a key.
pub const KEY_LEN: usize = 32;

/// The number of bytes of a nonce.
pub const NONCE_LEN: usize = 12;

/// The number of bytes from which a message is too long to be encrypted.
pub const TOO_LONG: u64 = 274_877_906_880;

/// The number of bytes by which a ciphertext is longer than its message.
pub const TAG_LEN: u64 = 16;

/// The key of a channel.
#[derive(Debug, Clone, Copy, PartialEq, Eq)]
pub struct ChannelKey {
    pub key: [u8; KEY_LEN],
}

/// Why a message could not be encrypted or decrypted.
#[derive(Debug, Clone, Copy, PartialEq, Eq, Structural)]
pub enum CryptoError {
    Encrypt,
    Decrypt,
}

impl CryptoError {
    /// The text of the error.
    pub fn message(&self) -> (r: &'static str)
        ensures
            r@ == match *self {
                CryptoError::Encrypt => "encryption error"@,
                CryptoError::Decrypt => "decryption error"@,
            },
    {
        match self {
            CryptoError::Encrypt => "encryption error",
            CryptoError::Decrypt => "decryption error",
        }
    }
}

/// What `ChaCha20Poly1305::encrypt` gives for a key, a nonce and a message,
/// without associated data.
pub uninterp spec fn sealed(key: Seq<u8>, nonce: Seq<u8>, message: Seq<u8>) -> Option<Seq<u8>>;

/// What `ChaCha20Poly1305::decrypt` gives for a key, a nonce and a ciphertext,
/// without associated data.
pub uninterp spec fn opened(key: Seq<u8>, nonce: Seq<u8>, ciphertext: Seq<u8>) -> Option<Seq<u8>>;

/// Lengths of a message on which the cipher answers; on those in between it
/// panics, since its counter ends one block before its own limit.
pub open spec fn length_served(len: int) -> bool {
    len <= TOO_LONG - 64 || len >= TOO_LONG
}

/// The ciphertext is what a message encrypts to under the key and the nonce: its tag
/// is the one that belongs to it.
pub open spec fn is_sealing(key: Seq<u8>, nonce: Seq<u8>, ciphertext: Seq<u8>) -> bool {
    exists|m: Seq<u8>|
        m.len() + TAG_LEN == ciphertext.len() && #[trigger] sealed(key, nonce, m) == Some(
            ciphertext,
        )
}

/// The second ciphertext differs from the first in its tag, and in that alone.
pub open spec fn other_tag(c: Seq<u8>, c2: Seq<u8>) -> bool {
    &&& TAG_LEN <= c.len() == c2.len()
    &&& c2.take(c.len() - TAG_LEN) == c.take(c.len() - TAG_LEN)
    &&& c2 != c
}

/// `rand::thread_rng` and `RngCore::fill_bytes`: `n` random bytes. Which they are
/// is chance; only their number is claimed.
#[verifier::external_body]
fn random_bytes(n: usize) -> (r: Vec<u8>)
    ensures
        r@.len() == n,
{
    let mut r = vec![0u8; n];
    rand::thread_rng().fill_bytes(&mut r);
    r
}

/// `ChaCha20Poly1305::encrypt`, without associated data. It fails exactly on
/// messages of `TOO_LONG` bytes or more, and what it gives is opened to the
/// message again under the same key and nonce; with another tag it is not opened.
#[verifier::external_body]
fn seal(key: &[u8; KEY_LEN], nonce: &[u8; NONCE_LEN], message: &[u8]) -> (r: Option<Vec<u8>>)
    requires
        length_served(message@.len() as int),
    ensures
        match r {
            Some(c) => sealed(key@, nonce@, message@) == Some(c@) && message@.len() < TOO_LONG
                && opened(key@, nonce@, c@) == Some(message@) && c@.len() == message@.len()
                + TAG_LEN && forall|c2: Seq<u8>| #[trigger]
                other_tag(c@, c2) ==> opened(key@, nonce@, c2) is None,
            None => sealed(key@, nonce@, message@) is None && message@.len() >= TOO_LONG,
        },
{
    let cipher = ChaCha20Poly1305::new(Key::from_slice(key));
    cipher.encrypt(Nonce::from_slice(nonce), message).ok()
}

/// `ChaCha20Poly1305::decrypt`, without associated data. A message that it gives
/// is shorter than the ciphertext by the tag, and encrypts to the ciphertext again
/// under the same key and nonce; and whatever message encrypts to the ciphertext is
/// the one that it gives.
#[verifier::external_body]
fn open(key: &[u8; KEY_LEN], nonce: &[u8; NONCE_LEN], ciphertext: &[u8]) -> (r: Option<Vec<u8>>)
    requires
        length_served(ciphertext@.len() - TAG_LEN),
    ensures
        match r {
            Some(m) => opened(key@, nonce@, ciphertext@) == Some(m@) && m@.len() + TAG_LEN
                == ciphertext@.len() && sealed(key@, nonce@, m@) == Some(ciphertext@),
            None => opened(key@, nonce@, ciphertext@) is None,
        },
        forall|m: Seq<u8>|
            m.len() + TAG_LEN == ciphertext@.len() && #[trigger] sealed(key@, nonce@, m) == Some(
                ciphertext@,
            ) ==> r is Some && r->0@ == m,
{
    let cipher = ChaCha20Poly1305::new(Key::from_slice(key));
    cipher.decrypt(Nonce::from_slice(nonce), ciphertext).ok()
}

/// `String::from_utf8`: the text that the bytes encode, if they are UTF-8.
#[verifier::external_body]
fn text_from_utf8(bytes: Vec<u8>) -> (r: Option<String>)
    ensures
        match r {
            Some(s) => valid_utf8(bytes@) && s@ == decode_utf8(bytes@),
            None => !valid_utf8(bytes@),
        },
{
    String::from_utf8(bytes).ok()
}

/// The text that a ciphertext holds under a key and a nonce, if it does.
pub open spec fn decrypted(key: Seq<u8>, nonce: Seq<u8>, ciphertext: Seq<u8>) -> Option<Seq<char>> {
    match opened(key, nonce, ciphertext) {
        Some(bytes) => if valid_utf8(bytes) {
            Some(decode_utf8(bytes))
        } else {
            None
        },
        None => None,
    }
}

/// The text that decrypted bytes stand for.
pub fn message_text(bytes: Option<Vec<u8>>) -> (r: Result<String, CryptoError>)
    ensures
        match bytes {
            Some(b) => if valid_utf8(b@) {
                r is Ok && r->Ok_0@ == decode_utf8(b@)
            } else {
                r == Err::<String, CryptoError>(CryptoError::Decrypt)
            },
            None => r == Err::<String, CryptoError>(CryptoError::Decrypt),
        },
{
    match bytes {
        Some(b) => match text_from_utf8(b) {
            Some(s) => Ok(s),
            None => Err(CryptoError::Decrypt),
        },
        None => Err(CryptoError::Decrypt),
    }
}

/// The key that bytes make.
pub fn key_of(bytes: &Vec<u8>) -> (r: ChannelKey)
    requires
        bytes@.len() == KEY_LEN,
    ensures
        r.key@ == bytes@,
{
    let mut key = [0u8; KEY_LEN];
    let mut i: usize = 0;
    while i < KEY_LEN
        invariant
            i <= KEY_LEN,
            bytes@.len() == KEY_LEN,
            forall|j: int| 0 <= j < i ==> key@[j] == bytes@[j],
        decreases KEY_LEN - i,
    {
        key[i] = bytes[i];
        i += 1;
    }
    assert(key@ =~= bytes@);
    ChannelKey { key }
}

/// The nonce that bytes make.
pub fn nonce_of(bytes: &Vec<u8>) -> (r: [u8; NONCE_LEN])
    requires
        bytes@.len() == NONCE_LEN,
    ensures
        r@ == bytes@,
{
    let mut nonce = [0u8; NONCE_LEN];
    let mut i: usize = 0;
    while i < NONCE_LEN
        invariant
            i <= NONCE_LEN,
            bytes@.len() == NONCE_LEN,
            forall|j: int| 0 <= j < i ==> nonce@[j] == bytes@[j],
        decreases NONCE_LEN - i,
    {
        nonce[i] = bytes[i];
        i += 1;
    }
    assert(nonce@ =~= bytes@);
    nonce
}

/// A new key, of random bytes. Which they are is chance.
pub fn generate_channel_key() -> (r: ChannelKey)
    ensures
        r.key@.len() == KEY_LEN,
{
    let bytes = random_bytes(KEY_LEN);
    key_of(&bytes)
}

/// Encrypts a message under a nonce.
pub fn encrypt_with_nonce(key: &ChannelKey, plaintext: &str, nonce: &[u8; NONCE_LEN]) -> (r: Result<
    Vec<u8>,
    CryptoError,
>)
    requires
        length_served(encode_utf8(plaintext@).len() as int),
    ensures
        match r {
            Ok(c) => encode_utf8(plaintext@).len() < TOO_LONG && sealed(
                key.key@,
                nonce@,
                encode_utf8(plaintext@),
            ) == Some(c@) && decrypted(key.key@, nonce@, c@) == Some(plaintext@) && c@.len()
                == encode_utf8(plaintext@).len() + TAG_LEN && forall|c2: Seq<u8>| #[trigger]
                other_tag(c@, c2) ==> decrypted(key.key@, nonce@, c2) is None,
            Err(e) => encode_utf8(plaintext@).len() >= TOO_LONG && e == CryptoError::Encrypt,
        },
{
    proof {
        vstd::utf8::encode_utf8_valid_utf8(plaintext@);
        vstd::utf8::encode_utf8_decode_utf8(plaintext@);
    }
    match seal(&key.key, nonce, plaintext.as_bytes()) {
        Some(c) => Ok(c),
        None => Err(CryptoError::Encrypt),
    }
}

/// Encrypts a message under a random nonce, which is given with the ciphertext.
/// Decrypting the two under the same key gives the message back; with another tag the
/// ciphertext is refused.
pub fn encrypt_message(key: &ChannelKey, plaintext: &str) -> (r: Result<
    (Vec<u8>, [u8; NONCE_LEN]),
    CryptoError,
>)
    requires
        length_served(encode_utf8(plaintext@).len() as int),
    ensures
        match r {
            Ok((c, nonce)) => encode_utf8(plaintext@).len() < TOO_LONG && sealed(
                key.key@,
                nonce@,
                encode_utf8(plaintext@),
            ) == Some(c@) && decrypted(key.key@, nonce@, c@) == Some(plaintext@) && c@.len()
                == encode_utf8(plaintext@).len() + TAG_LEN && forall|c2: Seq<u8>| #[trigger]
                other_tag(c@, c2) ==> decrypted(key.key@, nonce@, c2) is None,
            Err(e) => encode_utf8(plaintext@).len() >= TOO_LONG && e == CryptoError::Encrypt,
        },
{
    let bytes = random_bytes(NONCE_LEN);
    let nonce = nonce_of(&bytes);
    match encrypt_with_nonce(key, plaintext, &nonce) {
        Ok(c) => Ok((c, nonce)),
        Err(e) => Err(e),
    }
}

/// Decrypts a message. What is refused is exactly what no text encrypts to under the
/// key and the nonce: a ciphertext that was changed, or comes with another key or
/// nonce, is refused unless its tag is by chance the one that belongs to it. One shorter
/// than a tag is always refused.
pub fn decrypt_message(key: &ChannelKey, ciphertext: &[u8], nonce: &[u8; NONCE_LEN]) -> (r: Result<
    String,
    CryptoError,
>)
    requires
        length_served(ciphertext@.len() - TAG_LEN),
    ensures
        match decrypted(key.key@, nonce@, ciphertext@) {
            Some(text) => r is Ok && r->Ok_0@ == text,
            None => r == Err::<String, CryptoError>(CryptoError::Decrypt),
        },
        ciphertext@.len() < TAG_LEN ==> r is Err,
        !is_sealing(key.key@, nonce@, ciphertext@) ==> r == Err::<String, CryptoError>(
            CryptoError::Decrypt,
        ),
        r is Ok ==> sealed(key.key@, nonce@, encode_utf8(r->Ok_0@)) == Some(ciphertext@),
        r is Err ==> forall|text: Seq<char>|
            #![trigger encode_utf8(text)]
            encode_utf8(text).len() + TAG_LEN == ciphertext@.len() ==> sealed(
                key.key@,
                nonce@,
                encode_utf8(text),
            ) != Some(ciphertext@),
{
    let bytes = open(&key.key, nonce, ciphertext);
    proof {
        if bytes is Some && valid_utf8(bytes->0@) {
            vstd::utf8::decode_utf8_encode_utf8(bytes->0@);
        }
        assert forall|text: Seq<char>|
            decrypted(key.key@, nonce@, ciphertext@) is None && encode_utf8(text).len() + TAG_LEN
                == ciphertext@.len() implies sealed(
            key.key@,
            nonce@,
            #[trigger] encode_utf8(text),
        ) != Some(ciphertext@) by {
            vstd::utf8::encode_utf8_valid_utf8(text);
        }
    }
    message_text(bytes)
}

} // verus!
