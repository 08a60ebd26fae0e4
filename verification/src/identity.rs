//! The device's identity: an Ed25519 key, kept as text.

use vstd::prelude::*;
use base64::Engine;
use ed25519_dalek::Signer;
use rand_core::RngCore;
use crate::text::{
    begins_with, is_white, law_trimming, lemma_trimmed_without_white, trim, trimmed,
};

verus! {

// ---------------------------------------------------------------------------------------------
// Base64
// ---------------------------------------------------------------------------------------------

/// The character for six bits, in the URL-safe alphabet.
pub open spec fn base64_char(six: int) -> char {
    if six < 26 {
        ('A' as int + six) as char
    } else if six < 52 {
        ('a' as int + six - 26) as char
    } else if six < 62 {
        ('0' as int + six - 52) as char
    } else if six == 62 {
        '-'
    } else {
        '_'
    }
}

/// The characters for up to three bytes: one more than there are bytes.
pub open spec fn base64_group(bytes: Seq<u8>) -> Seq<char> {
    let first = bytes[0] as int;
    let second = if bytes.len() > 1 {
        bytes[1] as int
    } else {
        0
    };
    let third = if bytes.len() > 2 {
        bytes[2] as int
    } else {
        0
    };
    seq![
        base64_char(first / 4),
        base64_char(first % 4 * 16 + second / 16),
        base64_char(second % 16 * 4 + third / 64),
        base64_char(third % 64),
    ].take(1 + if bytes.len() < 3 {
        bytes.len() as int
    } else {
        3
    })
}

/// `bytes` in Base64 with the URL-safe alphabet, without padding.
pub open spec fn base64_text(bytes: Seq<u8>) -> Seq<char>
    decreases bytes.len(),
{
    if bytes.len() == 0 {
        Seq::empty()
    } else if bytes.len() <= 3 {
        base64_group(bytes)
    } else {
        base64_group(bytes.take(3)) + base64_text(bytes.skip(3))
    }
}

/// `base64`'s `encode` with `URL_SAFE_NO_PAD`: six bits to a character, in the URL-safe alphabet,
/// without padding. The length keeps the text within what can be allocated.
#[verifier::external_body]
fn base64_encode(bytes: &[u8]) -> (text: String)
    requires
        bytes@.len() <= 0x1000_0000,
    ensures
        text@ == base64_text(bytes@),
{
    base64::engine::general_purpose::URL_SAFE_NO_PAD.encode(bytes)
}

/// `base64`'s `decode` with `URL_SAFE_NO_PAD`: the bytes whose encoding is `text`; an error where
/// there are none, be it for a character outside of the alphabet, padding, a length that no
/// encoding has, or bits left over that are not zero.
#[verifier::external_body]
fn base64_decode(text: &str) -> (decoded: Result<Vec<u8>, base64::DecodeError>)
    ensures
        match decoded {
            Ok(bytes) => text@ == base64_text(bytes@),
            Err(_) => forall|other: Seq<u8>| text@ != #[trigger] base64_text(other),
        },
{
    base64::engine::general_purpose::URL_SAFE_NO_PAD.decode(text)
}

/// `base64::DecodeError`, of which nothing is read.
#[verifier::external_type_specification]
#[verifier::external_body]
pub struct ExDecodeError(base64::DecodeError);

/// The six bits that a character stands for.
spec fn base64_value(c: char) -> int {
    if 'A' <= c <= 'Z' {
        c as int - 'A' as int
    } else if 'a' <= c <= 'z' {
        c as int - 'a' as int + 26
    } else if '0' <= c <= '9' {
        c as int - '0' as int + 52
    } else if c == '-' {
        62
    } else {
        63
    }
}

/// A character stands for the bits that it was written for, and is no whitespace.
proof fn lemma_base64_char(six: int)
    requires
        0 <= six < 64,
    ensures
        base64_value(base64_char(six)) == six,
        !is_white(base64_char(six)),
{
}

/// Groups with the same characters have the same bytes.
proof fn lemma_group_injective(a: Seq<u8>, b: Seq<u8>)
    requires
        0 < a.len() <= 3,
        0 < b.len() <= 3,
        base64_group(a) == base64_group(b),
    ensures
        a == b,
{
    let ga = base64_group(a);
    let gb = base64_group(b);
    assert(ga.len() == a.len() + 1);
    assert(gb.len() == b.len() + 1);
    let a1 = if a.len() > 1 {
        a[1] as int
    } else {
        0
    };
    let a2 = if a.len() > 2 {
        a[2] as int
    } else {
        0
    };
    let b1 = if b.len() > 1 {
        b[1] as int
    } else {
        0
    };
    let b2 = if b.len() > 2 {
        b[2] as int
    } else {
        0
    };
    lemma_base64_char(a[0] as int / 4);
    lemma_base64_char(b[0] as int / 4);
    lemma_base64_char(a[0] as int % 4 * 16 + a1 / 16);
    lemma_base64_char(b[0] as int % 4 * 16 + b1 / 16);
    lemma_base64_char(a1 % 16 * 4 + a2 / 64);
    lemma_base64_char(b1 % 16 * 4 + b2 / 64);
    lemma_base64_char(a2 % 64);
    lemma_base64_char(b2 % 64);
    assert(ga[0] == gb[0]);
    assert(ga[1] == gb[1]);
    assert(a[0] == b[0]);
    if a.len() > 1 {
        assert(ga[2] == gb[2]);
        assert(a1 == b1);
    }
    if a.len() > 2 {
        assert(ga[3] == gb[3]);
        assert(a2 == b2);
    }
    assert(a =~= b);
}

/// The text of some bytes has no whitespace, and as many characters as their groups have.
proof fn lemma_base64_text(bytes: Seq<u8>)
    ensures
        forall|i: int| 0 <= i < base64_text(bytes).len() ==> !is_white(#[trigger] base64_text(bytes)[i]),
        bytes.len() > 0 ==> base64_text(bytes).len() > 0,
        bytes.len() <= 3 ==> base64_text(bytes).len() <= 4,
        bytes.len() > 3 ==> base64_text(bytes).len() > 4,
    decreases bytes.len(),
{
    if bytes.len() > 0 {
        let head = if bytes.len() <= 3 {
            bytes
        } else {
            bytes.take(3)
        };
        let first = head[0] as int;
        let second = if head.len() > 1 {
            head[1] as int
        } else {
            0
        };
        let third = if head.len() > 2 {
            head[2] as int
        } else {
            0
        };
        lemma_base64_char(first / 4);
        lemma_base64_char(first % 4 * 16 + second / 16);
        lemma_base64_char(second % 16 * 4 + third / 64);
        lemma_base64_char(third % 64);
        if bytes.len() > 3 {
            lemma_base64_text(bytes.skip(3));
        }
    }
}

/// Base64 loses nothing: different bytes have different texts.
pub proof fn law_base64_is_injective(a: Seq<u8>, b: Seq<u8>)
    requires
        base64_text(a) == base64_text(b),
    ensures
        a == b,
    decreases a.len(),
{
    lemma_base64_text(a);
    lemma_base64_text(b);
    if a.len() == 0 {
        assert(a =~= b);
    } else if a.len() <= 3 {
        lemma_group_injective(a, b);
    } else {
        let head_a = base64_group(a.take(3));
        let head_b = base64_group(b.take(3));
        let text = base64_text(a);
        assert(head_a =~= text.take(4));
        assert(head_b =~= base64_text(b).take(4));
        assert(base64_text(a.skip(3)) =~= text.skip(4));
        assert(base64_text(b.skip(3)) =~= base64_text(b).skip(4));
        lemma_group_injective(a.take(3), b.take(3));
        law_base64_is_injective(a.skip(3), b.skip(3));
        assert(a =~= a.take(3) + a.skip(3));
        assert(b =~= b.take(3) + b.skip(3));
    }
}

// ---------------------------------------------------------------------------------------------
// Ed25519
// ---------------------------------------------------------------------------------------------

/// The signature that `ed25519_dalek::SigningKey::sign` gives of a message, under the key with
/// this secret.
pub uninterp spec fn ed25519_signature(secret: Seq<u8>, message: Seq<u8>) -> Seq<u8>;

/// The public key that `ed25519_dalek::SigningKey::verifying_key` gives for this secret.
pub uninterp spec fn ed25519_public(secret: Seq<u8>) -> Seq<u8>;

/// `ed25519_dalek::SigningKey::sign`: a signature of 64 bytes, which depends on the secret and
/// the message alone.
#[verifier::external_body]
fn ed25519_sign(secret: &[u8; 32], message: &[u8]) -> (signature: [u8; 64])
    ensures
        signature@ == ed25519_signature(secret@, message@),
{
    ed25519_dalek::SigningKey::from_bytes(secret).sign(message).to_bytes()
}

/// `ed25519_dalek::SigningKey::verifying_key`: a public key of 32 bytes, which depends on the
/// secret alone.
#[verifier::external_body]
fn ed25519_verifying_key(secret: &[u8; 32]) -> (public: [u8; 32])
    ensures
        public@ == ed25519_public(secret@),
{
    ed25519_dalek::SigningKey::from_bytes(secret).verifying_key().to_bytes()
}

/// `rand_core::RngCore::try_fill_bytes` of `rand_core::OsRng`: 32 bytes from the system's random
/// numbers, or the text of the error where the system has none to give. Which bytes, and whether
/// there are any, is left to chance and the system.
#[verifier::external_body]
fn random_bytes() -> (bytes: Result<[u8; 32], String>) {
    let mut bytes: [u8; 32] = [0; 32];
    match rand_core::OsRng.try_fill_bytes(&mut bytes) {
        Ok(()) => Ok(bytes),
        Err(err) => Err(err.to_string()),
    }
}

/// The key that identifies this device.
pub struct DeviceKey {
    secret: [u8; 32],
}

impl DeviceKey {
    /// The secret bytes of this key.
    pub closed spec fn secret(&self) -> Seq<u8> {
        self.secret@
    }

    /// The key with these bytes for its secret, where there are any.
    pub fn from_random(bytes: Result<[u8; 32], String>) -> (key: Result<DeviceKey, String>)
        ensures
            match bytes {
                Ok(secret) => key matches Ok(key) && key.secret() == secret@,
                Err(error) => key matches Err(text) && text@
                    == "Unable to generate device identity: "@ + error@,
            },
    {
        match bytes {
            Ok(secret) => Ok(DeviceKey { secret }),
            Err(error) => {
                let mut text: String = "Unable to generate device identity: ".to_owned();
                text.append(error.as_str());
                Err(text)
            },
        }
    }

    /// A new key, from the system's random numbers. Which key it is, and whether the system has
    /// the numbers to make one, is left open.
    pub fn generate() -> (key: Result<DeviceKey, String>)
        ensures
            match key {
                Ok(key) => key.secret().len() == 32,
                Err(text) => begins_with(text@, "Unable to generate device identity: "@),
            },
    {
        let key: Result<DeviceKey, String> = DeviceKey::from_random(random_bytes());
        proof {
            if key is Err {
                let heading = "Unable to generate device identity: "@;
                assert(key->Err_0@.take(heading.len() as int) =~= heading);
            }
        }
        key
    }

    /// This key as the text that is kept.
    pub fn encoded(&self) -> (text: String)
        ensures
            text@ == base64_text(self.secret()),
    {
        base64_encode(self.secret.as_slice())
    }

    /// The public key, as text.
    pub fn public_key(&self) -> (text: String)
        ensures
            text@ == base64_text(ed25519_public(self.secret())),
    {
        let public: [u8; 32] = ed25519_verifying_key(&self.secret);
        base64_encode(public.as_slice())
    }

    /// The signature of `message` under this key, as text.
    pub fn sign(&self, message: &[u8]) -> (text: String)
        ensures
            text@ == base64_text(ed25519_signature(self.secret(), message@)),
    {
        let signature: [u8; 64] = ed25519_sign(&self.secret, message);
        base64_encode(signature.as_slice())
    }
}

/// The bytes that a text is the Base64 of, where there are any.
pub open spec fn base64_bytes(text: Seq<char>) -> Option<Seq<u8>> {
    if exists|bytes: Seq<u8>| text == #[trigger] base64_text(bytes) {
        Some(choose|bytes: Seq<u8>| text == #[trigger] base64_text(bytes))
    } else {
        None
    }
}

/// The secret that a text, as it is kept, stands for: surrounding whitespace does not count, and
/// the secret has 32 bytes.
pub open spec fn kept_secret(text: Seq<char>) -> Result<Seq<u8>, Seq<char>> {
    match base64_bytes(trimmed(text)) {
        Some(bytes) => if bytes.len() == 32 {
            Ok(bytes)
        } else {
            Err("Device identity has an invalid length"@)
        },
        None => Err("Device identity is invalid"@),
    }
}

/// The Base64 of some bytes is that of these bytes alone.
proof fn lemma_base64_bytes(bytes: Seq<u8>)
    ensures
        base64_bytes(base64_text(bytes)) == Some(bytes),
{
    law_base64_is_injective(bytes, base64_bytes(base64_text(bytes))->Some_0);
}

/// What a key or its error says.
pub open spec fn key_result(key: Result<DeviceKey, String>) -> Result<Seq<u8>, Seq<char>> {
    match key {
        Ok(key) => Ok(key.secret()),
        Err(error) => Err(error@),
    }
}

/// The key that a text, as it is kept, stands for.
pub fn device_signing_key(text: &str) -> (key: Result<DeviceKey, String>)
    ensures
        key_result(key) == kept_secret(text@),
{
    let bytes: Vec<u8> = match base64_decode(trim(text)) {
        Ok(bytes) => bytes,
        Err(_) => return Err("Device identity is invalid".to_owned()),
    };
    proof {
        lemma_base64_bytes(bytes@);
    }
    if bytes.len() != 32 {
        return Err("Device identity has an invalid length".to_owned());
    }
    let mut secret: [u8; 32] = [0; 32];
    let mut i: usize = 0;
    while i < 32
        invariant
            i <= 32,
            bytes@.len() == 32,
            secret@.len() == 32,
            forall|k: int| 0 <= k < i ==> secret@[k] == bytes@[k],
        decreases 32 - i,
    {
        secret[i] = bytes[i];
        i += 1;
    }
    assert(secret@ =~= bytes@);
    Ok(DeviceKey { secret })
}

/// A key that was kept is read back as it was: its text, also with whitespace put around it that
/// trimming takes off, stands for its secret.
pub proof fn law_kept_key_reads_back(secret: Seq<u8>, text: Seq<char>)
    ensures
        trimmed(base64_text(secret)) == base64_text(secret),
        secret.len() == 32 ==> kept_secret(base64_text(secret)) == Ok::<Seq<u8>, Seq<char>>(secret),
        secret.len() == 32 && trimmed(text) == base64_text(secret) ==> kept_secret(text) == Ok::<
            Seq<u8>,
            Seq<char>,
        >(secret),
{
    lemma_base64_text(secret);
    lemma_trimmed_without_white(base64_text(secret));
    lemma_base64_bytes(secret);
}

/// The text of a key, with whatever whitespace around it, stands for the key's 32 bytes; the text
/// of fewer or more bytes has the wrong length, and a text that no bytes have is no key.
pub proof fn law_kept_keys(before: Seq<char>, secret: Seq<u8>, after: Seq<char>, text: Seq<char>)
    requires
        forall|i: int| 0 <= i < before.len() ==> is_white(#[trigger] before[i]),
        forall|i: int| 0 <= i < after.len() ==> is_white(#[trigger] after[i]),
    ensures
        secret.len() == 32 ==> kept_secret(before + base64_text(secret) + after) == Ok::<
            Seq<u8>,
            Seq<char>,
        >(secret),
        secret.len() != 32 ==> kept_secret(before + base64_text(secret) + after) == Err::<
            Seq<u8>,
            Seq<char>,
        >("Device identity has an invalid length"@),
        (text.len() > 0 ==> !is_white(text[0]) && !is_white(text[text.len() - 1])) && (forall|
            bytes: Seq<u8>,
        |
            text != #[trigger] base64_text(bytes)) ==> kept_secret(before + text + after) == Err::<
            Seq<u8>,
            Seq<char>,
        >("Device identity is invalid"@),
{
    let encoded = base64_text(secret);
    lemma_base64_text(secret);
    if encoded.len() > 0 {
        assert(!is_white(encoded[0]));
        assert(!is_white(encoded[encoded.len() - 1]));
    }
    law_trimming(before, encoded, after);
    lemma_base64_bytes(secret);
    if text.len() > 0 ==> !is_white(text[0]) && !is_white(text[text.len() - 1]) {
        law_trimming(before, text, after);
    }
}

/// A key or its error is taken for what it holds.
pub proof fn law_keys(key: DeviceKey, error: String)
    ensures
        key_result(Ok(key)) == Ok::<Seq<u8>, Seq<char>>(key.secret()),
        key_result(Err(error)) == Err::<Seq<u8>, Seq<char>>(error@),
{
}

} // verus!
