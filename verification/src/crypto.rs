//! What the library takes from cryptographic and encoding crates.

use data_encoding::{BASE32_NOPAD, BASE64};
use ed25519_dalek::{Signature, Signer, SigningKey, Verifier, VerifyingKey};
use rand_core::{OsRng, RngCore};
use uuid::Uuid;
use vstd::prelude::*;

verus! {

/// The error of `ed25519_dalek`, which says nothing about its cause.
#[verifier::external_type_specification]
#[verifier::external_body]
pub struct ExSignatureError(ed25519_dalek::SignatureError);

/// The error of `data_encoding`'s decoders.
#[verifier::external_type_specification]
#[verifier::external_body]
pub struct ExDecodeError(data_encoding::DecodeError);

/// The error of `uuid`'s parser.
#[verifier::external_type_specification]
#[verifier::external_body]
pub struct ExUuidError(uuid::Error);

/// The BLAKE3 digest of some bytes.
pub uninterp spec fn blake3_digest(bytes: Seq<u8>) -> Seq<u8>;

/// `blake3::hash`: the digest, 32 bytes that depend on the input alone.
#[verifier::external_body]
pub(crate) fn hash_bytes(bytes: &[u8]) -> (digest: [u8; 32])
    ensures
        digest@ == blake3_digest(bytes@),
{
    *blake3::hash(bytes).as_bytes()
}

/// One bit of a byte string, the most significant bit of the first byte first; zero behind its end.
pub open spec fn bit_at(bytes: Seq<u8>, k: int) -> int {
    if 0 <= k < 8 * bytes.len() {
        let byte = bytes[k / 8] as int;
        let place = k % 8;
        (if place == 0 {
            byte / 128
        } else if place == 1 {
            byte / 64
        } else if place == 2 {
            byte / 32
        } else if place == 3 {
            byte / 16
        } else if place == 4 {
            byte / 8
        } else if place == 5 {
            byte / 4
        } else if place == 6 {
            byte / 2
        } else {
            byte
        }) % 2
    } else {
        0
    }
}

/// The letter of a five-bit value: `A` to `Z`, then `2` to `7`.
pub open spec fn base32_char(value: int) -> char {
    if value < 26 {
        (65 + value) as char
    } else {
        (24 + value) as char
    }
}

/// Base 32 of RFC 4648 without padding.
pub open spec fn base32(bytes: Seq<u8>) -> Seq<char> {
    Seq::new(
        ((8 * bytes.len() + 4) / 5) as nat,
        |i: int|
            base32_char(
                16 * bit_at(bytes, 5 * i) + 8 * bit_at(bytes, 5 * i + 1) + 4 * bit_at(
                    bytes,
                    5 * i + 2,
                ) + 2 * bit_at(bytes, 5 * i + 3) + bit_at(bytes, 5 * i + 4),
            ),
    )
}

/// `BASE32_NOPAD.encode` of `data_encoding`: base 32 of RFC 4648 without padding. It panics on more
/// than `usize::MAX / 512` bytes.
#[verifier::external_body]
pub(crate) fn base32_text(bytes: &[u8]) -> (text: String)
    requires
        bytes@.len() <= usize::MAX / 512,
    ensures
        text@ == base32(bytes@),
{
    BASE32_NOPAD.encode(bytes)
}

/// The letter of a six-bit value: `A` to `Z`, `a` to `z`, `0` to `9`, `+`, `/`.
pub open spec fn base64_char(value: int) -> char {
    if value < 26 {
        (65 + value) as char
    } else if value < 52 {
        (71 + value) as char
    } else if value < 62 {
        (value - 4) as char
    } else if value == 62 {
        '+'
    } else {
        '/'
    }
}

/// Base 64 of RFC 4648: four letters for three bytes, the last four filled up with `=`.
pub open spec fn base64(bytes: Seq<u8>) -> Seq<char> {
    Seq::new(
        (4 * ((bytes.len() + 2) / 3)) as nat,
        |i: int|
            if 6 * i < 8 * bytes.len() {
                base64_char(
                    32 * bit_at(bytes, 6 * i) + 16 * bit_at(bytes, 6 * i + 1) + 8 * bit_at(
                        bytes,
                        6 * i + 2,
                    ) + 4 * bit_at(bytes, 6 * i + 3) + 2 * bit_at(bytes, 6 * i + 4) + bit_at(
                        bytes,
                        6 * i + 5,
                    ),
                )
            } else {
                '='
            },
    )
}

/// What `BASE64.decode` of `data_encoding` makes of a text; it also takes padded texts that follow
/// one another.
pub uninterp spec fn base64_decoded(text: Seq<char>) -> Option<Seq<u8>>;

/// `BASE64.encode` of `data_encoding`: base 64 of RFC 4648, which `BASE64.decode` takes back to the
/// same bytes. It panics on more than `usize::MAX / 512` bytes.
#[verifier::external_body]
fn base64_text(bytes: &[u8]) -> (text: String)
    requires
        bytes@.len() <= usize::MAX / 512,
    ensures
        text@ == base64(bytes@),
        base64_decoded(text@) == Some(bytes@),
{
    BASE64.encode(bytes)
}

/// `BASE64.decode` of `data_encoding`, on the bytes of a text. It panics on more than
/// `usize::MAX / 8` bytes.
#[verifier::external_body]
fn base64_bytes(text: &str) -> (result: Result<Vec<u8>, data_encoding::DecodeError>)
    requires
        vstd::utf8::encode_utf8(text@).len() <= usize::MAX / 8,
    ensures
        match result {
            Ok(bytes) => base64_decoded(text@) == Some(bytes@),
            Err(_) => base64_decoded(text@) is None,
        },
{
    BASE64.decode(text.as_bytes())
}

/// The bytes that a base 64 text stands for, where it stands for any. A text of more bytes than can be
/// decoded stands for none.
pub open spec fn base64_value(text: Seq<char>) -> Option<Seq<u8>> {
    if vstd::utf8::encode_utf8(text).len() <= usize::MAX / 8 {
        base64_decoded(text)
    } else {
        None
    }
}

/// The bytes that a base 64 text stands for, where it stands for any.
pub(crate) fn decode_base64(text: &str) -> (result: Option<Vec<u8>>)
    ensures
        match result {
            Some(bytes) => base64_value(text@) == Some(bytes@),
            None => base64_value(text@) is None,
        },
{
    if text.as_bytes().len() > usize::MAX / 8 {
        return None;
    }
    match base64_bytes(text) {
        Ok(bytes) => Some(bytes),
        Err(_) => None,
    }
}

/// Base 64 text is no longer than can be decoded.
proof fn lemma_base64_length(bytes: Seq<u8>)
    requires
        bytes.len() <= usize::MAX / 512,
    ensures
        vstd::utf8::encode_utf8(base64(bytes)).len() <= usize::MAX / 8,
{
    let text = base64(bytes);
    assert forall|i: int| 0 <= i < text.len() implies '\0' <= #[trigger] text[i] <= '\u{7f}' by {
        assert(forall|at: int| 0 <= #[trigger] bit_at(bytes, at) <= 1);
    }
    vstd::utf8::is_ascii_chars_encode_utf8(text);
}

/// Bytes as base 64 text, which stands for the same bytes.
pub(crate) fn encode_base64(bytes: &[u8]) -> (text: String)
    requires
        bytes@.len() <= usize::MAX / 512,
    ensures
        text@ == base64(bytes@),
        base64_value(text@) == Some(bytes@),
{
    proof {
        lemma_base64_length(bytes@);
    }
    base64_text(bytes)
}

/// The Ed25519 public key of a secret key.
pub uninterp spec fn ed25519_public_key(secret: Seq<u8>) -> Seq<u8>;

/// Whether bytes are an Ed25519 public key.
pub uninterp spec fn ed25519_is_public_key(public: Seq<u8>) -> bool;

/// The Ed25519 signature of a message, which depends on nothing else.
pub uninterp spec fn ed25519_signature(secret: Seq<u8>, message: Seq<u8>) -> Seq<u8>;

/// Whether an Ed25519 public key accepts a signature of a message.
pub uninterp spec fn ed25519_accepts(public: Seq<u8>, message: Seq<u8>, signature: Seq<u8>) -> bool;

/// `SigningKey::generate` of `ed25519_dalek`, from the operating system's randomness.
#[verifier::external_body]
pub(crate) fn generate_secret_key() -> (secret: [u8; 32]) {
    SigningKey::generate(&mut OsRng).to_bytes()
}

/// `SigningKey::verifying_key` of `ed25519_dalek`: the public key of a secret key, which
/// `VerifyingKey::from_bytes` accepts.
#[verifier::external_body]
pub(crate) fn derive_public_key(secret: &[u8; 32]) -> (public: [u8; 32])
    ensures
        public@ == ed25519_public_key(secret@),
        ed25519_is_public_key(public@),
{
    SigningKey::from_bytes(secret).verifying_key().to_bytes()
}

/// `SigningKey::sign` of `ed25519_dalek`: the signature of a message, which the secret key's own
/// public key accepts.
#[verifier::external_body]
pub(crate) fn sign_message(secret: &[u8; 32], message: &[u8]) -> (signature: [u8; 64])
    ensures
        signature@ == ed25519_signature(secret@, message@),
        ed25519_accepts(ed25519_public_key(secret@), message@, signature@),
{
    SigningKey::from_bytes(secret).sign(message).to_bytes()
}

/// `VerifyingKey::from_bytes` of `ed25519_dalek`: whether the bytes are a public key.
#[verifier::external_body]
pub(crate) fn check_public_key(public: &[u8; 32]) -> (result: Result<
    (),
    ed25519_dalek::SignatureError,
>)
    ensures
        result is Ok <==> ed25519_is_public_key(public@),
{
    VerifyingKey::from_bytes(public).map(|_| ())
}

/// `VerifyingKey::verify` of `ed25519_dalek`: whether the bytes are a public key that accepts a
/// signature.
#[verifier::external_body]
pub(crate) fn verify_message(
    public: &[u8; 32],
    message: &[u8],
    signature: &[u8; 64],
) -> (result: Result<(), ed25519_dalek::SignatureError>)
    ensures
        result is Ok <==> (ed25519_is_public_key(public@) && ed25519_accepts(
            public@,
            message@,
            signature@,
        )),
{
    VerifyingKey::from_bytes(public)?.verify(message, &Signature::from_bytes(signature))
}

/// `OsRng::fill_bytes` of `rand_core`: fresh random bytes.
#[verifier::external_body]
pub(crate) fn random_nonce() -> (nonce: [u8; 32]) {
    let mut nonce = [0; 32];
    OsRng.fill_bytes(&mut nonce);
    nonce
}

/// Whether a character is a hexadecimal digit.
pub open spec fn is_hex_digit(c: char) -> bool {
    '0' <= c <= '9' || 'a' <= c <= 'f' || 'A' <= c <= 'F'
}

/// Whether a text is a UUID in five groups of hexadecimal digits.
pub open spec fn is_hyphenated_uuid(text: Seq<char>) -> bool {
    &&& text.len() == 36
    &&& forall|i: int|
        0 <= i < 36 ==> if i == 8 || i == 13 || i == 18 || i == 23 {
            #[trigger] text[i] == '-'
        } else {
            is_hex_digit(text[i])
        }
}

/// Whether a text is a UUID: hexadecimal digits alone, or in groups, the latter also in braces or as a
/// URN.
pub open spec fn is_uuid_text(text: Seq<char>) -> bool {
    ||| text.len() == 32 && forall|i: int| 0 <= i < 32 ==> is_hex_digit(#[trigger] text[i])
    ||| is_hyphenated_uuid(text)
    ||| text.len() == 38 && text[0] == '{' && text[37] == '}' && is_hyphenated_uuid(
        text.subrange(1, 37),
    )
    ||| text.len() == 45 && crate::text::lowercase(text.subrange(0, 9)) == "urn:uuid:"@
        && is_hyphenated_uuid(text.subrange(9, 45))
}

/// A UUID begins with a character that is no space.
pub proof fn lemma_uuid_shows(text: Seq<char>)
    requires
        is_uuid_text(text),
    ensures
        crate::text::trim(text).len() > 0,
{
    reveal_strlit("urn:uuid:");
    if text.len() == 45 {
        assert(crate::text::lowercase(text.subrange(0, 9))[0] == crate::text::lower(text[0]));
    }
    if text.len() == 36 {
        assert(is_hex_digit(text[0]));
    }
    assert(!crate::text::is_whitespace(text[0]));
    lemma_first_stays(text);
}

/// A text that begins with a character that is no space does not vanish when it is trimmed.
proof fn lemma_first_stays(text: Seq<char>)
    requires
        text.len() > 0,
        !crate::text::is_whitespace(text[0]),
    ensures
        crate::text::trim_end(text).len() > 0,
        crate::text::trim(text).len() > 0,
    decreases text.len(),
{
    if crate::text::is_whitespace(text.last()) {
        lemma_first_stays(text.drop_last());
    }
}

/// `Uuid::parse_str` of `uuid`: whether a text is a UUID, in one of the four forms.
#[verifier::external_body]
pub(crate) fn check_uuid(text: &str) -> (result: Result<(), uuid::Error>)
    ensures
        result is Ok <==> is_uuid_text(text@),
{
    Uuid::parse_str(text).map(|_| ())
}

/// `Uuid::new_v4` of `uuid`: a fresh random UUID in hyphenated form.
#[verifier::external_body]
pub(crate) fn new_uuid_text() -> (text: String)
    ensures
        is_hyphenated_uuid(text@),
{
    Uuid::new_v4().to_string()
}

/// `<[u8; N]>::try_from` of std: the bytes of a slice as an array of exactly that length.
#[verifier::external_body]
pub(crate) fn slice_to_array<const N: usize>(bytes: &[u8]) -> (result: Result<
    [u8; N],
    core::array::TryFromSliceError,
>)
    ensures
        result is Ok <==> bytes@.len() == N,
        result matches Ok(array) ==> array@ == bytes@,
{
    <[u8; N]>::try_from(bytes)
}

/// The error of std's conversion of a slice to an array.
#[verifier::external_type_specification]
#[verifier::external_body]
pub struct ExTryFromSliceError(core::array::TryFromSliceError);

} // verus!
