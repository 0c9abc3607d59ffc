//! Who a device is: its identity key, its fingerprint and the proofs it signs.

use vstd::prelude::*;

use crate::crypto::{
    base32_text, check_public_key, derive_public_key, generate_secret_key, hash_bytes, sign_message,
    slice_to_array, verify_message,
};
use crate::protocol::{AuthTranscript, CapabilityFlags, PeerRole};
use crate::text::{decimal_text, same};

verus! {

/// Letters of a fingerprint, without its prefix and separators.
pub const FINGERPRINT_BODY_LEN: usize = 32;

/// Letters between two separators of a fingerprint.
pub const FINGERPRINT_GROUP_LEN: usize = 4;

/// The fingerprint of a public key: `AKRZ`, then the first 32 letters of the base 32 of its digest
/// in groups of four, each behind a hyphen.
pub open spec fn fingerprint(public_key: Seq<u8>) -> Seq<char> {
    let letters = crate::crypto::base32(crate::crypto::blake3_digest(public_key));
    "AKRZ"@ + Seq::new(
        40,
        |i: int|
            if i % 5 == 0 {
                '-'
            } else {
                letters[i - i / 5 - 1]
            },
    )
}

/// Build the stable fingerprint shown to users when they compare devices.
pub fn fingerprint_for_public_key(identity_public_key: &[u8]) -> (result: String)
    ensures
        result@ == fingerprint(identity_public_key@),
{
    let digest: [u8; 32] = hash_bytes(identity_public_key);
    let letters: String = base32_text(digest.as_slice());
    let ghost body = crate::crypto::base32(crate::crypto::blake3_digest(identity_public_key@));
    let mut result: String = "AKRZ".to_owned();
    let mut i: usize = 0;
    while i < 40
        invariant
            i <= 40,
            letters@ == body,
            body.len() == 52,
            result@ =~= "AKRZ"@ + Seq::new(
                i as nat,
                |j: int|
                    if j % 5 == 0 {
                        '-'
                    } else {
                        body[j - j / 5 - 1]
                    },
            ),
        decreases 40 - i,
    {
        if i % 5 == 0 {
            result.push('-');
        } else {
            result.push(letters.as_str().get_char(i - i / 5 - 1));
        }
        i = i + 1;
    }
    result
}

/// Why identity key bytes or a signature were refused.
#[derive(Debug, Clone, Copy, PartialEq, Eq, Structural)]
pub enum IdentityKeyError {
    InvalidPublicKeyLength { actual: usize },
    InvalidPublicKey,
    InvalidSignatureLength { actual: usize },
    InvalidSignature,
}

impl IdentityKeyError {
    pub open spec fn text(self) -> Seq<char> {
        match self {
            IdentityKeyError::InvalidPublicKeyLength { actual } => {
                "invalid Ed25519 public key length: "@ + crate::text::decimal(actual as nat)
            },
            IdentityKeyError::InvalidPublicKey => "invalid Ed25519 public key"@,
            IdentityKeyError::InvalidSignatureLength { actual } => {
                "invalid Ed25519 signature length: "@ + crate::text::decimal(actual as nat)
            },
            IdentityKeyError::InvalidSignature => "invalid Ed25519 signature"@,
        }
    }

    /// The error in words.
    pub fn message(self) -> (result: String)
        ensures
            result@ == self.text(),
    {
        match self {
            IdentityKeyError::InvalidPublicKeyLength { actual } => {
                "invalid Ed25519 public key length: ".to_owned().concat(
                    decimal_text(actual as u64).as_str(),
                )
            },
            IdentityKeyError::InvalidPublicKey => "invalid Ed25519 public key".to_owned(),
            IdentityKeyError::InvalidSignatureLength { actual } => {
                "invalid Ed25519 signature length: ".to_owned().concat(
                    decimal_text(actual as u64).as_str(),
                )
            },
            IdentityKeyError::InvalidSignature => "invalid Ed25519 signature".to_owned(),
        }
    }
}

/// An error that can be put into words.
pub trait ErrorText: Sized {
    /// Whether the error may be put into these words.
    open spec fn in_words(&self, words: Seq<char>) -> bool {
        true
    }

    fn error_message(&self) -> (result: String)
        ensures
            self.in_words(result@),
    ;
}

impl ErrorText for IdentityKeyError {
    open spec fn in_words(&self, words: Seq<char>) -> bool {
        words == self.text()
    }

    fn error_message(&self) -> (result: String) {
        self.message()
    }
}

/// The bytes of a slice as an array, or how many there are where that is not its length.
pub fn fixed_array<const N: usize>(bytes: &[u8]) -> (result: Result<[u8; N], usize>)
    ensures
        match result {
            Ok(array) => bytes@.len() == N && array@ == bytes@,
            Err(actual) => bytes@.len() != N && actual == bytes@.len(),
        },
{
    match slice_to_array::<N>(bytes) {
        Ok(array) => Ok(array),
        Err(_) => Err(bytes.len()),
    }
}

/// Signs canonical transcripts.
pub trait IdentitySecretKey: Sized {
    type Error;

    /// What signing a message may give.
    open spec fn signs(&self, message: Seq<u8>, outcome: Result<Vec<u8>, Self::Error>) -> bool {
        true
    }

    fn sign_identity(&self, canonical_transcript: &[u8]) -> (outcome: Result<Vec<u8>, Self::Error>)
        ensures
            self.signs(canonical_transcript@, outcome),
    ;
}

/// Verifies signatures of canonical transcripts.
pub trait IdentityPublicKey: Sized {
    type Error;

    /// What verifying a signature may give.
    open spec fn verifies(
        &self,
        message: Seq<u8>,
        signature: Seq<u8>,
        outcome: Result<(), Self::Error>,
    ) -> bool {
        true
    }

    fn verify_identity(&self, canonical_transcript: &[u8], signature: &[u8]) -> (outcome: Result<
        (),
        Self::Error,
    >)
        ensures
            self.verifies(canonical_transcript@, signature@, outcome),
    ;
}

/// The long-lived signing key of a device.
pub struct Ed25519IdentityKey {
    secret: [u8; 32],
}

impl View for Ed25519IdentityKey {
    type V = Seq<u8>;

    closed spec fn view(&self) -> Seq<u8> {
        self.secret@
    }
}

impl Ed25519IdentityKey {
    /// A fresh key from the operating system's randomness. Nothing is promised of its bytes.
    pub fn generate() -> (result: Self)
        ensures
            result@.len() == 32,
    {
        Ed25519IdentityKey { secret: generate_secret_key() }
    }

    /// Rebuild a key from the bytes that a store kept.
    pub fn from_secret_key_bytes(secret_key: [u8; 32]) -> (result: Self)
        ensures
            result@ == secret_key@,
    {
        Ed25519IdentityKey { secret: secret_key }
    }

    /// The secret bytes, for a store to keep. They are never to be logged or shown.
    pub fn export_secret_key_bytes(&self) -> (result: [u8; 32])
        ensures
            result@ == self@,
    {
        self.secret
    }

    /// The public key that belongs to this key.
    pub fn public_key_bytes(&self) -> (result: [u8; 32])
        ensures
            result@ == crate::crypto::ed25519_public_key(self@),
            crate::crypto::ed25519_is_public_key(result@),
    {
        derive_public_key(&self.secret)
    }

    /// The fingerprint shown to users.
    pub fn fingerprint(&self) -> (result: String)
        ensures
            result@ == fingerprint(crate::crypto::ed25519_public_key(self@)),
    {
        fingerprint_for_public_key(self.public_key_bytes().as_slice())
    }

    /// The key in words for diagnostics: its fingerprint, and nothing of its secret.
    pub fn describe(&self) -> (result: String)
        ensures
            result@ == "Ed25519IdentityKey { fingerprint: \""@ + fingerprint(
                crate::crypto::ed25519_public_key(self@),
            ) + "\", .. }"@,
    {
        "Ed25519IdentityKey { fingerprint: \"".to_owned().concat(
            self.fingerprint().as_str(),
        ).concat("\", .. }")
    }
}

impl IdentitySecretKey for Ed25519IdentityKey {
    type Error = IdentityKeyError;

    /// Signing never fails and gives the one signature of the message, which the public key of this
    /// key accepts.
    open spec fn signs(
        &self,
        message: Seq<u8>,
        outcome: Result<Vec<u8>, IdentityKeyError>,
    ) -> bool {
        &&& outcome is Ok
        &&& outcome->Ok_0@ == crate::crypto::ed25519_signature(self@, message)
        &&& outcome->Ok_0@.len() == 64
        &&& crate::crypto::ed25519_accepts(
            crate::crypto::ed25519_public_key(self@),
            message,
            outcome->Ok_0@,
        )
    }

    fn sign_identity(&self, canonical_transcript: &[u8]) -> (outcome: Result<
        Vec<u8>,
        IdentityKeyError,
    >) {
        let signature: [u8; 64] = sign_message(&self.secret, canonical_transcript);
        let mut bytes: Vec<u8> = Vec::new();
        let mut i: usize = 0;
        while i < 64
            invariant
                i <= 64,
                bytes@ =~= signature@.subrange(0, i as int),
            decreases 64 - i,
        {
            bytes.push(signature[i]);
            i = i + 1;
        }
        proof {
            assert(signature@.subrange(0, 64) =~= signature@);
        }
        Ok(bytes)
    }
}

/// The public key trusted for a paired peer.
#[derive(Clone, Copy, PartialEq, Eq)]
pub struct Ed25519PublicKey {
    bytes: [u8; 32],
}

impl View for Ed25519PublicKey {
    type V = Seq<u8>;

    closed spec fn view(&self) -> Seq<u8> {
        self.bytes@
    }
}

impl Ed25519PublicKey {
    /// Take the bytes of a public key: 32 of them that are a point of the curve.
    pub fn from_public_key_bytes(bytes: &[u8]) -> (result: Result<Self, IdentityKeyError>)
        ensures
            match result {
                Ok(key) => {
                    &&& bytes@.len() == 32
                    &&& crate::crypto::ed25519_is_public_key(bytes@)
                    &&& key@ == bytes@
                },
                Err(error) => {
                    if bytes@.len() != 32 {
                        error == (IdentityKeyError::InvalidPublicKeyLength {
                            actual: bytes@.len() as usize,
                        })
                    } else {
                        &&& error == IdentityKeyError::InvalidPublicKey
                        &&& !crate::crypto::ed25519_is_public_key(bytes@)
                    }
                },
            },
    {
        match fixed_array::<32>(bytes) {
            Err(actual) => Err(IdentityKeyError::InvalidPublicKeyLength { actual }),
            Ok(bytes) => match check_public_key(&bytes) {
                Ok(_) => Ok(Ed25519PublicKey { bytes }),
                Err(_) => Err(IdentityKeyError::InvalidPublicKey),
            },
        }
    }

    pub fn public_key_bytes(&self) -> (result: [u8; 32])
        ensures
            result@ == self@,
    {
        self.bytes
    }

    /// The fingerprint shown to users.
    pub fn fingerprint(&self) -> (result: String)
        ensures
            result@ == fingerprint(self@),
    {
        fingerprint_for_public_key(self.bytes.as_slice())
    }
}

impl IdentityPublicKey for Ed25519PublicKey {
    type Error = IdentityKeyError;

    /// A signature has 64 bytes and is accepted by the key.
    open spec fn verifies(
        &self,
        message: Seq<u8>,
        signature: Seq<u8>,
        outcome: Result<(), IdentityKeyError>,
    ) -> bool {
        if signature.len() != 64 {
            outcome == Err::<(), IdentityKeyError>(
                IdentityKeyError::InvalidSignatureLength { actual: signature.len() as usize },
            )
        } else if crate::crypto::ed25519_is_public_key(self@) && crate::crypto::ed25519_accepts(
            self@,
            message,
            signature,
        ) {
            outcome is Ok
        } else {
            outcome == Err::<(), IdentityKeyError>(IdentityKeyError::InvalidSignature)
        }
    }

    fn verify_identity(&self, canonical_transcript: &[u8], signature: &[u8]) -> (outcome: Result<
        (),
        IdentityKeyError,
    >) {
        match fixed_array::<64>(signature) {
            Err(actual) => Err(IdentityKeyError::InvalidSignatureLength { actual }),
            Ok(signature) => match verify_message(&self.bytes, canonical_transcript, &signature) {
                Ok(_) => Ok(()),
                Err(_) => Err(IdentityKeyError::InvalidSignature),
            },
        }
    }
}

/// A key accepts what it signed itself, and signing never fails.
pub proof fn own_signature_is_accepted(
    key: Ed25519IdentityKey,
    trusted: Ed25519PublicKey,
    message: Seq<u8>,
    signed: Result<Vec<u8>, IdentityKeyError>,
    verified: Result<(), IdentityKeyError>,
)
    requires
        key.signs(message, signed),
        trusted@ == crate::crypto::ed25519_public_key(key@),
        crate::crypto::ed25519_is_public_key(trusted@),
        trusted.verifies(message, signed->Ok_0@, verified),
    ensures
        signed is Ok,
        verified is Ok,
{
}


/// A copy of a byte string.
pub fn copy_bytes(bytes: &[u8]) -> (result: Vec<u8>)
    ensures
        result@ == bytes@,
{
    let mut result: Vec<u8> = Vec::new();
    let mut i: usize = 0;
    while i < bytes.len()
        invariant
            i <= bytes@.len(),
            result@ =~= bytes@.subrange(0, i as int),
        decreases bytes@.len() - i,
    {
        result.push(bytes[i]);
        i = i + 1;
    }
    proof {
        assert(bytes@.subrange(0, i as int) =~= bytes@);
    }
    result
}

/// Whether two byte strings are the same.
pub fn same_bytes(a: &[u8], b: &[u8]) -> (result: bool)
    ensures
        result == (a@ == b@),
{
    if a.len() != b.len() {
        return false;
    }
    let mut i: usize = 0;
    while i < a.len()
        invariant
            i <= a@.len(),
            a@.len() == b@.len(),
            a@.subrange(0, i as int) =~= b@.subrange(0, i as int),
        decreases a@.len() - i,
    {
        if a[i] != b[i] {
            assert(a@[i as int] != b@[i as int]);
            return false;
        }
        i = i + 1;
    }
    proof {
        assert(a@.subrange(0, i as int) =~= a@);
        assert(b@.subrange(0, i as int) =~= b@);
    }
    true
}

/// What a device tells others about itself.
#[derive(Debug, PartialEq, Eq)]
pub struct DeviceIdentity {
    pub device_id: String,
    pub display_name: String,
    pub identity_public_key: Vec<u8>,
    pub fingerprint: String,
}

impl DeviceIdentity {
    pub fn new(
        device_id: &str,
        display_name: &str,
        identity_public_key: Vec<u8>,
        fingerprint: &str,
    ) -> (result: Self)
        ensures
            result.device_id@ == device_id@,
            result.display_name@ == display_name@,
            result.identity_public_key == identity_public_key,
            result.fingerprint@ == fingerprint@,
    {
        DeviceIdentity {
            device_id: device_id.to_owned(),
            display_name: display_name.to_owned(),
            identity_public_key,
            fingerprint: fingerprint.to_owned(),
        }
    }

    pub fn device_id(&self) -> (result: &str)
        ensures
            result@ == self.device_id@,
    {
        self.device_id.as_str()
    }

    pub fn display_name(&self) -> (result: &str)
        ensures
            result@ == self.display_name@,
    {
        self.display_name.as_str()
    }

    pub fn identity_public_key(&self) -> (result: &[u8])
        ensures
            result@ == self.identity_public_key@,
    {
        self.identity_public_key.as_slice()
    }

    pub fn fingerprint(&self) -> (result: &str)
        ensures
            result@ == self.fingerprint@,
    {
        self.fingerprint.as_str()
    }
}

/// What was learned about a peer when it was paired.
#[derive(Debug, PartialEq, Eq)]
pub struct TrustedPeerIdentity {
    pub peer_id: String,
    pub display_name: String,
    pub identity_public_key: Vec<u8>,
    pub fingerprint: String,
    pub capabilities: CapabilityFlags,
}

impl TrustedPeerIdentity {
    pub fn new(
        peer_id: &str,
        display_name: &str,
        identity_public_key: Vec<u8>,
        fingerprint: &str,
        capabilities: CapabilityFlags,
    ) -> (result: Self)
        ensures
            result.peer_id@ == peer_id@,
            result.display_name@ == display_name@,
            result.identity_public_key == identity_public_key,
            result.fingerprint@ == fingerprint@,
            result.capabilities == capabilities,
    {
        TrustedPeerIdentity {
            peer_id: peer_id.to_owned(),
            display_name: display_name.to_owned(),
            identity_public_key,
            fingerprint: fingerprint.to_owned(),
            capabilities,
        }
    }

    pub fn peer_id(&self) -> (result: &str)
        ensures
            result@ == self.peer_id@,
    {
        self.peer_id.as_str()
    }

    pub fn display_name(&self) -> (result: &str)
        ensures
            result@ == self.display_name@,
    {
        self.display_name.as_str()
    }

    pub fn identity_public_key(&self) -> (result: &[u8])
        ensures
            result@ == self.identity_public_key@,
    {
        self.identity_public_key.as_slice()
    }

    pub fn fingerprint(&self) -> (result: &str)
        ensures
            result@ == self.fingerprint@,
    {
        self.fingerprint.as_str()
    }

    pub fn capabilities(&self) -> (result: CapabilityFlags)
        ensures
            result == self.capabilities,
    {
        self.capabilities
    }
}

/// A device's signature over a transcript.
#[derive(Debug, PartialEq, Eq)]
pub struct AuthProof {
    pub device_id: String,
    pub role: PeerRole,
    pub signature: Vec<u8>,
}

/// Why no proof could be made.
#[derive(Debug, PartialEq, Eq)]
pub enum AuthProofSignError<E> {
    RoleMismatch { expected: PeerRole, actual: PeerRole },
    Signer(E),
}

/// Why a proof was refused.
#[allow(inconsistent_fields)]
#[derive(Debug, PartialEq, Eq)]
pub enum AuthProofVerifyError<E> {
    DeviceIdMismatch { expected: String, actual: String },
    RoleMismatch { expected: PeerRole, actual: PeerRole },
    Verifier(E),
}

/// The name of a role.
pub open spec fn role_text(role: PeerRole) -> Seq<char> {
    match role {
        PeerRole::Initiator => "initiator"@,
        PeerRole::Responder => "responder"@,
    }
}

/// The name of a role.
pub fn role_name(role: PeerRole) -> (result: &'static str)
    ensures
        result@ == role_text(role),
{
    match role {
        PeerRole::Initiator => "initiator",
        PeerRole::Responder => "responder",
    }
}

impl<E: ErrorText> AuthProofSignError<E> {
    /// Whether the error may be put into these words.
    pub open spec fn says(&self, words: Seq<char>) -> bool {
        match self {
            AuthProofSignError::RoleMismatch { expected, actual } => {
                words == "auth proof role mismatch: expected "@ + role_text(*expected) + ", got "@
                    + role_text(*actual)
            },
            AuthProofSignError::Signer(error) => error.in_words(words),
        }
    }

    /// The error in words.
    pub fn message(&self) -> (result: String)
        ensures
            self.says(result@),
    {
        match self {
            AuthProofSignError::RoleMismatch { expected, actual } => {
                "auth proof role mismatch: expected ".to_owned().concat(
                    role_name(*expected),
                ).concat(", got ").concat(role_name(*actual))
            },
            AuthProofSignError::Signer(error) => error.error_message(),
        }
    }
}

impl<E: ErrorText> AuthProofVerifyError<E> {
    /// Whether the error may be put into these words.
    pub open spec fn says(&self, words: Seq<char>) -> bool {
        match self {
            AuthProofVerifyError::DeviceIdMismatch { expected, actual } => {
                words == "auth proof device id mismatch: expected "@ + expected@ + ", got "@
                    + actual@
            },
            AuthProofVerifyError::RoleMismatch { expected, actual } => {
                words == "auth proof role mismatch: expected "@ + role_text(*expected) + ", got "@
                    + role_text(*actual)
            },
            AuthProofVerifyError::Verifier(error) => error.in_words(words),
        }
    }

    /// The error in words.
    pub fn message(&self) -> (result: String)
        ensures
            self.says(result@),
    {
        match self {
            AuthProofVerifyError::DeviceIdMismatch { expected, actual } => {
                "auth proof device id mismatch: expected ".to_owned().concat(
                    expected.as_str(),
                ).concat(", got ").concat(actual.as_str())
            },
            AuthProofVerifyError::RoleMismatch { expected, actual } => {
                "auth proof role mismatch: expected ".to_owned().concat(
                    role_name(*expected),
                ).concat(", got ").concat(role_name(*actual))
            },
            AuthProofVerifyError::Verifier(error) => error.error_message(),
        }
    }
}

/// What making a proof gives: the transcript must have been written in the proof's role, and the
/// signer decides the rest.
pub open spec fn proof_made<S: IdentitySecretKey>(
    device_id: Seq<char>,
    key: S,
    role: PeerRole,
    transcript: AuthTranscript,
    result: Result<AuthProof, AuthProofSignError<S::Error>>,
) -> bool {
    if transcript.role != role {
        result == Err::<AuthProof, AuthProofSignError<S::Error>>(
            AuthProofSignError::RoleMismatch { expected: role, actual: transcript.role },
        )
    } else {
        exists|outcome: Result<Vec<u8>, S::Error>| #[trigger]
            key.signs(crate::protocol::canonical(transcript), outcome) && match outcome {
                Ok(signature) => {
                    &&& result is Ok
                    &&& result->Ok_0.device_id@ == device_id
                    &&& result->Ok_0.role == role
                    &&& result->Ok_0.signature == signature
                },
                Err(error) => result == Err::<AuthProof, AuthProofSignError<S::Error>>(
                    AuthProofSignError::Signer(error),
                ),
            }
    }
}

/// What verifying a proof gives: the device is checked first, then the role, then the signature.
pub open spec fn proof_checked<V: IdentityPublicKey>(
    peer_id: Seq<char>,
    key: V,
    expected_role: PeerRole,
    transcript: AuthTranscript,
    proof: AuthProof,
    result: Result<(), AuthProofVerifyError<V::Error>>,
) -> bool {
    if proof.device_id@ != peer_id {
        match result {
            Err(AuthProofVerifyError::DeviceIdMismatch { expected, actual }) => {
                expected@ == peer_id && actual@ == proof.device_id@
            },
            _ => false,
        }
    } else if proof.role != expected_role {
        result == Err::<(), AuthProofVerifyError<V::Error>>(
            AuthProofVerifyError::RoleMismatch { expected: expected_role, actual: proof.role },
        )
    } else if transcript.role != expected_role {
        result == Err::<(), AuthProofVerifyError<V::Error>>(
            AuthProofVerifyError::RoleMismatch { expected: expected_role, actual: transcript.role },
        )
    } else {
        exists|outcome: Result<(), V::Error>| #[trigger]
            key.verifies(crate::protocol::canonical(transcript), proof.signature@, outcome)
                && match outcome {
                Ok(_) => result is Ok,
                Err(error) => result == Err::<(), AuthProofVerifyError<V::Error>>(
                    AuthProofVerifyError::Verifier(error),
                ),
            }
    }
}

/// A device's identity and the key that signs for it.
#[derive(Debug, PartialEq, Eq)]
pub struct LocalIdentity<S> {
    pub identity: DeviceIdentity,
    pub secret_key: S,
}

impl<S> LocalIdentity<S> {
    pub fn new(identity: DeviceIdentity, secret_key: S) -> (result: Self)
        ensures
            result == (LocalIdentity { identity, secret_key }),
    {
        LocalIdentity { identity, secret_key }
    }

    pub fn identity(&self) -> (result: &DeviceIdentity)
        ensures
            *result == self.identity,
    {
        &self.identity
    }

    pub fn into_parts(self) -> (result: (DeviceIdentity, S))
        ensures
            result == (self.identity, self.secret_key),
    {
        (self.identity, self.secret_key)
    }
}

impl<S: IdentitySecretKey> LocalIdentity<S> {
    /// Prove to a peer that this device took part in a handshake.
    pub fn sign_auth_proof(&self, role: PeerRole, transcript: &AuthTranscript) -> (result: Result<
        AuthProof,
        AuthProofSignError<S::Error>,
    >)
        ensures
            proof_made(self.identity.device_id@, self.secret_key, role, *transcript, result),
    {
        if transcript.role != role {
            return Err(
                AuthProofSignError::RoleMismatch { expected: role, actual: transcript.role },
            );
        }
        let bytes: Vec<u8> = transcript.canonical_bytes();
        let outcome = self.secret_key.sign_identity(bytes.as_slice());
        assert(self.secret_key.signs(crate::protocol::canonical(*transcript), outcome));
        match outcome {
            Ok(signature) => Ok(
                AuthProof { device_id: self.identity.device_id.clone(), role, signature },
            ),
            Err(error) => Err(AuthProofSignError::Signer(error)),
        }
    }
}

/// A paired peer and the key that its proofs are verified with.
#[derive(Debug, PartialEq, Eq)]
pub struct TrustedPeer<V> {
    pub identity: TrustedPeerIdentity,
    pub public_key: V,
}

impl<V> TrustedPeer<V> {
    pub fn new(identity: TrustedPeerIdentity, public_key: V) -> (result: Self)
        ensures
            result == (TrustedPeer { identity, public_key }),
    {
        TrustedPeer { identity, public_key }
    }

    pub fn identity(&self) -> (result: &TrustedPeerIdentity)
        ensures
            *result == self.identity,
    {
        &self.identity
    }

    pub fn into_parts(self) -> (result: (TrustedPeerIdentity, V))
        ensures
            result == (self.identity, self.public_key),
    {
        (self.identity, self.public_key)
    }
}

impl<V: IdentityPublicKey> TrustedPeer<V> {
    /// Check a peer's proof that it took part in a handshake.
    pub fn verify_auth_proof(
        &self,
        expected_role: PeerRole,
        transcript: &AuthTranscript,
        proof: &AuthProof,
    ) -> (result: Result<(), AuthProofVerifyError<V::Error>>)
        ensures
            proof_checked(
                self.identity.peer_id@,
                self.public_key,
                expected_role,
                *transcript,
                *proof,
                result,
            ),
    {
        if !same(proof.device_id.as_str(), self.identity.peer_id.as_str()) {
            return Err(
                AuthProofVerifyError::DeviceIdMismatch {
                    expected: self.identity.peer_id.clone(),
                    actual: proof.device_id.clone(),
                },
            );
        }
        if proof.role != expected_role {
            return Err(
                AuthProofVerifyError::RoleMismatch { expected: expected_role, actual: proof.role },
            );
        }
        if transcript.role != expected_role {
            return Err(
                AuthProofVerifyError::RoleMismatch {
                    expected: expected_role,
                    actual: transcript.role,
                },
            );
        }
        let bytes: Vec<u8> = transcript.canonical_bytes();
        let outcome = self.public_key.verify_identity(
            bytes.as_slice(),
            proof.signature.as_slice(),
        );
        assert(self.public_key.verifies(
            crate::protocol::canonical(*transcript),
            proof.signature@,
            outcome,
        ));
        match outcome {
            Ok(_) => Ok(()),
            Err(error) => Err(AuthProofVerifyError::Verifier(error)),
        }
    }
}

/// A peer that trusts a device's public key under the device's own id accepts every proof that the
/// device makes, for the transcript and the role it was made for.
pub proof fn own_proof_is_accepted(
    local: LocalIdentity<Ed25519IdentityKey>,
    trusted: TrustedPeer<Ed25519PublicKey>,
    role: PeerRole,
    transcript: AuthTranscript,
    made: Result<AuthProof, AuthProofSignError<IdentityKeyError>>,
    checked: Result<(), AuthProofVerifyError<IdentityKeyError>>,
)
    requires
        transcript.role == role,
        trusted.identity.peer_id@ == local.identity.device_id@,
        trusted.public_key@ == crate::crypto::ed25519_public_key(local.secret_key@),
        crate::crypto::ed25519_is_public_key(trusted.public_key@),
        proof_made(local.identity.device_id@, local.secret_key, role, transcript, made),
        proof_checked(
            trusted.identity.peer_id@,
            trusted.public_key,
            role,
            transcript,
            made->Ok_0,
            checked,
        ),
    ensures
        made is Ok,
        checked is Ok,
{
}

/// A proof made in one role is refused in the other, whatever key signed it.
pub proof fn proof_is_bound_to_its_role<V: IdentityPublicKey>(
    peer_id: Seq<char>,
    key: V,
    expected_role: PeerRole,
    transcript: AuthTranscript,
    proof: AuthProof,
    checked: Result<(), AuthProofVerifyError<V::Error>>,
)
    requires
        proof.role != expected_role,
        proof_checked(peer_id, key, expected_role, transcript, proof, checked),
    ensures
        checked is Err,
{
}

/// A fingerprint begins with the library's four letters and shows the first letters of the key's digest
/// in groups of four, each behind a hyphen. It depends on the key alone.
pub proof fn a_fingerprint_shows_the_digest(key: &[u8], shown: String, k: int)
    requires
        call_ensures(fingerprint_for_public_key, (key,), shown),
        0 <= k < 32,
    ensures
        shown@.len() == 44,
        crate::text::has_prefix(shown@, "AKRZ"@),
        shown@[4 + 5 * (k / 4)] == '-',
        shown@[5 + k + k / 4] == crate::crypto::base32(crate::crypto::blake3_digest(key@))[k],
{
    reveal_strlit("AKRZ");
    assert(shown@.subrange(0, 4) =~= "AKRZ"@);
    let i = 1 + k + k / 4;
    assert(i / 5 == k / 4 && i % 5 != 0 && i - i / 5 - 1 == k) by (nonlinear_arith)
        requires
            i == 1 + k + k / 4,
            0 <= k < 32,
    ;
    assert((5 * (k / 4)) % 5 == 0) by (nonlinear_arith);
    assert(0 <= 5 * (k / 4) < 40);
}

/// Bytes are taken as they are where they have the right length, and refused by their length where they
/// have not.
pub proof fn bytes_are_taken_by_their_length(
    bytes: &[u8],
    fixed: Result<[u8; 32], usize>,
    copied: Vec<u8>,
    other: &[u8],
    same: bool,
)
    requires
        call_ensures(fixed_array::<32>, (bytes,), fixed),
        call_ensures(copy_bytes, (bytes,), copied),
        call_ensures(same_bytes, (bytes, other), same),
    ensures
        fixed is Ok <==> bytes@.len() == 32,
        fixed matches Ok(array) ==> array@ == bytes@,
        fixed matches Err(actual) ==> actual == bytes@.len(),
        copied@ == bytes@,
        same <==> bytes@ == other@,
{
}

/// A signing key keeps its secret, and what it signs is accepted by the public key that it tells, for
/// every message. A signature of another length is refused by its length.
pub proof fn what_a_key_signs_is_accepted(
    secret: [u8; 32],
    key: Ed25519IdentityKey,
    exported: [u8; 32],
    public: [u8; 32],
    told: &[u8],
    trusted: Result<Ed25519PublicKey, IdentityKeyError>,
    message: &[u8],
    signed: Result<Vec<u8>, IdentityKeyError>,
    signature: &[u8],
    verified: Result<(), IdentityKeyError>,
)
    requires
        call_ensures(Ed25519IdentityKey::from_secret_key_bytes, (secret,), key),
        call_ensures(Ed25519IdentityKey::export_secret_key_bytes, (&key,), exported),
        call_ensures(Ed25519IdentityKey::public_key_bytes, (&key,), public),
        told@ == public@,
        call_ensures(Ed25519PublicKey::from_public_key_bytes, (told,), trusted),
        call_ensures(
            <Ed25519IdentityKey as IdentitySecretKey>::sign_identity,
            (&key, message),
            signed,
        ),
        signed is Ok ==> signature@ == signed->Ok_0@,
        trusted is Ok ==> call_ensures(
            <Ed25519PublicKey as IdentityPublicKey>::verify_identity,
            (&trusted->Ok_0, message, signature),
            verified,
        ),
    ensures
        exported@ == secret@,
        trusted is Ok,
        signed is Ok,
        signed->Ok_0@.len() == 64,
        verified is Ok,
{
}

/// A signature is accepted by a key for the message that it was made for; one of another length is
/// refused by its length, and any other one as such.
pub proof fn signatures_are_refused_for_a_reason(
    key: Ed25519PublicKey,
    message: &[u8],
    signature: &[u8],
    verified: Result<(), IdentityKeyError>,
    bytes: &[u8],
    made: Result<Ed25519PublicKey, IdentityKeyError>,
)
    requires
        call_ensures(
            <Ed25519PublicKey as IdentityPublicKey>::verify_identity,
            (&key, message, signature),
            verified,
        ),
        call_ensures(Ed25519PublicKey::from_public_key_bytes, (bytes,), made),
    ensures
        verified is Ok ==> signature@.len() == 64 && crate::crypto::ed25519_accepts(
            key@,
            message@,
            signature@,
        ),
        signature@.len() != 64 ==> verified is Err && verified->Err_0 is InvalidSignatureLength,
        signature@.len() == 64 && verified is Err ==> verified->Err_0 is InvalidSignature,
        bytes@.len() != 32 ==> made is Err && made->Err_0 is InvalidPublicKeyLength,
        bytes@.len() == 32 && made is Err ==> made->Err_0 is InvalidPublicKey,
        made matches Ok(key) ==> key@ == bytes@,
{
}

/// A proof names its device and its role, and is accepted of that device in that role alone: a proof
/// of another device or in another role is refused before its signature is looked at.
pub proof fn a_proof_is_of_one_device_in_one_role<S: IdentitySecretKey, V: IdentityPublicKey>(
    local: LocalIdentity<S>,
    role: PeerRole,
    transcript: AuthTranscript,
    made: Result<AuthProof, AuthProofSignError<S::Error>>,
    trusted: TrustedPeer<V>,
    expected: PeerRole,
    checked: Result<(), AuthProofVerifyError<V::Error>>,
)
    requires
        call_ensures(LocalIdentity::<S>::sign_auth_proof, (&local, role, &transcript), made),
        made is Ok ==> call_ensures(
            TrustedPeer::<V>::verify_auth_proof,
            (&trusted, expected, &transcript, &made->Ok_0),
            checked,
        ),
    ensures
        made is Ok ==> transcript.role == role,
        transcript.role != role ==> made is Err && made->Err_0 is RoleMismatch,
        made matches Ok(proof) ==> {
            &&& proof.device_id@ == local.identity.device_id@
            &&& proof.role == role
            &&& trusted.identity.peer_id@ != local.identity.device_id@ ==> checked is Err
                && checked->Err_0 is DeviceIdMismatch
            &&& trusted.identity.peer_id@ == local.identity.device_id@ && expected != role
                ==> checked is Err && checked->Err_0 is RoleMismatch
            &&& checked is Ok ==> trusted.identity.peer_id@ == local.identity.device_id@
                && expected == role
        },
{
}

/// A device that signs for itself is accepted by those who trust its key.
pub proof fn a_trusted_device_is_accepted(
    local: LocalIdentity<Ed25519IdentityKey>,
    trusted: TrustedPeer<Ed25519PublicKey>,
    role: PeerRole,
    transcript: AuthTranscript,
    made: Result<AuthProof, AuthProofSignError<IdentityKeyError>>,
    checked: Result<(), AuthProofVerifyError<IdentityKeyError>>,
    public: [u8; 32],
)
    requires
        transcript.role == role,
        trusted.identity.peer_id@ == local.identity.device_id@,
        call_ensures(Ed25519IdentityKey::public_key_bytes, (&local.secret_key,), public),
        trusted.public_key@ == public@,
        call_ensures(
            LocalIdentity::<Ed25519IdentityKey>::sign_auth_proof,
            (&local, role, &transcript),
            made,
        ),
        made is Ok ==> call_ensures(
            TrustedPeer::<Ed25519PublicKey>::verify_auth_proof,
            (&trusted, role, &transcript, &made->Ok_0),
            checked,
        ),
    ensures
        made is Ok,
        checked is Ok,
{
    own_proof_is_accepted(local, trusted, role, transcript, made, checked);
}

/// A proof is accepted where the trusted key accepts its signature of the very transcript, and the
/// verifier's reason is given where it does not.
pub proof fn a_proof_stands_by_its_signature<V: IdentityPublicKey>(
    trusted: TrustedPeer<V>,
    expected: PeerRole,
    transcript: AuthTranscript,
    proven: AuthProof,
    checked: Result<(), AuthProofVerifyError<V::Error>>,
    signed: Vec<u8>,
)
    requires
        call_ensures(
            TrustedPeer::<V>::verify_auth_proof,
            (&trusted, expected, &transcript, &proven),
            checked,
        ),
        call_ensures(AuthTranscript::canonical_bytes, (&transcript,), signed),
    ensures
        checked is Ok ==> {
            &&& proven.device_id@ == trusted.identity.peer_id@
            &&& proven.role == expected
            &&& transcript.role == expected
            &&& exists|outcome: Result<(), V::Error>| #[trigger]
                trusted.public_key.verifies(signed@, proven.signature@, outcome) && outcome is Ok
        },
        checked matches Err(AuthProofVerifyError::Verifier(error)) ==> trusted.public_key.verifies(
            signed@,
            proven.signature@,
            Err::<(), V::Error>(error),
        ),
{
}

/// Roles go by their own names.
pub proof fn roles_go_by_name(role: PeerRole, name: &'static str)
    requires
        call_ensures(role_name, (role,), name),
    ensures
        role is Initiator ==> name@ == "initiator"@,
        role is Responder ==> name@ == "responder"@,
{
}

/// An identity is told as it was made, part by part.
pub proof fn identities_are_told_as_they_are(
    id: &str,
    name: &str,
    key: Vec<u8>,
    fingerprint: &str,
    capabilities: CapabilityFlags,
    device: DeviceIdentity,
    peer: TrustedPeerIdentity,
    told_id: &str,
    told_name: &str,
    told_key: &[u8],
    told_fingerprint: &str,
    peer_id: &str,
    peer_name: &str,
    peer_key: &[u8],
    peer_fingerprint: &str,
    offered: CapabilityFlags,
)
    requires
        call_ensures(DeviceIdentity::new, (id, name, key, fingerprint), device),
        call_ensures(TrustedPeerIdentity::new, (id, name, key, fingerprint, capabilities), peer),
        call_ensures(DeviceIdentity::device_id, (&device,), told_id),
        call_ensures(DeviceIdentity::display_name, (&device,), told_name),
        call_ensures(DeviceIdentity::identity_public_key, (&device,), told_key),
        call_ensures(DeviceIdentity::fingerprint, (&device,), told_fingerprint),
        call_ensures(TrustedPeerIdentity::peer_id, (&peer,), peer_id),
        call_ensures(TrustedPeerIdentity::display_name, (&peer,), peer_name),
        call_ensures(TrustedPeerIdentity::identity_public_key, (&peer,), peer_key),
        call_ensures(TrustedPeerIdentity::fingerprint, (&peer,), peer_fingerprint),
        call_ensures(TrustedPeerIdentity::capabilities, (&peer,), offered),
    ensures
        told_id@ == id@ && told_name@ == name@ && told_key@ == key@ && told_fingerprint@
            == fingerprint@,
        peer_id@ == id@ && peer_name@ == name@ && peer_key@ == key@ && peer_fingerprint@
            == fingerprint@,
        offered == capabilities,
{
}

} // verus!
