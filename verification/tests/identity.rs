//! Identities: keys, proofs, the file that keeps them, and pairing.

use akraz::identity::{
    fingerprint_for_public_key, AuthProofSignError, AuthProofVerifyError, DeviceIdentity,
    Ed25519IdentityKey, Ed25519PublicKey, ErrorText, IdentityKeyError, IdentityPublicKey,
    IdentitySecretKey, LocalIdentity, TrustedPeer, TrustedPeerIdentity,
};
use akraz::pairing::{
    build_identity_show_result, default_pairing_capabilities, IdentityShowResult, Pairing,
    PairingAction, PairingEvent, PairingOutcome,
};
use akraz::protocol::{
    AuthTranscript, CapabilityFlags, PeerRole, ProtocolVersion, HANDSHAKE_NONCE_LEN,
    TLS_EXPORTER_LEN,
};
use akraz::store::{
    find_peer, forget_peer, remember_peer, CorruptIdentityFileSource, FileIdentityStore, IdentityFileState, IdentityPathState,
    IdentityStoreAction, IdentityStoreError, IdentityStoreEvent, IdentityWriteState,
    PairingDocumentError, PairingIdentityDocument, StoredIdentityFile, StoredLocalIdentity,
};
use data_encoding::BASE64;

fn auth_transcript_fixture(role: PeerRole) -> AuthTranscript {
    AuthTranscript {
        local_device_id: "device-a".to_string(),
        remote_device_id: "device-b".to_string(),
        local_nonce: [1; HANDSHAKE_NONCE_LEN],
        remote_nonce: [2; HANDSHAKE_NONCE_LEN],
        protocol: ProtocolVersion::current(),
        local_capabilities: CapabilityFlags::pointer(),
        remote_capabilities: CapabilityFlags::pointer().union(CapabilityFlags::keyboard()),
        role,
        tls_exporter: [3; TLS_EXPORTER_LEN],
    }
}

#[derive(Debug, Clone, PartialEq, Eq)]
struct EchoSecretKey {
    public_key: Vec<u8>,
}

impl EchoSecretKey {
    fn new(public_key: &[u8]) -> Self {
        Self { public_key: public_key.to_vec() }
    }
}

impl IdentitySecretKey for EchoSecretKey {
    type Error = TestIdentityError;

    fn sign_identity(&self, canonical_transcript: &[u8]) -> Result<Vec<u8>, Self::Error> {
        let mut signature = b"akraz-identity-test:".to_vec();
        signature.extend_from_slice(&self.public_key);
        signature.push(b':');
        signature.extend_from_slice(canonical_transcript);
        Ok(signature)
    }
}

#[derive(Debug, Clone, PartialEq, Eq)]
struct EchoPublicKey {
    public_key: Vec<u8>,
}

impl EchoPublicKey {
    fn new(public_key: &[u8]) -> Self {
        Self { public_key: public_key.to_vec() }
    }
}

impl IdentityPublicKey for EchoPublicKey {
    type Error = TestIdentityError;

    fn verify_identity(
        &self,
        canonical_transcript: &[u8],
        signature: &[u8],
    ) -> Result<(), Self::Error> {
        let mut expected = b"akraz-identity-test:".to_vec();
        expected.extend_from_slice(&self.public_key);
        expected.push(b':');
        expected.extend_from_slice(canonical_transcript);
        if signature == expected {
            Ok(())
        } else {
            Err(TestIdentityError::Rejected)
        }
    }
}

#[derive(Debug, Clone, PartialEq, Eq)]
enum TestIdentityError {
    Rejected,
}

impl ErrorText for TestIdentityError {
    fn error_message(&self) -> String {
        "identity verification rejected".to_string()
    }
}

/// A disk with room for one identity file.
struct Disk {
    file: Option<StoredIdentityFile>,
    not_json: bool,
    symlink: bool,
}

impl Disk {
    fn new() -> Self {
        Disk { file: None, not_json: false, symlink: false }
    }
}

fn copy_file(file: &StoredIdentityFile) -> StoredIdentityFile {
    StoredIdentityFile {
        version: file.version,
        device_id: file.device_id.clone(),
        display_name: file.display_name.clone(),
        identity_secret_key: file.identity_secret_key.clone(),
        identity_public_key: file.identity_public_key.clone(),
        fingerprint: file.fingerprint.clone(),
    }
}

fn load_or_create(
    disk: &mut Disk,
    display_name: &str,
) -> Result<StoredLocalIdentity, IdentityStoreError> {
    let mut store =
        FileIdentityStore::new("secrets/identity.json", Some("secrets".to_string()), display_name);
    let mut action = IdentityStoreAction::CheckPath;
    loop {
        let event = match action {
            IdentityStoreAction::CheckPath => IdentityStoreEvent::Path(if disk.symlink {
                IdentityPathState::Symlink
            } else if disk.file.is_some() || disk.not_json {
                IdentityPathState::Present
            } else {
                IdentityPathState::Missing
            }),
            IdentityStoreAction::ReadFile => IdentityStoreEvent::File(if disk.not_json {
                IdentityFileState::NotJson { cause: "expected ident".to_string() }
            } else {
                match &disk.file {
                    Some(file) => IdentityFileState::Parsed { file: copy_file(file) },
                    None => IdentityFileState::Missing,
                }
            }),
            IdentityStoreAction::CreateDirectory => IdentityStoreEvent::Directory(Ok(())),
            IdentityStoreAction::WriteFile { file } => {
                assert!(disk.file.is_none() && !disk.not_json);
                disk.file = Some(file);
                IdentityStoreEvent::Write(IdentityWriteState::Written)
            }
            IdentityStoreAction::Finish { result } => return result,
        };
        action = store.load_or_create(event);
    }
}

fn loaded(disk: &mut Disk, display_name: &str) -> StoredLocalIdentity {
    match load_or_create(disk, display_name) {
        Ok(stored) => stored,
        Err(error) => panic!("expected identity: {}", error.message()),
    }
}

fn refused(disk: &mut Disk) -> IdentityStoreError {
    match load_or_create(disk, "Device A") {
        Ok(_) => panic!("expected the file to be refused"),
        Err(error) => error,
    }
}

#[test]
fn ed25519_identity_key_signs_and_verifies_auth_proof() {
    let secret_key = Ed25519IdentityKey::generate();
    let public_key = match Ed25519PublicKey::from_public_key_bytes(&secret_key.public_key_bytes()) {
        Ok(public_key) => public_key,
        Err(error) => panic!("expected public key: {}", error.message()),
    };
    let fingerprint = fingerprint_for_public_key(&secret_key.public_key_bytes());
    let local = LocalIdentity::new(
        DeviceIdentity::new(
            "device-a",
            "Device A",
            secret_key.public_key_bytes().to_vec(),
            &fingerprint,
        ),
        secret_key,
    );
    let trusted = TrustedPeer::new(
        TrustedPeerIdentity::new(
            "device-a",
            "Device A",
            public_key.public_key_bytes().to_vec(),
            &fingerprint,
            CapabilityFlags::pointer(),
        ),
        public_key,
    );
    let transcript = auth_transcript_fixture(PeerRole::Initiator);

    let proof = local.sign_auth_proof(PeerRole::Initiator, &transcript).expect("auth proof");

    assert!(trusted.verify_auth_proof(PeerRole::Initiator, &transcript, &proof).is_ok());

    let mut other = auth_transcript_fixture(PeerRole::Initiator);
    other.local_nonce[0] = 9;
    assert_eq!(
        trusted.verify_auth_proof(PeerRole::Initiator, &other, &proof),
        Err(AuthProofVerifyError::Verifier(IdentityKeyError::InvalidSignature))
    );
}

#[test]
fn file_identity_store_creates_then_reuses_existing_identity() {
    let mut disk = Disk::new();

    let created = loaded(&mut disk, "Device A");
    let created_device_id = created.identity().device_id().to_string();
    let created_secret = created.secret_key().export_secret_key_bytes();

    uuid::Uuid::parse_str(&created_device_id).expect("device id is UUID");
    assert_eq!(created.identity().display_name(), "Device A");
    assert_eq!(created.identity().identity_public_key().len(), 32);
    assert_eq!(
        created.identity().fingerprint(),
        fingerprint_for_public_key(created.identity().identity_public_key())
    );

    let again = loaded(&mut disk, "Changed Name");

    assert_eq!(again.identity().device_id(), created_device_id);
    assert_eq!(again.identity().display_name(), "Device A");
    assert_eq!(again.identity().identity_public_key(), created.identity().identity_public_key());
    assert_eq!(again.secret_key().export_secret_key_bytes(), created_secret);
}

#[test]
fn file_identity_store_rejects_corrupt_file_without_replacing_it() {
    let mut disk = Disk { file: None, not_json: true, symlink: false };

    let error = refused(&mut disk);

    assert!(matches!(
        error,
        IdentityStoreError::CorruptIdentityFile {
            source: CorruptIdentityFileSource::Json(_),
            ..
        }
    ));
    assert!(disk.not_json && disk.file.is_none());
}

#[test]
fn file_identity_store_rejects_mismatched_public_key() {
    let mut disk = Disk::new();
    let created = loaded(&mut disk, "Device A");
    if let Some(file) = &mut disk.file {
        file.identity_public_key = BASE64.encode(&[9; 32]);
    }

    let error = refused(&mut disk);

    assert!(matches!(
        error,
        IdentityStoreError::CorruptIdentityFile {
            source: CorruptIdentityFileSource::PublicKeyMismatch,
            ..
        }
    ));
    assert_ne!(
        BASE64.encode(created.identity().identity_public_key()),
        BASE64.encode(&[9; 32])
    );
}

#[test]
fn every_member_of_an_identity_file_is_checked() {
    let tamper = |change: fn(&mut StoredIdentityFile)| {
        let mut disk = Disk::new();
        loaded(&mut disk, "Device A");
        if let Some(file) = &mut disk.file {
            change(file);
        }
        refused(&mut disk).message()
    };
    assert_eq!(
        tamper(|file| file.version = 2),
        "unsupported identity file version 2 at secrets/identity.json"
    );
    assert_eq!(
        tamper(|file| file.device_id = "device".to_string()),
        "corrupt identity file at secrets/identity.json: invalid device id"
    );
    assert_eq!(
        tamper(|file| file.identity_secret_key = "?".to_string()),
        "corrupt identity file at secrets/identity.json: invalid secret key encoding"
    );
    assert_eq!(
        tamper(|file| file.identity_secret_key = BASE64.encode(&[1; 31])),
        "corrupt identity file at secrets/identity.json: invalid secret key length: 31"
    );
    assert_eq!(
        tamper(|file| file.identity_public_key = "?".to_string()),
        "corrupt identity file at secrets/identity.json: invalid public key encoding"
    );
    assert_eq!(
        tamper(|file| file.identity_public_key = BASE64.encode(&[1; 33])),
        "corrupt identity file at secrets/identity.json: invalid public key length: 33"
    );
    assert!(tamper(|file| file.fingerprint = "other".to_string())
        .starts_with("corrupt identity file at secrets/identity.json: stored fingerprint mismatch: expected "));
}

#[test]
fn a_device_id_is_a_uuid_in_any_of_its_forms() {
    let loads = |device_id: &str| {
        let mut disk = Disk::new();
        loaded(&mut disk, "Device A");
        if let Some(file) = &mut disk.file {
            file.device_id = device_id.to_string();
        }
        load_or_create(&mut disk, "Device A")
    };
    for device_id in [
        "936da01f9abd4d9d80c702af85c822a8",
        "936da01f-9abd-4d9d-80c7-02af85c822a8",
        "936DA01F-9ABD-4D9D-80C7-02AF85C822A8",
        "{936da01f-9abd-4d9d-80c7-02af85c822a8}",
        "urn:uuid:936da01f-9abd-4d9d-80c7-02af85c822a8",
        "URN:UUID:936da01f-9abd-4d9d-80c7-02af85c822a8",
    ] {
        let stored = loads(device_id).expect("a UUID is a device id");
        assert_eq!(stored.identity().device_id(), device_id);
    }
    for device_id in [
        "",
        "936da01f9abd4d9d80c702af85c822a",
        "936da01f9abd4d9d80c702af85c822ag",
        "936da01f9abd-4d9d-80c7-02af85c822a8-",
        "(936da01f-9abd-4d9d-80c7-02af85c822a8)",
        "urn-uuid:936da01f-9abd-4d9d-80c7-02af85c822a8",
        " 936da01f-9abd-4d9d-80c7-02af85c822a8",
    ] {
        assert!(loads(device_id).is_err());
    }
}

#[test]
fn links_in_place_of_an_identity_file_are_refused() {
    let mut disk = Disk { file: None, not_json: false, symlink: true };
    assert_eq!(
        refused(&mut disk).message(),
        "identity file path is a symlink: secrets/identity.json"
    );
    assert!(disk.file.is_none());
}

#[test]
fn names_are_trimmed_and_have_a_default() {
    assert_eq!(loaded(&mut Disk::new(), "  Desk \n").identity().display_name(), "Desk");
    assert_eq!(loaded(&mut Disk::new(), "  ").identity().display_name(), "Akraz Device");
}

#[test]
fn fingerprints_are_made_of_groups() {
    let fingerprint = fingerprint_for_public_key(&[7; 32]);
    assert_eq!(fingerprint, fingerprint_for_public_key(&[7; 32]));
    assert_ne!(fingerprint, fingerprint_for_public_key(&[8; 32]));
    let digest = blake3::hash(&[7; 32]);
    let letters = data_encoding::BASE32_NOPAD.encode(digest.as_bytes());
    assert!(letters.starts_with(&fingerprint.replace("AKRZ-", "").replace('-', "")));
}

#[test]
fn ed25519_identity_key_debug_omits_secret_key_material() {
    let secret_key = Ed25519IdentityKey::generate();
    let secret_key_base64 = BASE64.encode(&secret_key.export_secret_key_bytes());
    let debug = secret_key.describe();

    assert!(!debug.contains(&secret_key_base64));
    assert!(debug.contains(&secret_key.fingerprint()));
}

#[test]
fn local_identity_signs_auth_proof_with_its_device_id() {
    let identity =
        DeviceIdentity::new("device-a", "Device A", b"public-a".to_vec(), "AKRZ-TEST-A");
    let local = LocalIdentity::new(identity, EchoSecretKey::new(b"public-a"));
    let transcript = auth_transcript_fixture(PeerRole::Initiator);

    let proof = local.sign_auth_proof(PeerRole::Initiator, &transcript).expect("auth proof");

    assert_eq!(proof.device_id, "device-a");
    assert_eq!(proof.role, PeerRole::Initiator);
    assert!(proof.signature.starts_with(b"akraz-identity-test:"));

    assert_eq!(
        local.sign_auth_proof(PeerRole::Responder, &transcript),
        Err(AuthProofSignError::RoleMismatch {
            expected: PeerRole::Responder,
            actual: PeerRole::Initiator,
        })
    );
}

#[test]
fn trusted_peer_verifies_matching_auth_proof() {
    let identity = TrustedPeerIdentity::new(
        "device-a",
        "Device A",
        b"public-a".to_vec(),
        "AKRZ-TEST-A",
        CapabilityFlags::pointer().union(CapabilityFlags::keyboard()),
    );
    let trusted = TrustedPeer::new(identity, EchoPublicKey::new(b"public-a"));
    let local = LocalIdentity::new(
        DeviceIdentity::new("device-a", "Device A", b"public-a".to_vec(), "AKRZ-TEST-A"),
        EchoSecretKey::new(b"public-a"),
    );
    let transcript = auth_transcript_fixture(PeerRole::Initiator);
    let proof = local.sign_auth_proof(PeerRole::Initiator, &transcript).expect("auth proof");

    assert_eq!(trusted.verify_auth_proof(PeerRole::Initiator, &transcript, &proof), Ok(()));
}

#[test]
fn trusted_peer_rejects_untrusted_device_id_before_crypto_check() {
    let identity = TrustedPeerIdentity::new(
        "device-b",
        "Device B",
        b"public-b".to_vec(),
        "AKRZ-TEST-B",
        CapabilityFlags::pointer(),
    );
    let trusted = TrustedPeer::new(identity, EchoPublicKey::new(b"public-a"));
    let local = LocalIdentity::new(
        DeviceIdentity::new("device-a", "Device A", b"public-a".to_vec(), "AKRZ-TEST-A"),
        EchoSecretKey::new(b"public-a"),
    );
    let transcript = auth_transcript_fixture(PeerRole::Initiator);
    let proof = local.sign_auth_proof(PeerRole::Initiator, &transcript).expect("auth proof");

    assert_eq!(
        trusted.verify_auth_proof(PeerRole::Initiator, &transcript, &proof),
        Err(AuthProofVerifyError::DeviceIdMismatch {
            expected: "device-b".to_string(),
            actual: "device-a".to_string(),
        })
    );
}

#[test]
fn trusted_peer_rejects_invalid_signature() {
    let identity = TrustedPeerIdentity::new(
        "device-a",
        "Device A",
        b"public-a".to_vec(),
        "AKRZ-TEST-A",
        CapabilityFlags::pointer(),
    );
    let trusted = TrustedPeer::new(identity, EchoPublicKey::new(b"public-b"));
    let local = LocalIdentity::new(
        DeviceIdentity::new("device-a", "Device A", b"public-a".to_vec(), "AKRZ-TEST-A"),
        EchoSecretKey::new(b"public-a"),
    );
    let transcript = auth_transcript_fixture(PeerRole::Initiator);
    let proof = local.sign_auth_proof(PeerRole::Initiator, &transcript).expect("auth proof");

    assert_eq!(
        trusted.verify_auth_proof(PeerRole::Initiator, &transcript, &proof),
        Err(AuthProofVerifyError::Verifier(TestIdentityError::Rejected))
    );
}

#[test]
fn key_bytes_and_signatures_of_the_wrong_length_are_refused() {
    assert_eq!(
        Ed25519PublicKey::from_public_key_bytes(&[1; 31]).map(|_| ()),
        Err(IdentityKeyError::InvalidPublicKeyLength { actual: 31 })
    );
    let key = Ed25519IdentityKey::from_secret_key_bytes([5; 32]);
    let public = match Ed25519PublicKey::from_public_key_bytes(&key.public_key_bytes()) {
        Ok(public) => public,
        Err(error) => panic!("expected public key: {}", error.message()),
    };
    assert_eq!(
        public.verify_identity(b"m", &[0; 63]),
        Err(IdentityKeyError::InvalidSignatureLength { actual: 63 })
    );
    assert_eq!(public.verify_identity(b"m", &[0; 64]), Err(IdentityKeyError::InvalidSignature));
    let signature = key.sign_identity(b"m").expect("signature");
    assert_eq!(public.verify_identity(b"m", &signature), Ok(()));
}

fn shown(disk: &mut Disk, display_name: &str) -> IdentityShowResult {
    match build_identity_show_result(loaded(disk, display_name).identity()) {
        Ok(shown) => shown,
        Err(message) => panic!("expected identity: {message}"),
    }
}

fn document_from(json: &str) -> Result<PairingIdentityDocument, String> {
    let value: serde_json::Value =
        serde_json::from_str(json).map_err(|error| error.to_string())?;
    let text = |key: &str| match value[key].as_str() {
        Some(text) => Ok(text.to_string()),
        None => Err(format!("missing field `{key}`")),
    };
    Ok(PairingIdentityDocument {
        kind: text("kind")?,
        device_id: text("deviceId")?,
        display_name: text("displayName")?,
        identity_public_key: text("identityPublicKey")?,
        fingerprint: text("fingerprint")?,
        capabilities: CapabilityFlags {
            bits: value["capabilities"].as_u64().unwrap_or(0) as u32,
        },
    })
}

/// Carry a task out against the peers that are trusted so far.
fn carry_out(
    disk: &mut Disk,
    peers: &mut Vec<TrustedPeerIdentity>,
    begun: (Pairing, PairingAction),
) -> Result<PairingOutcome, String> {
    let (mut run, mut action) = begun;
    loop {
        let event = match action {
            PairingAction::LoadIdentity => {
                PairingEvent::Loaded(load_or_create(disk, "Target Desktop"))
            }
            PairingAction::ListTrusted => PairingEvent::Listed(Ok(peers
                .iter()
                .map(|peer| {
                    TrustedPeerIdentity::new(
                        peer.peer_id(),
                        peer.display_name(),
                        peer.identity_public_key().to_vec(),
                        peer.fingerprint(),
                        peer.capabilities(),
                    )
                })
                .collect())),
            PairingAction::DecodeDocument(json) => PairingEvent::Decoded(document_from(&json)),
            PairingAction::SaveTrusted(peer) => {
                peers.push(peer);
                PairingEvent::Saved(Ok(()))
            }
            PairingAction::RemoveTrusted(peer_id) => {
                peers.retain(|peer| peer.peer_id() != peer_id);
                PairingEvent::Removed(Ok(()))
            }
            PairingAction::Finish(result) => return result,
        };
        action = run.proceed(event);
    }
}

const PATH: &str = "secrets/identity.json";

#[test]
fn identity_show_exports_public_pairing_document_without_secret_key() {
    let result = shown(&mut Disk::new(), " Windows Desktop ");

    assert_eq!(result.display_name, "Windows Desktop");
    assert_eq!(result.capabilities, default_pairing_capabilities());
    assert!(result.document_json.contains("\"kind\": \"akraz.peerIdentity\""));
    assert!(result.document_json.contains(&result.device_id));
    assert!(result.document_json.contains(&result.fingerprint));
    assert!(!result.document_json.contains("identitySecretKey"));
}

#[test]
fn identity_trust_saves_valid_peer_document() {
    let source = shown(&mut Disk::new(), "Source Laptop");
    let mut target = Disk::new();
    let mut peers = Vec::new();

    let begun =
        Pairing::trust_identity_document(PATH, &source.document_json).expect("a task");
    let result = match carry_out(&mut target, &mut peers, begun) {
        Ok(PairingOutcome::Trusted(result)) => result,
        other => panic!("expected trusted peer: {other:?}"),
    };

    assert!(result.trusted);
    assert_eq!(result.peer_id, source.device_id);
    assert_eq!(result.display_name, "Source Laptop");
    assert_eq!(result.fingerprint, source.fingerprint);
    assert_eq!(result.capabilities, default_pairing_capabilities());

    assert_eq!(peers.len(), 1);
    assert_eq!(peers[0].peer_id(), result.peer_id);
    assert_eq!(peers[0].display_name(), result.display_name);
    assert_eq!(peers[0].fingerprint(), result.fingerprint);
}

#[test]
fn identity_list_trusted_returns_saved_peers() {
    let source = shown(&mut Disk::new(), "Source Laptop");
    let mut target = Disk::new();
    let mut peers = Vec::new();
    let begun =
        Pairing::trust_identity_document(PATH, &source.document_json).expect("a task");
    carry_out(&mut target, &mut peers, begun).expect("trusted peer");

    let begun = Pairing::list_trusted_identities(PATH);
    let result = match carry_out(&mut target, &mut peers, begun) {
        Ok(PairingOutcome::Listed(result)) => result,
        other => panic!("expected trusted peers: {other:?}"),
    };

    assert_eq!(result.peers.len(), 1);
    assert_eq!(result.peers[0].peer_id, source.device_id);
    assert_eq!(result.peers[0].display_name, "Source Laptop");
    assert_eq!(result.peers[0].fingerprint, source.fingerprint);
    assert_eq!(result.peers[0].capabilities, default_pairing_capabilities());
}

#[test]
fn identity_forget_trusted_removes_saved_peer() {
    let source = shown(&mut Disk::new(), "Source Laptop");
    let mut target = Disk::new();
    let mut peers = Vec::new();
    let begun =
        Pairing::trust_identity_document(PATH, &source.document_json).expect("a task");
    carry_out(&mut target, &mut peers, begun).expect("trusted peer");

    let begun = Pairing::forget_trusted_identity(PATH, &source.device_id).expect("a task");
    let result = match carry_out(&mut target, &mut peers, begun) {
        Ok(PairingOutcome::Forgotten(result)) => result,
        other => panic!("expected forgotten peer: {other:?}"),
    };

    assert!(result.forgotten);
    assert_eq!(result.peer_id, source.device_id);
    let begun = Pairing::list_trusted_identities(PATH);
    match carry_out(&mut target, &mut peers, begun) {
        Ok(PairingOutcome::Listed(result)) => assert!(result.peers.is_empty()),
        other => panic!("expected trusted peers: {other:?}"),
    }
}

#[test]
fn identity_forget_trusted_rejects_empty_peer_id() {
    assert_eq!(
        Pairing::forget_trusted_identity(PATH, " ").map(|_| ()),
        Err("trusted peer id is required.".to_string())
    );
}

#[test]
fn identity_trust_rejects_empty_peer_document() {
    assert_eq!(
        Pairing::trust_identity_document(PATH, " ").map(|_| ()),
        Err("peer identity is required.".to_string())
    );
}

#[test]
fn pairing_that_goes_wrong_says_how() {
    let mut linked = Disk { file: None, not_json: false, symlink: true };
    let begun = Pairing::show_identity(PATH);
    assert_eq!(
        carry_out(&mut linked, &mut Vec::new(), begun),
        Err("failed to load Akraz identity at secrets/identity.json: identity file path is a symlink: secrets/identity.json".to_string())
    );

    let begun = Pairing::trust_identity_document(PATH, "{").expect("a task");
    let refused = carry_out(&mut Disk::new(), &mut Vec::new(), begun);
    assert!(refused.unwrap_err().starts_with("failed to decode peer identity: EOF"));

    let stored = loaded(&mut Disk::new(), "Device A");
    let document = || {
        PairingIdentityDocument::from_device_identity(
            stored.identity(),
            default_pairing_capabilities(),
        )
    };
    let verdict = |document: PairingIdentityDocument| {
        let (mut run, _) =
            Pairing::trust_identity_document(PATH, "document").expect("a task");
        run.proceed(PairingEvent::Loaded(Ok(loaded(&mut Disk::new(), "Target"))));
        match run.proceed(PairingEvent::Decoded(Ok(document))) {
            PairingAction::Finish(Err(message)) => message,
            PairingAction::SaveTrusted(_) => "trusted".to_string(),
            _ => panic!("unexpected step"),
        }
    };
    assert_eq!(verdict(document()), "trusted");
    let mut other = document();
    other.kind = "other".to_string();
    assert_eq!(
        verdict(other),
        "invalid peer identity: unsupported peer identity kind: other"
    );
    let mut other = document();
    other.fingerprint = "other".to_string();
    assert_eq!(
        verdict(other),
        format!(
            "invalid peer identity: fingerprint mismatch: expected {}, got other",
            stored.identity().fingerprint()
        )
    );

    let (mut run, _) = Pairing::forget_trusted_identity(PATH, "peer").expect("a task");
    run.proceed(PairingEvent::Loaded(Ok(loaded(&mut Disk::new(), "Target"))));
    match run.proceed(PairingEvent::Removed(Err("denied".to_string()))) {
        PairingAction::Finish(Err(message)) => assert_eq!(
            message,
            "failed to remove trusted peer at secrets/identity.json: denied"
        ),
        _ => panic!("unexpected step"),
    }
}

#[test]
fn documents_that_do_not_fit_together_are_refused() {
    let made = |id: &str, key: &str, fingerprint: &str| {
        PairingIdentityDocument::from_public_wire_fields(
            id,
            "Peer",
            key,
            fingerprint,
            CapabilityFlags::pointer(),
        )
        .map(|_| ())
    };
    let key = BASE64.encode(&[7; 32]);
    let fingerprint = fingerprint_for_public_key(&[7; 32]);
    assert_eq!(made("peer", &key, &fingerprint), Ok(()));
    assert_eq!(made(" ", &key, &fingerprint), Err(PairingDocumentError::EmptyDeviceId));
    assert_eq!(
        made("peer", "?", &fingerprint),
        Err(PairingDocumentError::InvalidPublicKeyEncoding)
    );
    assert_eq!(
        made("peer", &BASE64.encode(&[7; 16]), &fingerprint),
        Err(PairingDocumentError::InvalidPublicKeyLength { actual: 16 })
    );
}

#[test]
fn remembered_peers_replace_what_was_known_of_them() {
    let peer = |id: &str, name: &str, key: &Ed25519IdentityKey| {
        let public_key = key.public_key_bytes();
        TrustedPeerIdentity::new(
            id,
            name,
            public_key.to_vec(),
            &fingerprint_for_public_key(&public_key),
            CapabilityFlags::pointer(),
        )
    };
    let key = Ed25519IdentityKey::from_secret_key_bytes([7; 32]);
    let document = |id: &str, name: &str| {
        PairingIdentityDocument::from_trusted_peer_identity(&peer(id, name, &key))
    };
    let mut documents = Vec::new();
    for (id, name) in [("a", "Left"), ("b", "Right"), ("a", "Middle")] {
        documents = remember_peer(documents, document(id, name));
    }
    assert_eq!(documents, vec![document("b", "Right"), document("a", "Middle")]);

    let documents = forget_peer(documents, "b");
    assert_eq!(documents, vec![document("a", "Middle")]);
    assert_eq!(find_peer(forget_peer(documents, "a"), "a"), None);
    let found = find_peer(vec![document("a", "Middle")], "a").expect("document");
    assert_eq!(found.into_trusted_peer_identity(), Ok(peer("a", "Middle", &key)));
}
