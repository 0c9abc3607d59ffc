//! How a device's identity is kept in a file, and what a peer is told of it when devices are paired.

use vstd::prelude::*;

use crate::crypto::{check_uuid, decode_base64, encode_base64, new_uuid_text};
use crate::identity::{
    copy_bytes, fingerprint_for_public_key, fixed_array, same_bytes, DeviceIdentity,
    Ed25519IdentityKey, LocalIdentity, TrustedPeerIdentity,
};
use crate::json::{json_string, JsonModel, JsonObject, JsonValue, ToJson};
use crate::protocol::CapabilityFlags;
use crate::text::{decimal_text, same, trimmed};

verus! {

/// The version of identity files that this library writes and reads.
pub const IDENTITY_STORE_VERSION: u32 = 1;

/// The name of a device that has none.
pub const DEFAULT_DISPLAY_NAME: &'static str = "Akraz Device";

/// A display name without the space around it, or the default name where nothing is left.
pub open spec fn normal_display_name(display_name: Seq<char>) -> Seq<char> {
    if crate::text::trim(display_name).len() == 0 {
        DEFAULT_DISPLAY_NAME@
    } else {
        crate::text::trim(display_name)
    }
}

pub fn normalize_display_name(display_name: &str) -> (result: String)
    ensures
        result@ == normal_display_name(display_name@),
{
    let name = trimmed(display_name);
    if name.is_empty() {
        DEFAULT_DISPLAY_NAME.to_owned()
    } else {
        name.to_owned()
    }
}

/// An identity together with its signing key.
pub struct StoredLocalIdentity {
    pub identity: DeviceIdentity,
    pub secret_key: Ed25519IdentityKey,
}

impl StoredLocalIdentity {
    pub fn new(identity: DeviceIdentity, secret_key: Ed25519IdentityKey) -> (result: Self)
        ensures
            result == (StoredLocalIdentity { identity, secret_key }),
    {
        StoredLocalIdentity { identity, secret_key }
    }

    pub fn identity(&self) -> (result: &DeviceIdentity)
        ensures
            *result == self.identity,
    {
        &self.identity
    }

    pub fn secret_key(&self) -> (result: &Ed25519IdentityKey)
        ensures
            *result == self.secret_key,
    {
        &self.secret_key
    }

    /// The identity as what signs proofs.
    pub fn into_local_identity(self) -> (result: LocalIdentity<Ed25519IdentityKey>)
        ensures
            result == (LocalIdentity { identity: self.identity, secret_key: self.secret_key }),
    {
        LocalIdentity::new(self.identity, self.secret_key)
    }

    /// Whether the parts belong together: the id is a UUID, the name is a normal one, and the public
    /// key and the fingerprint are those of the secret key.
    pub open spec fn wf(&self) -> bool {
        &&& crate::crypto::is_uuid_text(self.identity.device_id@)
        &&& normal_display_name(self.identity.display_name@) == self.identity.display_name@
        &&& self.secret_key@.len() == 32
        &&& self.identity.identity_public_key@ == crate::crypto::ed25519_public_key(
            self.secret_key@,
        )
        &&& self.identity.identity_public_key@.len() == 32
        &&& self.identity.fingerprint@ == crate::identity::fingerprint(
            self.identity.identity_public_key@,
        )
    }
}

/// Why the contents of an identity file are not trusted.
#[allow(inconsistent_fields)]
#[derive(Debug, PartialEq, Eq)]
pub enum CorruptIdentityFileSource {
    Json(String),
    InvalidDeviceId,
    InvalidSecretKeyEncoding,
    InvalidPublicKeyEncoding,
    InvalidSecretKeyLength { actual: usize },
    InvalidPublicKeyLength { actual: usize },
    PublicKeyMismatch,
    FingerprintMismatch { expected: String, actual: String },
}

impl CorruptIdentityFileSource {
    pub open spec fn text(&self) -> Seq<char> {
        match self {
            CorruptIdentityFileSource::Json(_) => "invalid JSON"@,
            CorruptIdentityFileSource::InvalidDeviceId => "invalid device id"@,
            CorruptIdentityFileSource::InvalidSecretKeyEncoding => "invalid secret key encoding"@,
            CorruptIdentityFileSource::InvalidPublicKeyEncoding => "invalid public key encoding"@,
            CorruptIdentityFileSource::InvalidSecretKeyLength { actual } => {
                "invalid secret key length: "@ + crate::text::decimal(*actual as nat)
            },
            CorruptIdentityFileSource::InvalidPublicKeyLength { actual } => {
                "invalid public key length: "@ + crate::text::decimal(*actual as nat)
            },
            CorruptIdentityFileSource::PublicKeyMismatch => {
                "stored public key does not match secret key"@
            },
            CorruptIdentityFileSource::FingerprintMismatch { expected, actual } => {
                "stored fingerprint mismatch: expected "@ + expected@ + ", got "@ + actual@
            },
        }
    }

    pub fn message(&self) -> (result: String)
        ensures
            result@ == self.text(),
    {
        match self {
            CorruptIdentityFileSource::Json(_) => "invalid JSON".to_owned(),
            CorruptIdentityFileSource::InvalidDeviceId => "invalid device id".to_owned(),
            CorruptIdentityFileSource::InvalidSecretKeyEncoding => {
                "invalid secret key encoding".to_owned()
            },
            CorruptIdentityFileSource::InvalidPublicKeyEncoding => {
                "invalid public key encoding".to_owned()
            },
            CorruptIdentityFileSource::InvalidSecretKeyLength { actual } => {
                "invalid secret key length: ".to_owned().concat(
                    decimal_text(*actual as u64).as_str(),
                )
            },
            CorruptIdentityFileSource::InvalidPublicKeyLength { actual } => {
                "invalid public key length: ".to_owned().concat(
                    decimal_text(*actual as u64).as_str(),
                )
            },
            CorruptIdentityFileSource::PublicKeyMismatch => {
                "stored public key does not match secret key".to_owned()
            },
            CorruptIdentityFileSource::FingerprintMismatch { expected, actual } => {
                "stored fingerprint mismatch: expected ".to_owned().concat(
                    expected.as_str(),
                ).concat(", got ").concat(actual.as_str())
            },
        }
    }
}

/// Why an identity could not be loaded or created. A `cause` is the operating system's.
#[derive(Debug, PartialEq, Eq)]
pub enum IdentityStoreError {
    MissingIdentityFile { path: String },
    IdentityPathIsSymlink { path: String },
    ReadIdentityMetadata { path: String, cause: String },
    ReadIdentityFile { path: String, cause: String },
    CreateStoreDirectory { path: String, cause: String },
    WriteIdentityFile { path: String, cause: String },
    EncodeIdentityFile { path: String, cause: String },
    CorruptIdentityFile { path: String, source: CorruptIdentityFileSource },
    UnsupportedIdentityFileVersion { path: String, version: u32 },
}

impl IdentityStoreError {
    pub open spec fn text(&self) -> Seq<char> {
        match self {
            IdentityStoreError::MissingIdentityFile { path } => {
                "identity file does not exist: "@ + path@
            },
            IdentityStoreError::IdentityPathIsSymlink { path } => {
                "identity file path is a symlink: "@ + path@
            },
            IdentityStoreError::ReadIdentityMetadata { path, .. } => {
                "failed to read identity file metadata: "@ + path@
            },
            IdentityStoreError::ReadIdentityFile { path, .. } => {
                "failed to read identity file: "@ + path@
            },
            IdentityStoreError::CreateStoreDirectory { path, .. } => {
                "failed to create identity store directory: "@ + path@
            },
            IdentityStoreError::WriteIdentityFile { path, .. } => {
                "failed to write identity file: "@ + path@
            },
            IdentityStoreError::EncodeIdentityFile { path, .. } => {
                "failed to encode identity file: "@ + path@
            },
            IdentityStoreError::CorruptIdentityFile { path, source } => {
                "corrupt identity file at "@ + path@ + ": "@ + source.text()
            },
            IdentityStoreError::UnsupportedIdentityFileVersion { path, version } => {
                "unsupported identity file version "@ + crate::text::decimal(*version as nat)
                    + " at "@ + path@
            },
        }
    }

    pub fn message(&self) -> (result: String)
        ensures
            result@ == self.text(),
    {
        match self {
            IdentityStoreError::MissingIdentityFile { path } => {
                "identity file does not exist: ".to_owned().concat(path.as_str())
            },
            IdentityStoreError::IdentityPathIsSymlink { path } => {
                "identity file path is a symlink: ".to_owned().concat(path.as_str())
            },
            IdentityStoreError::ReadIdentityMetadata { path, .. } => {
                "failed to read identity file metadata: ".to_owned().concat(path.as_str())
            },
            IdentityStoreError::ReadIdentityFile { path, .. } => {
                "failed to read identity file: ".to_owned().concat(path.as_str())
            },
            IdentityStoreError::CreateStoreDirectory { path, .. } => {
                "failed to create identity store directory: ".to_owned().concat(path.as_str())
            },
            IdentityStoreError::WriteIdentityFile { path, .. } => {
                "failed to write identity file: ".to_owned().concat(path.as_str())
            },
            IdentityStoreError::EncodeIdentityFile { path, .. } => {
                "failed to encode identity file: ".to_owned().concat(path.as_str())
            },
            IdentityStoreError::CorruptIdentityFile { path, source } => {
                "corrupt identity file at ".to_owned().concat(path.as_str()).concat(": ").concat(
                    source.message().as_str(),
                )
            },
            IdentityStoreError::UnsupportedIdentityFileVersion { path, version } => {
                "unsupported identity file version ".to_owned().concat(
                    decimal_text(*version as u64).as_str(),
                ).concat(" at ").concat(path.as_str())
            },
        }
    }
}

/// The members of an identity file.
#[derive(Debug, PartialEq, Eq)]
pub struct StoredIdentityFile {
    pub version: u32,
    pub device_id: String,
    pub display_name: String,
    pub identity_secret_key: String,
    pub identity_public_key: String,
    pub fingerprint: String,
}

/// Why the members of an identity file are refused.
pub enum RefusalModel {
    Version { version: u32 },
    DeviceId,
    SecretKeyEncoding,
    SecretKeyLength { length: nat },
    PublicKeyEncoding,
    PublicKeyLength { length: nat },
    PublicKeyMismatch,
    Fingerprint { expected: Seq<char>, found: Seq<char> },
}

/// The secret key in an identity file, where it is one.
pub open spec fn file_secret(file: StoredIdentityFile) -> Option<Seq<u8>> {
    crate::crypto::base64_value(file.identity_secret_key@)
}

/// The public key in an identity file, where it is one.
pub open spec fn file_public(file: StoredIdentityFile) -> Option<Seq<u8>> {
    crate::crypto::base64_value(file.identity_public_key@)
}

/// Why an identity file is refused, if it is. The first of the reasons below is given.
pub open spec fn refusal(file: StoredIdentityFile) -> Option<RefusalModel> {
    if file.version != IDENTITY_STORE_VERSION {
        Some(RefusalModel::Version { version: file.version })
    } else if !crate::crypto::is_uuid_text(file.device_id@) {
        Some(RefusalModel::DeviceId)
    } else if file_secret(file) is None {
        Some(RefusalModel::SecretKeyEncoding)
    } else if file_secret(file)->Some_0.len() != 32 {
        Some(RefusalModel::SecretKeyLength { length: file_secret(file)->Some_0.len() })
    } else if file_public(file) is None {
        Some(RefusalModel::PublicKeyEncoding)
    } else if file_public(file)->Some_0.len() != 32 {
        Some(RefusalModel::PublicKeyLength { length: file_public(file)->Some_0.len() })
    } else if file_public(file)->Some_0 != crate::crypto::ed25519_public_key(
        file_secret(file)->Some_0,
    ) {
        Some(RefusalModel::PublicKeyMismatch)
    } else if file.fingerprint@ != crate::identity::fingerprint(file_public(file)->Some_0) {
        Some(
            RefusalModel::Fingerprint {
                expected: crate::identity::fingerprint(file_public(file)->Some_0),
                found: file.fingerprint@,
            },
        )
    } else {
        None
    }
}

/// Whether an error gives a refusal of the file at a path.
pub open spec fn is_refusal(
    error: IdentityStoreError,
    at: Seq<char>,
    refusal: Option<RefusalModel>,
) -> bool {
    match error {
        IdentityStoreError::UnsupportedIdentityFileVersion { path, version } => {
            path@ == at && refusal == Some(RefusalModel::Version { version })
        },
        IdentityStoreError::CorruptIdentityFile { path, source } => path@ == at && match source {
            CorruptIdentityFileSource::Json(_) => false,
            CorruptIdentityFileSource::InvalidDeviceId => refusal == Some(RefusalModel::DeviceId),
            CorruptIdentityFileSource::InvalidSecretKeyEncoding => refusal == Some(
                RefusalModel::SecretKeyEncoding,
            ),
            CorruptIdentityFileSource::InvalidPublicKeyEncoding => refusal == Some(
                RefusalModel::PublicKeyEncoding,
            ),
            CorruptIdentityFileSource::InvalidSecretKeyLength { actual } => refusal == Some(
                RefusalModel::SecretKeyLength { length: actual as nat },
            ),
            CorruptIdentityFileSource::InvalidPublicKeyLength { actual } => refusal == Some(
                RefusalModel::PublicKeyLength { length: actual as nat },
            ),
            CorruptIdentityFileSource::PublicKeyMismatch => refusal == Some(
                RefusalModel::PublicKeyMismatch,
            ),
            CorruptIdentityFileSource::FingerprintMismatch { expected, actual } => refusal == Some(
                RefusalModel::Fingerprint { expected: expected@, found: actual@ },
            ),
        },
        _ => false,
    }
}

/// Whether a file holds an identity and its secret key.
pub open spec fn stored_as(
    file: StoredIdentityFile,
    identity: DeviceIdentity,
    secret: Seq<u8>,
) -> bool {
    &&& file.version == IDENTITY_STORE_VERSION
    &&& file.device_id@ == identity.device_id@
    &&& file.display_name@ == identity.display_name@
    &&& file.identity_secret_key@ == crate::crypto::base64(secret)
    &&& file_secret(file) == Some(secret)
    &&& file.identity_public_key@ == crate::crypto::base64(identity.identity_public_key@)
    &&& file_public(file) == Some(identity.identity_public_key@)
    &&& file.fingerprint@ == identity.fingerprint@
}

/// Whether an identity is the one in a file that was not refused.
pub open spec fn loaded_from(stored: StoredLocalIdentity, file: StoredIdentityFile) -> bool {
    &&& stored.identity.device_id@ == file.device_id@
    &&& stored.identity.display_name@ == normal_display_name(file.display_name@)
    &&& Some(stored.identity.identity_public_key@) == file_public(file)
    &&& stored.identity.fingerprint@ == file.fingerprint@
    &&& Some(stored.secret_key@) == file_secret(file)
}

/// The bytes that base 64 text stands for, where it stands for as many as are asked for.
pub fn decode_fixed_base64<const N: usize>(encoded: &str) -> (result: Result<
    [u8; N],
    Option<usize>,
>)
    ensures
        match result {
            Ok(array) => array@.len() == N && crate::crypto::base64_value(encoded@) == Some(
                array@,
            ),
            Err(None) => crate::crypto::base64_value(encoded@) is None,
            Err(Some(actual)) => crate::crypto::base64_value(encoded@) is Some
                && crate::crypto::base64_value(encoded@)->Some_0.len() == actual && actual != N,
        },
{
    match decode_base64(encoded) {
        Some(bytes) => match fixed_array::<N>(bytes.as_slice()) {
            Ok(array) => Ok(array),
            Err(actual) => Err(Some(actual)),
        },
        None => Err(None),
    }
}

/// The error for a file whose contents are refused.
fn corrupt(path: &str, source: CorruptIdentityFileSource) -> (result: IdentityStoreError)
    ensures
        result is CorruptIdentityFile,
        result->CorruptIdentityFile_path@ == path@,
        result->source == source,
{
    IdentityStoreError::CorruptIdentityFile { path: path.to_owned(), source }
}

impl StoredIdentityFile {
    /// The file that keeps an identity.
    pub fn from_identity(identity: &DeviceIdentity, secret_key: &Ed25519IdentityKey) -> (result:
        Self)
        requires
            identity.identity_public_key@.len() <= usize::MAX / 512,
        ensures
            stored_as(result, *identity, secret_key@),
    {
        let secret: [u8; 32] = secret_key.export_secret_key_bytes();
        StoredIdentityFile {
            version: IDENTITY_STORE_VERSION,
            device_id: identity.device_id.clone(),
            display_name: identity.display_name.clone(),
            identity_secret_key: encode_base64(secret.as_slice()),
            identity_public_key: encode_base64(identity.identity_public_key.as_slice()),
            fingerprint: identity.fingerprint.clone(),
        }
    }

    /// The identity that the file at a path keeps, unless its members do not fit together.
    pub fn into_stored_identity(self, path: &str) -> (result: Result<
        StoredLocalIdentity,
        IdentityStoreError,
    >)
        ensures
            match result {
                Ok(stored) => refusal(self) is None && stored.wf() && loaded_from(stored, self),
                Err(error) => refusal(self) is Some && is_refusal(error, path@, refusal(self)),
            },
    {
        if self.version != IDENTITY_STORE_VERSION {
            return Err(
                IdentityStoreError::UnsupportedIdentityFileVersion {
                    path: path.to_owned(),
                    version: self.version,
                },
            );
        }
        match check_uuid(self.device_id.as_str()) {
            Ok(()) => {},
            Err(_) => {
                return Err(corrupt(path, CorruptIdentityFileSource::InvalidDeviceId));
            },
        }
        let secret: [u8; 32] = match decode_fixed_base64::<32>(self.identity_secret_key.as_str()) {
            Ok(bytes) => bytes,
            Err(None) => {
                return Err(corrupt(path, CorruptIdentityFileSource::InvalidSecretKeyEncoding));
            },
            Err(Some(actual)) => {
                return Err(
                    corrupt(path, CorruptIdentityFileSource::InvalidSecretKeyLength { actual }),
                );
            },
        };
        let stored_public: [u8; 32] = match decode_fixed_base64::<32>(
            self.identity_public_key.as_str(),
        ) {
            Ok(bytes) => bytes,
            Err(None) => {
                return Err(corrupt(path, CorruptIdentityFileSource::InvalidPublicKeyEncoding));
            },
            Err(Some(actual)) => {
                return Err(
                    corrupt(path, CorruptIdentityFileSource::InvalidPublicKeyLength { actual }),
                );
            },
        };
        let secret_key = Ed25519IdentityKey::from_secret_key_bytes(secret);
        let derived: [u8; 32] = secret_key.public_key_bytes();
        if !same_bytes(stored_public.as_slice(), derived.as_slice()) {
            return Err(corrupt(path, CorruptIdentityFileSource::PublicKeyMismatch));
        }
        let expected = fingerprint_for_public_key(derived.as_slice());
        if !same(self.fingerprint.as_str(), expected.as_str()) {
            return Err(
                corrupt(
                    path,
                    CorruptIdentityFileSource::FingerprintMismatch {
                        expected,
                        actual: self.fingerprint,
                    },
                ),
            );
        }
        let name = normalize_display_name(self.display_name.as_str());
        proof {
            lemma_normal_name(self.display_name@);
        }
        let identity = DeviceIdentity::new(
            self.device_id.as_str(),
            name.as_str(),
            copy_bytes(derived.as_slice()),
            expected.as_str(),
        );
        Ok(StoredLocalIdentity::new(identity, secret_key))
    }
}

/// A normal display name stays as it is.
proof fn lemma_normal_name(display_name: Seq<char>)
    ensures
        normal_display_name(normal_display_name(display_name)) == normal_display_name(display_name),
{
    reveal_strlit("Akraz Device");
    crate::text::lemma_trim_idempotent(display_name);
    assert(crate::text::trim_end(DEFAULT_DISPLAY_NAME@) == DEFAULT_DISPLAY_NAME@);
}

/// An identity that was written to a file is loaded from it as it was.
pub proof fn written_identity_loads_back(
    file: StoredIdentityFile,
    written: StoredLocalIdentity,
    loaded: StoredLocalIdentity,
)
    requires
        written.wf(),
        stored_as(file, written.identity, written.secret_key@),
        loaded_from(loaded, file),
    ensures
        refusal(file) is None,
        loaded.identity.device_id@ == written.identity.device_id@,
        loaded.identity.display_name@ == written.identity.display_name@,
        loaded.identity.identity_public_key@ == written.identity.identity_public_key@,
        loaded.identity.fingerprint@ == written.identity.fingerprint@,
        loaded.secret_key@ == written.secret_key@,
{
}

/// A file that was not refused belongs to the secret key in it: no other public key and no other
/// fingerprint stand beside it.
pub proof fn accepted_file_belongs_to_its_secret_key(file: StoredIdentityFile)
    requires
        refusal(file) is None,
    ensures
        file_secret(file) is Some,
        file_public(file) == Some(crate::crypto::ed25519_public_key(file_secret(file)->Some_0)),
        file.fingerprint@ == crate::identity::fingerprint(
            crate::crypto::ed25519_public_key(file_secret(file)->Some_0),
        ),
{
}

/// Make a fresh identity with a name. Its id and its key are random.
pub fn new_identity(display_name: &str) -> (result: StoredLocalIdentity)
    ensures
        result.wf(),
        result.identity.display_name@ == normal_display_name(display_name@),
{
    let secret_key = Ed25519IdentityKey::generate();
    let public_key: [u8; 32] = secret_key.public_key_bytes();
    let name = normalize_display_name(display_name);
    proof {
        lemma_normal_name(display_name@);
    }
    let identity = DeviceIdentity::new(
        new_uuid_text().as_str(),
        name.as_str(),
        copy_bytes(public_key.as_slice()),
        fingerprint_for_public_key(public_key.as_slice()).as_str(),
    );
    StoredLocalIdentity::new(identity, secret_key)
}

/// What stands at the path of an identity file, links not followed.
#[derive(Debug, PartialEq, Eq)]
pub enum IdentityPathState {
    Symlink,
    Present,
    Missing,
    Unknown { cause: String },
}

/// What reading an identity file gave.
#[derive(Debug, PartialEq, Eq)]
pub enum IdentityFileState {
    Missing,
    Unreadable { cause: String },
    NotJson { cause: String },
    Parsed { file: StoredIdentityFile },
}

/// What writing a new identity file gave. A file that is already there is left alone.
#[derive(Debug, PartialEq, Eq)]
pub enum IdentityWriteState {
    Written,
    AlreadyExists,
    NotEncoded { cause: String },
    Failed { cause: String },
}

/// What was found out for a store.
#[derive(Debug, PartialEq, Eq)]
pub enum IdentityStoreEvent {
    Path(IdentityPathState),
    File(IdentityFileState),
    Directory(Result<(), String>),
    Write(IdentityWriteState),
}

/// What a store wants done next.
pub enum IdentityStoreAction {
    CheckPath,
    ReadFile,
    CreateDirectory,
    WriteFile { file: StoredIdentityFile },
    Finish { result: Result<StoredLocalIdentity, IdentityStoreError> },
}

/// How far loading or creating an identity has come.
#[derive(Debug, Clone, Copy, PartialEq, Eq, Structural)]
pub enum IdentityStoreStage {
    CheckBeforeLoad,
    Load,
    CheckBeforeCreate,
    CreateDirectory,
    Write,
    CheckBeforeReload,
    Reload,
    Finished,
}

/// The store of an identity in one file.
///
/// A file that cannot be trusted is refused and never replaced, so that a change of identity cannot
/// hide behind a file that does not parse.
pub struct FileIdentityStore {
    pub path: String,
    pub directory: Option<String>,
    pub display_name: String,
    pub stage: IdentityStoreStage,
    pub created: Option<StoredLocalIdentity>,
}

/// Whether an event is what a stage waits for.
pub open spec fn awaits(stage: IdentityStoreStage, event: IdentityStoreEvent) -> bool {
    match stage {
        IdentityStoreStage::CheckBeforeLoad
        | IdentityStoreStage::CheckBeforeCreate
        | IdentityStoreStage::CheckBeforeReload => event is Path,
        IdentityStoreStage::Load | IdentityStoreStage::Reload => event is File,
        IdentityStoreStage::CreateDirectory => event is Directory,
        IdentityStoreStage::Write => event is Write,
        IdentityStoreStage::Finished => false,
    }
}

/// Whether a store is done with an error of which `holds` is true.
pub open spec fn fails(
    action: IdentityStoreAction,
    after: FileIdentityStore,
    holds: spec_fn(IdentityStoreError) -> bool,
) -> bool {
    &&& after.stage is Finished
    &&& action is Finish
    &&& action->result is Err
    &&& holds(action->result->Err_0)
}

/// Whether a store is about to write a fresh identity with its name.
pub open spec fn writes(action: IdentityStoreAction, after: FileIdentityStore) -> bool {
    &&& after.stage is Write
    &&& after.created is Some
    &&& after.created->Some_0.wf()
    &&& after.created->Some_0.identity.display_name@ == normal_display_name(after.display_name@)
    &&& action is WriteFile
    &&& stored_as(
        action->WriteFile_file,
        after.created->Some_0.identity,
        after.created->Some_0.secret_key@,
    )
}

/// What a store does on an event.
pub open spec fn store_step(
    before: FileIdentityStore,
    event: IdentityStoreEvent,
    action: IdentityStoreAction,
    after: FileIdentityStore,
) -> bool {
    &&& after.path == before.path
    &&& after.directory == before.directory
    &&& after.display_name == before.display_name
    &&& match event {
        IdentityStoreEvent::Path(IdentityPathState::Symlink) => fails(
            action,
            after,
            |error: IdentityStoreError|
                error is IdentityPathIsSymlink && error->IdentityPathIsSymlink_path
                    == before.path,
        ),
        IdentityStoreEvent::Path(IdentityPathState::Unknown { cause }) => fails(
            action,
            after,
            |error: IdentityStoreError|
                error == (IdentityStoreError::ReadIdentityMetadata { path: before.path, cause }),
        ),
        IdentityStoreEvent::Path(_) => match before.stage {
            IdentityStoreStage::CheckBeforeCreate => if before.directory is Some {
                action is CreateDirectory && after.stage is CreateDirectory
            } else {
                writes(action, after)
            },
            IdentityStoreStage::CheckBeforeReload => action is ReadFile && after.stage is Reload,
            _ => action is ReadFile && after.stage is Load,
        },
        IdentityStoreEvent::File(IdentityFileState::Missing) => if before.stage is Reload {
            fails(
                action,
                after,
                |error: IdentityStoreError|
                    error is MissingIdentityFile && error->MissingIdentityFile_path == before.path,
            )
        } else {
            action is CheckPath && after.stage is CheckBeforeCreate
        },
        IdentityStoreEvent::File(IdentityFileState::Unreadable { cause }) => fails(
            action,
            after,
            |error: IdentityStoreError|
                error == (IdentityStoreError::ReadIdentityFile { path: before.path, cause }),
        ),
        IdentityStoreEvent::File(IdentityFileState::NotJson { cause }) => fails(
            action,
            after,
            |error: IdentityStoreError|
                error is CorruptIdentityFile && error->CorruptIdentityFile_path@ == before.path@
                    && error->source == CorruptIdentityFileSource::Json(cause),
        ),
        IdentityStoreEvent::File(IdentityFileState::Parsed { file }) => {
            &&& after.stage is Finished
            &&& action is Finish
            &&& match action->result {
                Ok(stored) => refusal(file) is None && stored.wf() && loaded_from(stored, file),
                Err(error) => refusal(file) is Some && is_refusal(
                    error,
                    before.path@,
                    refusal(file),
                ),
            }
        },
        IdentityStoreEvent::Directory(Ok(())) => writes(action, after),
        IdentityStoreEvent::Directory(Err(cause)) => fails(
            action,
            after,
            |error: IdentityStoreError|
                error is CreateStoreDirectory && error->CreateStoreDirectory_cause == cause
                    && before.directory == Some(error->CreateStoreDirectory_path),
        ),
        IdentityStoreEvent::Write(IdentityWriteState::Written) => {
            &&& after.stage is Finished
            &&& action is Finish
            &&& action->result is Ok
            &&& before.created == Some(action->result->Ok_0)
        },
        IdentityStoreEvent::Write(IdentityWriteState::AlreadyExists) => action is CheckPath
            && after.stage is CheckBeforeReload,
        IdentityStoreEvent::Write(IdentityWriteState::NotEncoded { cause }) => fails(
            action,
            after,
            |error: IdentityStoreError|
                error == (IdentityStoreError::EncodeIdentityFile { path: before.path, cause }),
        ),
        IdentityStoreEvent::Write(IdentityWriteState::Failed { cause }) => fails(
            action,
            after,
            |error: IdentityStoreError|
                error == (IdentityStoreError::WriteIdentityFile { path: before.path, cause }),
        ),
    }
}

impl FileIdentityStore {
    /// A store at the exact path of a file, in a directory where that is known. Its first action is
    /// to check the path.
    pub fn new(path: &str, directory: Option<String>, display_name: &str) -> (result: Self)
        ensures
            result.path@ == path@,
            result.directory == directory,
            result.display_name@ == normal_display_name(display_name@),
            result.stage is CheckBeforeLoad,
            result.wf(),
    {
        FileIdentityStore {
            path: path.to_owned(),
            directory,
            display_name: normalize_display_name(display_name),
            stage: IdentityStoreStage::CheckBeforeLoad,
            created: None,
        }
    }

    /// Whether the store knows what its stage needs.
    pub open spec fn wf(&self) -> bool {
        &&& self.stage is CreateDirectory ==> self.directory is Some
        &&& self.stage is Write ==> self.created is Some && self.created->Some_0.wf()
    }

    pub fn path(&self) -> (result: &str)
        ensures
            result@ == self.path@,
    {
        self.path.as_str()
    }

    /// Make a fresh identity and ask for it to be written.
    fn write_new(&mut self) -> (action: IdentityStoreAction)
        ensures
            final(self).path == old(self).path,
            final(self).directory == old(self).directory,
            final(self).display_name == old(self).display_name,
            writes(action, *final(self)),
    {
        let created = new_identity(self.display_name.as_str());
        let file = StoredIdentityFile::from_identity(&created.identity, &created.secret_key);
        self.created = Some(created);
        self.stage = IdentityStoreStage::Write;
        IdentityStoreAction::WriteFile { file }
    }

    /// End with an error.
    fn refuse(&mut self, error: IdentityStoreError) -> (action: IdentityStoreAction)
        ensures
            final(self).path == old(self).path,
            final(self).directory == old(self).directory,
            final(self).display_name == old(self).display_name,
            final(self).stage is Finished,
            action == (IdentityStoreAction::Finish { result: Err(error) }),
    {
        self.stage = IdentityStoreStage::Finished;
        IdentityStoreAction::Finish { result: Err(error) }
    }

    /// Load the identity, or create one where there is no file: take what was found out and say what
    /// to do next.
    pub fn load_or_create(&mut self, event: IdentityStoreEvent) -> (action: IdentityStoreAction)
        requires
            old(self).wf(),
            awaits(old(self).stage, event),
        ensures
            final(self).wf(),
            store_step(*old(self), event, action, *final(self)),
    {
        match event {
            IdentityStoreEvent::Path(IdentityPathState::Symlink) => {
                let path = self.path.clone();
                self.refuse(IdentityStoreError::IdentityPathIsSymlink { path })
            },
            IdentityStoreEvent::Path(IdentityPathState::Unknown { cause }) => {
                let path = self.path.clone();
                self.refuse(IdentityStoreError::ReadIdentityMetadata { path, cause })
            },
            IdentityStoreEvent::Path(_) => match self.stage {
                IdentityStoreStage::CheckBeforeCreate => if self.directory.is_some() {
                    self.stage = IdentityStoreStage::CreateDirectory;
                    IdentityStoreAction::CreateDirectory
                } else {
                    self.write_new()
                },
                IdentityStoreStage::CheckBeforeReload => {
                    self.stage = IdentityStoreStage::Reload;
                    IdentityStoreAction::ReadFile
                },
                _ => {
                    self.stage = IdentityStoreStage::Load;
                    IdentityStoreAction::ReadFile
                },
            },
            IdentityStoreEvent::File(IdentityFileState::Missing) => match self.stage {
                IdentityStoreStage::Reload => {
                    let path = self.path.clone();
                    self.refuse(IdentityStoreError::MissingIdentityFile { path })
                },
                _ => {
                    self.stage = IdentityStoreStage::CheckBeforeCreate;
                    IdentityStoreAction::CheckPath
                },
            },
            IdentityStoreEvent::File(IdentityFileState::Unreadable { cause }) => {
                let path = self.path.clone();
                self.refuse(IdentityStoreError::ReadIdentityFile { path, cause })
            },
            IdentityStoreEvent::File(IdentityFileState::NotJson { cause }) => {
                let error = corrupt(self.path.as_str(), CorruptIdentityFileSource::Json(cause));
                self.refuse(error)
            },
            IdentityStoreEvent::File(IdentityFileState::Parsed { file }) => {
                let result = file.into_stored_identity(self.path.as_str());
                self.stage = IdentityStoreStage::Finished;
                IdentityStoreAction::Finish { result }
            },
            IdentityStoreEvent::Directory(Ok(())) => self.write_new(),
            IdentityStoreEvent::Directory(Err(cause)) => {
                let path: String = match &self.directory {
                    Some(directory) => directory.clone(),
                    None => self.path.clone(),
                };
                self.refuse(IdentityStoreError::CreateStoreDirectory { path, cause })
            },
            IdentityStoreEvent::Write(IdentityWriteState::Written) => {
                self.stage = IdentityStoreStage::Finished;
                match self.created.take() {
                    Some(created) => IdentityStoreAction::Finish { result: Ok(created) },
                    None => {
                        let path = self.path.clone();
                        self.refuse(IdentityStoreError::MissingIdentityFile { path })
                    },
                }
            },
            IdentityStoreEvent::Write(IdentityWriteState::AlreadyExists) => {
                self.stage = IdentityStoreStage::CheckBeforeReload;
                IdentityStoreAction::CheckPath
            },
            IdentityStoreEvent::Write(IdentityWriteState::NotEncoded { cause }) => {
                let path = self.path.clone();
                self.refuse(IdentityStoreError::EncodeIdentityFile { path, cause })
            },
            IdentityStoreEvent::Write(IdentityWriteState::Failed { cause }) => {
                let path = self.path.clone();
                self.refuse(IdentityStoreError::WriteIdentityFile { path, cause })
            },
        }
    }
}

/// An identity file is created only where there was none: a file that is there is loaded or refused,
/// and ends the matter.
pub proof fn only_a_missing_file_is_created(
    before: FileIdentityStore,
    event: IdentityStoreEvent,
    action: IdentityStoreAction,
    after: FileIdentityStore,
)
    requires
        awaits(before.stage, event),
        store_step(before, event, action, after),
    ensures
        after.stage is CheckBeforeCreate ==> before.stage is Load && event
            == IdentityStoreEvent::File(IdentityFileState::Missing),
        action is WriteFile ==> before.stage is CheckBeforeCreate || before.stage
            is CreateDirectory,
        after.stage is CreateDirectory ==> before.stage is CheckBeforeCreate,
        event is File && !(event->File_0 is Missing) ==> action is Finish,
{
}

/// Nothing behind a symbolic link is read or written.
pub proof fn a_symlink_ends_the_matter(
    before: FileIdentityStore,
    action: IdentityStoreAction,
    after: FileIdentityStore,
)
    requires
        store_step(before, IdentityStoreEvent::Path(IdentityPathState::Symlink), action, after),
    ensures
        action is Finish,
        action->result is Err,
        after.stage is Finished,
{
}

/// What marks a pairing document.
pub const PAIRING_DOCUMENT_KIND: &'static str = "akraz.peerIdentity";

/// What a device shows to be paired with: its public identity, never its secret key.
#[derive(Debug, PartialEq, Eq)]
pub struct PairingIdentityDocument {
    pub kind: String,
    pub device_id: String,
    pub display_name: String,
    pub identity_public_key: String,
    pub fingerprint: String,
    pub capabilities: CapabilityFlags,
}

/// Why a pairing document is refused.
#[allow(inconsistent_fields)]
#[derive(Debug, PartialEq, Eq)]
pub enum PairingDocumentError {
    UnsupportedKind { kind: String },
    EmptyDeviceId,
    InvalidPublicKeyEncoding,
    InvalidPublicKeyLength { actual: usize },
    FingerprintMismatch { expected: String, actual: String },
}

impl PairingDocumentError {
    pub open spec fn text(&self) -> Seq<char> {
        match self {
            PairingDocumentError::UnsupportedKind { kind } => {
                "unsupported peer identity kind: "@ + kind@
            },
            PairingDocumentError::EmptyDeviceId => "peer device id is required"@,
            PairingDocumentError::InvalidPublicKeyEncoding => "invalid public key encoding"@,
            PairingDocumentError::InvalidPublicKeyLength { actual } => {
                "invalid public key length: "@ + crate::text::decimal(*actual as nat)
            },
            PairingDocumentError::FingerprintMismatch { expected, actual } => {
                "fingerprint mismatch: expected "@ + expected@ + ", got "@ + actual@
            },
        }
    }

    pub fn message(&self) -> (result: String)
        ensures
            result@ == self.text(),
    {
        match self {
            PairingDocumentError::UnsupportedKind { kind } => {
                "unsupported peer identity kind: ".to_owned().concat(kind.as_str())
            },
            PairingDocumentError::EmptyDeviceId => "peer device id is required".to_owned(),
            PairingDocumentError::InvalidPublicKeyEncoding => {
                "invalid public key encoding".to_owned()
            },
            PairingDocumentError::InvalidPublicKeyLength { actual } => {
                "invalid public key length: ".to_owned().concat(
                    decimal_text(*actual as u64).as_str(),
                )
            },
            PairingDocumentError::FingerprintMismatch { expected, actual } => {
                "fingerprint mismatch: expected ".to_owned().concat(expected.as_str()).concat(
                    ", got ",
                ).concat(actual.as_str())
            },
        }
    }
}

/// Whether an outcome is right for a pairing document's kind, id, key text and fingerprint.
pub open spec fn document_verdict(
    kind: Seq<char>,
    device_id: Seq<char>,
    public_key: Seq<char>,
    fingerprint: Seq<char>,
    error: Option<PairingDocumentError>,
) -> bool {
    let decoded = crate::crypto::base64_value(public_key);
    if kind != PAIRING_DOCUMENT_KIND@ {
        error matches Some(PairingDocumentError::UnsupportedKind { kind: named }) && named@ == kind
    } else if crate::text::trim(device_id).len() == 0 {
        error == Some(PairingDocumentError::EmptyDeviceId)
    } else if decoded is None {
        error == Some(PairingDocumentError::InvalidPublicKeyEncoding)
    } else if decoded->Some_0.len() != 32 {
        error matches Some(PairingDocumentError::InvalidPublicKeyLength { actual })
            && decoded->Some_0.len() == actual
    } else if fingerprint != crate::identity::fingerprint(decoded->Some_0) {
        error matches Some(PairingDocumentError::FingerprintMismatch { expected, actual })
            && expected@ == crate::identity::fingerprint(decoded->Some_0) && actual@ == fingerprint
    } else {
        error is None
    }
}

/// Decode the key of a pairing document, unless the document is refused.
fn check_document(kind: &str, device_id: &str, public_key: &str, fingerprint: &str) -> (result:
    Result<[u8; 32], PairingDocumentError>)
    ensures
        match result {
            Ok(key) => document_verdict(kind@, device_id@, public_key@, fingerprint@, None)
                && crate::crypto::base64_value(public_key@) == Some(key@),
            Err(error) => document_verdict(
                kind@,
                device_id@,
                public_key@,
                fingerprint@,
                Some(error),
            ),
        },
{
    if !same(kind, PAIRING_DOCUMENT_KIND) {
        return Err(PairingDocumentError::UnsupportedKind { kind: kind.to_owned() });
    }
    if trimmed(device_id).is_empty() {
        return Err(PairingDocumentError::EmptyDeviceId);
    }
    match decode_fixed_base64::<32>(public_key) {
        Ok(key) => {
            let expected = fingerprint_for_public_key(key.as_slice());
            if same(fingerprint, expected.as_str()) {
                Ok(key)
            } else {
                Err(
                    PairingDocumentError::FingerprintMismatch {
                        expected,
                        actual: fingerprint.to_owned(),
                    },
                )
            }
        },
        Err(None) => Err(PairingDocumentError::InvalidPublicKeyEncoding),
        Err(Some(actual)) => Err(PairingDocumentError::InvalidPublicKeyLength { actual }),
    }
}

/// Whether a document shows an identity and what it can do.
pub open spec fn documents(
    document: PairingIdentityDocument,
    identity: DeviceIdentity,
    capabilities: CapabilityFlags,
) -> bool {
    &&& document.kind@ == PAIRING_DOCUMENT_KIND@
    &&& document.device_id@ == identity.device_id@
    &&& document.display_name@ == identity.display_name@
    &&& document.identity_public_key@ == crate::crypto::base64(identity.identity_public_key@)
    &&& crate::crypto::base64_value(document.identity_public_key@) == Some(
        identity.identity_public_key@,
    )
    &&& document.fingerprint@ == identity.fingerprint@
    &&& document.capabilities == capabilities
}

impl PairingIdentityDocument {
    /// The document that shows a device's own identity.
    pub fn from_device_identity(identity: &DeviceIdentity, capabilities: CapabilityFlags) -> (result:
        Self)
        requires
            identity.identity_public_key@.len() <= usize::MAX / 512,
        ensures
            documents(result, *identity, capabilities),
    {
        PairingIdentityDocument {
            kind: PAIRING_DOCUMENT_KIND.to_owned(),
            device_id: identity.device_id.clone(),
            display_name: identity.display_name.clone(),
            identity_public_key: encode_base64(identity.identity_public_key.as_slice()),
            fingerprint: identity.fingerprint.clone(),
            capabilities,
        }
    }

    /// The document that introduces a peer again.
    pub fn from_trusted_peer_identity(peer: &TrustedPeerIdentity) -> (result: Self)
        requires
            peer.identity_public_key@.len() <= usize::MAX / 512,
        ensures
            result.kind@ == PAIRING_DOCUMENT_KIND@,
            result.device_id@ == peer.peer_id@,
            result.display_name@ == peer.display_name@,
            result.identity_public_key@ == crate::crypto::base64(peer.identity_public_key@),
            crate::crypto::base64_value(result.identity_public_key@) == Some(
                peer.identity_public_key@,
            ),
            result.fingerprint@ == peer.fingerprint@,
            result.capabilities == peer.capabilities,
    {
        PairingIdentityDocument {
            kind: PAIRING_DOCUMENT_KIND.to_owned(),
            device_id: peer.peer_id.clone(),
            display_name: peer.display_name.clone(),
            identity_public_key: encode_base64(peer.identity_public_key.as_slice()),
            fingerprint: peer.fingerprint.clone(),
            capabilities: peer.capabilities,
        }
    }

    /// The document that a peer's public fields make up, unless they do not fit together.
    pub fn from_public_wire_fields(
        device_id: &str,
        display_name: &str,
        identity_public_key: &str,
        fingerprint: &str,
        capabilities: CapabilityFlags,
    ) -> (result: Result<Self, PairingDocumentError>)
        ensures
            match result {
                Ok(document) => {
                    &&& document_verdict(
                        PAIRING_DOCUMENT_KIND@,
                        device_id@,
                        identity_public_key@,
                        fingerprint@,
                        None,
                    )
                    &&& document.kind@ == PAIRING_DOCUMENT_KIND@
                    &&& document.device_id@ == device_id@
                    &&& document.display_name@ == display_name@
                    &&& document.identity_public_key@ == identity_public_key@
                    &&& document.fingerprint@ == fingerprint@
                    &&& document.capabilities == capabilities
                },
                Err(error) => document_verdict(
                    PAIRING_DOCUMENT_KIND@,
                    device_id@,
                    identity_public_key@,
                    fingerprint@,
                    Some(error),
                ),
            },
    {
        match check_document(PAIRING_DOCUMENT_KIND, device_id, identity_public_key, fingerprint) {
            Ok(_) => Ok(
                PairingIdentityDocument {
                    kind: PAIRING_DOCUMENT_KIND.to_owned(),
                    device_id: device_id.to_owned(),
                    display_name: display_name.to_owned(),
                    identity_public_key: identity_public_key.to_owned(),
                    fingerprint: fingerprint.to_owned(),
                    capabilities,
                },
            ),
            Err(error) => Err(error),
        }
    }

    /// The peer that a document introduces, unless the document is refused.
    pub fn into_trusted_peer_identity(self) -> (result: Result<
        TrustedPeerIdentity,
        PairingDocumentError,
    >)
        ensures
            match result {
                Ok(peer) => {
                    &&& document_verdict(
                        self.kind@,
                        self.device_id@,
                        self.identity_public_key@,
                        self.fingerprint@,
                        None,
                    )
                    &&& peer.peer_id@ == self.device_id@
                    &&& peer.display_name@ == self.display_name@
                    &&& Some(peer.identity_public_key@) == crate::crypto::base64_value(
                        self.identity_public_key@,
                    )
                    &&& peer.fingerprint@ == self.fingerprint@
                    &&& peer.capabilities == self.capabilities
                },
                Err(error) => document_verdict(
                    self.kind@,
                    self.device_id@,
                    self.identity_public_key@,
                    self.fingerprint@,
                    Some(error),
                ),
            },
    {
        match check_document(
            self.kind.as_str(),
            self.device_id.as_str(),
            self.identity_public_key.as_str(),
            self.fingerprint.as_str(),
        ) {
            Ok(key) => Ok(
                TrustedPeerIdentity::new(
                    self.device_id.as_str(),
                    self.display_name.as_str(),
                    copy_bytes(key.as_slice()),
                    self.fingerprint.as_str(),
                    self.capabilities,
                ),
            ),
            Err(error) => Err(error),
        }
    }

    pub fn device_id(&self) -> (result: &str)
        ensures
            result@ == self.device_id@,
    {
        self.device_id.as_str()
    }

    pub fn display_name(&self) -> (result: &str)
        ensures
            result@ == self.display_name@,
    {
        self.display_name.as_str()
    }

    pub fn identity_public_key(&self) -> (result: &str)
        ensures
            result@ == self.identity_public_key@,
    {
        self.identity_public_key.as_str()
    }

    pub fn fingerprint(&self) -> (result: &str)
        ensures
            result@ == self.fingerprint@,
    {
        self.fingerprint.as_str()
    }

    pub fn capabilities(&self) -> (result: CapabilityFlags)
        ensures
            result == self.capabilities,
    {
        self.capabilities
    }
}

impl ToJson for PairingIdentityDocument {
    open spec fn json(&self) -> JsonModel {
        JsonModel::Object(
            seq![
                ("kind"@, JsonModel::Text(self.kind@)),
                ("deviceId"@, JsonModel::Text(self.device_id@)),
                ("displayName"@, JsonModel::Text(self.display_name@)),
                ("identityPublicKey"@, JsonModel::Text(self.identity_public_key@)),
                ("fingerprint"@, JsonModel::Text(self.fingerprint@)),
                ("capabilities"@, JsonModel::Unsigned(self.capabilities.bits as u64)),
            ],
        )
    }

    fn to_json(&self) -> (result: JsonValue) {
        let result = JsonObject::new().with("kind", json_string(self.kind.as_str())).with(
            "deviceId",
            json_string(self.device_id.as_str()),
        ).with("displayName", json_string(self.display_name.as_str())).with(
            "identityPublicKey",
            json_string(self.identity_public_key.as_str()),
        ).with("fingerprint", json_string(self.fingerprint.as_str())).with(
            "capabilities",
            JsonValue::Unsigned(self.capabilities.bits as u64),
        ).done();
        proof {
            assert(result@->Object_0 =~= self.json()->Object_0);
        }
        result
    }
}

/// The documents of all peers but one, in order.
pub open spec fn without_peer(
    documents: Seq<PairingIdentityDocument>,
    peer_id: Seq<char>,
) -> Seq<PairingIdentityDocument>
    decreases documents.len(),
{
    if documents.len() == 0 {
        Seq::empty()
    } else if documents.last().device_id@ == peer_id {
        without_peer(documents.drop_last(), peer_id)
    } else {
        without_peer(documents.drop_last(), peer_id).push(documents.last())
    }
}

/// The first document of a peer, where there is one.
pub open spec fn peer_document(
    documents: Seq<PairingIdentityDocument>,
    peer_id: Seq<char>,
) -> Option<PairingIdentityDocument>
    decreases documents.len(),
{
    if documents.len() == 0 {
        None
    } else if documents[0].device_id@ == peer_id {
        Some(documents[0])
    } else {
        peer_document(documents.drop_first(), peer_id)
    }
}

/// Leave out the documents of a peer.
pub fn forget_peer(documents: Vec<PairingIdentityDocument>, peer_id: &str) -> (result: Vec<
    PairingIdentityDocument,
>)
    ensures
        result@ == without_peer(documents@, peer_id@),
{
    let ghost all = documents@;
    let mut left = documents;
    let mut kept: Vec<PairingIdentityDocument> = Vec::new();
    let ghost mut done: int = 0;
    proof {
        assert(kept@ =~= without_peer(all.subrange(0, 0), peer_id@));
        assert(all.subrange(0, all.len() as int) =~= all);
    }
    while left.len() > 0
        invariant
            0 <= done <= all.len(),
            left@ == all.subrange(done, all.len() as int),
            kept@ == without_peer(all.subrange(0, done), peer_id@),
        decreases left@.len(),
    {
        let document = left.remove(0);
        proof {
            let longer = all.subrange(0, done + 1);
            assert(longer.drop_last() =~= all.subrange(0, done));
            assert(longer.last() == document);
            assert(left@ =~= all.subrange(done + 1, all.len() as int));
            done = done + 1;
        }
        if !same(document.device_id.as_str(), peer_id) {
            kept.push(document);
        }
    }
    proof {
        assert(all.subrange(0, done) =~= all);
    }
    kept
}

/// Keep the document of a peer, in place of all that were kept of this peer before.
pub fn remember_peer(
    documents: Vec<PairingIdentityDocument>,
    document: PairingIdentityDocument,
) -> (result: Vec<PairingIdentityDocument>)
    ensures
        result@ == without_peer(documents@, document.device_id@).push(document),
{
    let mut kept = forget_peer(documents, document.device_id.as_str());
    kept.push(document);
    kept
}

/// Take out the first document of a peer, where there is one.
pub fn find_peer(documents: Vec<PairingIdentityDocument>, peer_id: &str) -> (result: Option<
    PairingIdentityDocument,
>)
    ensures
        result == peer_document(documents@, peer_id@),
{
    let ghost all = documents@;
    let mut left = documents;
    while left.len() > 0
        invariant
            all == documents@,
            peer_document(left@, peer_id@) == peer_document(all, peer_id@),
        decreases left@.len(),
    {
        let ghost before = left@;
        let document = left.remove(0);
        if same(document.device_id.as_str(), peer_id) {
            return Some(document);
        }
        proof {
            assert(left@ =~= before.drop_first());
        }
    }
    None
}

/// No document of a peer is left once they are left out.
proof fn lemma_left_out(documents: Seq<PairingIdentityDocument>, peer_id: Seq<char>)
    ensures
        forall|i: int|
            0 <= i < without_peer(documents, peer_id).len() ==> (#[trigger] without_peer(
                documents,
                peer_id,
            )[i]).device_id@ != peer_id,
    decreases documents.len(),
{
    if documents.len() > 0 {
        lemma_left_out(documents.drop_last(), peer_id);
        let shorter = without_peer(documents.drop_last(), peer_id);
        let left = without_peer(documents, peer_id);
        assert forall|i: int| 0 <= i < left.len() implies (#[trigger] left[i]).device_id@
            != peer_id by {
            if i < shorter.len() {
                assert(left[i] == shorter[i]);
            }
        }
    }
}

/// What is found of a peer that none of the documents is of, with or without one more document.
proof fn lemma_not_among(
    documents: Seq<PairingIdentityDocument>,
    document: PairingIdentityDocument,
    peer_id: Seq<char>,
)
    requires
        forall|i: int| 0 <= i < documents.len() ==> (#[trigger] documents[i]).device_id@ != peer_id,
    ensures
        peer_document(documents, peer_id) is None,
        document.device_id@ == peer_id ==> peer_document(documents.push(document), peer_id) == Some(
            document,
        ),
    decreases documents.len(),
{
    if documents.len() > 0 {
        let rest = documents.drop_first();
        assert forall|i: int| 0 <= i < rest.len() implies (#[trigger] rest[i]).device_id@
            != peer_id by {
            assert(rest[i] == documents[i + 1]);
        }
        lemma_not_among(rest, document, peer_id);
        assert(documents.push(document)[0] == documents[0]);
        assert(documents.push(document).drop_first() =~= rest.push(document));
    } else {
        assert(documents.push(document)[0] == document);
    }
}

/// A peer that was remembered is found as it was remembered last, and one that was forgotten is not
/// found.
pub proof fn remembered_peers_are_found(
    documents: Seq<PairingIdentityDocument>,
    document: PairingIdentityDocument,
)
    ensures
        peer_document(
            without_peer(documents, document.device_id@).push(document),
            document.device_id@,
        ) == Some(document),
        peer_document(without_peer(documents, document.device_id@), document.device_id@) is None,
{
    lemma_left_out(documents, document.device_id@);
    lemma_not_among(
        without_peer(documents, document.device_id@),
        document,
        document.device_id@,
    );
}

/// A document that a device shows of an identity of its own is accepted, and introduces that device.
pub proof fn own_document_is_accepted(
    stored: StoredLocalIdentity,
    document: PairingIdentityDocument,
    capabilities: CapabilityFlags,
)
    requires
        stored.wf(),
        documents(document, stored.identity, capabilities),
    ensures
        document_verdict(
            document.kind@,
            document.device_id@,
            document.identity_public_key@,
            document.fingerprint@,
            None,
        ),
        crate::crypto::base64_value(document.identity_public_key@) == Some(
            stored.identity.identity_public_key@,
        ),
{
    crate::crypto::lemma_uuid_shows(stored.identity.device_id@);
}

/// A display name is kept without the space around it, and a device without one gets the default name.
pub proof fn a_device_has_a_name(name: &str, kept: String)
    requires
        call_ensures(normalize_display_name, (name,), kept),
    ensures
        crate::text::is_without_space_around(name@, kept@) || kept@ == "Akraz Device"@,
        kept@.len() > 0,
        crate::text::trim(name@).len() > 0 ==> kept@ == crate::text::trim(name@),
        crate::text::trim(name@).len() == 0 ==> kept@ == "Akraz Device"@,
{
    crate::text::trimming_takes_off_space_only(name@);
    reveal_strlit("Akraz Device");
}

/// An identity that was written is the identity that is read back: the same device with the same name,
/// the same keys and the same fingerprint.
pub proof fn a_written_identity_is_read_as_it_was(
    stored: StoredLocalIdentity,
    file: StoredIdentityFile,
    path: &str,
    loaded: Result<StoredLocalIdentity, IdentityStoreError>,
)
    requires
        stored.wf(),
        call_ensures(
            StoredIdentityFile::from_identity,
            (&stored.identity, &stored.secret_key),
            file,
        ),
        call_ensures(StoredIdentityFile::into_stored_identity, (file, path), loaded),
    ensures
        file.version == 1,
        loaded is Ok,
        loaded->Ok_0.identity.device_id@ == stored.identity.device_id@,
        loaded->Ok_0.identity.display_name@ == stored.identity.display_name@,
        loaded->Ok_0.identity.identity_public_key@ == stored.identity.identity_public_key@,
        loaded->Ok_0.identity.fingerprint@ == stored.identity.fingerprint@,
        loaded->Ok_0.secret_key@ == stored.secret_key@,
{
}

/// An identity file is trusted where its version is known, its device has an id, its keys are keys of
/// the right length that belong together, and its fingerprint is that of its key. Nothing else is made
/// of it than what it says.
pub proof fn only_sound_identity_files_are_trusted(
    file: StoredIdentityFile,
    path: &str,
    loaded: Result<StoredLocalIdentity, IdentityStoreError>,
)
    requires
        call_ensures(StoredIdentityFile::into_stored_identity, (file, path), loaded),
    ensures
        loaded matches Ok(stored) ==> {
            let secret = crate::crypto::base64_value(file.identity_secret_key@);
            let public = crate::crypto::base64_value(file.identity_public_key@);
            &&& file.version == 1
            &&& crate::crypto::is_uuid_text(file.device_id@)
            &&& secret is Some && secret->Some_0.len() == 32
            &&& public is Some && public->Some_0.len() == 32
            &&& public->Some_0 == crate::crypto::ed25519_public_key(secret->Some_0)
            &&& file.fingerprint@ == crate::identity::fingerprint(public->Some_0)
            &&& stored.identity.device_id@ == file.device_id@
            &&& stored.identity.identity_public_key@ == public->Some_0
            &&& stored.identity.fingerprint@ == file.fingerprint@
            &&& stored.secret_key@ == secret->Some_0
            &&& crate::text::trim(file.display_name@).len() > 0 ==> stored.identity.display_name@
                == crate::text::trim(file.display_name@)
        },
        file.version != 1 ==> loaded is Err && loaded->Err_0 is UnsupportedIdentityFileVersion
            && loaded->Err_0->version == file.version,
        file.version == 1 && loaded is Err ==> loaded->Err_0 is CorruptIdentityFile
            && loaded->Err_0->CorruptIdentityFile_path@ == path@,
        file.version == 1 && !crate::crypto::is_uuid_text(file.device_id@) ==> loaded is Err
            && loaded->Err_0->source is InvalidDeviceId,
{
}

/// A new identity has the name that it was given and keys that belong together.
pub proof fn a_new_identity_belongs_together(name: &str, made: StoredLocalIdentity)
    requires
        call_ensures(new_identity, (name,), made),
    ensures
        crate::crypto::is_uuid_text(made.identity.device_id@),
        crate::text::trim(name@).len() > 0 ==> made.identity.display_name@ == crate::text::trim(
            name@,
        ),
        crate::text::trim(name@).len() == 0 ==> made.identity.display_name@ == "Akraz Device"@,
        made.identity.identity_public_key@ == crate::crypto::ed25519_public_key(made.secret_key@),
        made.identity.fingerprint@ == crate::identity::fingerprint(
            made.identity.identity_public_key@,
        ),
{
}

/// Loading looks at the path first. A link ends it; a file that is there is read and either trusted or
/// refused, and never replaced; only where there is none is a new identity made, and it is the one that
/// is written.
pub proof fn an_identity_is_loaded_before_one_is_made(
    store: &mut FileIdentityStore,
    event: IdentityStoreEvent,
    action: IdentityStoreAction,
)
    requires
        old(store).wf(),
        awaits(old(store).stage, event),
        call_ensures(FileIdentityStore::load_or_create, (store, event), action),
    ensures
        event == IdentityStoreEvent::Path(IdentityPathState::Symlink) ==> action is Finish
            && action->result is Err && action->result->Err_0 is IdentityPathIsSymlink,
        old(store).stage is CheckBeforeLoad && (event == IdentityStoreEvent::Path(
            IdentityPathState::Present,
        ) || event == IdentityStoreEvent::Path(IdentityPathState::Missing)) ==> action is ReadFile,
        event matches IdentityStoreEvent::File(IdentityFileState::Parsed { file }) ==> {
            &&& action is Finish
            &&& action->result matches Ok(stored) ==> {
                &&& file.version == 1
                &&& stored.identity.device_id@ == file.device_id@
                &&& stored.identity.fingerprint@ == file.fingerprint@
                &&& Some(stored.secret_key@) == crate::crypto::base64_value(
                    file.identity_secret_key@,
                )
            }
        },
        event matches IdentityStoreEvent::File(IdentityFileState::NotJson { cause }) ==> action
            is Finish && action->result is Err && action->result->Err_0 is CorruptIdentityFile,
        event matches IdentityStoreEvent::File(IdentityFileState::Unreadable { cause }) ==> action
            is Finish && action->result is Err && action->result->Err_0 is ReadIdentityFile,
        old(store).stage is Load && event == IdentityStoreEvent::File(IdentityFileState::Missing)
            ==> action is CheckPath && final(store).stage is CheckBeforeCreate,
        old(store).stage is Reload && event == IdentityStoreEvent::File(IdentityFileState::Missing)
            ==> action is Finish && action->result is Err && action->result->Err_0
            is MissingIdentityFile,
        old(store).stage is CheckBeforeCreate && old(store).directory is Some && event
            == IdentityStoreEvent::Path(IdentityPathState::Missing) ==> action is CreateDirectory,
        action matches IdentityStoreAction::WriteFile { file } ==> {
            &&& old(store).stage is CheckBeforeCreate || old(store).stage is CreateDirectory
            &&& final(store).created is Some
            &&& file.version == 1
            &&& file.device_id@ == final(store).created->Some_0.identity.device_id@
            &&& file.display_name@ == final(store).created->Some_0.identity.display_name@
            &&& crate::crypto::base64_value(file.identity_secret_key@) == Some(
                final(store).created->Some_0.secret_key@,
            )
            &&& file.fingerprint@ == final(store).created->Some_0.identity.fingerprint@
        },
        event == IdentityStoreEvent::Write(IdentityWriteState::Written) ==> action is Finish
            && action->result is Ok && old(store).created == Some(action->result->Ok_0),
        event == IdentityStoreEvent::Write(IdentityWriteState::AlreadyExists) ==> action
            is CheckPath && final(store).stage is CheckBeforeReload,
        event matches IdentityStoreEvent::Write(IdentityWriteState::Failed { cause }) ==> action
            is Finish && action->result is Err && action->result->Err_0 is WriteIdentityFile,
        final(store).path == old(store).path,
        final(store).display_name == old(store).display_name,
{
}

/// A document that a device shows is accepted, and the peer that is trusted by it is that device: the
/// same id, name, key and fingerprint, and what it offers.
pub proof fn a_shown_document_makes_a_trusted_peer(
    stored: StoredLocalIdentity,
    capabilities: CapabilityFlags,
    document: PairingIdentityDocument,
    trusted: Result<TrustedPeerIdentity, PairingDocumentError>,
)
    requires
        stored.wf(),
        call_ensures(
            PairingIdentityDocument::from_device_identity,
            (&stored.identity, capabilities),
            document,
        ),
        call_ensures(PairingIdentityDocument::into_trusted_peer_identity, (document,), trusted),
    ensures
        trusted is Ok,
        trusted->Ok_0.peer_id@ == stored.identity.device_id@,
        trusted->Ok_0.display_name@ == stored.identity.display_name@,
        trusted->Ok_0.identity_public_key@ == stored.identity.identity_public_key@,
        trusted->Ok_0.fingerprint@ == stored.identity.fingerprint@,
        trusted->Ok_0.capabilities == capabilities,
{
    own_document_is_accepted(stored, document, capabilities);
}

/// A document is trusted where it is one, names a device, and its fingerprint is that of its key.
/// What is trusted is what it says.
pub proof fn only_sound_documents_are_trusted(
    document: PairingIdentityDocument,
    trusted: Result<TrustedPeerIdentity, PairingDocumentError>,
)
    requires
        call_ensures(PairingIdentityDocument::into_trusted_peer_identity, (document,), trusted),
    ensures
        trusted matches Ok(peer) ==> {
            let key = crate::crypto::base64_value(document.identity_public_key@);
            &&& document.kind@ == "akraz.peerIdentity"@
            &&& crate::text::trim(document.device_id@).len() > 0
            &&& key is Some && key->Some_0.len() == 32
            &&& document.fingerprint@ == crate::identity::fingerprint(key->Some_0)
            &&& peer.peer_id@ == document.device_id@
            &&& peer.display_name@ == document.display_name@
            &&& peer.identity_public_key@ == key->Some_0
            &&& peer.fingerprint@ == document.fingerprint@
            &&& peer.capabilities == document.capabilities
        },
        document.kind@ != "akraz.peerIdentity"@ ==> trusted is Err && trusted->Err_0
            is UnsupportedKind,
        document.kind@ == "akraz.peerIdentity"@ && crate::text::trim(document.device_id@).len() == 0
            ==> trusted is Err && trusted->Err_0 is EmptyDeviceId,
{
}

/// A document and a trusted peer say the same of a peer: made from the peer, the document leads back to
/// it.
pub proof fn a_peers_document_leads_back_to_it(
    peer: TrustedPeerIdentity,
    document: PairingIdentityDocument,
    trusted: Result<TrustedPeerIdentity, PairingDocumentError>,
)
    requires
        call_ensures(PairingIdentityDocument::from_trusted_peer_identity, (&peer,), document),
        call_ensures(PairingIdentityDocument::into_trusted_peer_identity, (document,), trusted),
    ensures
        document.device_id@ == peer.peer_id@,
        document.display_name@ == peer.display_name@,
        document.fingerprint@ == peer.fingerprint@,
        document.capabilities == peer.capabilities,
        crate::text::trim(peer.peer_id@).len() > 0 && peer.identity_public_key@.len() == 32
            && peer.fingerprint@ == crate::identity::fingerprint(peer.identity_public_key@)
            ==> trusted is Ok,
        trusted matches Ok(back) ==> {
            &&& back.peer_id@ == peer.peer_id@
            &&& back.display_name@ == peer.display_name@
            &&& back.identity_public_key@ == peer.identity_public_key@
            &&& back.fingerprint@ == peer.fingerprint@
            &&& back.capabilities == peer.capabilities
        },
{
}

proof fn lemma_others_stay(
    documents: Seq<PairingIdentityDocument>,
    peer_id: Seq<char>,
    document: PairingIdentityDocument,
)
    ensures
        without_peer(documents, peer_id).contains(document) <==> documents.contains(document)
            && document.device_id@ != peer_id,
        without_peer(documents, peer_id).len() <= documents.len(),
        (forall|i: int| 0 <= i < documents.len() ==> (#[trigger] documents[i]).device_id@ != peer_id)
            ==> without_peer(documents, peer_id) == documents,
    decreases documents.len(),
{
    if documents.len() > 0 {
        let rest = documents.drop_last();
        let last = documents.last();
        lemma_others_stay(rest, peer_id, document);
        let kept = without_peer(rest, peer_id);
        assert(documents =~= rest.push(last));
        if documents.contains(document) {
            let i = choose|i: int| 0 <= i < documents.len() && documents[i] == document;
            if i < rest.len() {
                assert(rest[i] == document);
            }
        }
        if rest.contains(document) {
            let i = choose|i: int| 0 <= i < rest.len() && rest[i] == document;
            assert(documents[i] == document);
        }
        if last == document {
            assert(documents[documents.len() - 1] == document);
        }
        if last.device_id@ != peer_id {
            let longer = kept.push(last);
            assert(longer[longer.len() - 1] == last);
            if kept.contains(document) {
                let i = choose|i: int| 0 <= i < kept.len() && kept[i] == document;
                assert(longer[i] == document);
            }
            if longer.contains(document) {
                let i = choose|i: int| 0 <= i < longer.len() && longer[i] == document;
                if i < kept.len() {
                    assert(kept[i] == document);
                }
            }
        }
        if forall|i: int| 0 <= i < documents.len() ==> (#[trigger] documents[i]).device_id@
            != peer_id {
            assert forall|i: int| 0 <= i < rest.len() implies (#[trigger] rest[i]).device_id@
                != peer_id by {
                assert(documents[i].device_id@ != peer_id);
            }
            assert(documents[documents.len() - 1].device_id@ != peer_id);
        }
    }
}

/// Forgetting a peer forgets that peer and no other. Remembering one replaces what was known of it and
/// leaves the others alone.
pub proof fn other_peers_stay(
    documents: Vec<PairingIdentityDocument>,
    peer_id: &str,
    left: Vec<PairingIdentityDocument>,
    document: PairingIdentityDocument,
    kept: Vec<PairingIdentityDocument>,
    other: PairingIdentityDocument,
)
    requires
        call_ensures(forget_peer, (documents, peer_id), left),
        call_ensures(remember_peer, (documents, document), kept),
    ensures
        left@.contains(other) <==> documents@.contains(other) && other.device_id@ != peer_id@,
        kept@.contains(document),
        kept@.last() == document,
        other.device_id@ != document.device_id@ ==> (kept@.contains(other)
            <==> documents@.contains(other)),
        other != document && other.device_id@ == document.device_id@ ==> !kept@.contains(other),
{
    lemma_others_stay(documents@, peer_id@, other);
    lemma_others_stay(documents@, document.device_id@, other);
    let before = without_peer(documents@, document.device_id@);
    assert(kept@[kept@.len() - 1] == document);
    if before.contains(other) {
        let i = choose|i: int| 0 <= i < before.len() && before[i] == other;
        assert(kept@[i] == other);
    }
    if kept@.contains(other) {
        let i = choose|i: int| 0 <= i < kept@.len() && kept@[i] == other;
        if i < before.len() {
            assert(before[i] == other);
        }
    }
}

proof fn lemma_document_of(
    documents: Seq<PairingIdentityDocument>,
    peer_id: Seq<char>,
    i: int,
)
    ensures
        peer_document(documents, peer_id) matches Some(found) ==> found.device_id@ == peer_id
            && documents.contains(found),
        0 <= i < documents.len() && documents[i].device_id@ == peer_id ==> peer_document(
            documents,
            peer_id,
        ) is Some,
    decreases documents.len(),
{
    if documents.len() > 0 {
        let rest = documents.drop_first();
        lemma_document_of(rest, peer_id, i - 1);
        assert(documents[0] == documents[0]);
        if let Some(found) = peer_document(rest, peer_id) {
            let j = choose|j: int| 0 <= j < rest.len() && rest[j] == found;
            assert(documents[j + 1] == found);
        }
        if 0 < i < documents.len() {
            assert(rest[i - 1] == documents[i]);
        }
    }
}

/// A peer is found by its own id: what is found is one of the documents and of that peer, and it is
/// found where there is one.
pub proof fn peers_are_found_by_their_ids(
    documents: Vec<PairingIdentityDocument>,
    peer_id: &str,
    found: Option<PairingIdentityDocument>,
    i: int,
)
    requires
        call_ensures(find_peer, (documents, peer_id), found),
    ensures
        found matches Some(document) ==> document.device_id@ == peer_id@ && documents@.contains(
            document,
        ),
        0 <= i < documents@.len() && documents@[i].device_id@ == peer_id@ ==> found is Some,
{
    lemma_document_of(documents@, peer_id@, i);
}

/// What is written of a document says what it shows.
pub proof fn written_documents_say_what_they_show(document: PairingIdentityDocument)
    ensures
        crate::snapshot::says(document.json(), 6, "kind"@, JsonModel::Text(document.kind@)),
        crate::snapshot::says(document.json(), 6, "deviceId"@, JsonModel::Text(document.device_id@)),
        crate::snapshot::says(
            document.json(),
            6,
            "displayName"@,
            JsonModel::Text(document.display_name@),
        ),
        crate::snapshot::says(
            document.json(),
            6,
            "identityPublicKey"@,
            JsonModel::Text(document.identity_public_key@),
        ),
        crate::snapshot::says(
            document.json(),
            6,
            "fingerprint"@,
            JsonModel::Text(document.fingerprint@),
        ),
        crate::snapshot::says(
            document.json(),
            6,
            "capabilities"@,
            JsonModel::Unsigned(document.capabilities.bits as u64),
        ),
{
    let parts = document.json()->Object_0;
    assert(parts[0] == ("kind"@, JsonModel::Text(document.kind@)));
    assert(parts[1] == ("deviceId"@, JsonModel::Text(document.device_id@)));
    assert(parts[2] == ("displayName"@, JsonModel::Text(document.display_name@)));
    assert(parts[3] == ("identityPublicKey"@, JsonModel::Text(document.identity_public_key@)));
    assert(parts[4] == ("fingerprint"@, JsonModel::Text(document.fingerprint@)));
    assert(parts[5] == (
        "capabilities"@,
        JsonModel::Unsigned(document.capabilities.bits as u64),
    ));
}

/// A document that is made of what a peer shows says what was shown, field by field; it is refused
/// where the peer's id is blank, the key is none, or the fingerprint is not that of the key.
pub proof fn a_document_says_what_was_shown(
    device_id: &str,
    display_name: &str,
    identity_public_key: &str,
    fingerprint: &str,
    capabilities: CapabilityFlags,
    result: Result<PairingIdentityDocument, PairingDocumentError>,
    key: Result<[u8; 32], Option<usize>>,
)
    requires
        call_ensures(
            PairingIdentityDocument::from_public_wire_fields,
            (device_id, display_name, identity_public_key, fingerprint, capabilities),
            result,
        ),
        call_ensures(decode_fixed_base64::<32>, (identity_public_key,), key),
    ensures
        result matches Ok(document) ==> document.device_id@ == device_id@
            && document.display_name@ == display_name@ && document.identity_public_key@
            == identity_public_key@ && document.fingerprint@ == fingerprint@
            && document.capabilities == capabilities && key is Ok && fingerprint@
            == crate::identity::fingerprint(key->Ok_0@),
        result is Ok <==> crate::text::trim(device_id@).len() > 0 && key is Ok && fingerprint@
            == crate::identity::fingerprint(key->Ok_0@),
        key is Ok ==> crate::crypto::base64_value(identity_public_key@) == Some(key->Ok_0@),
{
}

/// A stored identity is used as it was stored.
pub proof fn a_stored_identity_is_used_as_it_was_stored(
    stored: StoredLocalIdentity,
    local: LocalIdentity<Ed25519IdentityKey>,
)
    requires
        call_ensures(StoredLocalIdentity::into_local_identity, (stored,), local),
    ensures
        local.identity == stored.identity,
        local.secret_key == stored.secret_key,
{
}

} // verus!
