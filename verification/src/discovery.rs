//! Peers on the local network: what they announce and which of them can be paired with.

use vstd::prelude::*;

use crate::identity::DeviceIdentity;
use crate::protocol::CapabilityFlags;
use crate::store::PairingIdentityDocument;
use crate::text::{
    contains_char, contains_control, contains_whitespace, decimal_text, parse_number, same, split,
    split_once, to_lowercase, trimmed,
};

verus! {

/// The service type under which peers announce themselves.
pub const AKRAZ_DISCOVERY_SERVICE_TYPE: &'static str = "_akraz._tcp.local.";

/// The version of the announcement that this library reads and writes.
pub const AKRAZ_DISCOVERY_TXT_VERSION: u16 = 1;

pub const TXT_VERSION_KEY: &'static str = "v";

pub const TXT_DEVICE_ID_KEY: &'static str = "device_id";

pub const TXT_DISPLAY_NAME_KEY: &'static str = "display_name";

pub const TXT_IDENTITY_PUBLIC_KEY_KEY: &'static str = "identity_public_key";

pub const TXT_FINGERPRINT_KEY: &'static str = "fingerprint";

pub const TXT_CAPABILITIES_KEY: &'static str = "caps";

pub const TXT_BUILD_VERSION_KEY: &'static str = "build";

/// What a peer announces of itself.
#[derive(Debug, PartialEq, Eq)]
pub struct DiscoveryTxtRecord {
    pub version: u16,
    pub device_id: String,
    pub display_name: Option<String>,
    pub identity_public_key: Option<String>,
    pub fingerprint: Option<String>,
    pub capabilities: CapabilityFlags,
    pub build_version: String,
}

/// A copy of an optional text.
pub fn clone_text(text: &Option<String>) -> (result: Option<String>)
    ensures
        result == *text,
{
    match text {
        Some(text) => Some(text.clone()),
        None => None,
    }
}

impl Clone for DiscoveryTxtRecord {
    fn clone(&self) -> (result: Self)
        ensures
            result == *self,
    {
        DiscoveryTxtRecord {
            version: self.version,
            device_id: self.device_id.clone(),
            display_name: clone_text(&self.display_name),
            identity_public_key: clone_text(&self.identity_public_key),
            fingerprint: clone_text(&self.fingerprint),
            capabilities: self.capabilities,
            build_version: self.build_version.clone(),
        }
    }
}

/// What an announcement says.
pub struct TxtModel {
    pub version: u16,
    pub device_id: Seq<char>,
    pub display_name: Option<Seq<char>>,
    pub identity_public_key: Option<Seq<char>>,
    pub fingerprint: Option<Seq<char>>,
    pub capabilities: CapabilityFlags,
    pub build_version: Seq<char>,
}

impl View for DiscoveryTxtRecord {
    type V = TxtModel;

    open spec fn view(&self) -> TxtModel {
        TxtModel {
            version: self.version,
            device_id: self.device_id@,
            display_name: crate::rpc::optional_view(self.display_name),
            identity_public_key: crate::rpc::optional_view(self.identity_public_key),
            fingerprint: crate::rpc::optional_view(self.fingerprint),
            capabilities: self.capabilities,
            build_version: self.build_version@,
        }
    }
}

impl DiscoveryTxtRecord {
    /// What a device announces of its own identity.
    pub fn from_device_identity(
        identity: &DeviceIdentity,
        capabilities: CapabilityFlags,
        build_version: &str,
    ) -> (result: Self)
        requires
            identity.identity_public_key@.len() <= usize::MAX / 512,
        ensures
            result@ == (TxtModel {
                version: AKRAZ_DISCOVERY_TXT_VERSION,
                device_id: identity.device_id@,
                display_name: Some(identity.display_name@),
                identity_public_key: Some(crate::crypto::base64(identity.identity_public_key@)),
                fingerprint: Some(identity.fingerprint@),
                capabilities,
                build_version: build_version@,
            }),
    {
        let document = PairingIdentityDocument::from_device_identity(identity, capabilities);
        DiscoveryTxtRecord {
            version: AKRAZ_DISCOVERY_TXT_VERSION,
            device_id: document.device_id().to_owned(),
            display_name: Some(document.display_name().to_owned()),
            identity_public_key: Some(document.identity_public_key().to_owned()),
            fingerprint: Some(document.fingerprint().to_owned()),
            capabilities: document.capabilities(),
            build_version: build_version.to_owned(),
        }
    }
}

/// Why an announcement is refused.
#[allow(inconsistent_fields)]
#[derive(Debug, PartialEq, Eq)]
pub enum DiscoveryTxtError {
    MissingField { key: &'static str },
    DuplicateField { key: String },
    MalformedEntry { entry: String },
    EmptyKey { entry: String },
    InvalidVersion { value: String },
    UnsupportedVersion { version: u16 },
    InvalidDeviceId { value: String, reason: &'static str },
    InvalidDisplayName { value: String, reason: &'static str },
    InvalidIdentityPublicKey { value: String, reason: &'static str },
    InvalidFingerprint { value: String, reason: &'static str },
    InvalidBuildVersion { value: String, reason: &'static str },
    InvalidCapability { value: String },
    EmptyCapabilityList,
}

/// Why an announcement is refused.
#[allow(inconsistent_fields)]
pub enum TxtErrorModel {
    MissingField { key: Seq<char> },
    DuplicateField { key: Seq<char> },
    MalformedEntry { entry: Seq<char> },
    EmptyKey { entry: Seq<char> },
    InvalidVersion { value: Seq<char> },
    UnsupportedVersion { version: u16 },
    InvalidDeviceId { value: Seq<char>, reason: Seq<char> },
    InvalidDisplayName { value: Seq<char>, reason: Seq<char> },
    InvalidIdentityPublicKey { value: Seq<char>, reason: Seq<char> },
    InvalidFingerprint { value: Seq<char>, reason: Seq<char> },
    InvalidBuildVersion { value: Seq<char>, reason: Seq<char> },
    InvalidCapability { value: Seq<char> },
    EmptyCapabilityList,
}

impl View for DiscoveryTxtError {
    type V = TxtErrorModel;

    open spec fn view(&self) -> TxtErrorModel {
        match self {
            DiscoveryTxtError::MissingField { key } => TxtErrorModel::MissingField { key: key@ },
            DiscoveryTxtError::DuplicateField { key } => TxtErrorModel::DuplicateField {
                key: key@,
            },
            DiscoveryTxtError::MalformedEntry { entry } => TxtErrorModel::MalformedEntry {
                entry: entry@,
            },
            DiscoveryTxtError::EmptyKey { entry } => TxtErrorModel::EmptyKey { entry: entry@ },
            DiscoveryTxtError::InvalidVersion { value } => TxtErrorModel::InvalidVersion {
                value: value@,
            },
            DiscoveryTxtError::UnsupportedVersion { version } => {
                TxtErrorModel::UnsupportedVersion { version: *version }
            },
            DiscoveryTxtError::InvalidDeviceId { value, reason } => {
                TxtErrorModel::InvalidDeviceId { value: value@, reason: reason@ }
            },
            DiscoveryTxtError::InvalidDisplayName { value, reason } => {
                TxtErrorModel::InvalidDisplayName { value: value@, reason: reason@ }
            },
            DiscoveryTxtError::InvalidIdentityPublicKey { value, reason } => {
                TxtErrorModel::InvalidIdentityPublicKey { value: value@, reason: reason@ }
            },
            DiscoveryTxtError::InvalidFingerprint { value, reason } => {
                TxtErrorModel::InvalidFingerprint { value: value@, reason: reason@ }
            },
            DiscoveryTxtError::InvalidBuildVersion { value, reason } => {
                TxtErrorModel::InvalidBuildVersion { value: value@, reason: reason@ }
            },
            DiscoveryTxtError::InvalidCapability { value } => TxtErrorModel::InvalidCapability {
                value: value@,
            },
            DiscoveryTxtError::EmptyCapabilityList => TxtErrorModel::EmptyCapabilityList,
        }
    }
}

/// A text between quotation marks, with what cannot be shown escaped.
pub uninterp spec fn quoted(text: Seq<char>) -> Seq<char>;

/// The `Debug` form of a `str` of std: the text between quotation marks, escaped. It depends on the
/// text alone.
#[verifier::external_body]
pub(crate) fn quoted_text(text: &str) -> (result: String)
    ensures
        result@ == quoted(text@),
{
    format!("{text:?}")
}

/// What is said of a value and what is wrong with it.
pub open spec fn invalid_text(field: Seq<char>, value: Seq<char>, reason: Seq<char>) -> Seq<char> {
    "invalid discovery "@ + field + " "@ + quoted(value) + ": "@ + reason
}

/// What is said of a value and what is wrong with it.
fn invalid_message(field: &str, value: &str, reason: &str) -> (result: String)
    ensures
        result@ == invalid_text(field@, value@, reason@),
{
    "invalid discovery ".to_owned().concat(field).concat(" ").concat(
        quoted_text(value).as_str(),
    ).concat(": ").concat(reason)
}

impl DiscoveryTxtError {
    pub open spec fn text(&self) -> Seq<char> {
        match self {
            DiscoveryTxtError::MissingField { key } => "missing discovery TXT field "@ + key@,
            DiscoveryTxtError::DuplicateField { key } => "duplicate discovery TXT field "@ + key@,
            DiscoveryTxtError::MalformedEntry { entry } => {
                "malformed discovery TXT entry "@ + quoted(entry@)
            },
            DiscoveryTxtError::EmptyKey { entry } => {
                "empty discovery TXT key in "@ + quoted(entry@)
            },
            DiscoveryTxtError::InvalidVersion { value } => {
                "invalid discovery TXT version "@ + quoted(value@)
            },
            DiscoveryTxtError::UnsupportedVersion { version } => {
                "unsupported discovery TXT version "@ + crate::text::decimal(*version as nat)
            },
            DiscoveryTxtError::InvalidDeviceId { value, reason } => invalid_text(
                "device_id"@,
                value@,
                reason@,
            ),
            DiscoveryTxtError::InvalidDisplayName { value, reason } => invalid_text(
                "display_name"@,
                value@,
                reason@,
            ),
            DiscoveryTxtError::InvalidIdentityPublicKey { value, reason } => invalid_text(
                "identity_public_key"@,
                value@,
                reason@,
            ),
            DiscoveryTxtError::InvalidFingerprint { value, reason } => invalid_text(
                "fingerprint"@,
                value@,
                reason@,
            ),
            DiscoveryTxtError::InvalidBuildVersion { value, reason } => invalid_text(
                "build"@,
                value@,
                reason@,
            ),
            DiscoveryTxtError::InvalidCapability { value } => {
                "invalid discovery capability "@ + quoted(value@)
            },
            DiscoveryTxtError::EmptyCapabilityList => "empty discovery capability list"@,
        }
    }

    pub fn message(&self) -> (result: String)
        ensures
            result@ == self.text(),
    {
        match self {
            DiscoveryTxtError::MissingField { key } => {
                "missing discovery TXT field ".to_owned().concat(key)
            },
            DiscoveryTxtError::DuplicateField { key } => {
                "duplicate discovery TXT field ".to_owned().concat(key.as_str())
            },
            DiscoveryTxtError::MalformedEntry { entry } => {
                "malformed discovery TXT entry ".to_owned().concat(
                    quoted_text(entry.as_str()).as_str(),
                )
            },
            DiscoveryTxtError::EmptyKey { entry } => {
                "empty discovery TXT key in ".to_owned().concat(
                    quoted_text(entry.as_str()).as_str(),
                )
            },
            DiscoveryTxtError::InvalidVersion { value } => {
                "invalid discovery TXT version ".to_owned().concat(
                    quoted_text(value.as_str()).as_str(),
                )
            },
            DiscoveryTxtError::UnsupportedVersion { version } => {
                "unsupported discovery TXT version ".to_owned().concat(
                    decimal_text(*version as u64).as_str(),
                )
            },
            DiscoveryTxtError::InvalidDeviceId { value, reason } => invalid_message(
                "device_id",
                value.as_str(),
                reason,
            ),
            DiscoveryTxtError::InvalidDisplayName { value, reason } => invalid_message(
                "display_name",
                value.as_str(),
                reason,
            ),
            DiscoveryTxtError::InvalidIdentityPublicKey { value, reason } => invalid_message(
                "identity_public_key",
                value.as_str(),
                reason,
            ),
            DiscoveryTxtError::InvalidFingerprint { value, reason } => invalid_message(
                "fingerprint",
                value.as_str(),
                reason,
            ),
            DiscoveryTxtError::InvalidBuildVersion { value, reason } => invalid_message(
                "build",
                value.as_str(),
                reason,
            ),
            DiscoveryTxtError::InvalidCapability { value } => {
                "invalid discovery capability ".to_owned().concat(
                    quoted_text(value.as_str()).as_str(),
                )
            },
            DiscoveryTxtError::EmptyCapabilityList => "empty discovery capability list".to_owned(),
        }
    }
}

/// The value under a key.
pub open spec fn txt_field(fields: Seq<(Seq<char>, Seq<char>)>, key: Seq<char>) -> Option<Seq<char>>
    decreases fields.len(),
{
    if fields.len() == 0 {
        None
    } else if fields.last().0 == key {
        Some(fields.last().1)
    } else {
        txt_field(fields.drop_last(), key)
    }
}

/// The key and the value of an entry: what stands before and after the first `=`, without the space
/// around it, the key in lower case.
pub open spec fn read_entry(entry: Seq<char>) -> Result<(Seq<char>, Seq<char>), TxtErrorModel> {
    let at = crate::text::first_position(entry, '=');
    let key = crate::text::trim(entry.subrange(0, at));
    if at >= entry.len() {
        Err(TxtErrorModel::MalformedEntry { entry })
    } else if key.len() == 0 {
        Err(TxtErrorModel::EmptyKey { entry })
    } else {
        Ok(
            (
                crate::text::lowercase(key),
                crate::text::trim(entry.subrange(at + 1, entry.len() as int)),
            ),
        )
    }
}

/// The fields of an announcement, or what is wrong with the first bad entry. No key occurs twice.
pub open spec fn read_fields(entries: Seq<Seq<char>>) -> Result<
    Seq<(Seq<char>, Seq<char>)>,
    TxtErrorModel,
>
    decreases entries.len(),
{
    if entries.len() == 0 {
        Ok(Seq::empty())
    } else {
        match read_fields(entries.drop_last()) {
            Err(error) => Err(error),
            Ok(fields) => match read_entry(entries.last()) {
                Err(error) => Err(error),
                Ok((key, value)) => if txt_field(fields, key) is Some {
                    Err(TxtErrorModel::DuplicateField { key })
                } else {
                    Ok(fields.push((key, value)))
                },
            },
        }
    }
}

/// The fields that were read, in order.
pub open spec fn field_views(fields: Seq<(String, String)>) -> Seq<(Seq<char>, Seq<char>)> {
    fields.map_values(|field: (String, String)| (field.0@, field.1@))
}

/// The value under a key.
pub fn optional_txt_field<'a>(fields: &'a Vec<(String, String)>, key: &str) -> (result: Option<
    &'a str,
>)
    ensures
        match result {
            Some(value) => txt_field(field_views(fields@), key@) == Some(value@),
            None => txt_field(field_views(fields@), key@) is None,
        },
{
    let ghost all = field_views(fields@);
    let mut i: usize = fields.len();
    proof {
        assert(all.subrange(0, all.len() as int) =~= all);
    }
    while i > 0
        invariant
            i <= fields@.len(),
            all == field_views(fields@),
            all.len() == fields@.len(),
            txt_field(all, key@) == txt_field(all.subrange(0, i as int), key@),
        decreases i,
    {
        let ghost shorter = all.subrange(0, i as int);
        proof {
            assert(shorter.last() == (fields@[i - 1].0@, fields@[i - 1].1@));
            assert(shorter.drop_last() =~= all.subrange(0, i - 1));
        }
        i = i - 1;
        if same(fields[i].0.as_str(), key) {
            return Some(fields[i].1.as_str());
        }
    }
    None
}

/// The value under a key that has to be there.
pub fn required_txt_field<'a>(fields: &'a Vec<(String, String)>, key: &'static str) -> (result:
    Result<&'a str, DiscoveryTxtError>)
    ensures
        match result {
            Ok(value) => txt_field(field_views(fields@), key@) == Some(value@),
            Err(error) => txt_field(field_views(fields@), key@) is None && error@ == (
            TxtErrorModel::MissingField { key: key@ }),
        },
{
    match optional_txt_field(fields, key) {
        Some(value) => Ok(value),
        None => Err(DiscoveryTxtError::MissingField { key }),
    }
}

/// Read the entries of an announcement.
pub fn collect_txt_fields(entries: &[&str]) -> (result: Result<
    Vec<(String, String)>,
    DiscoveryTxtError,
>)
    ensures
        match result {
            Ok(fields) => read_fields(crate::text::views(entries@)) == Ok::<
                Seq<(Seq<char>, Seq<char>)>,
                TxtErrorModel,
            >(field_views(fields@)),
            Err(error) => read_fields(crate::text::views(entries@)) == Err::<
                Seq<(Seq<char>, Seq<char>)>,
                TxtErrorModel,
            >(error@),
        },
{
    let mut fields: Vec<(String, String)> = Vec::new();
    let ghost all = crate::text::views(entries@);
    let mut i: usize = 0;
    proof {
        assert(field_views(fields@) =~= Seq::empty());
        assert(all.subrange(0, 0) =~= Seq::empty());
    }
    while i < entries.len()
        invariant
            i <= entries@.len(),
            all == crate::text::views(entries@),
            all.len() == entries@.len(),
            read_fields(all.subrange(0, i as int)) == Ok::<
                Seq<(Seq<char>, Seq<char>)>,
                TxtErrorModel,
            >(field_views(fields@)),
        decreases entries@.len() - i,
    {
        let entry: &str = entries[i];
        let ghost longer = all.subrange(0, i + 1);
        let ghost before = field_views(fields@);
        proof {
            assert(longer.drop_last() =~= all.subrange(0, i as int));
            assert(longer.last() == entry@);
            crate::text::lemma_first_position(entry@, '=');
            lemma_failed_prefix(all, (i + 1) as nat);
        }
        match split_once(entry, '=') {
            None => {
                return Err(DiscoveryTxtError::MalformedEntry { entry: entry.to_owned() });
            },
            Some((key, value)) => {
                let key = trimmed(key);
                if key.is_empty() {
                    return Err(DiscoveryTxtError::EmptyKey { entry: entry.to_owned() });
                }
                let key = to_lowercase(key);
                match optional_txt_field(&fields, key.as_str()) {
                    Some(_) => {
                        return Err(DiscoveryTxtError::DuplicateField { key });
                    },
                    None => {},
                }
                let value = trimmed(value).to_owned();
                let ghost read = (key@, value@);
                fields.push((key, value));
                proof {
                    assert(field_views(fields@) =~= before.push(read));
                }
            },
        }
        i = i + 1;
    }
    proof {
        assert(all.subrange(0, i as int) =~= all);
    }
    Ok(fields)
}

/// What is wrong with the first entries of an announcement is wrong with all of it.
proof fn lemma_failed_prefix(entries: Seq<Seq<char>>, count: nat)
    requires
        count <= entries.len(),
    ensures
        read_fields(entries.subrange(0, count as int)) matches Err(error) ==> read_fields(entries)
            == Err::<Seq<(Seq<char>, Seq<char>)>, TxtErrorModel>(error),
    decreases entries.len() - count,
{
    if count < entries.len() {
        let longer = entries.subrange(0, count as int + 1);
        assert(longer.drop_last() =~= entries.subrange(0, count as int));
        lemma_failed_prefix(entries, count + 1);
    } else {
        assert(entries.subrange(0, count as int) =~= entries);
    }
}

/// A value without space inside: what is left without the space around it, or what is wrong with
/// that.
pub open spec fn read_token(value: Seq<char>) -> Result<Seq<char>, (Seq<char>, Seq<char>)> {
    let value = crate::text::trim(value);
    if value.len() == 0 {
        Err((value, "field is required"@))
    } else if crate::text::has_whitespace(value) {
        Err((value, "field cannot contain whitespace"@))
    } else if crate::text::has_control(value) {
        Err((value, "field cannot contain control characters"@))
    } else {
        Ok(value)
    }
}

/// A value without space inside, without the space around it.
pub fn normalize_no_space_token(value: &str) -> (result: Result<String, (String, &'static str)>)
    ensures
        match result {
            Ok(token) => read_token(value@) == Ok::<Seq<char>, (Seq<char>, Seq<char>)>(token@),
            Err((refused, reason)) => read_token(value@) == Err::<
                Seq<char>,
                (Seq<char>, Seq<char>),
            >((refused@, reason@)),
        },
{
    let value = trimmed(value);
    if value.is_empty() {
        return Err((value.to_owned(), "field is required"));
    }
    if contains_whitespace(value) {
        return Err((value.to_owned(), "field cannot contain whitespace"));
    }
    if contains_control(value) {
        return Err((value.to_owned(), "field cannot contain control characters"));
    }
    Ok(value.to_owned())
}

/// A device id: a value without space, `:` or `@` inside.
pub open spec fn read_device_id(value: Seq<char>) -> Result<Seq<char>, TxtErrorModel> {
    match read_token(value) {
        Err((value, reason)) => Err(TxtErrorModel::InvalidDeviceId { value, reason }),
        Ok(device_id) => if device_id.contains(':') || device_id.contains('@') {
            Err(
                TxtErrorModel::InvalidDeviceId {
                    value: device_id,
                    reason: "device_id cannot contain ':' or '@'"@,
                },
            )
        } else {
            Ok(device_id)
        },
    }
}

/// A device id: a value without space, `:` or `@` inside.
pub fn normalize_device_id(value: &str) -> (result: Result<String, DiscoveryTxtError>)
    ensures
        match result {
            Ok(device_id) => read_device_id(value@) == Ok::<Seq<char>, TxtErrorModel>(device_id@),
            Err(error) => read_device_id(value@) == Err::<Seq<char>, TxtErrorModel>(error@),
        },
{
    match normalize_no_space_token(value) {
        Err((value, reason)) => Err(DiscoveryTxtError::InvalidDeviceId { value, reason }),
        Ok(device_id) => {
            if contains_char(device_id.as_str(), ':') || contains_char(device_id.as_str(), '@') {
                return Err(
                    DiscoveryTxtError::InvalidDeviceId {
                        value: device_id,
                        reason: "device_id cannot contain ':' or '@'",
                    },
                );
            }
            Ok(device_id)
        },
    }
}

/// A build version: a value without space inside.
pub open spec fn read_build_version(value: Seq<char>) -> Result<Seq<char>, TxtErrorModel> {
    match read_token(value) {
        Err((value, reason)) => Err(TxtErrorModel::InvalidBuildVersion { value, reason }),
        Ok(build_version) => Ok(build_version),
    }
}

/// A build version: a value without space inside.
pub fn normalize_build_version(value: &str) -> (result: Result<String, DiscoveryTxtError>)
    ensures
        match result {
            Ok(version) => read_build_version(value@) == Ok::<Seq<char>, TxtErrorModel>(version@),
            Err(error) => read_build_version(value@) == Err::<Seq<char>, TxtErrorModel>(error@),
        },
{
    match normalize_no_space_token(value) {
        Err((value, reason)) => Err(DiscoveryTxtError::InvalidBuildVersion { value, reason }),
        Ok(build_version) => Ok(build_version),
    }
}

/// The name that a device shows: any text without control characters.
pub open spec fn read_display_name(value: Seq<char>) -> Result<Seq<char>, TxtErrorModel> {
    let value = crate::text::trim(value);
    if value.len() > 0 && crate::text::has_control(value) {
        Err(
            TxtErrorModel::InvalidDisplayName {
                value,
                reason: "field cannot contain control characters"@,
            },
        )
    } else {
        Ok(value)
    }
}

/// The name that a device shows: any text without control characters.
pub fn normalize_display_name(value: &str) -> (result: Result<String, DiscoveryTxtError>)
    ensures
        match result {
            Ok(name) => read_display_name(value@) == Ok::<Seq<char>, TxtErrorModel>(name@),
            Err(error) => read_display_name(value@) == Err::<Seq<char>, TxtErrorModel>(error@),
        },
{
    let value = trimmed(value);
    if value.is_empty() {
        let none = String::new();
        proof {
            assert(none@ =~= value@);
        }
        return Ok(none);
    }
    if contains_control(value) {
        return Err(
            DiscoveryTxtError::InvalidDisplayName {
                value: value.to_owned(),
                reason: "field cannot contain control characters",
            },
        );
    }
    Ok(value.to_owned())
}

/// The version of an announcement: a number below 65536.
pub open spec fn read_version(value: Seq<char>) -> Result<u16, TxtErrorModel> {
    match crate::text::parsed_number(value, 65535) {
        Some(version) => Ok(version as u16),
        None => Err(TxtErrorModel::InvalidVersion { value }),
    }
}

/// The version of an announcement: a number below 65536.
pub fn parse_discovery_version(value: &str) -> (result: Result<u16, DiscoveryTxtError>)
    ensures
        match result {
            Ok(version) => read_version(value@) == Ok::<u16, TxtErrorModel>(version),
            Err(error) => read_version(value@) == Err::<u16, TxtErrorModel>(error@),
        },
{
    match parse_number(value, 65535) {
        Ok(version) => Ok(version as u16),
        Err(_) => Err(DiscoveryTxtError::InvalidVersion { value: value.to_owned() }),
    }
}

/// The bit of a capability, by the name that announcements use.
pub open spec fn capability_bit(name: Seq<char>) -> Option<u32> {
    if name == "pointer"@ {
        Some(crate::protocol::POINTER_BIT)
    } else if name == "keyboard"@ {
        Some(crate::protocol::KEYBOARD_BIT)
    } else if name == "clipboard"@ {
        Some(crate::protocol::CLIPBOARD_BIT)
    } else if name == "screen-layout"@ || name == "screen_layout"@ {
        Some(crate::protocol::SCREEN_LAYOUT_BIT)
    } else {
        None
    }
}

/// The capabilities in a list of names, or the first that is none.
pub open spec fn read_capabilities(names: Seq<Seq<char>>) -> Result<u32, TxtErrorModel>
    decreases names.len(),
{
    if names.len() == 0 {
        Ok(0)
    } else {
        match read_capabilities(names.drop_last()) {
            Err(error) => Err(error),
            Ok(bits) => {
                let name = crate::text::trim(names.last());
                if name.len() == 0 {
                    Err(TxtErrorModel::InvalidCapability { value: names.last() })
                } else {
                    match capability_bit(name) {
                        Some(bit) => Ok(bits | bit),
                        None => Err(TxtErrorModel::InvalidCapability { value: name }),
                    }
                }
            },
        }
    }
}

/// The first name that is no capability spoils the whole list.
proof fn lemma_failed_capability(names: Seq<Seq<char>>, count: nat)
    requires
        count <= names.len(),
    ensures
        read_capabilities(names.subrange(0, count as int)) matches Err(error) ==> read_capabilities(
            names,
        ) == Err::<u32, TxtErrorModel>(error),
    decreases names.len() - count,
{
    if count < names.len() {
        let longer = names.subrange(0, count as int + 1);
        assert(longer.drop_last() =~= names.subrange(0, count as int));
        lemma_failed_capability(names, count + 1);
    } else {
        assert(names.subrange(0, count as int) =~= names);
    }
}

/// The capability with a name.
fn capability_named(name: &str) -> (result: Option<CapabilityFlags>)
    ensures
        match result {
            Some(capability) => capability_bit(name@) == Some(capability.bits),
            None => capability_bit(name@) is None,
        },
{
    if same(name, "pointer") {
        Some(CapabilityFlags::pointer())
    } else if same(name, "keyboard") {
        Some(CapabilityFlags::keyboard())
    } else if same(name, "clipboard") {
        Some(CapabilityFlags::clipboard())
    } else if same(name, "screen-layout") || same(name, "screen_layout") {
        Some(CapabilityFlags::screen_layout())
    } else {
        None
    }
}

/// The capabilities in a list of names, parted by commas.
pub fn parse_capabilities(value: &str) -> (result: Result<CapabilityFlags, DiscoveryTxtError>)
    ensures
        match result {
            Ok(capabilities) => read_capabilities(crate::text::pieces(value@, ',')) == Ok::<
                u32,
                TxtErrorModel,
            >(capabilities.bits),
            Err(error) => read_capabilities(crate::text::pieces(value@, ',')) == Err::<
                u32,
                TxtErrorModel,
            >(error@),
        },
{
    let names = split(value, ',');
    let ghost all = crate::text::views(names@);
    let mut capabilities = CapabilityFlags::empty();
    let mut i: usize = 0;
    proof {
        assert(all.subrange(0, 0) =~= Seq::empty());
    }
    while i < names.len()
        invariant
            i <= names@.len(),
            all == crate::text::views(names@),
            all == crate::text::pieces(value@, ','),
            all.len() == names@.len(),
            read_capabilities(all.subrange(0, i as int)) == Ok::<u32, TxtErrorModel>(
                capabilities.bits,
            ),
        decreases names@.len() - i,
    {
        let raw: &str = names[i];
        let name = trimmed(raw);
        proof {
            let longer = all.subrange(0, i + 1);
            assert(longer.drop_last() =~= all.subrange(0, i as int));
            assert(longer.last() == raw@);
            lemma_failed_capability(all, (i + 1) as nat);
        }
        if name.is_empty() {
            return Err(DiscoveryTxtError::InvalidCapability { value: raw.to_owned() });
        }
        match capability_named(name) {
            Some(capability) => {
                capabilities = capabilities.union(capability);
            },
            None => {
                return Err(DiscoveryTxtError::InvalidCapability { value: name.to_owned() });
            },
        }
        i = i + 1;
    }
    proof {
        assert(all.subrange(0, i as int) =~= all);
    }
    Ok(capabilities)
}

/// A value that may be missing and has no space inside.
pub open spec fn read_optional_token(value: Option<Seq<char>>) -> Result<
    Option<Seq<char>>,
    (Seq<char>, Seq<char>),
> {
    match value {
        None => Ok(None),
        Some(value) => match read_token(value) {
            Ok(token) => Ok(Some(token)),
            Err(refusal) => Err(refusal),
        },
    }
}

/// A name that may be missing; an empty one is as good as none.
pub open spec fn read_optional_name(value: Option<Seq<char>>) -> Result<
    Option<Seq<char>>,
    TxtErrorModel,
> {
    match value {
        None => Ok(None),
        Some(value) => match read_display_name(value) {
            Ok(name) => if name.len() == 0 {
                Ok(None)
            } else {
                Ok(Some(name))
            },
            Err(error) => Err(error),
        },
    }
}

/// A field that has to be there.
pub open spec fn read_required(fields: Seq<(Seq<char>, Seq<char>)>, key: Seq<char>) -> Result<
    Seq<char>,
    TxtErrorModel,
> {
    match txt_field(fields, key) {
        Some(value) => Ok(value),
        None => Err(TxtErrorModel::MissingField { key }),
    }
}

/// What is wrong with the public part of an announcement that comes before its capabilities.
pub open spec fn read_identity(fields: Seq<(Seq<char>, Seq<char>)>) -> Result<
    (Seq<char>, Option<Seq<char>>, Option<Seq<char>>, Option<Seq<char>>),
    TxtErrorModel,
> {
    match read_required(fields, TXT_DEVICE_ID_KEY@) {
        Err(error) => Err(error),
        Ok(value) => match read_device_id(value) {
            Err(error) => Err(error),
            Ok(device_id) => match read_optional_name(txt_field(fields, TXT_DISPLAY_NAME_KEY@)) {
                Err(error) => Err(error),
                Ok(display_name) => match read_optional_token(
                    txt_field(fields, TXT_IDENTITY_PUBLIC_KEY_KEY@),
                ) {
                    Err((value, reason)) => Err(
                        TxtErrorModel::InvalidIdentityPublicKey { value, reason },
                    ),
                    Ok(public_key) => match read_optional_token(
                        txt_field(fields, TXT_FINGERPRINT_KEY@),
                    ) {
                        Err((value, reason)) => Err(
                            TxtErrorModel::InvalidFingerprint { value, reason },
                        ),
                        Ok(fingerprint) => Ok((device_id, display_name, public_key, fingerprint)),
                    },
                },
            },
        },
    }
}

/// What the fields of an announcement say. The version is looked at first, then the device id, the
/// optional fields, the capabilities and the build version.
pub open spec fn read_record(fields: Seq<(Seq<char>, Seq<char>)>) -> Result<
    TxtModel,
    TxtErrorModel,
> {
    match read_required(fields, TXT_VERSION_KEY@) {
        Err(error) => Err(error),
        Ok(value) => match read_version(value) {
            Err(error) => Err(error),
            Ok(version) => if version != AKRAZ_DISCOVERY_TXT_VERSION {
                Err(TxtErrorModel::UnsupportedVersion { version })
            } else {
                match read_identity(fields) {
                    Err(error) => Err(error),
                    Ok((device_id, display_name, identity_public_key, fingerprint)) => {
                        match read_required(fields, TXT_CAPABILITIES_KEY@) {
                            Err(error) => Err(error),
                            Ok(value) => match read_capabilities(
                                crate::text::pieces(value, ','),
                            ) {
                                Err(error) => Err(error),
                                Ok(bits) => match read_required(fields, TXT_BUILD_VERSION_KEY@) {
                                    Err(error) => Err(error),
                                    Ok(value) => match read_build_version(value) {
                                        Err(error) => Err(error),
                                        Ok(build_version) => Ok(
                                            TxtModel {
                                                version,
                                                device_id,
                                                display_name,
                                                identity_public_key,
                                                fingerprint,
                                                capabilities: CapabilityFlags { bits },
                                                build_version,
                                            },
                                        ),
                                    },
                                },
                            },
                        }
                    },
                }
            },
        },
    }
}

/// What the entries of an announcement say.
pub open spec fn read_announcement(entries: Seq<Seq<char>>) -> Result<TxtModel, TxtErrorModel> {
    match read_fields(entries) {
        Err(error) => Err(error),
        Ok(fields) => read_record(fields),
    }
}

/// Read an optional field without space inside.
fn optional_token(fields: &Vec<(String, String)>, key: &str) -> (result: Result<
    Option<String>,
    (String, &'static str),
>)
    ensures
        match result {
            Ok(token) => read_optional_token(txt_field(field_views(fields@), key@)) == Ok::<
                Option<Seq<char>>,
                (Seq<char>, Seq<char>),
            >(crate::rpc::optional_view(token)),
            Err((value, reason)) => read_optional_token(txt_field(field_views(fields@), key@))
                == Err::<Option<Seq<char>>, (Seq<char>, Seq<char>)>((value@, reason@)),
        },
{
    match optional_txt_field(fields, key) {
        None => Ok(None),
        Some(value) => match normalize_no_space_token(value) {
            Ok(token) => Ok(Some(token)),
            Err(refusal) => Err(refusal),
        },
    }
}

/// Read the optional name.
fn optional_name(fields: &Vec<(String, String)>, key: &str) -> (result: Result<
    Option<String>,
    DiscoveryTxtError,
>)
    ensures
        match result {
            Ok(name) => read_optional_name(txt_field(field_views(fields@), key@)) == Ok::<
                Option<Seq<char>>,
                TxtErrorModel,
            >(crate::rpc::optional_view(name)),
            Err(error) => read_optional_name(txt_field(field_views(fields@), key@)) == Err::<
                Option<Seq<char>>,
                TxtErrorModel,
            >(error@),
        },
{
    match optional_txt_field(fields, key) {
        None => Ok(None),
        Some(value) => match normalize_display_name(value) {
            Ok(name) => if name.as_str().is_empty() {
                Ok(None)
            } else {
                Ok(Some(name))
            },
            Err(error) => Err(error),
        },
    }
}

/// Read the entries of an announcement, such as `v=1` and `caps=pointer,keyboard`.
pub fn parse_discovery_txt_record(entries: &[&str]) -> (result: Result<
    DiscoveryTxtRecord,
    DiscoveryTxtError,
>)
    ensures
        match result {
            Ok(record) => read_announcement(crate::text::views(entries@)) == Ok::<
                TxtModel,
                TxtErrorModel,
            >(record@),
            Err(error) => read_announcement(crate::text::views(entries@)) == Err::<
                TxtModel,
                TxtErrorModel,
            >(error@),
        },
{
    let fields = match collect_txt_fields(entries) {
        Ok(fields) => fields,
        Err(error) => return Err(error),
    };
    let value = match required_txt_field(&fields, TXT_VERSION_KEY) {
        Ok(value) => value,
        Err(error) => return Err(error),
    };
    let version: u16 = match parse_discovery_version(value) {
        Ok(version) => version,
        Err(error) => return Err(error),
    };
    if version != AKRAZ_DISCOVERY_TXT_VERSION {
        return Err(DiscoveryTxtError::UnsupportedVersion { version });
    }
    let value = match required_txt_field(&fields, TXT_DEVICE_ID_KEY) {
        Ok(value) => value,
        Err(error) => return Err(error),
    };
    let device_id = match normalize_device_id(value) {
        Ok(device_id) => device_id,
        Err(error) => return Err(error),
    };
    let display_name = match optional_name(&fields, TXT_DISPLAY_NAME_KEY) {
        Ok(display_name) => display_name,
        Err(error) => return Err(error),
    };
    let identity_public_key = match optional_token(&fields, TXT_IDENTITY_PUBLIC_KEY_KEY) {
        Ok(identity_public_key) => identity_public_key,
        Err((value, reason)) => return Err(
            DiscoveryTxtError::InvalidIdentityPublicKey { value, reason },
        ),
    };
    let fingerprint = match optional_token(&fields, TXT_FINGERPRINT_KEY) {
        Ok(fingerprint) => fingerprint,
        Err((value, reason)) => return Err(
            DiscoveryTxtError::InvalidFingerprint { value, reason },
        ),
    };
    let value = match required_txt_field(&fields, TXT_CAPABILITIES_KEY) {
        Ok(value) => value,
        Err(error) => return Err(error),
    };
    let capabilities = match parse_capabilities(value) {
        Ok(capabilities) => capabilities,
        Err(error) => return Err(error),
    };
    let value = match required_txt_field(&fields, TXT_BUILD_VERSION_KEY) {
        Ok(value) => value,
        Err(error) => return Err(error),
    };
    let build_version = match normalize_build_version(value) {
        Ok(build_version) => build_version,
        Err(error) => return Err(error),
    };
    Ok(
        DiscoveryTxtRecord {
            version,
            device_id,
            display_name,
            identity_public_key,
            fingerprint,
            capabilities,
            build_version,
        },
    )
}

/// The names of the capabilities, in order.
pub open spec fn names_of(capabilities: CapabilityFlags) -> Seq<Seq<char>> {
    let bits = capabilities.bits;
    let none = Seq::<Seq<char>>::empty();
    let pointer = if bits & 1 == 1 {
        none.push("pointer"@)
    } else {
        none
    };
    let keyboard = if bits & 2 == 2 {
        pointer.push("keyboard"@)
    } else {
        pointer
    };
    let clipboard = if bits & 4 == 4 {
        keyboard.push("clipboard"@)
    } else {
        keyboard
    };
    if bits & 8 == 8 {
        clipboard.push("screen-layout"@)
    } else {
        clipboard
    }
}

/// The names of the capabilities, in order.
pub fn capability_names(capabilities: CapabilityFlags) -> (result: Vec<&'static str>)
    ensures
        crate::text::views(result@) == names_of(capabilities),
{
    let mut names: Vec<&'static str> = Vec::new();
    proof {
        assert(crate::text::views(names@) =~= Seq::empty());
    }
    let ghost none = names@;
    if capabilities.contains(CapabilityFlags::pointer()) {
        names.push("pointer");
        proof {
            assert(crate::text::views(names@) =~= crate::text::views(none).push("pointer"@));
        }
    }
    let ghost before = names@;
    if capabilities.contains(CapabilityFlags::keyboard()) {
        names.push("keyboard");
        proof {
            assert(crate::text::views(names@) =~= crate::text::views(before).push("keyboard"@));
        }
    }
    let ghost before = names@;
    if capabilities.contains(CapabilityFlags::clipboard()) {
        names.push("clipboard");
        proof {
            assert(crate::text::views(names@) =~= crate::text::views(before).push("clipboard"@));
        }
    }
    let ghost before = names@;
    if capabilities.contains(CapabilityFlags::screen_layout()) {
        names.push("screen-layout");
        proof {
            assert(crate::text::views(names@) =~= crate::text::views(before).push(
                "screen-layout"@,
            ));
        }
    }
    names
}

/// Texts with a comma between each two of them.
pub open spec fn joined(list: Seq<Seq<char>>) -> Seq<char>
    decreases list.len(),
{
    if list.len() == 0 {
        Seq::empty()
    } else if list.len() == 1 {
        list[0]
    } else {
        joined(list.drop_last()) + ","@ + list.last()
    }
}

/// Texts with a comma between each two of them.
fn join(list: &Vec<&'static str>) -> (result: String)
    ensures
        result@ == joined(crate::text::views(list@)),
{
    let mut result = String::new();
    let ghost all = crate::text::views(list@);
    let mut i: usize = 0;
    proof {
        assert(result@ =~= joined(all.subrange(0, 0)));
    }
    while i < list.len()
        invariant
            i <= list@.len(),
            all == crate::text::views(list@),
            all.len() == list@.len(),
            result@ == joined(all.subrange(0, i as int)),
        decreases list@.len() - i,
    {
        proof {
            let longer = all.subrange(0, i + 1);
            assert(longer.drop_last() =~= all.subrange(0, i as int));
            assert(longer.last() == list@[i as int]@);
        }
        if i > 0 {
            result = result.concat(",").concat(list[i]);
        } else {
            result = list[i].to_owned();
        }
        i = i + 1;
    }
    proof {
        assert(all.subrange(0, i as int) =~= all);
    }
    result
}

/// One entry of an announcement.
pub open spec fn entry_text(key: Seq<char>, value: Seq<char>) -> Seq<char> {
    key + "="@ + value
}

/// The entries with one more, where there is a value for it.
pub open spec fn with_entry(
    entries: Seq<Seq<char>>,
    key: Seq<char>,
    value: Option<Seq<char>>,
) -> Seq<Seq<char>> {
    match value {
        Some(value) => entries.push(entry_text(key, value)),
        None => entries,
    }
}

/// The entries that every announcement has.
pub open spec fn required_entries(record: TxtModel) -> Seq<Seq<char>> {
    seq![
        entry_text(TXT_VERSION_KEY@, crate::text::decimal(record.version as nat)),
        entry_text(TXT_DEVICE_ID_KEY@, record.device_id),
        entry_text(TXT_CAPABILITIES_KEY@, joined(names_of(record.capabilities))),
        entry_text(TXT_BUILD_VERSION_KEY@, record.build_version),
    ]
}

/// The entries of an announcement.
pub open spec fn announced(record: TxtModel) -> Seq<Seq<char>> {
    with_entry(
        with_entry(
            with_entry(required_entries(record), TXT_DISPLAY_NAME_KEY@, record.display_name),
            TXT_IDENTITY_PUBLIC_KEY_KEY@,
            record.identity_public_key,
        ),
        TXT_FINGERPRINT_KEY@,
        record.fingerprint,
    )
}

/// One entry of an announcement.
fn entry(key: &str, value: &str) -> (result: String)
    ensures
        result@ == entry_text(key@, value@),
{
    key.to_owned().concat("=").concat(value)
}

/// Add an entry, where there is a value for it.
fn push_entry(entries: &mut Vec<String>, key: &str, value: &Option<String>)
    ensures
        crate::text::string_views(final(entries)@) == with_entry(
            crate::text::string_views(old(entries)@),
            key@,
            crate::rpc::optional_view(*value),
        ),
{
    match value {
        Some(value) => {
            entries.push(entry(key, value.as_str()));
            proof {
                assert(crate::text::string_views(entries@) =~= crate::text::string_views(old(entries)@).push(
                    entry_text(key@, value@),
                ));
            }
        },
        None => {},
    }
}

/// Write the entries of an announcement.
pub fn build_discovery_txt_record(record: &DiscoveryTxtRecord) -> (result: Vec<String>)
    ensures
        crate::text::string_views(result@) == announced(record@),
{
    let names = capability_names(record.capabilities);
    let mut entries: Vec<String> = Vec::new();
    entries.push(entry(TXT_VERSION_KEY, decimal_text(record.version as u64).as_str()));
    entries.push(entry(TXT_DEVICE_ID_KEY, record.device_id.as_str()));
    entries.push(entry(TXT_CAPABILITIES_KEY, join(&names).as_str()));
    entries.push(entry(TXT_BUILD_VERSION_KEY, record.build_version.as_str()));
    proof {
        assert(crate::text::string_views(entries@) =~= required_entries(record@));
    }
    push_entry(&mut entries, TXT_DISPLAY_NAME_KEY, &record.display_name);
    push_entry(&mut entries, TXT_IDENTITY_PUBLIC_KEY_KEY, &record.identity_public_key);
    push_entry(&mut entries, TXT_FINGERPRINT_KEY, &record.fingerprint);
    entries
}

/// Whether an announcement can be read back: its texts are in normal form and its capabilities are
/// some of those that have names.
pub open spec fn announceable(record: TxtModel) -> bool {
    &&& record.version == AKRAZ_DISCOVERY_TXT_VERSION
    &&& read_device_id(record.device_id) == Ok::<Seq<char>, TxtErrorModel>(record.device_id)
    &&& match record.display_name {
        Some(name) => name.len() > 0 && read_display_name(name) == Ok::<Seq<char>, TxtErrorModel>(
            name,
        ),
        None => true,
    }
    &&& match record.identity_public_key {
        Some(key) => read_token(key) == Ok::<Seq<char>, (Seq<char>, Seq<char>)>(key),
        None => true,
    }
    &&& match record.fingerprint {
        Some(fingerprint) => read_token(fingerprint) == Ok::<Seq<char>, (Seq<char>, Seq<char>)>(
            fingerprint,
        ),
        None => true,
    }
    &&& 0 < record.capabilities.bits < 16
    &&& read_build_version(record.build_version) == Ok::<Seq<char>, TxtErrorModel>(
        record.build_version,
    )
}

/// Whether a key is spelled with lower-case letters and underscores alone.
pub open spec fn plain_key(key: Seq<char>) -> bool {
    &&& key.len() > 0
    &&& forall|i: int| 0 <= i < key.len() ==> ('a' <= #[trigger] key[i] <= 'z' || key[i] == '_')
}

/// A text without space at its ends is not changed by trimming.
proof fn lemma_untrimmed(s: Seq<char>)
    requires
        s.len() > 0 ==> !crate::text::is_whitespace(s[0]) && !crate::text::is_whitespace(s.last()),
    ensures
        crate::text::trim(s) == s,
{
}

/// Each of the keys is plain, and no two of them have the same length.
pub proof fn lemma_keys()
    ensures
        plain_key(TXT_VERSION_KEY@),
        plain_key(TXT_DEVICE_ID_KEY@),
        plain_key(TXT_CAPABILITIES_KEY@),
        plain_key(TXT_BUILD_VERSION_KEY@),
        plain_key(TXT_DISPLAY_NAME_KEY@),
        plain_key(TXT_IDENTITY_PUBLIC_KEY_KEY@),
        plain_key(TXT_FINGERPRINT_KEY@),
        TXT_VERSION_KEY@.len() == 1,
        TXT_DEVICE_ID_KEY@.len() == 9,
        TXT_CAPABILITIES_KEY@.len() == 4,
        TXT_BUILD_VERSION_KEY@.len() == 5,
        TXT_DISPLAY_NAME_KEY@.len() == 12,
        TXT_IDENTITY_PUBLIC_KEY_KEY@.len() == 19,
        TXT_FINGERPRINT_KEY@.len() == 11,
{
    reveal_strlit("v");
    reveal_strlit("device_id");
    reveal_strlit("caps");
    reveal_strlit("build");
    reveal_strlit("display_name");
    reveal_strlit("identity_public_key");
    reveal_strlit("fingerprint");
}

/// An entry with a plain key and a value without space around it reads back as that key and value.
proof fn lemma_entry(key: Seq<char>, value: Seq<char>)
    requires
        plain_key(key),
        crate::text::trim(value) == value,
    ensures
        read_entry(entry_text(key, value)) == Ok::<(Seq<char>, Seq<char>), TxtErrorModel>(
            (key, value),
        ),
{
    reveal_strlit("=");
    let text = entry_text(key, value);
    crate::text::lemma_first_position(text, '=');
    assert(text[key.len() as int] == '=');
    assert(forall|i: int| 0 <= i < key.len() ==> text[i] == key[i]);
    let at = crate::text::first_position(text, '=');
    if at < key.len() {
        assert(text[at] == key[at]);
    }
    assert(at == key.len());
    assert(text.subrange(0, at) =~= key);
    assert(text.subrange(at + 1, text.len() as int) =~= value);
    lemma_untrimmed(key);
    assert(crate::text::lowercase(key) =~= key);
}

/// One more entry adds its field.
proof fn lemma_one_more(
    entries: Seq<Seq<char>>,
    fields: Seq<(Seq<char>, Seq<char>)>,
    key: Seq<char>,
    value: Seq<char>,
)
    requires
        read_fields(entries) == Ok::<Seq<(Seq<char>, Seq<char>)>, TxtErrorModel>(fields),
        plain_key(key),
        crate::text::trim(value) == value,
        txt_field(fields, key) is None,
    ensures
        read_fields(entries.push(entry_text(key, value))) == Ok::<
            Seq<(Seq<char>, Seq<char>)>,
            TxtErrorModel,
        >(fields.push((key, value))),
{
    lemma_entry(key, value);
    assert(entries.push(entry_text(key, value)).drop_last() =~= entries);
}

/// What is found under a key after one more field.
proof fn lemma_found(fields: Seq<(Seq<char>, Seq<char>)>, key: Seq<char>, value: Seq<char>)
    ensures
        forall|other: Seq<char>| #[trigger]
            txt_field(fields.push((key, value)), other) == (if other == key {
                Some(value)
            } else {
                txt_field(fields, other)
            }),
{
    assert(fields.push((key, value)).drop_last() =~= fields);
}

/// The fields with one more, where there is a value for it.
spec fn with_field(
    fields: Seq<(Seq<char>, Seq<char>)>,
    key: Seq<char>,
    value: Option<Seq<char>>,
) -> Seq<(Seq<char>, Seq<char>)> {
    match value {
        Some(value) => fields.push((key, value)),
        None => fields,
    }
}

/// An optional entry adds its field, where there is a value for it.
proof fn lemma_optional(
    entries: Seq<Seq<char>>,
    fields: Seq<(Seq<char>, Seq<char>)>,
    key: Seq<char>,
    value: Option<Seq<char>>,
)
    requires
        read_fields(entries) == Ok::<Seq<(Seq<char>, Seq<char>)>, TxtErrorModel>(fields),
        plain_key(key),
        value matches Some(value) ==> crate::text::trim(value) == value,
        txt_field(fields, key) is None,
    ensures
        read_fields(with_entry(entries, key, value)) == Ok::<
            Seq<(Seq<char>, Seq<char>)>,
            TxtErrorModel,
        >(with_field(fields, key, value)),
        forall|other: Seq<char>| #[trigger]
            txt_field(with_field(fields, key, value), other) == (if other == key {
                value
            } else {
                txt_field(fields, other)
            }),
{
    match value {
        Some(value) => {
            lemma_one_more(entries, fields, key, value);
            lemma_found(fields, key, value);
        },
        None => {},
    }
}

/// Whether a text has no comma in it and no space at its ends.
spec fn plain_piece(piece: Seq<char>) -> bool {
    &&& piece.len() > 0
    &&& !piece.contains(',')
    &&& !crate::text::is_whitespace(piece[0])
    &&& !crate::text::is_whitespace(piece.last())
}

/// Texts that are joined with commas fall apart into the same texts.
proof fn lemma_joined(list: Seq<Seq<char>>)
    requires
        list.len() > 0,
        forall|i: int| 0 <= i < list.len() ==> plain_piece(#[trigger] list[i]),
    ensures
        crate::text::pieces(joined(list), ',') == list,
        joined(list).len() > 0,
        joined(list)[0] == list[0][0],
        joined(list).last() == list.last().last(),
    decreases list.len(),
{
    assert(plain_piece(list.last()));
    if list.len() == 1 {
        crate::text::lemma_first_position(list[0], ',');
        assert(crate::text::pieces(list[0], ',') =~= list);
    } else {
        let shorter = list.drop_last();
        assert forall|i: int| 0 <= i < shorter.len() implies plain_piece(#[trigger] shorter[i]) by {
            assert(plain_piece(list[i]));
        }
        lemma_joined(shorter);
        reveal_strlit(",");
        assert(","@ =~= seq![',']);
        crate::text::lemma_one_more_piece(joined(shorter), ',', list.last());
        assert(shorter.push(list.last()) =~= list);
    }
}

/// The names of the capabilities are plain.
proof fn lemma_capability_names()
    ensures
        plain_piece("pointer"@),
        plain_piece("keyboard"@),
        plain_piece("clipboard"@),
        plain_piece("screen-layout"@),
        capability_bit("pointer"@) == Some(1u32),
        capability_bit("keyboard"@) == Some(2u32),
        capability_bit("clipboard"@) == Some(4u32),
        capability_bit("screen-layout"@) == Some(8u32),
{
    reveal_strlit("pointer");
    reveal_strlit("keyboard");
    reveal_strlit("clipboard");
    reveal_strlit("screen-layout");
}

/// One more name adds its bit.
proof fn lemma_one_more_capability(names: Seq<Seq<char>>, bits: u32, name: Seq<char>, bit: u32)
    requires
        read_capabilities(names) == Ok::<u32, TxtErrorModel>(bits),
        plain_piece(name),
        capability_bit(name) == Some(bit),
    ensures
        read_capabilities(names.push(name)) == Ok::<u32, TxtErrorModel>(bits | bit),
{
    assert(names.push(name).drop_last() =~= names);
    lemma_untrimmed(name);
}

/// The names of some capabilities stand for just these.
proof fn lemma_names(capabilities: CapabilityFlags)
    requires
        0 < capabilities.bits < 16,
    ensures
        read_capabilities(names_of(capabilities)) == Ok::<u32, TxtErrorModel>(capabilities.bits),
        names_of(capabilities).len() > 0,
        forall|i: int|
            0 <= i < names_of(capabilities).len() ==> plain_piece(
                #[trigger] names_of(capabilities)[i],
            ),
{
    let bits = capabilities.bits;
    lemma_capability_names();
    let none = Seq::<Seq<char>>::empty();
    let read = 0u32;
    assert(read_capabilities(none) == Ok::<u32, TxtErrorModel>(read));
    let (names, read) = if bits & 1 == 1 {
        lemma_one_more_capability(none, read, "pointer"@, 1);
        (none.push("pointer"@), read | 1)
    } else {
        (none, read)
    };
    assert(read == bits & 1) by {
        assert(0u32 | 1u32 == 1u32) by (bit_vector);
        assert(bits & 1 == 0 || bits & 1 == 1) by (bit_vector);
    }
    let next = if bits & 2 == 2 {
        lemma_one_more_capability(names, read, "keyboard"@, 2);
        (names.push("keyboard"@), read | 2)
    } else {
        (names, read)
    };
    assert(next.1 == bits & 3) by {
        assert(bits & 2 == 2 ==> (bits & 1) | 2 == bits & 3) by (bit_vector);
        assert(bits & 2 != 2 ==> bits & 1 == bits & 3) by (bit_vector);
    }
    let (names, read) = next;
    let next = if bits & 4 == 4 {
        lemma_one_more_capability(names, read, "clipboard"@, 4);
        (names.push("clipboard"@), read | 4)
    } else {
        (names, read)
    };
    assert(next.1 == bits & 7) by {
        assert(bits & 4 == 4 ==> (bits & 3) | 4 == bits & 7) by (bit_vector);
        assert(bits & 4 != 4 ==> bits & 3 == bits & 7) by (bit_vector);
    }
    let (names, read) = next;
    let next = if bits & 8 == 8 {
        lemma_one_more_capability(names, read, "screen-layout"@, 8);
        (names.push("screen-layout"@), read | 8)
    } else {
        (names, read)
    };
    assert(next.1 == bits & 15) by {
        assert(bits & 8 == 8 ==> (bits & 7) | 8 == bits & 15) by (bit_vector);
        assert(bits & 8 != 8 ==> bits & 7 == bits & 15) by (bit_vector);
    }
    assert(bits & 15 == bits) by (bit_vector)
        requires
            bits < 16,
    ;
    assert(next.0 == names_of(capabilities));
    if names_of(capabilities).len() == 0 {
        assert(bits & 15 == 0);
    }
}

/// What a peer announces in normal form is what its neighbours read.
pub proof fn announcement_reads_back(record: TxtModel)
    requires
        announceable(record),
    ensures
        read_announcement(announced(record)) == Ok::<TxtModel, TxtErrorModel>(record),
{
    let version = crate::text::decimal(record.version as nat);
    let capabilities = joined(names_of(record.capabilities));
    lemma_keys();
    lemma_names(record.capabilities);
    lemma_joined(names_of(record.capabilities));
    lemma_untrimmed(capabilities);
    crate::text::lemma_decimal_parses(record.version as nat, 65535);
    crate::text::lemma_decimal_value(record.version as nat);
    lemma_untrimmed(version);
    let no_entries = Seq::<Seq<char>>::empty();
    let no_fields = Seq::<(Seq<char>, Seq<char>)>::empty();
    assert(read_fields(no_entries) == Ok::<Seq<(Seq<char>, Seq<char>)>, TxtErrorModel>(no_fields));
    lemma_optional(no_entries, no_fields, TXT_VERSION_KEY@, Some(version));
    let entries = with_entry(no_entries, TXT_VERSION_KEY@, Some(version));
    let fields = with_field(no_fields, TXT_VERSION_KEY@, Some(version));
    lemma_optional(entries, fields, TXT_DEVICE_ID_KEY@, Some(record.device_id));
    let entries = with_entry(entries, TXT_DEVICE_ID_KEY@, Some(record.device_id));
    let fields = with_field(fields, TXT_DEVICE_ID_KEY@, Some(record.device_id));
    lemma_optional(entries, fields, TXT_CAPABILITIES_KEY@, Some(capabilities));
    let entries = with_entry(entries, TXT_CAPABILITIES_KEY@, Some(capabilities));
    let fields = with_field(fields, TXT_CAPABILITIES_KEY@, Some(capabilities));
    lemma_optional(entries, fields, TXT_BUILD_VERSION_KEY@, Some(record.build_version));
    let entries = with_entry(entries, TXT_BUILD_VERSION_KEY@, Some(record.build_version));
    let fields = with_field(fields, TXT_BUILD_VERSION_KEY@, Some(record.build_version));
    assert(entries =~= required_entries(record));
    lemma_optional(entries, fields, TXT_DISPLAY_NAME_KEY@, record.display_name);
    let entries = with_entry(entries, TXT_DISPLAY_NAME_KEY@, record.display_name);
    let fields = with_field(fields, TXT_DISPLAY_NAME_KEY@, record.display_name);
    lemma_optional(entries, fields, TXT_IDENTITY_PUBLIC_KEY_KEY@, record.identity_public_key);
    let entries = with_entry(entries, TXT_IDENTITY_PUBLIC_KEY_KEY@, record.identity_public_key);
    let fields = with_field(fields, TXT_IDENTITY_PUBLIC_KEY_KEY@, record.identity_public_key);
    lemma_optional(entries, fields, TXT_FINGERPRINT_KEY@, record.fingerprint);
    let fields = with_field(fields, TXT_FINGERPRINT_KEY@, record.fingerprint);
    assert(read_fields(announced(record)) == Ok::<
        Seq<(Seq<char>, Seq<char>)>,
        TxtErrorModel,
    >(fields));
    assert(read_record(fields) == Ok::<TxtModel, TxtErrorModel>(record));
}

/// A device announces itself as it is: its id, name, key and fingerprint, what it offers and its build.
pub proof fn a_device_announces_itself_as_it_is(
    identity: DeviceIdentity,
    capabilities: CapabilityFlags,
    build_version: &str,
    record: DiscoveryTxtRecord,
)
    requires
        call_ensures(
            DiscoveryTxtRecord::from_device_identity,
            (&identity, capabilities, build_version),
            record,
        ),
    ensures
        record.version == 1,
        record.device_id@ == identity.device_id@,
        record.display_name is Some && record.display_name->Some_0@ == identity.display_name@,
        record.identity_public_key is Some && record.identity_public_key->Some_0@
            == crate::crypto::base64(identity.identity_public_key@),
        record.fingerprint is Some && record.fingerprint->Some_0@ == identity.fingerprint@,
        record.capabilities == capabilities,
        record.build_version@ == build_version@,
{
}

/// An announcement that is written is read as it was, field by field.
pub proof fn a_written_announcement_is_read_as_it_was(
    record: DiscoveryTxtRecord,
    written: Vec<String>,
    entries: &[&str],
    read: Result<DiscoveryTxtRecord, DiscoveryTxtError>,
)
    requires
        announceable(record@),
        call_ensures(build_discovery_txt_record, (&record,), written),
        crate::text::views(entries@) == crate::text::string_views(written@),
        call_ensures(parse_discovery_txt_record, (entries,), read),
    ensures
        read is Ok,
        read->Ok_0.version == record.version,
        read->Ok_0.device_id@ == record.device_id@,
        read->Ok_0.display_name is Some <==> record.display_name is Some,
        record.display_name matches Some(name) ==> read->Ok_0.display_name->Some_0@ == name@,
        read->Ok_0.identity_public_key is Some <==> record.identity_public_key is Some,
        record.identity_public_key matches Some(key) ==> read->Ok_0.identity_public_key->Some_0@
            == key@,
        read->Ok_0.fingerprint is Some <==> record.fingerprint is Some,
        record.fingerprint matches Some(mark) ==> read->Ok_0.fingerprint->Some_0@ == mark@,
        read->Ok_0.capabilities == record.capabilities,
        read->Ok_0.build_version@ == record.build_version@,
{
    announcement_reads_back(record@);
}

/// An announcement is written entry by entry, each field under its key: the version, the device, what it
/// offers and its build always, and the others where they are known.
pub proof fn an_announcement_is_written_field_by_field(
    record: DiscoveryTxtRecord,
    written: Vec<String>,
)
    requires
        call_ensures(build_discovery_txt_record, (&record,), written),
    ensures
        written@.len() >= 4,
        written@[0]@ == "v"@ + "="@ + crate::text::decimal(record.version as nat),
        written@[1]@ == "device_id"@ + "="@ + record.device_id@,
        written@[3]@ == "build"@ + "="@ + record.build_version@,
        record.display_name matches Some(name) ==> written@[4]@ == "display_name"@ + "="@ + name@,
        record.display_name is None && record.identity_public_key is None && record.fingerprint
            is None ==> written@.len() == 4,
        record.fingerprint matches Some(mark) ==> written@.last()@ == "fingerprint"@ + "="@ + mark@,
        record.fingerprint is None ==> (record.identity_public_key matches Some(key)
            ==> written@.last()@ == "identity_public_key"@ + "="@ + key@),
{
    let texts = crate::text::string_views(written@);
    assert(texts == announced(record@));
    assert(texts.len() == written@.len());
    assert(required_entries(record@).len() == 4);
    assert(texts[0] == written@[0]@);
    assert(texts[1] == written@[1]@);
    assert(texts[3] == written@[3]@);
    if record.display_name is Some {
        assert(texts[4] == written@[4]@);
    }
    assert(texts.last() == written@.last()@);
}

proof fn lemma_no_such_key(fields: Seq<(Seq<char>, Seq<char>)>, key: Seq<char>)
    requires
        txt_field(fields, key) is None,
    ensures
        forall|i: int| 0 <= i < fields.len() ==> (#[trigger] fields[i]).0 != key,
    decreases fields.len(),
{
    if fields.len() > 0 {
        let shorter = fields.drop_last();
        lemma_no_such_key(shorter, key);
        assert forall|i: int| 0 <= i < fields.len() implies (#[trigger] fields[i]).0 != key by {
            if i < shorter.len() {
                assert(fields[i] == shorter[i]);
            }
        }
    }
}

proof fn lemma_fields_read(entries: Seq<Seq<char>>)
    requires
        read_fields(entries) is Ok,
    ensures
        ({
            let fields = read_fields(entries)->Ok_0;
            &&& fields.len() == entries.len()
            &&& forall|i: int|
                0 <= i < fields.len() ==> read_entry(entries[i]) == Ok::<
                    (Seq<char>, Seq<char>),
                    TxtErrorModel,
                >(#[trigger] fields[i])
            &&& forall|i: int, j: int|
                0 <= i < j < fields.len() ==> (#[trigger] fields[i]).0 != (#[trigger] fields[j]).0
        }),
    decreases entries.len(),
{
    if entries.len() > 0 {
        let shorter = entries.drop_last();
        lemma_fields_read(shorter);
        let known = read_fields(shorter)->Ok_0;
        let fields = read_fields(entries)->Ok_0;
        let last = read_entry(entries.last())->Ok_0;
        assert(fields == known.push(last));
        lemma_no_such_key(known, last.0);
        assert forall|i: int| 0 <= i < fields.len() implies read_entry(entries[i]) == Ok::<
            (Seq<char>, Seq<char>),
            TxtErrorModel,
        >(#[trigger] fields[i]) by {
            if i < known.len() {
                assert(fields[i] == known[i]);
                assert(entries[i] == shorter[i]);
            }
        }
    }
}

/// The fields of an announcement are its entries, one for one and in order: what stands before the first
/// equals sign, in lower case, and what stands behind it, both without the space around them. No two
/// have the same key.
pub proof fn fields_are_the_entries_of_an_announcement(
    entries: &[&str],
    read: Result<Vec<(String, String)>, DiscoveryTxtError>,
)
    requires
        call_ensures(collect_txt_fields, (entries,), read),
        read is Ok,
    ensures
        read->Ok_0@.len() == entries@.len(),
        forall|i: int|
            0 <= i < entries@.len() ==> {
                let entry = #[trigger] entries@[i]@;
                let at = crate::text::first_position(entry, '=');
                &&& at < entry.len()
                &&& read->Ok_0@[i].0@ == crate::text::lowercase(
                    crate::text::trim(entry.subrange(0, at)),
                )
                &&& read->Ok_0@[i].1@ == crate::text::trim(
                    entry.subrange(at + 1, entry.len() as int),
                )
            },
        forall|i: int, j: int|
            0 <= i < j < entries@.len() ==> (#[trigger] read->Ok_0@[i]).0@ != (
            #[trigger] read->Ok_0@[j]).0@,
{
    let texts = crate::text::views(entries@);
    lemma_fields_read(texts);
    let fields = field_views(read->Ok_0@);
    assert(fields.len() == read->Ok_0@.len());
    assert forall|i: int| 0 <= i < entries@.len() implies {
        let entry = #[trigger] entries@[i]@;
        let at = crate::text::first_position(entry, '=');
        &&& at < entry.len()
        &&& read->Ok_0@[i].0@ == crate::text::lowercase(crate::text::trim(entry.subrange(0, at)))
        &&& read->Ok_0@[i].1@ == crate::text::trim(entry.subrange(at + 1, entry.len() as int))
    } by {
        assert(texts[i] == entries@[i]@);
        assert(fields[i] == (read->Ok_0@[i].0@, read->Ok_0@[i].1@));
    }
    assert forall|i: int, j: int| 0 <= i < j < entries@.len() implies (
    #[trigger] read->Ok_0@[i]).0@ != (#[trigger] read->Ok_0@[j]).0@ by {
        assert(fields[i].0 != fields[j].0);
    }
}

proof fn lemma_field_found(fields: Seq<(Seq<char>, Seq<char>)>, key: Seq<char>, i: int)
    requires
        0 <= i < fields.len(),
        fields[i].0 == key,
        forall|j: int| i < j < fields.len() ==> (#[trigger] fields[j]).0 != key,
    ensures
        txt_field(fields, key) == Some(fields[i].1),
    decreases fields.len(),
{
    if i < fields.len() - 1 {
        assert(fields[fields.len() - 1].0 != key);
        lemma_field_found(fields.drop_last(), key, i);
    }
}

/// A field is found under its key, and a field that has to be there is missed by its key.
pub proof fn a_field_is_found_under_its_key(
    fields: Vec<(String, String)>,
    key: &'static str,
    found: Option<&str>,
    required: Result<&str, DiscoveryTxtError>,
    i: int,
)
    requires
        call_ensures(optional_txt_field, (&fields, key), found),
        call_ensures(required_txt_field, (&fields, key), required),
        0 <= i < fields@.len(),
        forall|j: int, k: int|
            0 <= j < k < fields@.len() ==> (#[trigger] fields@[j]).0@ != (#[trigger] fields@[k]).0@,
    ensures
        fields@[i].0@ == key@ ==> found is Some && found->Some_0@ == fields@[i].1@,
        fields@[i].0@ == key@ ==> required is Ok && required->Ok_0@ == fields@[i].1@,
        found is Some <==> required is Ok,
        required matches Err(error) ==> error is MissingField && error->MissingField_key@ == key@,
{
    let views = field_views(fields@);
    assert(views.len() == fields@.len());
    assert(views[i] == (fields@[i].0@, fields@[i].1@));
    if fields@[i].0@ == key@ {
        assert forall|j: int| i < j < views.len() implies (#[trigger] views[j]).0 != key@ by {
            assert(views[j] == (fields@[j].0@, fields@[j].1@));
            assert(fields@[i].0@ != fields@[j].0@);
        }
        lemma_field_found(views, key@, i);
    }
}

/// A device id is taken without the space around it, and only where it holds neither space, nor colons
/// or at signs, nor control characters.
pub proof fn device_ids_hold_no_space(
    value: &str,
    id: Result<String, DiscoveryTxtError>,
    build: Result<String, DiscoveryTxtError>,
    name: Result<String, DiscoveryTxtError>,
)
    requires
        call_ensures(normalize_device_id, (value,), id),
        call_ensures(normalize_build_version, (value,), build),
        call_ensures(normalize_display_name, (value,), name),
    ensures
        ({
            let text = crate::text::trim(value@);
            let token = text.len() > 0 && !crate::text::has_whitespace(text)
                && !crate::text::has_control(text);
            &&& id is Ok <==> token && !text.contains(':') && !text.contains('@')
            &&& id matches Ok(taken) ==> taken@ == text
            &&& id matches Err(error) ==> error is InvalidDeviceId
            &&& build is Ok <==> token
            &&& build matches Ok(taken) ==> taken@ == text
            &&& build matches Err(error) ==> error is InvalidBuildVersion
            &&& name is Ok <==> !crate::text::has_control(text)
            &&& name matches Ok(taken) ==> taken@ == text
            &&& name matches Err(error) ==> error is InvalidDisplayName
        }),
{
    let text = crate::text::trim(value@);
    if text.len() == 0 {
        assert(!crate::text::has_control(text));
    }
}

proof fn lemma_bit_of_name(names: Seq<Seq<char>>, bit: u32)
    requires
        read_capabilities(names) is Ok,
        bit == 1 || bit == 2 || bit == 4 || bit == 8,
    ensures
        read_capabilities(names)->Ok_0 & bit == bit <==> exists|i: int|
            0 <= i < names.len() && capability_bit(crate::text::trim(#[trigger] names[i])) == Some(
                bit,
            ),
    decreases names.len(),
{
    if names.len() == 0 {
        assert(0u32 & bit == bit <==> false) by (bit_vector)
            requires
                bit == 1 || bit == 2 || bit == 4 || bit == 8,
        ;
    } else {
        let shorter = names.drop_last();
        lemma_bit_of_name(shorter, bit);
        let bits = read_capabilities(shorter)->Ok_0;
        let more = capability_bit(crate::text::trim(names.last()))->Some_0;
        assert((bits | more) & bit == bit <==> bits & bit == bit || more == bit) by (bit_vector)
            requires
                bit == 1 || bit == 2 || bit == 4 || bit == 8,
                more == 1 || more == 2 || more == 4 || more == 8,
        ;
        if bits & bit == bit {
            let i = choose|i: int|
                0 <= i < shorter.len() && capability_bit(
                    crate::text::trim(#[trigger] shorter[i]),
                ) == Some(bit);
            assert(names[i] == shorter[i]);
        }
        assert(names[names.len() - 1] == names.last());
        if exists|i: int|
            0 <= i < names.len() && capability_bit(crate::text::trim(#[trigger] names[i])) == Some(
                bit,
            ) {
            let i = choose|i: int|
                0 <= i < names.len() && capability_bit(crate::text::trim(#[trigger] names[i]))
                    == Some(bit);
            if i < shorter.len() {
                assert(shorter[i] == names[i]);
            }
        }
    }
}

/// Whether a list of names holds one, whatever the space around it.
pub open spec fn lists(names: Seq<Seq<char>>, name: Seq<char>) -> bool {
    exists|i: int| 0 <= i < names.len() && crate::text::trim(#[trigger] names[i]) == name
}

proof fn lemma_listed(names: Seq<Seq<char>>, bit: u32, one: Seq<char>, two: Seq<char>)
    requires
        forall|name: Seq<char>| #[trigger] capability_bit(name) == Some(bit) <==> name == one || name
            == two,
    ensures
        (exists|i: int|
            0 <= i < names.len() && capability_bit(crate::text::trim(#[trigger] names[i])) == Some(
                bit,
            )) <==> lists(names, one) || lists(names, two),
{
    if lists(names, one) {
        let i = choose|i: int| 0 <= i < names.len() && crate::text::trim(#[trigger] names[i]) == one;
        assert(capability_bit(crate::text::trim(names[i])) == Some(bit));
    }
    if lists(names, two) {
        let i = choose|i: int| 0 <= i < names.len() && crate::text::trim(#[trigger] names[i]) == two;
        assert(capability_bit(crate::text::trim(names[i])) == Some(bit));
    }
    if exists|i: int|
        0 <= i < names.len() && capability_bit(crate::text::trim(#[trigger] names[i])) == Some(bit) {
        let i = choose|i: int|
            0 <= i < names.len() && capability_bit(crate::text::trim(#[trigger] names[i])) == Some(
                bit,
            );
        assert(crate::text::trim(names[i]) == one || crate::text::trim(names[i]) == two);
    }
}

/// What a device offers is what its announcement lists, by name and between commas.
pub proof fn capabilities_are_read_by_name(
    value: &str,
    read: Result<CapabilityFlags, DiscoveryTxtError>,
)
    requires
        call_ensures(parse_capabilities, (value,), read),
        read is Ok,
    ensures
        ({
            let names = crate::text::pieces(value@, ',');
            let bits = read->Ok_0.bits;
            &&& bits % 2 == 1 <==> lists(names, "pointer"@)
            &&& (bits / 2) % 2 == 1 <==> lists(names, "keyboard"@)
            &&& (bits / 4) % 2 == 1 <==> lists(names, "clipboard"@)
            &&& (bits / 8) % 2 == 1 <==> lists(names, "screen-layout"@) || lists(
                names,
                "screen_layout"@,
            )
        }),
{
    let names = crate::text::pieces(value@, ',');
    let b = read->Ok_0.bits;
    lemma_capability_names();
    reveal_strlit("pointer");
    reveal_strlit("keyboard");
    reveal_strlit("clipboard");
    reveal_strlit("screen-layout");
    reveal_strlit("screen_layout");
    lemma_bit_of_name(names, 1);
    lemma_bit_of_name(names, 2);
    lemma_bit_of_name(names, 4);
    lemma_bit_of_name(names, 8);
    assert((b & 1 == 1 <==> b % 2 == 1) && (b & 2 == 2 <==> (b / 2) % 2 == 1) && (b & 4 == 4 <==> (b
        / 4) % 2 == 1) && (b & 8 == 8 <==> (b / 8) % 2 == 1)) by (bit_vector);
    assert(capability_bit("screen_layout"@) == Some(8u32));
    lemma_listed(names, 1, "pointer"@, "pointer"@);
    lemma_listed(names, 2, "keyboard"@, "keyboard"@);
    lemma_listed(names, 4, "clipboard"@, "clipboard"@);
    lemma_listed(names, 8, "screen-layout"@, "screen_layout"@);
}

/// Each capability that flags hold is told by its name, and no other.
pub proof fn capabilities_are_told_by_name(
    capabilities: CapabilityFlags,
    told: Vec<&'static str>,
)
    requires
        call_ensures(capability_names, (capabilities,), told),
    ensures
        ({
            let names = crate::text::views(told@);
            let bits = capabilities.bits;
            &&& names.contains("pointer"@) <==> bits % 2 == 1
            &&& names.contains("keyboard"@) <==> (bits / 2) % 2 == 1
            &&& names.contains("clipboard"@) <==> (bits / 4) % 2 == 1
            &&& names.contains("screen-layout"@) <==> (bits / 8) % 2 == 1
        }),
{
    reveal_strlit("pointer");
    reveal_strlit("keyboard");
    reveal_strlit("clipboard");
    reveal_strlit("screen-layout");
    let names = crate::text::views(told@);
    let b = capabilities.bits;
    assert((b & 1 == 1 <==> b % 2 == 1) && (b & 2 == 2 <==> (b / 2) % 2 == 1) && (b & 4 == 4 <==> (b
        / 4) % 2 == 1) && (b & 8 == 8 <==> (b / 8) % 2 == 1)) by (bit_vector);
    let one: int = if b & 1 == 1 {
        1
    } else {
        0
    };
    let two: int = one + if b & 2 == 2 {
        1int
    } else {
        0
    };
    let three: int = two + if b & 4 == 4 {
        1int
    } else {
        0
    };
    assert forall|i: int| 0 <= i < names.len() implies #[trigger] names[i] == (if i < one {
        "pointer"@
    } else if i < two {
        "keyboard"@
    } else if i < three {
        "clipboard"@
    } else {
        "screen-layout"@
    }) by {}
    if b & 1 == 1 {
        assert(names[0] == "pointer"@);
    }
    if b & 2 == 2 {
        assert(names[one] == "keyboard"@);
    }
    if b & 4 == 4 {
        assert(names[two] == "clipboard"@);
    }
    if b & 8 == 8 {
        assert(names[three] == "screen-layout"@);
    }
}

/// A version is read as the number that it spells, whatever the number, and a token is taken without the
/// space around it where no space and no control character is left in it.
pub proof fn versions_and_tokens_are_read_as_spelled(
    value: &str,
    version: Result<u16, DiscoveryTxtError>,
    token: Result<String, (String, &'static str)>,
    number: u16,
)
    requires
        call_ensures(parse_discovery_version, (value,), version),
        call_ensures(normalize_no_space_token, (value,), token),
    ensures
        value@ == crate::text::decimal(number as nat) ==> version is Ok && version->Ok_0 == number,
        version is Err ==> version->Err_0 is InvalidVersion,
        token is Ok ==> crate::text::is_without_space_around(value@, token->Ok_0@)
            && token->Ok_0@.len() > 0 && !crate::text::has_whitespace(token->Ok_0@)
            && !crate::text::has_control(token->Ok_0@),
        token is Err ==> token->Err_0.0@ == crate::text::trim(value@),
{
    crate::text::trimming_takes_off_space_only(value@);
    crate::text::lemma_decimal_parses(number as nat, 65535);
}

} // verus!
