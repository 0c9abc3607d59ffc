//! What a user can set, and the form in which it is kept.

use vstd::prelude::*;

use crate::address::parse_socket_address;
use crate::json::{json_string, JsonModel, JsonObject, JsonValue, ToJson};
use crate::snapshot::json_list;
use crate::text::{contains_char, contains_whitespace, same, starts_with, trimmed};

verus! {

pub const SETTINGS_FILE_NAME: &'static str = "settings.json";

pub const IDENTITY_STORE_DIR_NAME: &'static str = "secrets";

pub const IDENTITY_STORE_FILE_NAME: &'static str = "identity.json";

pub const DAEMON_CRASH_DIR_NAME: &'static str = "crash";

pub const DAEMON_CRASH_MARKER_FILE_NAME: &'static str = "daemon-crash.json";

/// Whether a path is a drive and nothing more, such as `C:`.
pub open spec fn is_drive(path: Seq<char>) -> bool {
    &&& path.len() == 2
    &&& 'a' <= path[0] <= 'z' || 'A' <= path[0] <= 'Z'
    &&& path[1] == ':'
}

/// Whether a path is taken by Windows as it stands, so that a slash in it separates nothing.
pub open spec fn is_verbatim(path: Seq<char>) -> bool {
    crate::text::has_prefix(path, "\\\\?\\"@)
}

/// Whether a name can be put behind a directory without a separator between them.
pub open spec fn takes_name(directory: Seq<char>, windows: bool) -> bool {
    ||| directory.len() == 0
    ||| !windows && directory.last() == '/'
    ||| windows && directory.last() == '\\'
    ||| windows && directory.last() == '/' && !is_verbatim(directory)
    ||| windows && is_drive(directory)
}

/// A plain name below a directory, as the system spells it.
pub open spec fn path_below(directory: Seq<char>, name: Seq<char>, windows: bool) -> Seq<char> {
    if takes_name(directory, windows) {
        directory + name
    } else if windows {
        directory + "\\"@ + name
    } else {
        directory + "/"@ + name
    }
}

/// A plain name below a directory, as the system spells it.
pub fn join_path(directory: &str, name: &str, windows: bool) -> (result: String)
    ensures
        result@ == path_below(directory@, name@, windows),
{
    let n: usize = directory.unicode_len();
    proof {
        assert(Seq::<char>::empty() + name@ =~= name@);
    }
    let takes: bool = if n == 0 {
        true
    } else {
        let last = directory.get_char(n - 1);
        if windows {
            last == '\\' || (last == '/' && !starts_with(directory, "\\\\?\\")) || (n == 2
                && last == ':' && {
                let drive = directory.get_char(0);
                ('a' <= drive && drive <= 'z') || ('A' <= drive && drive <= 'Z')
            })
        } else {
            last == '/'
        }
    };
    if takes {
        directory.to_owned().concat(name)
    } else if windows {
        directory.to_owned().concat("\\").concat(name)
    } else {
        directory.to_owned().concat("/").concat(name)
    }
}

/// Where the settings are kept.
pub fn settings_path_from_config_dir(config_dir: &str, windows: bool) -> (result: String)
    ensures
        result@ == path_below(config_dir@, SETTINGS_FILE_NAME@, windows),
{
    join_path(config_dir, SETTINGS_FILE_NAME, windows)
}

/// Where the identity is kept.
pub fn identity_store_path_from_config_dir(config_dir: &str, windows: bool) -> (result: String)
    ensures
        result@ == path_below(
            path_below(config_dir@, IDENTITY_STORE_DIR_NAME@, windows),
            IDENTITY_STORE_FILE_NAME@,
            windows,
        ),
{
    join_path(
        join_path(config_dir, IDENTITY_STORE_DIR_NAME, windows).as_str(),
        IDENTITY_STORE_FILE_NAME,
        windows,
    )
}

/// Where the daemon leaves word of a crash.
pub fn daemon_crash_marker_path_from_config_dir(config_dir: &str, windows: bool) -> (result: String)
    ensures
        result@ == path_below(
            path_below(config_dir@, DAEMON_CRASH_DIR_NAME@, windows),
            DAEMON_CRASH_MARKER_FILE_NAME@,
            windows,
        ),
{
    join_path(
        join_path(config_dir, DAEMON_CRASH_DIR_NAME, windows).as_str(),
        DAEMON_CRASH_MARKER_FILE_NAME,
        windows,
    )
}

/// An edge of a screen.
#[derive(Debug, Clone, Copy, PartialEq, Eq, Structural)]
pub enum DaemonScreenEdgeOption {
    Left,
    Right,
    Top,
    Bottom,
}

impl DaemonScreenEdgeOption {
    /// How the edge is spelled.
    pub open spec fn spelled(self) -> Seq<char> {
        match self {
            DaemonScreenEdgeOption::Left => "left"@,
            DaemonScreenEdgeOption::Right => "right"@,
            DaemonScreenEdgeOption::Top => "top"@,
            DaemonScreenEdgeOption::Bottom => "bottom"@,
        }
    }

    /// How the edge is spelled.
    pub fn daemon_arg(self) -> (result: &'static str)
        ensures
            result@ == self.spelled(),
    {
        match self {
            DaemonScreenEdgeOption::Left => "left",
            DaemonScreenEdgeOption::Right => "right",
            DaemonScreenEdgeOption::Top => "top",
            DaemonScreenEdgeOption::Bottom => "bottom",
        }
    }
}

/// An edge of the desktop and the peer beyond it.
#[derive(Debug, PartialEq, Eq)]
pub struct DaemonEdgeBindingOption {
    pub local_edge: DaemonScreenEdgeOption,
    pub peer_id: String,
    pub remote_edge: DaemonScreenEdgeOption,
}

/// An edge of the desktop and the peer beyond it.
pub struct EdgeModel {
    pub local_edge: DaemonScreenEdgeOption,
    pub peer_id: Seq<char>,
    pub remote_edge: DaemonScreenEdgeOption,
}

impl View for DaemonEdgeBindingOption {
    type V = EdgeModel;

    open spec fn view(&self) -> EdgeModel {
        EdgeModel {
            local_edge: self.local_edge,
            peer_id: self.peer_id@,
            remote_edge: self.remote_edge,
        }
    }
}

impl Clone for DaemonEdgeBindingOption {
    fn clone(&self) -> (result: Self)
        ensures
            result == *self,
    {
        DaemonEdgeBindingOption {
            local_edge: self.local_edge,
            peer_id: self.peer_id.clone(),
            remote_edge: self.remote_edge,
        }
    }
}

/// Where a peer listens, entered by hand.
#[derive(Debug, PartialEq, Eq)]
pub struct ManualPeerAddressSetting {
    pub peer_id: String,
    pub address: String,
}

/// Where a peer listens, entered by hand.
pub struct ManualModel {
    pub peer_id: Seq<char>,
    pub address: Seq<char>,
}

impl View for ManualPeerAddressSetting {
    type V = ManualModel;

    open spec fn view(&self) -> ManualModel {
        ManualModel { peer_id: self.peer_id@, address: self.address@ }
    }
}

/// What a user can set.
#[derive(Debug, PartialEq, Eq)]
pub struct AppSettings {
    pub capture_input: bool,
    pub peer_listen_address: String,
    pub edge_bindings: Vec<DaemonEdgeBindingOption>,
    pub manual_peer_addresses: Vec<ManualPeerAddressSetting>,
}

/// What a user can set.
pub struct SettingsModel {
    pub capture_input: bool,
    pub peer_listen_address: Seq<char>,
    pub edge_bindings: Seq<EdgeModel>,
    pub manual_peer_addresses: Seq<ManualModel>,
}

/// What bindings say.
pub open spec fn edge_models(bindings: Seq<DaemonEdgeBindingOption>) -> Seq<EdgeModel> {
    bindings.map_values(|binding: DaemonEdgeBindingOption| binding@)
}

/// What addresses say.
pub open spec fn manual_models(addresses: Seq<ManualPeerAddressSetting>) -> Seq<ManualModel> {
    addresses.map_values(|address: ManualPeerAddressSetting| address@)
}

impl View for AppSettings {
    type V = SettingsModel;

    open spec fn view(&self) -> SettingsModel {
        SettingsModel {
            capture_input: self.capture_input,
            peer_listen_address: self.peer_listen_address@,
            edge_bindings: edge_models(self.edge_bindings@),
            manual_peer_addresses: manual_models(self.manual_peer_addresses@),
        }
    }
}

impl Default for AppSettings {
    fn default() -> (result: Self)
        ensures
            result@ == (SettingsModel {
                capture_input: false,
                peer_listen_address: Seq::empty(),
                edge_bindings: Seq::empty(),
                manual_peer_addresses: Seq::empty(),
            }),
    {
        let result = AppSettings {
            capture_input: false,
            peer_listen_address: String::new(),
            edge_bindings: Vec::new(),
            manual_peer_addresses: Vec::new(),
        };
        proof {
            assert(result.peer_listen_address@ =~= Seq::empty());
            assert(result@.edge_bindings =~= Seq::empty());
            assert(result@.manual_peer_addresses =~= Seq::empty());
        }
        result
    }
}

/// A value without space around it or inside, or what is said of it.
pub open spec fn required_text(field: Seq<char>, value: Seq<char>) -> Result<Seq<char>, Seq<char>> {
    let value = crate::text::trim(value);
    if value.len() == 0 {
        Err(field + " is required."@)
    } else if crate::text::has_whitespace(value) {
        Err(field + " cannot contain whitespace."@)
    } else {
        Ok(value)
    }
}

/// A value without space around it or inside.
pub fn normalize_required_session_value<'a>(field: &'static str, value: &'a str) -> (result: Result<
    &'a str,
    String,
>)
    ensures
        match result {
            Ok(left) => required_text(field@, value@) == Ok::<Seq<char>, Seq<char>>(left@),
            Err(message) => required_text(field@, value@) == Err::<Seq<char>, Seq<char>>(message@),
        },
{
    let value = trimmed(value);
    if value.is_empty() {
        return Err(field.to_owned().concat(" is required."));
    }
    if contains_whitespace(value) {
        return Err(field.to_owned().concat(" cannot contain whitespace."));
    }
    Ok(value)
}

/// A value that can stand in a session's address as its peer.
pub open spec fn peer_text(field: Seq<char>, value: Seq<char>, refusal: Seq<char>) -> Result<
    Seq<char>,
    Seq<char>,
> {
    match required_text(field, value) {
        Err(message) => Err(message),
        Ok(peer_id) => if peer_id.contains(':') || peer_id.contains('@') {
            Err(refusal)
        } else {
            Ok(peer_id)
        },
    }
}

/// The peer of a session.
pub open spec fn session_peer(value: Seq<char>) -> Result<Seq<char>, Seq<char>> {
    peer_text("peer id"@, value, "peer id cannot contain ':' or '@'."@)
}

/// The peer of a session.
pub fn normalize_session_peer_id(peer_id: &str) -> (result: Result<&str, String>)
    ensures
        match result {
            Ok(left) => session_peer(peer_id@) == Ok::<Seq<char>, Seq<char>>(left@),
            Err(message) => session_peer(peer_id@) == Err::<Seq<char>, Seq<char>>(message@),
        },
{
    let peer_id = match normalize_required_session_value("peer id", peer_id) {
        Ok(peer_id) => peer_id,
        Err(message) => return Err(message),
    };
    if contains_char(peer_id, ':') || contains_char(peer_id, '@') {
        return Err("peer id cannot contain ':' or '@'.".to_owned());
    }
    Ok(peer_id)
}

/// The peer of an address that was entered by hand.
pub open spec fn manual_peer(value: Seq<char>) -> Result<Seq<char>, Seq<char>> {
    peer_text(
        "manual peer address peer id"@,
        value,
        "manual peer address peer id cannot contain ':' or '@'."@,
    )
}

/// The peer of an address that was entered by hand.
pub fn normalize_manual_peer_address_peer_id(peer_id: &str) -> (result: Result<&str, String>)
    ensures
        match result {
            Ok(left) => manual_peer(peer_id@) == Ok::<Seq<char>, Seq<char>>(left@),
            Err(message) => manual_peer(peer_id@) == Err::<Seq<char>, Seq<char>>(message@),
        },
{
    let peer_id = match normalize_required_session_value("manual peer address peer id", peer_id) {
        Ok(peer_id) => peer_id,
        Err(message) => return Err(message),
    };
    if contains_char(peer_id, ':') || contains_char(peer_id, '@') {
        return Err("manual peer address peer id cannot contain ':' or '@'.".to_owned());
    }
    Ok(peer_id)
}

/// The address of a session.
pub open spec fn session_address(value: Seq<char>) -> Result<Seq<char>, Seq<char>> {
    match required_text("address"@, value) {
        Err(message) => Err(message),
        Ok(address) => if crate::address::read_socket(address) is Some {
            Ok(address)
        } else {
            Err("address must be an IP address and port."@)
        },
    }
}

/// The address of a session.
pub fn normalize_session_address(address: &str) -> (result: Result<&str, String>)
    ensures
        match result {
            Ok(left) => session_address(address@) == Ok::<Seq<char>, Seq<char>>(left@),
            Err(message) => session_address(address@) == Err::<Seq<char>, Seq<char>>(message@),
        },
{
    let address = match normalize_required_session_value("address", address) {
        Ok(address) => address,
        Err(message) => return Err(message),
    };
    match parse_socket_address(address) {
        Some(_) => Ok(address),
        None => Err("address must be an IP address and port.".to_owned()),
    }
}

/// An address that may be left empty.
pub open spec fn optional_address(value: Seq<char>) -> Result<Seq<char>, Seq<char>> {
    let address = crate::text::trim(value);
    if address.len() == 0 {
        Ok(address)
    } else {
        session_address(address)
    }
}

/// An address that may be left empty.
pub fn normalize_optional_session_address(address: &str) -> (result: Result<String, String>)
    ensures
        match result {
            Ok(left) => optional_address(address@) == Ok::<Seq<char>, Seq<char>>(left@),
            Err(message) => optional_address(address@) == Err::<Seq<char>, Seq<char>>(message@),
        },
{
    let address = trimmed(address);
    if address.is_empty() {
        let none = String::new();
        proof {
            assert(none@ =~= address@);
        }
        return Ok(none);
    }
    match normalize_session_address(address) {
        Ok(address) => Ok(address.to_owned()),
        Err(message) => Err(message),
    }
}

/// The peer beyond an edge.
pub open spec fn edge_peer(value: Seq<char>) -> Result<Seq<char>, Seq<char>> {
    let peer_id = crate::text::trim(value);
    if peer_id.len() == 0 {
        Err("edge binding peer id is required."@)
    } else if peer_id.contains(':') {
        Err("edge binding peer id cannot contain ':'."@)
    } else {
        Ok(peer_id)
    }
}

/// The peer beyond an edge.
pub fn normalize_peer_id(peer_id: &str) -> (result: Result<&str, String>)
    ensures
        match result {
            Ok(left) => edge_peer(peer_id@) == Ok::<Seq<char>, Seq<char>>(left@),
            Err(message) => edge_peer(peer_id@) == Err::<Seq<char>, Seq<char>>(message@),
        },
{
    let peer_id = trimmed(peer_id);
    if peer_id.is_empty() {
        return Err("edge binding peer id is required.".to_owned());
    }
    if contains_char(peer_id, ':') {
        return Err("edge binding peer id cannot contain ':'.".to_owned());
    }
    Ok(peer_id)
}

/// A binding in the form in which it is kept.
pub open spec fn kept_edge(binding: EdgeModel) -> Result<EdgeModel, Seq<char>> {
    match edge_peer(binding.peer_id) {
        Ok(peer_id) => Ok(EdgeModel { peer_id, ..binding }),
        Err(message) => Err(message),
    }
}

/// A binding in the form in which it is kept.
pub fn normalize_edge_binding(binding: &DaemonEdgeBindingOption) -> (result: Result<
    DaemonEdgeBindingOption,
    String,
>)
    ensures
        match result {
            Ok(kept) => kept_edge(binding@) == Ok::<EdgeModel, Seq<char>>(kept@),
            Err(message) => kept_edge(binding@) == Err::<EdgeModel, Seq<char>>(message@),
        },
{
    match normalize_peer_id(binding.peer_id.as_str()) {
        Ok(peer_id) => Ok(
            DaemonEdgeBindingOption {
                local_edge: binding.local_edge,
                peer_id: peer_id.to_owned(),
                remote_edge: binding.remote_edge,
            },
        ),
        Err(message) => Err(message),
    }
}

/// Bindings in the form in which they are kept, or what is wrong with the first bad one.
pub open spec fn kept_edges(bindings: Seq<EdgeModel>) -> Result<Seq<EdgeModel>, Seq<char>>
    decreases bindings.len(),
{
    if bindings.len() == 0 {
        Ok(Seq::empty())
    } else {
        match kept_edges(bindings.drop_last()) {
            Err(message) => Err(message),
            Ok(kept) => match kept_edge(bindings.last()) {
                Err(message) => Err(message),
                Ok(binding) => Ok(kept.push(binding)),
            },
        }
    }
}

/// What is wrong with the first bindings is wrong with all.
proof fn lemma_failed_edge(bindings: Seq<EdgeModel>, count: nat)
    requires
        count <= bindings.len(),
    ensures
        kept_edges(bindings.subrange(0, count as int)) matches Err(message) ==> kept_edges(bindings)
            == Err::<Seq<EdgeModel>, Seq<char>>(message),
    decreases bindings.len() - count,
{
    if count < bindings.len() {
        let longer = bindings.subrange(0, count as int + 1);
        assert(longer.drop_last() =~= bindings.subrange(0, count as int));
        lemma_failed_edge(bindings, count + 1);
    } else {
        assert(bindings.subrange(0, count as int) =~= bindings);
    }
}

/// Bindings in the form in which they are kept.
pub fn normalize_edge_bindings(bindings: &Vec<DaemonEdgeBindingOption>) -> (result: Result<
    Vec<DaemonEdgeBindingOption>,
    String,
>)
    ensures
        match result {
            Ok(kept) => kept_edges(edge_models(bindings@)) == Ok::<Seq<EdgeModel>, Seq<char>>(
                edge_models(kept@),
            ),
            Err(message) => kept_edges(edge_models(bindings@)) == Err::<
                Seq<EdgeModel>,
                Seq<char>,
            >(message@),
        },
{
    let ghost all = edge_models(bindings@);
    let mut result: Vec<DaemonEdgeBindingOption> = Vec::new();
    let mut i: usize = 0;
    proof {
        assert(edge_models(result@) =~= Seq::empty());
        assert(all.subrange(0, 0) =~= Seq::empty());
    }
    while i < bindings.len()
        invariant
            i <= bindings@.len(),
            all == edge_models(bindings@),
            all.len() == bindings@.len(),
            kept_edges(all.subrange(0, i as int)) == Ok::<Seq<EdgeModel>, Seq<char>>(
                edge_models(result@),
            ),
        decreases bindings@.len() - i,
    {
        let ghost before = result@;
        proof {
            let longer = all.subrange(0, i + 1);
            assert(longer.drop_last() =~= all.subrange(0, i as int));
            assert(longer.last() == bindings@[i as int]@);
            lemma_failed_edge(all, (i + 1) as nat);
        }
        match normalize_edge_binding(&bindings[i]) {
            Ok(binding) => {
                result.push(binding);
                proof {
                    assert(edge_models(result@) =~= edge_models(before).push(binding@));
                }
            },
            Err(message) => return Err(message),
        }
        i = i + 1;
    }
    proof {
        assert(all.subrange(0, i as int) =~= all);
    }
    Ok(result)
}

/// An address that was entered by hand, in the form in which it is kept. One that was left empty is
/// not kept.
pub open spec fn kept_manual(address: ManualModel) -> Result<Option<ManualModel>, Seq<char>> {
    let text = crate::text::trim(address.address);
    if text.len() == 0 {
        Ok(None)
    } else {
        match manual_peer(address.peer_id) {
            Err(message) => Err(message),
            Ok(peer_id) => match session_address(text) {
                Err(message) => Err(message),
                Ok(address) => Ok(Some(ManualModel { peer_id, address })),
            },
        }
    }
}

/// An address that was entered by hand, in the form in which it is kept.
pub fn normalize_manual_peer_address(address: &ManualPeerAddressSetting) -> (result: Result<
    Option<ManualPeerAddressSetting>,
    String,
>)
    ensures
        match result {
            Ok(Some(kept)) => kept_manual(address@) == Ok::<Option<ManualModel>, Seq<char>>(
                Some(kept@),
            ),
            Ok(None) => kept_manual(address@) == Ok::<Option<ManualModel>, Seq<char>>(None),
            Err(message) => kept_manual(address@) == Err::<Option<ManualModel>, Seq<char>>(
                message@,
            ),
        },
{
    let text = trimmed(address.address.as_str());
    if text.is_empty() {
        return Ok(None);
    }
    let peer_id = match normalize_manual_peer_address_peer_id(address.peer_id.as_str()) {
        Ok(peer_id) => peer_id.to_owned(),
        Err(message) => return Err(message),
    };
    match normalize_session_address(text) {
        Ok(address) => Ok(Some(ManualPeerAddressSetting { peer_id, address: address.to_owned() })),
        Err(message) => Err(message),
    }
}

/// The place of a peer's address in a list, or the list's length where it has none.
pub open spec fn place_of(addresses: Seq<ManualModel>, peer_id: Seq<char>) -> int
    decreases addresses.len(),
{
    if addresses.len() == 0 {
        0
    } else if addresses[0].peer_id == peer_id {
        0
    } else {
        1 + place_of(addresses.drop_first(), peer_id)
    }
}

/// A place lies in the list or just behind it.
proof fn lemma_place(addresses: Seq<ManualModel>, peer_id: Seq<char>)
    ensures
        0 <= place_of(addresses, peer_id) <= addresses.len(),
        place_of(addresses, peer_id) < addresses.len() ==> addresses[place_of(
            addresses,
            peer_id,
        )].peer_id == peer_id,
        forall|k: int|
            0 <= k < place_of(addresses, peer_id) ==> (#[trigger] addresses[k]).peer_id != peer_id,
    decreases addresses.len(),
{
    if addresses.len() > 0 && addresses[0].peer_id != peer_id {
        let rest = addresses.drop_first();
        lemma_place(rest, peer_id);
        assert forall|k: int| 0 <= k < place_of(addresses, peer_id) implies (
        #[trigger] addresses[k]).peer_id != peer_id by {
            if k > 0 {
                assert(addresses[k] == rest[k - 1]);
            }
        }
        if place_of(rest, peer_id) < rest.len() {
            assert(addresses[place_of(rest, peer_id) + 1] == rest[place_of(rest, peer_id)]);
        }
    }
}

/// A list with one more address. A peer has one address: a later one takes the place of an earlier.
pub open spec fn with_manual(addresses: Seq<ManualModel>, address: ManualModel) -> Seq<ManualModel> {
    let at = place_of(addresses, address.peer_id);
    if at < addresses.len() {
        addresses.update(at, address)
    } else {
        addresses.push(address)
    }
}

/// Addresses in the form in which they are kept, or what is wrong with the first bad one.
pub open spec fn kept_manuals(addresses: Seq<ManualModel>) -> Result<Seq<ManualModel>, Seq<char>>
    decreases addresses.len(),
{
    if addresses.len() == 0 {
        Ok(Seq::empty())
    } else {
        match kept_manuals(addresses.drop_last()) {
            Err(message) => Err(message),
            Ok(kept) => match kept_manual(addresses.last()) {
                Err(message) => Err(message),
                Ok(None) => Ok(kept),
                Ok(Some(address)) => Ok(with_manual(kept, address)),
            },
        }
    }
}

/// What is wrong with the first addresses is wrong with all.
proof fn lemma_failed_manual(addresses: Seq<ManualModel>, count: nat)
    requires
        count <= addresses.len(),
    ensures
        kept_manuals(addresses.subrange(0, count as int)) matches Err(message) ==> kept_manuals(
            addresses,
        ) == Err::<Seq<ManualModel>, Seq<char>>(message),
    decreases addresses.len() - count,
{
    if count < addresses.len() {
        let longer = addresses.subrange(0, count as int + 1);
        assert(longer.drop_last() =~= addresses.subrange(0, count as int));
        lemma_failed_manual(addresses, count + 1);
    } else {
        assert(addresses.subrange(0, count as int) =~= addresses);
    }
}

/// Put an address into a list.
fn put_manual(list: &mut Vec<ManualPeerAddressSetting>, address: ManualPeerAddressSetting)
    ensures
        manual_models(final(list)@) == with_manual(manual_models(old(list)@), address@),
{
    let ghost all = manual_models(list@);
    let mut i: usize = 0;
    proof {
        assert(all.subrange(0, all.len() as int) =~= all);
    }
    while i < list.len()
        invariant
            i <= list@.len(),
            list@ == old(list)@,
            all == manual_models(list@),
            all.len() == list@.len(),
            place_of(all, address.peer_id@) == i + place_of(
                all.subrange(i as int, all.len() as int),
                address.peer_id@,
            ),
        decreases list@.len() - i,
    {
        let ghost rest = all.subrange(i as int, all.len() as int);
        proof {
            assert(rest[0] == list@[i as int]@);
            assert(rest.drop_first() =~= all.subrange(i + 1, all.len() as int));
        }
        if same(list[i].peer_id.as_str(), address.peer_id.as_str()) {
            list.set(i, address);
            proof {
                assert(manual_models(list@) =~= all.update(i as int, address@));
            }
            return ;
        }
        i = i + 1;
    }
    list.push(address);
    proof {
        assert(manual_models(list@) =~= all.push(address@));
    }
}

/// Addresses in the form in which they are kept.
pub fn normalize_manual_peer_addresses(addresses: &Vec<ManualPeerAddressSetting>) -> (result: Result<
    Vec<ManualPeerAddressSetting>,
    String,
>)
    ensures
        match result {
            Ok(kept) => kept_manuals(manual_models(addresses@)) == Ok::<
                Seq<ManualModel>,
                Seq<char>,
            >(manual_models(kept@)),
            Err(message) => kept_manuals(manual_models(addresses@)) == Err::<
                Seq<ManualModel>,
                Seq<char>,
            >(message@),
        },
{
    let ghost all = manual_models(addresses@);
    let mut result: Vec<ManualPeerAddressSetting> = Vec::new();
    let mut i: usize = 0;
    proof {
        assert(manual_models(result@) =~= Seq::empty());
        assert(all.subrange(0, 0) =~= Seq::empty());
    }
    while i < addresses.len()
        invariant
            i <= addresses@.len(),
            all == manual_models(addresses@),
            all.len() == addresses@.len(),
            kept_manuals(all.subrange(0, i as int)) == Ok::<Seq<ManualModel>, Seq<char>>(
                manual_models(result@),
            ),
        decreases addresses@.len() - i,
    {
        proof {
            let longer = all.subrange(0, i + 1);
            assert(longer.drop_last() =~= all.subrange(0, i as int));
            assert(longer.last() == addresses@[i as int]@);
            lemma_failed_manual(all, (i + 1) as nat);
        }
        match normalize_manual_peer_address(&addresses[i]) {
            Ok(Some(address)) => {
                put_manual(&mut result, address);
            },
            Ok(None) => {},
            Err(message) => return Err(message),
        }
        i = i + 1;
    }
    proof {
        assert(all.subrange(0, i as int) =~= all);
    }
    Ok(result)
}

/// Settings in the form in which they are kept. The listener's address is looked at first, then the
/// bindings, then the addresses that were entered by hand.
pub open spec fn kept_settings(settings: SettingsModel) -> Result<SettingsModel, Seq<char>> {
    match optional_address(settings.peer_listen_address) {
        Err(message) => Err(message),
        Ok(peer_listen_address) => match kept_edges(settings.edge_bindings) {
            Err(message) => Err(message),
            Ok(edge_bindings) => match kept_manuals(settings.manual_peer_addresses) {
                Err(message) => Err(message),
                Ok(manual_peer_addresses) => Ok(
                    SettingsModel {
                        capture_input: settings.capture_input,
                        peer_listen_address,
                        edge_bindings,
                        manual_peer_addresses,
                    },
                ),
            },
        },
    }
}

/// Settings in the form in which they are kept.
pub fn normalize_settings(settings: AppSettings) -> (result: Result<AppSettings, String>)
    ensures
        match result {
            Ok(kept) => kept_settings(settings@) == Ok::<SettingsModel, Seq<char>>(kept@),
            Err(message) => kept_settings(settings@) == Err::<SettingsModel, Seq<char>>(message@),
        },
{
    let peer_listen_address = match normalize_optional_session_address(
        settings.peer_listen_address.as_str(),
    ) {
        Ok(address) => address,
        Err(message) => return Err(message),
    };
    let edge_bindings = match normalize_edge_bindings(&settings.edge_bindings) {
        Ok(bindings) => bindings,
        Err(message) => return Err(message),
    };
    let manual_peer_addresses = match normalize_manual_peer_addresses(
        &settings.manual_peer_addresses,
    ) {
        Ok(addresses) => addresses,
        Err(message) => return Err(message),
    };
    Ok(
        AppSettings {
            capture_input: settings.capture_input,
            peer_listen_address,
            edge_bindings,
            manual_peer_addresses,
        },
    )
}

/// Whether an address stands in the form in which it is kept.
spec fn is_kept(address: ManualModel) -> bool {
    kept_manual(address) == Ok::<Option<ManualModel>, Seq<char>>(Some(address))
}

/// Whether no two addresses are for the same peer.
pub open spec fn one_each(addresses: Seq<ManualModel>) -> bool {
    forall|i: int, j: int|
        0 <= i < j < addresses.len() ==> (#[trigger] addresses[i]).peer_id != (
        #[trigger] addresses[j]).peer_id
}

/// What an address is kept as is kept as it is.
proof fn lemma_kept_manual(address: ManualModel)
    ensures
        kept_manual(address) matches Ok(Some(kept)) ==> is_kept(kept),
{
    crate::text::lemma_trim_idempotent(address.address);
    crate::text::lemma_trim_idempotent(address.peer_id);
    crate::text::lemma_trim_idempotent(crate::text::trim(address.address));
}

/// Kept addresses stand in their form, one for each peer.
proof fn lemma_kept_manuals(addresses: Seq<ManualModel>)
    ensures
        kept_manuals(addresses) matches Ok(kept) ==> one_each(kept) && forall|i: int|
            0 <= i < kept.len() ==> is_kept(#[trigger] kept[i]),
    decreases addresses.len(),
{
    if addresses.len() > 0 {
        lemma_kept_manuals(addresses.drop_last());
        lemma_kept_manual(addresses.last());
        if kept_manuals(addresses) is Ok {
            let shorter = kept_manuals(addresses.drop_last())->Ok_0;
            match kept_manual(addresses.last())->Ok_0 {
                Some(address) => {
                    lemma_place(shorter, address.peer_id);
                    let kept = with_manual(shorter, address);
                    assert forall|i: int| 0 <= i < kept.len() implies is_kept(
                        #[trigger] kept[i],
                    ) by {
                        if i < shorter.len() {
                            assert(is_kept(shorter[i]));
                        }
                    }
                    assert forall|i: int, j: int| 0 <= i < j < kept.len() implies (
                    #[trigger] kept[i]).peer_id != (#[trigger] kept[j]).peer_id by {
                        let at = place_of(shorter, address.peer_id);
                        if j < shorter.len() {
                            assert(shorter[i].peer_id != shorter[j].peer_id);
                        }
                    }
                },
                None => {},
            }
        }
    }
}

/// Addresses that stand in their form, one for each peer, are kept as they are.
proof fn lemma_manuals_stay(addresses: Seq<ManualModel>)
    requires
        one_each(addresses),
        forall|i: int| 0 <= i < addresses.len() ==> is_kept(#[trigger] addresses[i]),
    ensures
        kept_manuals(addresses) == Ok::<Seq<ManualModel>, Seq<char>>(addresses),
    decreases addresses.len(),
{
    if addresses.len() == 0 {
        assert(addresses =~= Seq::empty());
    } else {
        let shorter = addresses.drop_last();
        assert forall|i: int| 0 <= i < shorter.len() implies is_kept(#[trigger] shorter[i]) by {
            assert(is_kept(addresses[i]));
        }
        assert forall|i: int, j: int| 0 <= i < j < shorter.len() implies (
        #[trigger] shorter[i]).peer_id != (#[trigger] shorter[j]).peer_id by {
            assert(addresses[i].peer_id != addresses[j].peer_id);
        }
        lemma_manuals_stay(shorter);
        let last = addresses.last();
        assert(is_kept(addresses[addresses.len() - 1]));
        lemma_place(shorter, last.peer_id);
        let at = place_of(shorter, last.peer_id);
        if at < shorter.len() {
            assert(addresses[at].peer_id != addresses[addresses.len() - 1].peer_id);
        }
        assert(shorter.push(last) =~= addresses);
    }
}

/// Bindings that are kept are kept as they are.
proof fn lemma_edges_stay(bindings: Seq<EdgeModel>)
    ensures
        kept_edges(bindings) matches Ok(kept) ==> kept_edges(kept) == Ok::<
            Seq<EdgeModel>,
            Seq<char>,
        >(kept),
    decreases bindings.len(),
{
    if bindings.len() > 0 {
        lemma_edges_stay(bindings.drop_last());
        if kept_edges(bindings) is Ok {
            let shorter = kept_edges(bindings.drop_last())->Ok_0;
            let last = kept_edge(bindings.last())->Ok_0;
            crate::text::lemma_trim_idempotent(bindings.last().peer_id);
            assert(shorter.push(last).drop_last() =~= shorter);
            assert(kept_edge(last) == Ok::<EdgeModel, Seq<char>>(last));
        }
    }
}

/// Settings that were saved are loaded as they were saved: what is kept is kept as it is, however
/// often, with one address for each peer.
pub proof fn kept_settings_stay_as_they_are(settings: SettingsModel)
    ensures
        kept_settings(settings) matches Ok(kept) ==> kept_settings(kept) == Ok::<
            SettingsModel,
            Seq<char>,
        >(kept) && one_each(kept.manual_peer_addresses),
{
    if kept_settings(settings) is Ok {
        crate::text::lemma_trim_idempotent(settings.peer_listen_address);
        crate::text::lemma_trim_idempotent(crate::text::trim(settings.peer_listen_address));
        lemma_edges_stay(settings.edge_bindings);
        lemma_kept_manuals(settings.manual_peer_addresses);
        let kept = kept_settings(settings)->Ok_0;
        lemma_manuals_stay(kept.manual_peer_addresses);
    }
}

/// A session that a user asks for.
#[derive(Debug, PartialEq, Eq)]
pub struct SessionConnectOptions {
    pub peer_id: String,
    pub local_device_id: String,
    pub address: String,
}

/// A session that a user asks for.
pub struct ConnectModel {
    pub peer_id: Seq<char>,
    pub local_device_id: Seq<char>,
    pub address: Seq<char>,
}

impl View for SessionConnectOptions {
    type V = ConnectModel;

    open spec fn view(&self) -> ConnectModel {
        ConnectModel {
            peer_id: self.peer_id@,
            local_device_id: self.local_device_id@,
            address: self.address@,
        }
    }
}

/// What is asked of the daemon, or what is wrong with it. The peer is looked at first, then the
/// device, then the address.
pub open spec fn asked_session(options: ConnectModel) -> Result<ConnectModel, Seq<char>> {
    match session_peer(options.peer_id) {
        Err(message) => Err(message),
        Ok(peer_id) => match required_text("local device id"@, options.local_device_id) {
            Err(message) => Err(message),
            Ok(local_device_id) => match session_address(options.address) {
                Err(message) => Err(message),
                Ok(address) => Ok(ConnectModel { peer_id, local_device_id, address }),
            },
        },
    }
}

/// What is asked of the daemon.
pub fn normalize_session_connect_options(options: SessionConnectOptions) -> (result: Result<
    SessionConnectOptions,
    String,
>)
    ensures
        match result {
            Ok(asked) => asked_session(options@) == Ok::<ConnectModel, Seq<char>>(asked@),
            Err(message) => asked_session(options@) == Err::<ConnectModel, Seq<char>>(message@),
        },
{
    let peer_id = match normalize_session_peer_id(options.peer_id.as_str()) {
        Ok(peer_id) => peer_id.to_owned(),
        Err(message) => return Err(message),
    };
    let local_device_id = match normalize_required_session_value(
        "local device id",
        options.local_device_id.as_str(),
    ) {
        Ok(local_device_id) => local_device_id.to_owned(),
        Err(message) => return Err(message),
    };
    let address = match normalize_session_address(options.address.as_str()) {
        Ok(address) => address.to_owned(),
        Err(message) => return Err(message),
    };
    Ok(SessionConnectOptions { peer_id, local_device_id, address })
}

/// The peers around the desktop.
#[derive(Debug, PartialEq, Eq)]
pub struct LayoutSettings {
    pub edge_bindings: Vec<DaemonEdgeBindingOption>,
}

/// The peers around the desktop, from the settings.
pub fn layout_of(settings: AppSettings) -> (result: LayoutSettings)
    ensures
        result.edge_bindings == settings.edge_bindings,
{
    LayoutSettings { edge_bindings: settings.edge_bindings }
}

/// Settings with other peers around the desktop.
pub fn with_layout(settings: AppSettings, layout: LayoutSettings) -> (result: AppSettings)
    ensures
        result.edge_bindings == layout.edge_bindings,
        result.capture_input == settings.capture_input,
        result.peer_listen_address == settings.peer_listen_address,
        result.manual_peer_addresses == settings.manual_peer_addresses,
{
    AppSettings {
        capture_input: settings.capture_input,
        peer_listen_address: settings.peer_listen_address,
        edge_bindings: layout.edge_bindings,
        manual_peer_addresses: settings.manual_peer_addresses,
    }
}

/// What was found where the settings are kept.
pub enum SettingsFile {
    Missing,
    Unreadable(String),
    Malformed(String),
    Read(AppSettings),
}

/// What is loaded: settings that were never saved are those of a new installation.
pub open spec fn loaded_settings(file: SettingsFile) -> Result<SettingsModel, Seq<char>> {
    match file {
        SettingsFile::Missing => Ok(
            SettingsModel {
                capture_input: false,
                peer_listen_address: Seq::empty(),
                edge_bindings: Seq::empty(),
                manual_peer_addresses: Seq::empty(),
            },
        ),
        SettingsFile::Unreadable(cause) | SettingsFile::Malformed(cause) => Err(
            "failed to read Akraz settings: "@ + cause@,
        ),
        SettingsFile::Read(settings) => kept_settings(settings@),
    }
}

/// Load the settings from what was found.
pub fn load_settings(file: SettingsFile) -> (result: Result<AppSettings, String>)
    ensures
        match result {
            Ok(settings) => loaded_settings(file) == Ok::<SettingsModel, Seq<char>>(settings@),
            Err(message) => loaded_settings(file) == Err::<SettingsModel, Seq<char>>(message@),
        },
{
    match file {
        SettingsFile::Missing => Ok(AppSettings::default()),
        SettingsFile::Unreadable(cause) | SettingsFile::Malformed(cause) => Err(
            "failed to read Akraz settings: ".to_owned().concat(cause.as_str()),
        ),
        SettingsFile::Read(settings) => normalize_settings(settings),
    }
}

/// Load the peers around the desktop from what was found.
pub fn load_layout(file: SettingsFile) -> (result: Result<LayoutSettings, String>)
    ensures
        match result {
            Ok(layout) => loaded_settings(file) is Ok && edge_models(layout.edge_bindings@)
                == loaded_settings(file)->Ok_0.edge_bindings,
            Err(message) => loaded_settings(file) == Err::<SettingsModel, Seq<char>>(message@),
        },
{
    match load_settings(file) {
        Ok(settings) => Ok(layout_of(settings)),
        Err(message) => Err(message),
    }
}

/// The settings to save so that the peers around the desktop change and nothing else does.
pub fn save_layout(file: SettingsFile, layout: LayoutSettings) -> (result: Result<
    AppSettings,
    String,
>)
    ensures
        match loaded_settings(file) {
            Err(refused) => result matches Err(message) && message@ == refused,
            Ok(settings) => {
                let wanted = SettingsModel {
                    edge_bindings: edge_models(layout.edge_bindings@),
                    ..settings
                };
                match result {
                    Ok(kept) => kept_settings(wanted) == Ok::<SettingsModel, Seq<char>>(kept@),
                    Err(message) => kept_settings(wanted) == Err::<SettingsModel, Seq<char>>(
                        message@,
                    ),
                }
            },
        },
{
    match load_settings(file) {
        Ok(settings) => normalize_settings(with_layout(settings, layout)),
        Err(message) => Err(message),
    }
}

/// What stands in the way of saving the settings.
pub enum SettingsSaveFailure {
    NoDirectory,
    Directory(String),
    Encode(String),
    Write(String),
}

/// What stands in the way of saving the settings, in words.
pub fn settings_save_message(failure: SettingsSaveFailure) -> (result: String)
    ensures
        result@ == (match failure {
            SettingsSaveFailure::NoDirectory => "failed to resolve Akraz settings directory."@,
            SettingsSaveFailure::Directory(cause) => {
                "failed to create Akraz settings directory: "@ + cause@
            },
            SettingsSaveFailure::Encode(cause) => "failed to encode Akraz settings: "@ + cause@,
            SettingsSaveFailure::Write(cause) => "failed to save Akraz settings: "@ + cause@,
        }),
{
    match failure {
        SettingsSaveFailure::NoDirectory => {
            "failed to resolve Akraz settings directory.".to_owned()
        },
        SettingsSaveFailure::Directory(cause) => {
            "failed to create Akraz settings directory: ".to_owned().concat(cause.as_str())
        },
        SettingsSaveFailure::Encode(cause) => {
            "failed to encode Akraz settings: ".to_owned().concat(cause.as_str())
        },
        SettingsSaveFailure::Write(cause) => {
            "failed to save Akraz settings: ".to_owned().concat(cause.as_str())
        },
    }
}

/// Copies of bindings.
pub fn copy_edges(bindings: &Vec<DaemonEdgeBindingOption>) -> (result: Vec<DaemonEdgeBindingOption>)
    ensures
        result@ == bindings@,
{
    let mut result: Vec<DaemonEdgeBindingOption> = Vec::new();
    let mut i: usize = 0;
    while i < bindings.len()
        invariant
            i <= bindings@.len(),
            result@ == bindings@.subrange(0, i as int),
        decreases bindings@.len() - i,
    {
        result.push(bindings[i].clone());
        i = i + 1;
        proof {
            assert(result@ =~= bindings@.subrange(0, i as int));
        }
    }
    proof {
        assert(result@ =~= bindings@);
    }
    result
}

/// Whether two lists of bindings say the same.
pub fn same_edges(a: &Vec<DaemonEdgeBindingOption>, b: &Vec<DaemonEdgeBindingOption>) -> (result:
    bool)
    ensures
        result == (edge_models(a@) == edge_models(b@)),
{
    if a.len() != b.len() {
        proof {
            assert(edge_models(a@).len() != edge_models(b@).len());
        }
        return false;
    }
    let mut i: usize = 0;
    while i < a.len()
        invariant
            i <= a@.len(),
            a@.len() == b@.len(),
            forall|k: int| 0 <= k < i ==> (#[trigger] a@[k])@ == b@[k]@,
        decreases a@.len() - i,
    {
        if a[i].local_edge != b[i].local_edge || a[i].remote_edge != b[i].remote_edge || !same(
            a[i].peer_id.as_str(),
            b[i].peer_id.as_str(),
        ) {
            proof {
                assert(edge_models(a@)[i as int] != edge_models(b@)[i as int]);
            }
            return false;
        }
        i = i + 1;
    }
    proof {
        assert(edge_models(a@) =~= edge_models(b@));
    }
    true
}

/// Whether two lists of addresses say the same.
pub fn same_manuals(a: &Vec<ManualPeerAddressSetting>, b: &Vec<ManualPeerAddressSetting>) -> (result:
    bool)
    ensures
        result == (manual_models(a@) == manual_models(b@)),
{
    if a.len() != b.len() {
        proof {
            assert(manual_models(a@).len() != manual_models(b@).len());
        }
        return false;
    }
    let mut i: usize = 0;
    while i < a.len()
        invariant
            i <= a@.len(),
            a@.len() == b@.len(),
            forall|k: int| 0 <= k < i ==> (#[trigger] a@[k])@ == b@[k]@,
        decreases a@.len() - i,
    {
        if !same(a[i].peer_id.as_str(), b[i].peer_id.as_str()) || !same(
            a[i].address.as_str(),
            b[i].address.as_str(),
        ) {
            proof {
                assert(manual_models(a@)[i as int] != manual_models(b@)[i as int]);
            }
            return false;
        }
        i = i + 1;
    }
    proof {
        assert(manual_models(a@) =~= manual_models(b@));
    }
    true
}

/// Whether two settings say the same.
pub fn same_settings(a: &AppSettings, b: &AppSettings) -> (result: bool)
    ensures
        result == (a@ == b@),
{
    a.capture_input == b.capture_input && same(
        a.peer_listen_address.as_str(),
        b.peer_listen_address.as_str(),
    ) && same_edges(&a.edge_bindings, &b.edge_bindings) && same_manuals(
        &a.manual_peer_addresses,
        &b.manual_peer_addresses,
    )
}

impl ToJson for DaemonEdgeBindingOption {
    open spec fn json(&self) -> JsonModel {
        JsonModel::Object(
            seq![
                ("localEdge"@, JsonModel::Text(self.local_edge.spelled())),
                ("peerId"@, JsonModel::Text(self.peer_id@)),
                ("remoteEdge"@, JsonModel::Text(self.remote_edge.spelled())),
            ],
        )
    }

    fn to_json(&self) -> (result: JsonValue) {
        let result = JsonObject::new().with(
            "localEdge",
            json_string(self.local_edge.daemon_arg()),
        ).with("peerId", json_string(self.peer_id.as_str())).with(
            "remoteEdge",
            json_string(self.remote_edge.daemon_arg()),
        ).done();
        proof {
            assert(result@->Object_0 =~= self.json()->Object_0);
        }
        result
    }
}

impl ToJson for ManualPeerAddressSetting {
    open spec fn json(&self) -> JsonModel {
        JsonModel::Object(
            seq![
                ("peerId"@, JsonModel::Text(self.peer_id@)),
                ("address"@, JsonModel::Text(self.address@)),
            ],
        )
    }

    fn to_json(&self) -> (result: JsonValue) {
        let result = JsonObject::new().with("peerId", json_string(self.peer_id.as_str())).with(
            "address",
            json_string(self.address.as_str()),
        ).done();
        proof {
            assert(result@->Object_0 =~= self.json()->Object_0);
        }
        result
    }
}

impl ToJson for AppSettings {
    open spec fn json(&self) -> JsonModel {
        JsonModel::Object(
            seq![
                ("captureInput"@, JsonModel::Bool(self.capture_input)),
                ("peerListenAddress"@, JsonModel::Text(self.peer_listen_address@)),
                (
                    "edgeBindings"@,
                    JsonModel::Array(
                        self.edge_bindings@.map_values(
                            |binding: DaemonEdgeBindingOption| binding.json(),
                        ),
                    ),
                ),
                (
                    "manualPeerAddresses"@,
                    JsonModel::Array(
                        self.manual_peer_addresses@.map_values(
                            |address: ManualPeerAddressSetting| address.json(),
                        ),
                    ),
                ),
            ],
        )
    }

    fn to_json(&self) -> (result: JsonValue) {
        let result = JsonObject::new().with(
            "captureInput",
            JsonValue::Bool(self.capture_input),
        ).with("peerListenAddress", json_string(self.peer_listen_address.as_str())).with(
            "edgeBindings",
            json_list(&self.edge_bindings),
        ).with("manualPeerAddresses", json_list(&self.manual_peer_addresses)).done();
        proof {
            assert(result@->Object_0 =~= self.json()->Object_0);
        }
        result
    }
}

/// A binding is kept with the edges that were entered, each of the four as it is; only the space around
/// its peer is taken off. It is refused just where no peer is named, or one with a colon.
pub proof fn a_binding_keeps_its_edges(
    binding: &DaemonEdgeBindingOption,
    result: Result<DaemonEdgeBindingOption, String>,
)
    requires
        call_ensures(normalize_edge_binding, (binding,), result),
    ensures
        result matches Ok(kept) ==> {
            &&& kept.local_edge == binding.local_edge
            &&& kept.remote_edge == binding.remote_edge
            &&& crate::text::is_without_space_around(binding.peer_id@, kept.peer_id@)
        },
        result is Err <==> (forall|k: int|
            0 <= k < binding.peer_id@.len() ==> crate::text::is_whitespace(
                #[trigger] binding.peer_id@[k],
            )) || binding.peer_id@.contains(':'),
{
    let peer_id = binding.peer_id@;
    crate::text::trimming_takes_off_space_only(peer_id);
    lemma_colon_stays(peer_id);
}

/// Space is no colon.
proof fn lemma_colon_stays(s: Seq<char>)
    ensures
        crate::text::trim(s).contains(':') <==> s.contains(':'),
{
    crate::text::trimming_takes_off_space_only(s);
    let inner = crate::text::trim(s);
    let (i, j) = choose|i: int, j: int|
        0 <= i <= j <= s.len() && inner == #[trigger] s.subrange(i, j) && (forall|k: int|
            0 <= k < i || j <= k < s.len() ==> crate::text::is_whitespace(#[trigger] s[k]));
    if s.contains(':') {
        let k = choose|k: int| 0 <= k < s.len() && s[k] == ':';
        assert(!crate::text::is_whitespace(s[k]));
        assert(inner[k - i] == ':');
    }
    if inner.contains(':') {
        let k = choose|k: int| 0 <= k < inner.len() && inner[k] == ':';
        assert(s[i + k] == ':');
    }
}

/// Bindings are kept one for one, in the order in which they were entered, each with its own edges and
/// its own peer; where one is refused, all are.
pub proof fn bindings_are_kept_one_for_one(
    bindings: &Vec<DaemonEdgeBindingOption>,
    result: Result<Vec<DaemonEdgeBindingOption>, String>,
)
    requires
        call_ensures(normalize_edge_bindings, (bindings,), result),
    ensures
        result matches Ok(kept) ==> {
            &&& kept@.len() == bindings@.len()
            &&& forall|i: int|
                0 <= i < bindings@.len() ==> (#[trigger] kept@[i]).local_edge
                    == bindings@[i].local_edge && kept@[i].remote_edge == bindings@[i].remote_edge
                    && crate::text::is_without_space_around(
                    bindings@[i].peer_id@,
                    kept@[i].peer_id@,
                ) && kept@[i].peer_id@.len() > 0 && !kept@[i].peer_id@.contains(':')
        },
        result is Err ==> exists|i: int|
            0 <= i < bindings@.len() && edge_peer((#[trigger] bindings@[i]).peer_id@) is Err,
{
    let models = edge_models(bindings@);
    lemma_edges_one_for_one(models);
    if let Ok(kept) = result {
        assert(edge_models(kept@).len() == kept@.len());
        assert forall|i: int| 0 <= i < bindings@.len() implies (#[trigger] kept@[i]).local_edge
            == bindings@[i].local_edge && kept@[i].remote_edge == bindings@[i].remote_edge
            && crate::text::is_without_space_around(bindings@[i].peer_id@, kept@[i].peer_id@)
            && kept@[i].peer_id@.len() > 0 && !kept@[i].peer_id@.contains(':') by {
            assert(edge_models(kept@)[i] == kept@[i]@);
            assert(models[i] == bindings@[i]@);
            crate::text::trimming_takes_off_space_only(bindings@[i].peer_id@);
        }
    } else {
        let i = choose|i: int| 0 <= i < models.len() && kept_edge(#[trigger] models[i]) is Err;
        assert(models[i] == bindings@[i]@);
    }
}

proof fn lemma_edges_one_for_one(bindings: Seq<EdgeModel>)
    ensures
        kept_edges(bindings) matches Ok(kept) ==> kept.len() == bindings.len() && forall|i: int|
            0 <= i < bindings.len() ==> kept_edge(bindings[i]) == Ok::<EdgeModel, Seq<char>>(
                #[trigger] kept[i],
            ),
        kept_edges(bindings) is Err ==> exists|i: int|
            0 <= i < bindings.len() && kept_edge(#[trigger] bindings[i]) is Err,
    decreases bindings.len(),
{
    if bindings.len() > 0 {
        let shorter = bindings.drop_last();
        lemma_edges_one_for_one(shorter);
        if kept_edges(shorter) is Err {
            let i = choose|i: int| 0 <= i < shorter.len() && kept_edge(#[trigger] shorter[i]) is Err;
            assert(kept_edge(bindings[i]) is Err);
        } else if kept_edge(bindings.last()) is Err {
            assert(kept_edge(bindings[bindings.len() - 1]) is Err);
        } else {
            let kept = kept_edges(bindings)->Ok_0;
            assert forall|i: int| 0 <= i < bindings.len() implies kept_edge(bindings[i]) == Ok::<
                EdgeModel,
                Seq<char>,
            >(#[trigger] kept[i]) by {
                if i < shorter.len() {
                    assert(shorter[i] == bindings[i]);
                    assert(kept_edges(shorter)->Ok_0[i] == kept[i]);
                }
            }
        }
    }
}

/// An address that was entered by hand is kept with its own peer, the space around both taken off; one
/// that was left empty is not kept, whatever its peer.
pub proof fn a_manual_address_keeps_its_peer(
    entered: &ManualPeerAddressSetting,
    result: Result<Option<ManualPeerAddressSetting>, String>,
)
    requires
        call_ensures(normalize_manual_peer_address, (entered,), result),
    ensures
        result == Ok::<Option<ManualPeerAddressSetting>, String>(None) <==> forall|k: int|
            0 <= k < entered.address@.len() ==> crate::text::is_whitespace(
                #[trigger] entered.address@[k],
            ),
        result matches Ok(Some(kept)) ==> {
            &&& crate::text::is_without_space_around(entered.address@, kept.address@)
            &&& crate::text::is_without_space_around(entered.peer_id@, kept.peer_id@)
            &&& kept.peer_id@.len() > 0
            &&& !kept.peer_id@.contains(':') && !kept.peer_id@.contains('@')
            &&& !crate::text::has_whitespace(kept.peer_id@)
            &&& crate::address::read_socket(kept.address@) is Some
        },
{
    crate::text::trimming_takes_off_space_only(entered.address@);
    crate::text::trimming_takes_off_space_only(entered.peer_id@);
    crate::text::lemma_trim_idempotent(entered.address@);
}

/// A peer that has an address keeps just one, the one that was entered last; every address that is kept
/// was entered, and a list with other peers keeps them.
pub proof fn the_last_address_of_a_peer_counts(addresses: Seq<ManualModel>, last: ManualModel)
    requires
        one_each(addresses),
    ensures
        ({
            let all = with_manual(addresses, last);
            &&& one_each(all)
            &&& all.contains(last)
            &&& forall|i: int|
                0 <= i < addresses.len() && (#[trigger] addresses[i]).peer_id != last.peer_id
                    ==> all.len() > i && all[i] == addresses[i]
            &&& forall|i: int|
                0 <= i < all.len() ==> #[trigger] all[i] == last || (i < addresses.len() && all[i]
                    == addresses[i] && all[i].peer_id != last.peer_id)
        }),
{
    lemma_place(addresses, last.peer_id);
    let at = place_of(addresses, last.peer_id);
    let all = with_manual(addresses, last);
    assert(all[at] == last);
    assert forall|i: int| 0 <= i < all.len() implies #[trigger] all[i] == last || (i
        < addresses.len() && all[i] == addresses[i] && all[i].peer_id != last.peer_id) by {
        if i != at {
            if i < at {
                assert(addresses[i].peer_id != last.peer_id);
            } else {
                assert(addresses[at].peer_id == last.peer_id);
                assert(addresses[i].peer_id != addresses[at].peer_id);
            }
        }
    }
    assert forall|i: int, j: int| 0 <= i < j < all.len() implies (#[trigger] all[i]).peer_id != (
    #[trigger] all[j]).peer_id by {
        if i != at && j != at {
            assert(addresses[i].peer_id != addresses[j].peer_id);
        }
    }
}

/// One more address that was entered is put with those that were kept before it, and counts before them.
pub proof fn addresses_are_taken_in_order(entered: Seq<ManualModel>, last: ManualModel)
    ensures
        ({
            let before = kept_manuals(entered);
            let after = kept_manuals(entered.push(last));
            &&& after is Ok <==> before is Ok && kept_manual(last) is Ok
            &&& after is Ok && kept_manual(last)->Ok_0 is None ==> after == before
            &&& after is Ok && kept_manual(last)->Ok_0 is Some ==> {
                &&& after->Ok_0.contains(kept_manual(last)->Ok_0->Some_0)
                &&& one_each(after->Ok_0)
                &&& forall|i: int|
                    0 <= i < before->Ok_0.len() && (#[trigger] before->Ok_0[i]).peer_id != (
                    kept_manual(last)->Ok_0->Some_0).peer_id ==> after->Ok_0.len() > i
                        && after->Ok_0[i] == before->Ok_0[i]
            }
            &&& kept_manuals(Seq::<ManualModel>::empty()) == Ok::<Seq<ManualModel>, Seq<char>>(
                Seq::empty(),
            )
        }),
{
    let all = entered.push(last);
    assert(all.drop_last() =~= entered);
    lemma_kept_manuals(entered);
    if kept_manuals(entered) is Ok && kept_manual(last) is Ok && kept_manual(last)->Ok_0 is Some {
        the_last_address_of_a_peer_counts(
            kept_manuals(entered)->Ok_0,
            kept_manual(last)->Ok_0->Some_0,
        );
    }
}

/// Settings that are kept say what was entered: whether input is captured, where to listen without the
/// space around it, and the bindings one for one with their edges. An address to listen at may be left
/// empty, and is an address otherwise.
pub proof fn kept_settings_say_what_was_entered(
    settings: AppSettings,
    result: Result<AppSettings, String>,
)
    requires
        call_ensures(normalize_settings, (settings,), result),
        result is Ok,
    ensures
        result->Ok_0.capture_input == settings.capture_input,
        crate::text::is_without_space_around(
            settings.peer_listen_address@,
            result->Ok_0.peer_listen_address@,
        ),
        result->Ok_0.peer_listen_address@.len() > 0 ==> crate::address::read_socket(
            result->Ok_0.peer_listen_address@,
        ) is Some,
        result->Ok_0.edge_bindings@.len() == settings.edge_bindings@.len(),
        forall|i: int|
            0 <= i < settings.edge_bindings@.len() ==> (
            #[trigger] result->Ok_0.edge_bindings@[i]).local_edge
                == settings.edge_bindings@[i].local_edge && result->Ok_0.edge_bindings@[i].remote_edge
                == settings.edge_bindings@[i].remote_edge && crate::text::is_without_space_around(
                settings.edge_bindings@[i].peer_id@,
                result->Ok_0.edge_bindings@[i].peer_id@,
            ),
        kept_manuals(manual_models(settings.manual_peer_addresses@)) == Ok::<
            Seq<ManualModel>,
            Seq<char>,
        >(manual_models(result->Ok_0.manual_peer_addresses@)),
{
    let kept = result->Ok_0;
    let models = edge_models(settings.edge_bindings@);
    crate::text::trimming_takes_off_space_only(settings.peer_listen_address@);
    crate::text::lemma_trim_idempotent(settings.peer_listen_address@);
    lemma_edges_one_for_one(models);
    assert(kept@.edge_bindings == kept_edges(models)->Ok_0);
    assert(edge_models(kept.edge_bindings@).len() == kept.edge_bindings@.len());
    assert forall|i: int| 0 <= i < settings.edge_bindings@.len() implies (
    #[trigger] kept.edge_bindings@[i]).local_edge == settings.edge_bindings@[i].local_edge
        && kept.edge_bindings@[i].remote_edge == settings.edge_bindings@[i].remote_edge
        && crate::text::is_without_space_around(
        settings.edge_bindings@[i].peer_id@,
        kept.edge_bindings@[i].peer_id@,
    ) by {
        assert(edge_models(kept.edge_bindings@)[i] == kept.edge_bindings@[i]@);
        assert(models[i] == settings.edge_bindings@[i]@);
        crate::text::trimming_takes_off_space_only(settings.edge_bindings@[i].peer_id@);
    }
}

/// Settings are refused just where some part of them is: where to listen, a binding, or an address that
/// was entered by hand.
pub proof fn settings_are_refused_for_a_part(settings: SettingsModel)
    ensures
        kept_settings(settings) is Ok <==> {
            &&& optional_address(settings.peer_listen_address) is Ok
            &&& forall|i: int|
                0 <= i < settings.edge_bindings.len() ==> edge_peer(
                    (#[trigger] settings.edge_bindings[i]).peer_id,
                ) is Ok
            &&& kept_manuals(settings.manual_peer_addresses) is Ok
        },
{
    let bindings = settings.edge_bindings;
    lemma_edges_one_for_one(bindings);
    if kept_edges(bindings) is Ok {
        let kept = kept_edges(bindings)->Ok_0;
        assert forall|i: int| 0 <= i < bindings.len() implies edge_peer(
            (#[trigger] bindings[i]).peer_id,
        ) is Ok by {
            assert(kept_edge(bindings[i]) == Ok::<EdgeModel, Seq<char>>(kept[i]));
        }
    } else {
        let i = choose|i: int| 0 <= i < bindings.len() && kept_edge(#[trigger] bindings[i]) is Err;
        assert(edge_peer(bindings[i].peer_id) is Err);
    }
}

/// Settings that were saved and are loaded again are the settings that were saved; where none were saved,
/// nothing is captured, listened for or bound.
pub proof fn saved_settings_load_again(
    settings: AppSettings,
    saved: Result<AppSettings, String>,
    loaded: Result<AppSettings, String>,
    fresh: Result<AppSettings, String>,
)
    requires
        call_ensures(normalize_settings, (settings,), saved),
        saved is Ok,
        call_ensures(load_settings, (SettingsFile::Read(saved->Ok_0),), loaded),
        call_ensures(load_settings, (SettingsFile::Missing,), fresh),
    ensures
        loaded is Ok,
        loaded->Ok_0@ == saved->Ok_0@,
        fresh is Ok,
        !fresh->Ok_0.capture_input,
        fresh->Ok_0.peer_listen_address@.len() == 0,
        fresh->Ok_0.edge_bindings@.len() == 0,
        fresh->Ok_0.manual_peer_addresses@.len() == 0,
{
    kept_settings_stay_as_they_are(settings@);
    assert(edge_models(fresh->Ok_0.edge_bindings@).len() == fresh->Ok_0.edge_bindings@.len());
    assert(manual_models(fresh->Ok_0.manual_peer_addresses@).len()
        == fresh->Ok_0.manual_peer_addresses@.len());
}

/// Saving a layout changes the bindings and leaves every other setting as it was loaded.
pub proof fn saving_a_layout_changes_bindings_only(
    file: SettingsFile,
    layout: LayoutSettings,
    loaded: Result<AppSettings, String>,
    saved: Result<AppSettings, String>,
    shown: Result<LayoutSettings, String>,
)
    requires
        call_ensures(load_settings, (file,), loaded),
        call_ensures(save_layout, (file, layout), saved),
        saved is Ok,
        call_ensures(load_layout, (SettingsFile::Read(saved->Ok_0),), shown),
    ensures
        loaded is Ok,
        saved->Ok_0.capture_input == loaded->Ok_0.capture_input,
        saved->Ok_0.peer_listen_address@ == loaded->Ok_0.peer_listen_address@,
        manual_models(saved->Ok_0.manual_peer_addresses@) == manual_models(
            loaded->Ok_0.manual_peer_addresses@,
        ),
        saved->Ok_0.edge_bindings@.len() == layout.edge_bindings@.len(),
        forall|i: int|
            0 <= i < layout.edge_bindings@.len() ==> (
            #[trigger] saved->Ok_0.edge_bindings@[i]).local_edge
                == layout.edge_bindings@[i].local_edge && saved->Ok_0.edge_bindings@[i].remote_edge
                == layout.edge_bindings@[i].remote_edge,
        shown is Ok,
        edge_models(shown->Ok_0.edge_bindings@) == edge_models(saved->Ok_0.edge_bindings@),
{
    let settings = loaded_settings(file)->Ok_0;
    match file {
        SettingsFile::Read(entered) => {
            kept_settings_stay_as_they_are(entered@);
            assert(kept_settings(settings) == Ok::<SettingsModel, Seq<char>>(settings));
        },
        _ => {
            assert(kept_manuals(settings.manual_peer_addresses) == Ok::<
                Seq<ManualModel>,
                Seq<char>,
            >(settings.manual_peer_addresses));
            assert(crate::text::trim(settings.peer_listen_address)
                =~= settings.peer_listen_address);
        },
    }
    let wanted = SettingsModel { edge_bindings: edge_models(layout.edge_bindings@), ..settings };
    kept_settings_stay_as_they_are(wanted);
    let models = edge_models(layout.edge_bindings@);
    lemma_edges_one_for_one(models);
    let kept = saved->Ok_0;
    assert(edge_models(kept.edge_bindings@).len() == kept.edge_bindings@.len());
    assert forall|i: int| 0 <= i < layout.edge_bindings@.len() implies (
    #[trigger] kept.edge_bindings@[i]).local_edge == layout.edge_bindings@[i].local_edge
        && kept.edge_bindings@[i].remote_edge == layout.edge_bindings@[i].remote_edge by {
        assert(edge_models(kept.edge_bindings@)[i] == kept.edge_bindings@[i]@);
        assert(models[i] == layout.edge_bindings@[i]@);
    }
}

/// A layout that is taken from settings and put back leaves them as they are; putting another one in
/// changes nothing but the bindings.
pub proof fn layouts_are_taken_and_put_back(
    settings: AppSettings,
    layout: LayoutSettings,
    taken: LayoutSettings,
    changed: AppSettings,
)
    requires
        call_ensures(layout_of, (settings,), taken),
        call_ensures(with_layout, (settings, layout), changed),
    ensures
        taken.edge_bindings == settings.edge_bindings,
        changed.edge_bindings == layout.edge_bindings,
        changed.capture_input == settings.capture_input,
        changed.peer_listen_address == settings.peer_listen_address,
        changed.manual_peer_addresses == settings.manual_peer_addresses,
        layout == taken ==> changed == settings,
{
}

/// A session is asked for with the peer, the device and the address that were entered, each in its own
/// place and without the space around it; none may be empty or hold space, the peer holds no colon and
/// no at sign, and the address is one.
pub proof fn an_asked_session_is_the_one_entered(
    options: SessionConnectOptions,
    result: Result<SessionConnectOptions, String>,
)
    requires
        call_ensures(normalize_session_connect_options, (options,), result),
    ensures
        result matches Ok(asked) ==> {
            &&& crate::text::is_without_space_around(options.peer_id@, asked.peer_id@)
            &&& crate::text::is_without_space_around(
                options.local_device_id@,
                asked.local_device_id@,
            )
            &&& crate::text::is_without_space_around(options.address@, asked.address@)
            &&& asked.peer_id@.len() > 0 && asked.local_device_id@.len() > 0
            &&& !crate::text::has_whitespace(asked.peer_id@)
            &&& !crate::text::has_whitespace(asked.local_device_id@)
            &&& !asked.peer_id@.contains(':') && !asked.peer_id@.contains('@')
            &&& crate::address::read_socket(asked.address@) is Some
        },
        result is Err <==> session_peer(options.peer_id@) is Err || required_text(
            "local device id"@,
            options.local_device_id@,
        ) is Err || session_address(options.address@) is Err,
{
    crate::text::trimming_takes_off_space_only(options.peer_id@);
    crate::text::trimming_takes_off_space_only(options.local_device_id@);
    crate::text::trimming_takes_off_space_only(options.address@);
}

/// The names of the edges where settings are kept and the daemon is started.
pub proof fn edges_are_spelled_by_name(edge: DaemonScreenEdgeOption, word: &'static str)
    requires
        call_ensures(DaemonScreenEdgeOption::daemon_arg, (edge,), word),
    ensures
        edge is Left ==> word@ == "left"@,
        edge is Right ==> word@ == "right"@,
        edge is Top ==> word@ == "top"@,
        edge is Bottom ==> word@ == "bottom"@,
{
}

/// What is written of settings says what they hold, each member under its own name.
pub proof fn written_settings_say_what_they_hold(
    settings: AppSettings,
    binding: DaemonEdgeBindingOption,
    manual: ManualPeerAddressSetting,
)
    ensures
        settings.json() is Object && binding.json() is Object && manual.json() is Object,
        ({
            let members = settings.json()->Object_0;
            &&& members.len() == 4
            &&& members.contains(("captureInput"@, JsonModel::Bool(settings.capture_input)))
            &&& members.contains(
                ("peerListenAddress"@, JsonModel::Text(settings.peer_listen_address@)),
            )
            &&& members[2].0 == "edgeBindings"@ && members[2].1 is Array
            &&& members[2].1->Array_0.len() == settings.edge_bindings@.len()
            &&& forall|i: int|
                0 <= i < settings.edge_bindings@.len() ==> #[trigger] members[2].1->Array_0[i]
                    == settings.edge_bindings@[i].json()
            &&& members[3].0 == "manualPeerAddresses"@ && members[3].1 is Array
            &&& members[3].1->Array_0.len() == settings.manual_peer_addresses@.len()
            &&& forall|i: int|
                0 <= i < settings.manual_peer_addresses@.len() ==> #[trigger] members[3].1->Array_0[
                    i
                ] == settings.manual_peer_addresses@[i].json()
        }),
        ({
            let members = binding.json()->Object_0;
            &&& members.len() == 3
            &&& members.contains(("localEdge"@, JsonModel::Text(binding.local_edge.spelled())))
            &&& members.contains(("remoteEdge"@, JsonModel::Text(binding.remote_edge.spelled())))
            &&& members.contains(("peerId"@, JsonModel::Text(binding.peer_id@)))
        }),
        ({
            let members = manual.json()->Object_0;
            &&& members.len() == 2
            &&& members.contains(("peerId"@, JsonModel::Text(manual.peer_id@)))
            &&& members.contains(("address"@, JsonModel::Text(manual.address@)))
        }),
{
    let members = settings.json()->Object_0;
    assert(members[0] == ("captureInput"@, JsonModel::Bool(settings.capture_input)));
    assert(members[1] == ("peerListenAddress"@, JsonModel::Text(settings.peer_listen_address@)));
    let members = binding.json()->Object_0;
    assert(members[0] == ("localEdge"@, JsonModel::Text(binding.local_edge.spelled())));
    assert(members[1] == ("peerId"@, JsonModel::Text(binding.peer_id@)));
    assert(members[2] == ("remoteEdge"@, JsonModel::Text(binding.remote_edge.spelled())));
    let members = manual.json()->Object_0;
    assert(members[0] == ("peerId"@, JsonModel::Text(manual.peer_id@)));
    assert(members[1] == ("address"@, JsonModel::Text(manual.address@)));
}

/// The files of the application lie below its directory: the settings in it, the identity and the word
/// of a crash in directories of their own. The name of a file comes last, behind a separator.
#[verifier::spinoff_prover]
#[verifier::rlimit(60)]
pub proof fn files_lie_below_the_directory(
    directory: &str,
    windows: bool,
    settings: String,
    identity: String,
    crash: String,
)
    requires
        call_ensures(settings_path_from_config_dir, (directory, windows), settings),
        call_ensures(identity_store_path_from_config_dir, (directory, windows), identity),
        call_ensures(daemon_crash_marker_path_from_config_dir, (directory, windows), crash),
    ensures
        crate::text::has_prefix(settings@, directory@),
        crate::text::has_prefix(identity@, directory@),
        crate::text::has_prefix(crash@, directory@),
        crate::text::has_suffix(settings@, "settings.json"@),
        crate::text::has_suffix(identity@, "identity.json"@),
        crate::text::has_suffix(crash@, "daemon-crash.json"@),
        !windows ==> crate::text::has_suffix(identity@, "secrets"@ + "/"@ + "identity.json"@),
        !windows ==> crate::text::has_suffix(crash@, "crash"@ + "/"@ + "daemon-crash.json"@),
        windows ==> crate::text::has_suffix(identity@, "secrets"@ + "\\"@ + "identity.json"@),
        windows ==> crate::text::has_suffix(crash@, "crash"@ + "\\"@ + "daemon-crash.json"@),
        !windows && directory@.len() > 0 && directory@.last() != '/' ==> settings@ == directory@
            + "/"@ + "settings.json"@,
        !windows && directory@.len() > 0 && directory@.last() == '/' ==> settings@ == directory@
            + "settings.json"@,
        windows && directory@.len() > 2 && directory@.last() != '/' && directory@.last() != '\\'
            ==> settings@ == directory@ + "\\"@ + "settings.json"@,
{
    reveal_strlit("secrets");
    reveal_strlit("crash");
    reveal_strlit("/");
    reveal_strlit("\\");
    reveal_strlit("\\\\?\\");
    lemma_path_ends(directory@, SETTINGS_FILE_NAME@, windows);
    let secrets = path_below(directory@, IDENTITY_STORE_DIR_NAME@, windows);
    let crashes = path_below(directory@, DAEMON_CRASH_DIR_NAME@, windows);
    lemma_path_ends(directory@, IDENTITY_STORE_DIR_NAME@, windows);
    lemma_path_ends(directory@, DAEMON_CRASH_DIR_NAME@, windows);
    lemma_path_ends(secrets, IDENTITY_STORE_FILE_NAME@, windows);
    lemma_path_ends(crashes, DAEMON_CRASH_MARKER_FILE_NAME@, windows);
    assert(secrets.last() == 's') by {
        assert(secrets.subrange(secrets.len() - 7, secrets.len() as int)[6] == 's');
    }
    assert(crashes.last() == 'h') by {
        assert(crashes.subrange(crashes.len() - 5, crashes.len() as int)[4] == 'h');
    }
    lemma_prefix_twice(identity@, secrets, directory@);
    lemma_prefix_twice(crash@, crashes, directory@);
    let separator = if windows {
        "\\"@
    } else {
        "/"@
    };
    assert(identity@ == secrets + separator + "identity.json"@);
    assert(crash@ == crashes + separator + "daemon-crash.json"@);
    lemma_longer_suffix(secrets, "secrets"@, separator + "identity.json"@);
    lemma_longer_suffix(crashes, "crash"@, separator + "daemon-crash.json"@);
    assert(secrets + separator + "identity.json"@ =~= secrets + (separator + "identity.json"@));
    assert(crashes + separator + "daemon-crash.json"@ =~= crashes + (separator
        + "daemon-crash.json"@));
    assert("secrets"@ + (separator + "identity.json"@) =~= "secrets"@ + separator
        + "identity.json"@);
    assert("crash"@ + (separator + "daemon-crash.json"@) =~= "crash"@ + separator
        + "daemon-crash.json"@);
}

proof fn lemma_path_ends(directory: Seq<char>, name: Seq<char>, windows: bool)
    ensures
        crate::text::has_prefix(path_below(directory, name, windows), directory),
        crate::text::has_suffix(path_below(directory, name, windows), name),
        path_below(directory, name, windows).len() >= directory.len() + name.len(),
{
    let path = path_below(directory, name, windows);
    assert(path.subrange(0, directory.len() as int) =~= directory);
    assert(path.subrange(path.len() - name.len(), path.len() as int) =~= name);
}

proof fn lemma_prefix_twice(path: Seq<char>, longer: Seq<char>, shorter: Seq<char>)
    requires
        crate::text::has_prefix(path, longer),
        crate::text::has_prefix(longer, shorter),
    ensures
        crate::text::has_prefix(path, shorter),
{
    assert(path.subrange(0, shorter.len() as int) =~= longer.subrange(0, shorter.len() as int));
}

proof fn lemma_longer_suffix(head: Seq<char>, suffix: Seq<char>, tail: Seq<char>)
    requires
        crate::text::has_suffix(head, suffix),
    ensures
        crate::text::has_suffix(head + tail, suffix + tail),
{
    let whole = head + tail;
    let end = suffix + tail;
    assert(whole.subrange(whole.len() - end.len(), whole.len() as int) =~= head.subrange(
        head.len() - suffix.len(),
        head.len() as int,
    ) + tail);
}

/// What a user enters is taken without the space around it, and only where it can be used: a peer's id
/// has no space, colon or at sign in it, and an address is one.
pub proof fn what_is_entered_is_taken_where_it_can_be_used(
    entered: &str,
    peer: Result<&str, String>,
    manual: Result<&str, String>,
    edge: Result<&str, String>,
    address: Result<&str, String>,
    optional: Result<String, String>,
)
    requires
        call_ensures(normalize_session_peer_id, (entered,), peer),
        call_ensures(normalize_manual_peer_address_peer_id, (entered,), manual),
        call_ensures(normalize_peer_id, (entered,), edge),
        call_ensures(normalize_session_address, (entered,), address),
        call_ensures(normalize_optional_session_address, (entered,), optional),
    ensures
        ({
            let text = crate::text::trim(entered@);
            let plain = text.len() > 0 && !crate::text::has_whitespace(text) && !text.contains(':')
                && !text.contains('@');
            &&& peer is Ok <==> plain
            &&& peer matches Ok(taken) ==> taken@ == text
            &&& manual is Ok <==> plain
            &&& manual matches Ok(taken) ==> taken@ == text
            &&& edge is Ok <==> text.len() > 0 && !text.contains(':')
            &&& edge matches Ok(taken) ==> taken@ == text
            &&& address is Ok <==> text.len() > 0 && !crate::text::has_whitespace(text)
                && crate::address::read_socket(text) is Some
            &&& address matches Ok(taken) ==> taken@ == text
            &&& optional is Ok <==> text.len() == 0 || (!crate::text::has_whitespace(text)
                && crate::address::read_socket(text) is Some)
            &&& optional matches Ok(taken) ==> taken@ == text
        }),
{
    crate::text::lemma_trim_idempotent(entered@);
}

/// A name goes below a directory behind one separator.
pub proof fn names_go_below_a_directory(directory: &str, name: &str, path: String)
    requires
        call_ensures(join_path, (directory, name, false), path),
    ensures
        directory@.len() > 0 && directory@.last() != '/' ==> path@ == directory@ + seq!['/'] + name@,
        directory@.len() > 0 && directory@.last() == '/' ==> path@ == directory@ + name@,
        directory@.len() == 0 ==> path@ == name@,
{
    reveal_strlit("/");
    assert("/"@ =~= seq!['/']);
    if directory@.len() == 0 {
        assert(directory@ + name@ =~= name@);
    }
}

/// Settings count as the same where every part of them is.
pub proof fn the_same_settings_have_the_same_parts(a: AppSettings, b: AppSettings, alike: bool)
    requires
        call_ensures(same_settings, (&a, &b), alike),
    ensures
        alike ==> {
            &&& a.capture_input == b.capture_input
            &&& a.peer_listen_address@ == b.peer_listen_address@
            &&& a.edge_bindings@.len() == b.edge_bindings@.len()
            &&& forall|i: int|
                0 <= i < a.edge_bindings@.len() ==> {
                    &&& (#[trigger] a.edge_bindings@[i]).local_edge == b.edge_bindings@[i].local_edge
                    &&& a.edge_bindings@[i].remote_edge == b.edge_bindings@[i].remote_edge
                    &&& a.edge_bindings@[i].peer_id@ == b.edge_bindings@[i].peer_id@
                }
            &&& a.manual_peer_addresses@.len() == b.manual_peer_addresses@.len()
        },
        a.capture_input != b.capture_input ==> !alike,
        a.peer_listen_address@ != b.peer_listen_address@ ==> !alike,
        a == b ==> alike,
{
    if alike {
        let x = edge_models(a.edge_bindings@);
        let y = edge_models(b.edge_bindings@);
        assert(x.len() == a.edge_bindings@.len());
        assert(y.len() == b.edge_bindings@.len());
        assert(manual_models(a.manual_peer_addresses@).len() == a.manual_peer_addresses@.len());
        assert(manual_models(b.manual_peer_addresses@).len() == b.manual_peer_addresses@.len());
        assert forall|i: int| 0 <= i < a.edge_bindings@.len() implies {
            &&& (#[trigger] a.edge_bindings@[i]).local_edge == b.edge_bindings@[i].local_edge
            &&& a.edge_bindings@[i].remote_edge == b.edge_bindings@[i].remote_edge
            &&& a.edge_bindings@[i].peer_id@ == b.edge_bindings@[i].peer_id@
        } by {
            assert(x[i] == a.edge_bindings@[i]@);
            assert(y[i] == b.edge_bindings@[i]@);
        }
    }
}

/// Addresses that are kept stand once for each peer, and neither a peer's id nor an address is empty.
pub proof fn one_address_is_kept_for_each_peer(
    addresses: &Vec<ManualPeerAddressSetting>,
    result: Result<Vec<ManualPeerAddressSetting>, String>,
    i: int,
    j: int,
)
    requires
        call_ensures(normalize_manual_peer_addresses, (addresses,), result),
        result is Ok,
        0 <= i < j < result->Ok_0@.len(),
    ensures
        result->Ok_0@[i].peer_id@ != result->Ok_0@[j].peer_id@,
        result->Ok_0@[i].peer_id@.len() > 0,
        result->Ok_0@[i].address@.len() > 0,
{
    let entered = manual_models(addresses@);
    lemma_kept_manuals(entered);
    let kept = kept_manuals(entered)->Ok_0;
    assert(kept == manual_models(result->Ok_0@));
    assert(kept.len() == result->Ok_0@.len());
    assert(kept[i] == result->Ok_0@[i]@);
    assert(kept[j] == result->Ok_0@[j]@);
    assert(is_kept(kept[i]));
    assert(kept[i].peer_id != kept[j].peer_id);
}

/// Lists of bindings are the same where they bind the same edges to the same peers, in order.
pub proof fn lists_are_the_same_where_their_parts_are(
    a: &Vec<DaemonEdgeBindingOption>,
    b: &Vec<DaemonEdgeBindingOption>,
    alike: bool,
    c: &Vec<ManualPeerAddressSetting>,
    d: &Vec<ManualPeerAddressSetting>,
    same: bool,
    copied: Vec<DaemonEdgeBindingOption>,
)
    requires
        call_ensures(same_edges, (a, b), alike),
        call_ensures(same_manuals, (c, d), same),
        call_ensures(copy_edges, (a,), copied),
    ensures
        alike <==> a@.len() == b@.len() && forall|i: int|
            0 <= i < a@.len() ==> (#[trigger] a@[i]).local_edge == b@[i].local_edge
                && a@[i].peer_id@ == b@[i].peer_id@ && a@[i].remote_edge == b@[i].remote_edge,
        same <==> c@.len() == d@.len() && forall|i: int|
            0 <= i < c@.len() ==> (#[trigger] c@[i]).peer_id@ == d@[i].peer_id@ && c@[i].address@
                == d@[i].address@,
        copied@ == a@,
{
    let (p, q) = (edge_models(a@), edge_models(b@));
    assert(p.len() == a@.len() && q.len() == b@.len());
    if alike {
        assert forall|i: int| 0 <= i < a@.len() implies (#[trigger] a@[i]).local_edge
            == b@[i].local_edge && a@[i].peer_id@ == b@[i].peer_id@ && a@[i].remote_edge
            == b@[i].remote_edge by {
            assert(p[i] == a@[i]@);
            assert(q[i] == b@[i]@);
        }
    } else if a@.len() == b@.len() && forall|i: int|
        0 <= i < a@.len() ==> (#[trigger] a@[i]).local_edge == b@[i].local_edge && a@[i].peer_id@
            == b@[i].peer_id@ && a@[i].remote_edge == b@[i].remote_edge {
        assert forall|i: int| 0 <= i < p.len() implies p[i] == q[i] by {
            assert(p[i] == a@[i]@);
            assert(q[i] == b@[i]@);
        }
        assert(p =~= q);
    }
    let (m, n) = (manual_models(c@), manual_models(d@));
    assert(m.len() == c@.len() && n.len() == d@.len());
    if same {
        assert forall|i: int| 0 <= i < c@.len() implies (#[trigger] c@[i]).peer_id@ == d@[i].peer_id@
            && c@[i].address@ == d@[i].address@ by {
            assert(m[i] == c@[i]@);
            assert(n[i] == d@[i]@);
        }
    } else if c@.len() == d@.len() && forall|i: int|
        0 <= i < c@.len() ==> (#[trigger] c@[i]).peer_id@ == d@[i].peer_id@ && c@[i].address@
            == d@[i].address@ {
        assert forall|i: int| 0 <= i < m.len() implies m[i] == n[i] by {
            assert(m[i] == c@[i]@);
            assert(n[i] == d@[i]@);
        }
        assert(m =~= n);
    }
}

} // verus!
