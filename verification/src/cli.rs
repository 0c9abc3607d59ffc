//! The daemon's command line.

use vstd::prelude::*;

use crate::address::{parse_socket_address, SocketAddress};
use crate::endpoint::IpcEndpoint;
use crate::runtime::{DeviceId, PeerId, ScreenEdge, ScreenEdgeBinding};
use crate::text::{
    contains_char, rsplit_once, same, split, starts_with, strip_prefix, to_lowercase, trimmed,
};
use crate::wire::parse_screen_edge_name;

verus! {

/// What is wrong with a command line.
#[derive(Debug, PartialEq, Eq)]
pub enum DaemonUsageError {
    MissingEndpointValue,
    MissingEdgeBindingValue,
    MissingPeerListenValue,
    MissingPeerSessionValue,
    MissingLocalDeviceIdValue,
    MissingIdentityStoreValue,
    MissingIdentityDisplayNameValue,
    MissingLocalIdentityForPeerSession,
    DuplicatePeerListen,
    DuplicatePeerSession,
    InvalidEndpoint(String),
    InvalidEdgeBinding(String),
    InvalidPeerListen(String),
    InvalidPeerSession(String),
    InvalidLocalDeviceId(String),
    InvalidIdentityStore(String),
    InvalidIdentityDisplayName(String),
    UnknownArgument(String),
}

/// What is wrong with a command line.
pub enum UsageModel {
    MissingEndpointValue,
    MissingEdgeBindingValue,
    MissingPeerListenValue,
    MissingPeerSessionValue,
    MissingLocalDeviceIdValue,
    MissingIdentityStoreValue,
    MissingIdentityDisplayNameValue,
    MissingLocalIdentityForPeerSession,
    DuplicatePeerListen,
    DuplicatePeerSession,
    InvalidEndpoint(Seq<char>),
    InvalidEdgeBinding(Seq<char>),
    InvalidPeerListen(Seq<char>),
    InvalidPeerSession(Seq<char>),
    InvalidLocalDeviceId(Seq<char>),
    InvalidIdentityStore(Seq<char>),
    InvalidIdentityDisplayName(Seq<char>),
    UnknownArgument(Seq<char>),
}

impl View for DaemonUsageError {
    type V = UsageModel;

    open spec fn view(&self) -> UsageModel {
        match self {
            DaemonUsageError::MissingEndpointValue => UsageModel::MissingEndpointValue,
            DaemonUsageError::MissingEdgeBindingValue => UsageModel::MissingEdgeBindingValue,
            DaemonUsageError::MissingPeerListenValue => UsageModel::MissingPeerListenValue,
            DaemonUsageError::MissingPeerSessionValue => UsageModel::MissingPeerSessionValue,
            DaemonUsageError::MissingLocalDeviceIdValue => UsageModel::MissingLocalDeviceIdValue,
            DaemonUsageError::MissingIdentityStoreValue => UsageModel::MissingIdentityStoreValue,
            DaemonUsageError::MissingIdentityDisplayNameValue => {
                UsageModel::MissingIdentityDisplayNameValue
            },
            DaemonUsageError::MissingLocalIdentityForPeerSession => {
                UsageModel::MissingLocalIdentityForPeerSession
            },
            DaemonUsageError::DuplicatePeerListen => UsageModel::DuplicatePeerListen,
            DaemonUsageError::DuplicatePeerSession => UsageModel::DuplicatePeerSession,
            DaemonUsageError::InvalidEndpoint(value) => UsageModel::InvalidEndpoint(value@),
            DaemonUsageError::InvalidEdgeBinding(value) => UsageModel::InvalidEdgeBinding(value@),
            DaemonUsageError::InvalidPeerListen(value) => UsageModel::InvalidPeerListen(value@),
            DaemonUsageError::InvalidPeerSession(value) => UsageModel::InvalidPeerSession(value@),
            DaemonUsageError::InvalidLocalDeviceId(value) => {
                UsageModel::InvalidLocalDeviceId(value@)
            },
            DaemonUsageError::InvalidIdentityStore(value) => {
                UsageModel::InvalidIdentityStore(value@)
            },
            DaemonUsageError::InvalidIdentityDisplayName(value) => {
                UsageModel::InvalidIdentityDisplayName(value@)
            },
            DaemonUsageError::UnknownArgument(value) => UsageModel::UnknownArgument(value@),
        }
    }
}

/// What is wrong with a command line, in words.
pub open spec fn usage_text(error: UsageModel) -> Seq<char> {
    match error {
        UsageModel::MissingEndpointValue => "missing value for --endpoint"@,
        UsageModel::MissingEdgeBindingValue => "missing value for --edge-binding"@,
        UsageModel::MissingPeerListenValue => "missing value for --peer-listen"@,
        UsageModel::MissingPeerSessionValue => "missing value for --peer-session"@,
        UsageModel::MissingLocalDeviceIdValue => "missing value for --local-device-id"@,
        UsageModel::MissingIdentityStoreValue => "missing value for --identity-store"@,
        UsageModel::MissingIdentityDisplayNameValue => "missing value for --identity-display-name"@,
        UsageModel::MissingLocalIdentityForPeerSession => {
            "--peer-session requires --local-device-id or --identity-store"@
        },
        UsageModel::DuplicatePeerListen => "--peer-listen can only be provided once"@,
        UsageModel::DuplicatePeerSession => "--peer-session can only be provided once"@,
        UsageModel::InvalidEndpoint(value) => "invalid endpoint: "@ + value,
        UsageModel::InvalidEdgeBinding(value) => {
            "invalid edge binding: "@ + value
                + ". Expected <local-edge>:<peer-id>:<remote-edge>"@
        },
        UsageModel::InvalidPeerListen(value) => {
            "invalid peer listener address: "@ + value
                + ". Expected <ip>:<port> or [<ipv6>]:<port>"@
        },
        UsageModel::InvalidPeerSession(value) => {
            "invalid peer session: "@ + value + ". Expected <peer-id>@<ip>:<port>"@
        },
        UsageModel::InvalidLocalDeviceId(value) => "invalid local device id: "@ + value,
        UsageModel::InvalidIdentityStore(value) => {
            "invalid identity store path: "@ + value + ". Expected a non-empty path"@
        },
        UsageModel::InvalidIdentityDisplayName(value) => {
            "invalid identity display name: "@ + value + ". Expected a non-empty display name"@
        },
        UsageModel::UnknownArgument(value) => "unknown argument: "@ + value,
    }
}

impl DaemonUsageError {
    /// The error in words.
    pub fn message(&self) -> (result: String)
        ensures
            result@ == usage_text(self@),
    {
        match self {
            DaemonUsageError::MissingEndpointValue => "missing value for --endpoint".to_owned(),
            DaemonUsageError::MissingEdgeBindingValue => {
                "missing value for --edge-binding".to_owned()
            },
            DaemonUsageError::MissingPeerListenValue => {
                "missing value for --peer-listen".to_owned()
            },
            DaemonUsageError::MissingPeerSessionValue => {
                "missing value for --peer-session".to_owned()
            },
            DaemonUsageError::MissingLocalDeviceIdValue => {
                "missing value for --local-device-id".to_owned()
            },
            DaemonUsageError::MissingIdentityStoreValue => {
                "missing value for --identity-store".to_owned()
            },
            DaemonUsageError::MissingIdentityDisplayNameValue => {
                "missing value for --identity-display-name".to_owned()
            },
            DaemonUsageError::MissingLocalIdentityForPeerSession => {
                "--peer-session requires --local-device-id or --identity-store".to_owned()
            },
            DaemonUsageError::DuplicatePeerListen => {
                "--peer-listen can only be provided once".to_owned()
            },
            DaemonUsageError::DuplicatePeerSession => {
                "--peer-session can only be provided once".to_owned()
            },
            DaemonUsageError::InvalidEndpoint(value) => {
                "invalid endpoint: ".to_owned().concat(value.as_str())
            },
            DaemonUsageError::InvalidEdgeBinding(value) => {
                "invalid edge binding: ".to_owned().concat(value.as_str()).concat(
                    ". Expected <local-edge>:<peer-id>:<remote-edge>",
                )
            },
            DaemonUsageError::InvalidPeerListen(value) => {
                "invalid peer listener address: ".to_owned().concat(value.as_str()).concat(
                    ". Expected <ip>:<port> or [<ipv6>]:<port>",
                )
            },
            DaemonUsageError::InvalidPeerSession(value) => {
                "invalid peer session: ".to_owned().concat(value.as_str()).concat(
                    ". Expected <peer-id>@<ip>:<port>",
                )
            },
            DaemonUsageError::InvalidLocalDeviceId(value) => {
                "invalid local device id: ".to_owned().concat(value.as_str())
            },
            DaemonUsageError::InvalidIdentityStore(value) => {
                "invalid identity store path: ".to_owned().concat(value.as_str()).concat(
                    ". Expected a non-empty path",
                )
            },
            DaemonUsageError::InvalidIdentityDisplayName(value) => {
                "invalid identity display name: ".to_owned().concat(value.as_str()).concat(
                    ". Expected a non-empty display name",
                )
            },
            DaemonUsageError::UnknownArgument(value) => {
                "unknown argument: ".to_owned().concat(value.as_str())
            },
        }
    }
}

/// The peer that the daemon opens a session with when it starts.
#[derive(Debug, PartialEq, Eq)]
pub struct ServePeerSessionOptions {
    pub peer_id: PeerId,
    pub address: SocketAddress,
}

/// How the daemon serves.
#[derive(Debug, PartialEq, Eq)]
pub struct ServeOptions {
    pub endpoint: Option<IpcEndpoint>,
    pub once: bool,
    pub capture_input: bool,
    pub edge_bindings: Vec<ScreenEdgeBinding>,
    pub peer_listen: Option<SocketAddress>,
    pub peer_session: Option<ServePeerSessionOptions>,
    pub local_device_id: Option<DeviceId>,
    pub identity_store: Option<String>,
    pub identity_display_name: Option<String>,
}

/// An edge of the desktop and the peer beyond it.
pub struct BindingModel {
    pub local_edge: ScreenEdge,
    pub peer_id: Seq<char>,
    pub remote_edge: ScreenEdge,
}

/// What a binding says.
pub open spec fn binding_model(binding: ScreenEdgeBinding) -> BindingModel {
    BindingModel {
        local_edge: binding.local_edge,
        peer_id: binding.peer_id@,
        remote_edge: binding.remote_edge,
    }
}

/// How the daemon serves.
pub struct OptionsModel {
    pub endpoint: Option<Seq<char>>,
    pub once: bool,
    pub capture_input: bool,
    pub edge_bindings: Seq<BindingModel>,
    pub peer_listen: Option<crate::address::SocketModel>,
    pub peer_session: Option<(Seq<char>, crate::address::SocketModel)>,
    pub local_device_id: Option<Seq<char>>,
    pub identity_store: Option<Seq<char>>,
    pub identity_display_name: Option<Seq<char>>,
}

impl View for ServeOptions {
    type V = OptionsModel;

    open spec fn view(&self) -> OptionsModel {
        OptionsModel {
            endpoint: match self.endpoint {
                Some(endpoint) => Some(endpoint.address@),
                None => None,
            },
            once: self.once,
            capture_input: self.capture_input,
            edge_bindings: self.edge_bindings@.map_values(
                |binding: ScreenEdgeBinding| binding_model(binding),
            ),
            peer_listen: match self.peer_listen {
                Some(address) => Some(address@),
                None => None,
            },
            peer_session: match self.peer_session {
                Some(session) => Some((session.peer_id@, session.address@)),
                None => None,
            },
            local_device_id: match self.local_device_id {
                Some(id) => Some(id@),
                None => None,
            },
            identity_store: crate::rpc::optional_view(self.identity_store),
            identity_display_name: crate::rpc::optional_view(self.identity_display_name),
        }
    }
}

/// The options of a daemon that was told nothing.
pub open spec fn no_options() -> OptionsModel {
    OptionsModel {
        endpoint: None,
        once: false,
        capture_input: false,
        edge_bindings: Seq::empty(),
        peer_listen: None,
        peer_session: None,
        local_device_id: None,
        identity_store: None,
        identity_display_name: None,
    }
}

impl ServeOptions {
    /// Whether an endpoint that is there was given by hand.
    pub open spec fn wf(&self) -> bool {
        self.endpoint matches Some(endpoint) ==> endpoint.kind
            == crate::endpoint::IpcEndpointKind::Manual
    }
}

impl Default for ServeOptions {
    fn default() -> (result: Self)
        ensures
            result@ == no_options(),
            result.wf(),
    {
        let result = ServeOptions {
            endpoint: None,
            once: false,
            capture_input: false,
            edge_bindings: Vec::new(),
            peer_listen: None,
            peer_session: None,
            local_device_id: None,
            identity_store: None,
            identity_display_name: None,
        };
        proof {
            assert(result@.edge_bindings =~= Seq::empty());
        }
        result
    }
}

/// What the daemon is told to do.
#[derive(Debug, PartialEq, Eq)]
pub enum DaemonCommand {
    Serve(ServeOptions),
    Status,
    Version,
    LoopbackTransportSmoke,
    TcpTransportSmoke,
    PeerSessionSmoke,
    PeerSessionExecutorSmoke,
}

/// What the daemon is told to do.
pub enum CommandModel {
    Serve(OptionsModel),
    Status,
    Version,
    LoopbackTransportSmoke,
    TcpTransportSmoke,
    PeerSessionSmoke,
    PeerSessionExecutorSmoke,
}

impl View for DaemonCommand {
    type V = CommandModel;

    open spec fn view(&self) -> CommandModel {
        match self {
            DaemonCommand::Serve(options) => CommandModel::Serve(options@),
            DaemonCommand::Status => CommandModel::Status,
            DaemonCommand::Version => CommandModel::Version,
            DaemonCommand::LoopbackTransportSmoke => CommandModel::LoopbackTransportSmoke,
            DaemonCommand::TcpTransportSmoke => CommandModel::TcpTransportSmoke,
            DaemonCommand::PeerSessionSmoke => CommandModel::PeerSessionSmoke,
            DaemonCommand::PeerSessionExecutorSmoke => CommandModel::PeerSessionExecutorSmoke,
        }
    }
}

/// The edge with a name, in any case and with space around it.
pub open spec fn read_edge(value: Seq<char>) -> Result<ScreenEdge, UsageModel> {
    match crate::wire::edge_named(crate::text::lowercase(crate::text::trim(value))) {
        Ok(edge) => Ok(edge),
        Err(_) => Err(UsageModel::InvalidEdgeBinding(value)),
    }
}

/// The edge with a name, in any case and with space around it.
pub fn parse_screen_edge(value: &str) -> (result: Result<ScreenEdge, DaemonUsageError>)
    ensures
        match result {
            Ok(edge) => read_edge(value@) == Ok::<ScreenEdge, UsageModel>(edge),
            Err(error) => read_edge(value@) == Err::<ScreenEdge, UsageModel>(error@),
        },
{
    match parse_screen_edge_name(to_lowercase(trimmed(value)).as_str()) {
        Ok(edge) => Ok(edge),
        Err(_) => Err(DaemonUsageError::InvalidEdgeBinding(value.to_owned())),
    }
}

/// A binding: an edge, a peer and an edge, with colons between them. The local edge is looked at
/// before the remote one.
pub open spec fn read_binding(value: Seq<char>) -> Result<BindingModel, UsageModel> {
    let parts = crate::text::pieces(value, ':');
    if parts.len() != 3 || crate::text::trim(parts[1]).len() == 0 {
        Err(UsageModel::InvalidEdgeBinding(value))
    } else {
        match read_edge(parts[0]) {
            Err(error) => Err(error),
            Ok(local_edge) => match read_edge(parts[2]) {
                Err(error) => Err(error),
                Ok(remote_edge) => Ok(
                    BindingModel {
                        local_edge,
                        peer_id: crate::text::trim(parts[1]),
                        remote_edge,
                    },
                ),
            },
        }
    }
}

/// A binding: an edge, a peer and an edge, with colons between them.
pub fn parse_edge_binding(value: &str) -> (result: Result<ScreenEdgeBinding, DaemonUsageError>)
    ensures
        match result {
            Ok(binding) => read_binding(value@) == Ok::<BindingModel, UsageModel>(
                binding_model(binding),
            ),
            Err(error) => read_binding(value@) == Err::<BindingModel, UsageModel>(error@),
        },
{
    let parts = split(value, ':');
    proof {
        let views = crate::text::views(parts@);
        assert(views.len() == parts@.len());
        assert(forall|i: int| 0 <= i < parts@.len() ==> views[i] == (#[trigger] parts@[i])@);
    }
    if parts.len() != 3 || trimmed(parts[1]).is_empty() {
        return Err(DaemonUsageError::InvalidEdgeBinding(value.to_owned()));
    }
    let local_edge = match parse_screen_edge(parts[0]) {
        Ok(edge) => edge,
        Err(error) => return Err(error),
    };
    let remote_edge = match parse_screen_edge(parts[2]) {
        Ok(edge) => edge,
        Err(error) => return Err(error),
    };
    Ok(ScreenEdgeBinding { local_edge, peer_id: PeerId::new(trimmed(parts[1])), remote_edge })
}

/// A peer and where it listens, with the last `@` between them.
pub open spec fn read_peer_session(value: Seq<char>) -> Result<
    (Seq<char>, crate::address::SocketModel),
    UsageModel,
> {
    let at = crate::text::last_position(value, '@');
    let peer_id = crate::text::trim(value.subrange(0, at));
    let address = value.subrange(at + 1, value.len() as int);
    if at < 0 || peer_id.len() == 0 || peer_id.contains('@') {
        Err(UsageModel::InvalidPeerSession(value))
    } else {
        match crate::address::read_socket(crate::text::trim(address)) {
            Some(socket) => Ok((peer_id, socket)),
            None => Err(UsageModel::InvalidPeerSession(address)),
        }
    }
}

/// A peer and where it listens.
pub fn parse_peer_session(value: &str) -> (result: Result<
    ServePeerSessionOptions,
    DaemonUsageError,
>)
    ensures
        match result {
            Ok(session) => read_peer_session(value@) == Ok::<
                (Seq<char>, crate::address::SocketModel),
                UsageModel,
            >((session.peer_id@, session.address@)),
            Err(error) => read_peer_session(value@) == Err::<
                (Seq<char>, crate::address::SocketModel),
                UsageModel,
            >(error@),
        },
{
    let (peer_id, address) = match rsplit_once(value, '@') {
        Some(parts) => parts,
        None => return Err(DaemonUsageError::InvalidPeerSession(value.to_owned())),
    };
    let peer_id = trimmed(peer_id);
    if peer_id.is_empty() || contains_char(peer_id, '@') {
        return Err(DaemonUsageError::InvalidPeerSession(value.to_owned()));
    }
    match parse_socket_address(trimmed(address)) {
        Some(socket) => Ok(
            ServePeerSessionOptions { peer_id: PeerId::new(peer_id), address: socket },
        ),
        None => Err(DaemonUsageError::InvalidPeerSession(address.to_owned())),
    }
}

/// An option that takes a value.
#[derive(Debug, Clone, Copy, PartialEq, Eq, Structural)]
pub enum ValuedOption {
    EdgeBinding,
    Endpoint,
    PeerListen,
    PeerSession,
    LocalDeviceId,
    IdentityStore,
    IdentityDisplayName,
}

/// What is said where an option has no value.
pub open spec fn value_missing(option: ValuedOption) -> UsageModel {
    match option {
        ValuedOption::EdgeBinding => UsageModel::MissingEdgeBindingValue,
        ValuedOption::Endpoint => UsageModel::MissingEndpointValue,
        ValuedOption::PeerListen => UsageModel::MissingPeerListenValue,
        ValuedOption::PeerSession => UsageModel::MissingPeerSessionValue,
        ValuedOption::LocalDeviceId => UsageModel::MissingLocalDeviceIdValue,
        ValuedOption::IdentityStore => UsageModel::MissingIdentityStoreValue,
        ValuedOption::IdentityDisplayName => UsageModel::MissingIdentityDisplayNameValue,
    }
}

/// What is said where an option has no value.
fn missing_value(option: ValuedOption) -> (result: DaemonUsageError)
    ensures
        result@ == value_missing(option),
{
    match option {
        ValuedOption::EdgeBinding => DaemonUsageError::MissingEdgeBindingValue,
        ValuedOption::Endpoint => DaemonUsageError::MissingEndpointValue,
        ValuedOption::PeerListen => DaemonUsageError::MissingPeerListenValue,
        ValuedOption::PeerSession => DaemonUsageError::MissingPeerSessionValue,
        ValuedOption::LocalDeviceId => DaemonUsageError::MissingLocalDeviceIdValue,
        ValuedOption::IdentityStore => DaemonUsageError::MissingIdentityStoreValue,
        ValuedOption::IdentityDisplayName => DaemonUsageError::MissingIdentityDisplayNameValue,
    }
}

/// The option that an argument names, with the value that it holds, if it holds one.
pub open spec fn option_named(argument: Seq<char>) -> Option<(ValuedOption, Option<Seq<char>>)> {
    if crate::text::after_prefix(argument, "--edge-binding="@) is Some {
        Some((ValuedOption::EdgeBinding, crate::text::after_prefix(argument, "--edge-binding="@)))
    } else if argument == "--edge-binding"@ {
        Some((ValuedOption::EdgeBinding, None))
    } else if crate::text::after_prefix(argument, "--endpoint="@) is Some {
        Some((ValuedOption::Endpoint, crate::text::after_prefix(argument, "--endpoint="@)))
    } else if argument == "--endpoint"@ {
        Some((ValuedOption::Endpoint, None))
    } else if crate::text::after_prefix(argument, "--peer-listen="@) is Some {
        Some((ValuedOption::PeerListen, crate::text::after_prefix(argument, "--peer-listen="@)))
    } else if argument == "--peer-listen"@ {
        Some((ValuedOption::PeerListen, None))
    } else if crate::text::after_prefix(argument, "--peer-session="@) is Some {
        Some((ValuedOption::PeerSession, crate::text::after_prefix(argument, "--peer-session="@)))
    } else if argument == "--peer-session"@ {
        Some((ValuedOption::PeerSession, None))
    } else if crate::text::after_prefix(argument, "--local-device-id="@) is Some {
        Some(
            (
                ValuedOption::LocalDeviceId,
                crate::text::after_prefix(argument, "--local-device-id="@),
            ),
        )
    } else if argument == "--local-device-id"@ {
        Some((ValuedOption::LocalDeviceId, None))
    } else if crate::text::after_prefix(argument, "--identity-store="@) is Some {
        Some(
            (
                ValuedOption::IdentityStore,
                crate::text::after_prefix(argument, "--identity-store="@),
            ),
        )
    } else if argument == "--identity-store"@ {
        Some((ValuedOption::IdentityStore, None))
    } else if crate::text::after_prefix(argument, "--identity-display-name="@) is Some {
        Some(
            (
                ValuedOption::IdentityDisplayName,
                crate::text::after_prefix(argument, "--identity-display-name="@),
            ),
        )
    } else if argument == "--identity-display-name"@ {
        Some((ValuedOption::IdentityDisplayName, None))
    } else {
        None
    }
}

/// The value behind a prefix, if it is there.
pub open spec fn optional_str(value: Option<&str>) -> Option<Seq<char>> {
    match value {
        Some(value) => Some(value@),
        None => None,
    }
}

/// The option that an argument names, with the value that it holds, if it holds one.
fn find_option<'a>(argument: &'a str) -> (result: Option<(ValuedOption, Option<&'a str>)>)
    ensures
        match result {
            Some((option, value)) => option_named(argument@) == Some((option, optional_str(value))),
            None => option_named(argument@) is None,
        },
{
    if let Some(value) = strip_prefix(argument, "--edge-binding=") {
        Some((ValuedOption::EdgeBinding, Some(value)))
    } else if same(argument, "--edge-binding") {
        Some((ValuedOption::EdgeBinding, None))
    } else if let Some(value) = strip_prefix(argument, "--endpoint=") {
        Some((ValuedOption::Endpoint, Some(value)))
    } else if same(argument, "--endpoint") {
        Some((ValuedOption::Endpoint, None))
    } else if let Some(value) = strip_prefix(argument, "--peer-listen=") {
        Some((ValuedOption::PeerListen, Some(value)))
    } else if same(argument, "--peer-listen") {
        Some((ValuedOption::PeerListen, None))
    } else if let Some(value) = strip_prefix(argument, "--peer-session=") {
        Some((ValuedOption::PeerSession, Some(value)))
    } else if same(argument, "--peer-session") {
        Some((ValuedOption::PeerSession, None))
    } else if let Some(value) = strip_prefix(argument, "--local-device-id=") {
        Some((ValuedOption::LocalDeviceId, Some(value)))
    } else if same(argument, "--local-device-id") {
        Some((ValuedOption::LocalDeviceId, None))
    } else if let Some(value) = strip_prefix(argument, "--identity-store=") {
        Some((ValuedOption::IdentityStore, Some(value)))
    } else if same(argument, "--identity-store") {
        Some((ValuedOption::IdentityStore, None))
    } else if let Some(value) = strip_prefix(argument, "--identity-display-name=") {
        Some((ValuedOption::IdentityDisplayName, Some(value)))
    } else if same(argument, "--identity-display-name") {
        Some((ValuedOption::IdentityDisplayName, None))
    } else {
        None
    }
}

/// The options with one more value. A listener and a session can be given once; of every other option
/// the last value counts, and bindings add up.
pub open spec fn with_value(options: OptionsModel, option: ValuedOption, value: Seq<char>) -> Result<
    OptionsModel,
    UsageModel,
> {
    let text = crate::text::trim(value);
    match option {
        ValuedOption::EdgeBinding => match read_binding(value) {
            Ok(binding) => Ok(
                OptionsModel { edge_bindings: options.edge_bindings.push(binding), ..options },
            ),
            Err(error) => Err(error),
        },
        ValuedOption::Endpoint => if text.len() == 0 {
            Err(UsageModel::InvalidEndpoint("empty endpoint "@ + "address"@))
        } else {
            Ok(OptionsModel { endpoint: Some(value), ..options })
        },
        ValuedOption::PeerListen => if options.peer_listen is Some {
            Err(UsageModel::DuplicatePeerListen)
        } else {
            match crate::address::read_socket(text) {
                Some(socket) => Ok(OptionsModel { peer_listen: Some(socket), ..options }),
                None => Err(UsageModel::InvalidPeerListen(value)),
            }
        },
        ValuedOption::PeerSession => if options.peer_session is Some {
            Err(UsageModel::DuplicatePeerSession)
        } else {
            match read_peer_session(value) {
                Ok(session) => Ok(OptionsModel { peer_session: Some(session), ..options }),
                Err(error) => Err(error),
            }
        },
        ValuedOption::LocalDeviceId => if text.len() == 0 {
            Err(UsageModel::InvalidLocalDeviceId(text))
        } else {
            Ok(OptionsModel { local_device_id: Some(text), ..options })
        },
        ValuedOption::IdentityStore => if text.len() == 0 {
            Err(UsageModel::InvalidIdentityStore(text))
        } else {
            Ok(OptionsModel { identity_store: Some(text), ..options })
        },
        ValuedOption::IdentityDisplayName => if text.len() == 0 {
            Err(UsageModel::InvalidIdentityDisplayName(text))
        } else {
            Ok(OptionsModel { identity_display_name: Some(text), ..options })
        },
    }
}

/// Take a listener's address, once.
fn set_peer_listen(options: &mut ServeOptions, value: &str) -> (result: Result<
    (),
    DaemonUsageError,
>)
    requires
        old(options).wf(),
    ensures
        final(options).wf(),
        match result {
            Ok(_) => with_value(old(options)@, ValuedOption::PeerListen, value@) == Ok::<
                OptionsModel,
                UsageModel,
            >(final(options)@),
            Err(error) => with_value(old(options)@, ValuedOption::PeerListen, value@) == Err::<
                OptionsModel,
                UsageModel,
            >(error@),
        },
{
    if options.peer_listen.is_some() {
        return Err(DaemonUsageError::DuplicatePeerListen);
    }
    match parse_socket_address(trimmed(value)) {
        Some(socket) => {
            options.peer_listen = Some(socket);
            Ok(())
        },
        None => Err(DaemonUsageError::InvalidPeerListen(value.to_owned())),
    }
}

/// Take a session's peer, once.
fn set_peer_session(options: &mut ServeOptions, value: &str) -> (result: Result<
    (),
    DaemonUsageError,
>)
    requires
        old(options).wf(),
    ensures
        final(options).wf(),
        match result {
            Ok(_) => with_value(old(options)@, ValuedOption::PeerSession, value@) == Ok::<
                OptionsModel,
                UsageModel,
            >(final(options)@),
            Err(error) => with_value(old(options)@, ValuedOption::PeerSession, value@) == Err::<
                OptionsModel,
                UsageModel,
            >(error@),
        },
{
    if options.peer_session.is_some() {
        return Err(DaemonUsageError::DuplicatePeerSession);
    }
    match parse_peer_session(value) {
        Ok(session) => {
            options.peer_session = Some(session);
            Ok(())
        },
        Err(error) => Err(error),
    }
}

/// Take one value.
fn take_value(options: &mut ServeOptions, option: ValuedOption, value: &str) -> (result: Result<
    (),
    DaemonUsageError,
>)
    requires
        old(options).wf(),
    ensures
        final(options).wf(),
        match result {
            Ok(_) => with_value(old(options)@, option, value@) == Ok::<OptionsModel, UsageModel>(
                final(options)@,
            ),
            Err(error) => with_value(old(options)@, option, value@) == Err::<
                OptionsModel,
                UsageModel,
            >(error@),
        },
{
    match option {
        ValuedOption::EdgeBinding => match parse_edge_binding(value) {
            Ok(binding) => {
                options.edge_bindings.push(binding);
                proof {
                    assert(options@.edge_bindings =~= old(options)@.edge_bindings.push(
                        binding_model(binding),
                    ));
                }
                Ok(())
            },
            Err(error) => Err(error),
        },
        ValuedOption::Endpoint => match IpcEndpoint::manual(value) {
            Ok(endpoint) => {
                options.endpoint = Some(endpoint);
                Ok(())
            },
            Err(error) => Err(DaemonUsageError::InvalidEndpoint(error.message())),
        },
        ValuedOption::PeerListen => set_peer_listen(options, value),
        ValuedOption::PeerSession => set_peer_session(options, value),
        ValuedOption::LocalDeviceId => match parse_device_id(value) {
            Ok(id) => {
                options.local_device_id = Some(id);
                Ok(())
            },
            Err(error) => Err(error),
        },
        ValuedOption::IdentityStore => match parse_identity_store(value) {
            Ok(path) => {
                options.identity_store = Some(path);
                Ok(())
            },
            Err(error) => Err(error),
        },
        ValuedOption::IdentityDisplayName => match parse_identity_display_name(value) {
            Ok(name) => {
                options.identity_display_name = Some(name);
                Ok(())
            },
            Err(error) => Err(error),
        },
    }
}

/// A device's id: anything but space.
pub fn parse_device_id(value: &str) -> (result: Result<DeviceId, DaemonUsageError>)
    ensures
        match result {
            Ok(id) => crate::text::trim(value@).len() > 0 && id@ == crate::text::trim(value@),
            Err(error) => crate::text::trim(value@).len() == 0 && error@
                == UsageModel::InvalidLocalDeviceId(crate::text::trim(value@)),
        },
{
    let value = trimmed(value);
    if value.is_empty() {
        return Err(DaemonUsageError::InvalidLocalDeviceId(value.to_owned()));
    }
    Ok(DeviceId::new(value))
}

/// The path of an identity store: anything but space.
pub fn parse_identity_store(value: &str) -> (result: Result<String, DaemonUsageError>)
    ensures
        match result {
            Ok(path) => crate::text::trim(value@).len() > 0 && path@ == crate::text::trim(value@),
            Err(error) => crate::text::trim(value@).len() == 0 && error@
                == UsageModel::InvalidIdentityStore(crate::text::trim(value@)),
        },
{
    let value = trimmed(value);
    if value.is_empty() {
        return Err(DaemonUsageError::InvalidIdentityStore(value.to_owned()));
    }
    Ok(value.to_owned())
}

/// The name that an identity shows: anything but space.
pub fn parse_identity_display_name(value: &str) -> (result: Result<String, DaemonUsageError>)
    ensures
        match result {
            Ok(name) => crate::text::trim(value@).len() > 0 && name@ == crate::text::trim(value@),
            Err(error) => crate::text::trim(value@).len() == 0 && error@
                == UsageModel::InvalidIdentityDisplayName(crate::text::trim(value@)),
        },
{
    let value = trimmed(value);
    if value.is_empty() {
        return Err(DaemonUsageError::InvalidIdentityDisplayName(value.to_owned()));
    }
    Ok(value.to_owned())
}

/// The options that arguments give, in order.
pub open spec fn read_options(options: OptionsModel, args: Seq<Seq<char>>) -> Result<
    OptionsModel,
    UsageModel,
>
    decreases args.len(),
{
    if args.len() == 0 {
        Ok(options)
    } else {
        let rest = args.drop_first();
        if args[0] == "--once"@ {
            read_options(OptionsModel { once: true, ..options }, rest)
        } else if args[0] == "--capture-input"@ {
            read_options(OptionsModel { capture_input: true, ..options }, rest)
        } else {
            match option_named(args[0]) {
                None => Err(UsageModel::UnknownArgument(args[0])),
                Some((option, Some(value))) => match with_value(options, option, value) {
                    Ok(more) => read_options(more, rest),
                    Err(error) => Err(error),
                },
                Some((option, None)) => if rest.len() == 0 {
                    Err(value_missing(option))
                } else {
                    match with_value(options, option, rest[0]) {
                        Ok(more) => read_options(more, rest.drop_first()),
                        Err(error) => Err(error),
                    }
                },
            }
        }
    }
}

/// How the daemon serves on these arguments. A session needs an identity to open it with.
pub open spec fn read_serve(args: Seq<Seq<char>>) -> Result<CommandModel, UsageModel> {
    match read_options(no_options(), args) {
        Err(error) => Err(error),
        Ok(options) => if options.peer_session is Some && options.local_device_id is None
            && options.identity_store is None {
            Err(UsageModel::MissingLocalIdentityForPeerSession)
        } else {
            Ok(CommandModel::Serve(options))
        },
    }
}

/// A command that takes no arguments.
pub open spec fn alone(rest: Seq<Seq<char>>, command: CommandModel) -> Result<
    CommandModel,
    UsageModel,
> {
    if rest.len() > 0 {
        Err(UsageModel::UnknownArgument(rest[0]))
    } else {
        Ok(command)
    }
}

/// Whether an argument looks like an option for serving.
pub open spec fn looks_like_option(argument: Seq<char>) -> bool {
    crate::text::has_prefix(argument, "--endpoint"@) || argument == "--once"@ || argument
        == "--capture-input"@ || crate::text::has_prefix(argument, "--edge-binding"@)
        || crate::text::has_prefix(argument, "--peer-listen"@) || crate::text::has_prefix(
        argument,
        "--peer-session"@,
    ) || crate::text::has_prefix(argument, "--local-device-id"@) || crate::text::has_prefix(
        argument,
        "--identity-store"@,
    ) || crate::text::has_prefix(argument, "--identity-display-name"@)
}

/// What the daemon is told to do. Without arguments it serves.
pub open spec fn read_command(args: Seq<Seq<char>>) -> Result<CommandModel, UsageModel> {
    if args.len() == 0 {
        Ok(CommandModel::Serve(no_options()))
    } else {
        let first = args[0];
        let rest = args.drop_first();
        if first == "--version"@ || first == "-V"@ {
            alone(rest, CommandModel::Version)
        } else if first == "--status"@ {
            alone(rest, CommandModel::Status)
        } else if first == "--akraz-smoke-loopback-transport"@ {
            alone(rest, CommandModel::LoopbackTransportSmoke)
        } else if first == "--akraz-smoke-tcp-transport"@ {
            alone(rest, CommandModel::TcpTransportSmoke)
        } else if first == "--akraz-smoke-peer-session"@ {
            alone(rest, CommandModel::PeerSessionSmoke)
        } else if first == "--akraz-smoke-peer-session-executor"@ {
            alone(rest, CommandModel::PeerSessionExecutorSmoke)
        } else if first == "--serve"@ {
            read_serve(rest)
        } else if looks_like_option(first) {
            read_serve(args)
        } else {
            Err(UsageModel::UnknownArgument(first))
        }
    }
}

/// Read the options for serving, from one argument on.
fn parse_options(args: &Vec<String>, start: usize) -> (result: Result<
    ServeOptions,
    DaemonUsageError,
>)
    requires
        start <= args@.len(),
    ensures
        ({
            let given = crate::text::string_views(args@).subrange(start as int, args@.len() as int);
            match result {
                Ok(options) => options.wf() && read_options(no_options(), given) == Ok::<
                    OptionsModel,
                    UsageModel,
                >(options@),
                Err(error) => read_options(no_options(), given) == Err::<OptionsModel, UsageModel>(
                    error@,
                ),
            }
        }),
{
    let ghost all = crate::text::string_views(args@);
    let ghost n = args@.len() as int;
    let mut options = ServeOptions::default();
    let mut i: usize = start;
    while i < args.len()
        invariant
            start <= i <= args@.len(),
            n == args@.len(),
            all == crate::text::string_views(args@),
            all.len() == n,
            options.wf(),
            read_options(no_options(), all.subrange(start as int, n)) == read_options(
                options@,
                all.subrange(i as int, n),
            ),
        decreases args@.len() - i,
    {
        let argument = args[i].as_str();
        let ghost left = all.subrange(i as int, n);
        let ghost given = options@;
        proof {
            assert(left[0] == argument@);
            assert(left.drop_first() =~= all.subrange(i + 1, n));
            if i + 1 < n {
                assert(left.drop_first()[0] == args@[i + 1]@);
                assert(left.drop_first().drop_first() =~= all.subrange(i + 2, n));
            }
        }
        if same(argument, "--once") {
            options.once = true;
        } else if same(argument, "--capture-input") {
            options.capture_input = true;
        } else {
            match find_option(argument) {
                None => {
                    return Err(DaemonUsageError::UnknownArgument(argument.to_owned()));
                },
                Some((option, Some(value))) => {
                    match take_value(&mut options, option, value) {
                        Ok(_) => {},
                        Err(error) => return Err(error),
                    }
                },
                Some((option, None)) => {
                    if args.len() - i <= 1 {
                        return Err(missing_value(option));
                    }
                    i = i + 1;
                    match take_value(&mut options, option, args[i].as_str()) {
                        Ok(_) => {},
                        Err(error) => return Err(error),
                    }
                },
            }
        }
        i = i + 1;
    }
    proof {
        assert(all.subrange(i as int, n).len() == 0);
    }
    Ok(options)
}

/// Read how the daemon serves, from one argument on.
pub fn parse_serve_options(args: &Vec<String>, start: usize) -> (result: Result<
    DaemonCommand,
    DaemonUsageError,
>)
    requires
        start <= args@.len(),
    ensures
        ({
            let given = crate::text::string_views(args@).subrange(start as int, args@.len() as int);
            match result {
                Ok(command) => read_serve(given) == Ok::<CommandModel, UsageModel>(command@),
                Err(error) => read_serve(given) == Err::<CommandModel, UsageModel>(error@),
            }
        }),
        result matches Ok(DaemonCommand::Serve(options)) ==> options.wf(),
{
    let options = match parse_options(args, start) {
        Ok(options) => options,
        Err(error) => return Err(error),
    };
    if options.peer_session.is_some() && options.local_device_id.is_none()
        && options.identity_store.is_none() {
        return Err(DaemonUsageError::MissingLocalIdentityForPeerSession);
    }
    Ok(DaemonCommand::Serve(options))
}

/// A command that takes no arguments.
fn reject_trailing_args(args: &Vec<String>, command: DaemonCommand) -> (result: Result<
    DaemonCommand,
    DaemonUsageError,
>)
    requires
        args@.len() > 0,
    ensures
        ({
            let rest = crate::text::string_views(args@).drop_first();
            match result {
                Ok(done) => done == command && alone(rest, command@) == Ok::<
                    CommandModel,
                    UsageModel,
                >(done@),
                Err(error) => alone(rest, command@) == Err::<CommandModel, UsageModel>(error@),
            }
        }),
{
    if args.len() > 1 {
        proof {
            assert(crate::text::string_views(args@).drop_first()[0] == args@[1]@);
        }
        Err(DaemonUsageError::UnknownArgument(args[1].clone()))
    } else {
        Ok(command)
    }
}

/// Whether an argument looks like an option for serving.
fn is_serve_option(argument: &str) -> (result: bool)
    ensures
        result == looks_like_option(argument@),
{
    starts_with(argument, "--endpoint") || same(argument, "--once") || same(
        argument,
        "--capture-input",
    ) || starts_with(argument, "--edge-binding") || starts_with(argument, "--peer-listen")
        || starts_with(argument, "--peer-session") || starts_with(argument, "--local-device-id")
        || starts_with(argument, "--identity-store") || starts_with(
        argument,
        "--identity-display-name",
    )
}

/// Read what the daemon is told to do.
pub fn parse_daemon_command(args: &Vec<String>) -> (result: Result<DaemonCommand, DaemonUsageError>)
    ensures
        match result {
            Ok(command) => read_command(crate::text::string_views(args@)) == Ok::<
                CommandModel,
                UsageModel,
            >(command@),
            Err(error) => read_command(crate::text::string_views(args@)) == Err::<
                CommandModel,
                UsageModel,
            >(error@),
        },
        result matches Ok(DaemonCommand::Serve(options)) ==> options.wf(),
{
    if args.len() == 0 {
        return Ok(DaemonCommand::Serve(ServeOptions::default()));
    }
    let first = args[0].as_str();
    let ghost all = crate::text::string_views(args@);
    proof {
        assert(all[0] == first@);
        assert(all.subrange(1, all.len() as int) =~= all.drop_first());
        assert(all.subrange(0, all.len() as int) =~= all);
    }
    if same(first, "--version") || same(first, "-V") {
        reject_trailing_args(args, DaemonCommand::Version)
    } else if same(first, "--status") {
        reject_trailing_args(args, DaemonCommand::Status)
    } else if same(first, "--akraz-smoke-loopback-transport") {
        reject_trailing_args(args, DaemonCommand::LoopbackTransportSmoke)
    } else if same(first, "--akraz-smoke-tcp-transport") {
        reject_trailing_args(args, DaemonCommand::TcpTransportSmoke)
    } else if same(first, "--akraz-smoke-peer-session") {
        reject_trailing_args(args, DaemonCommand::PeerSessionSmoke)
    } else if same(first, "--akraz-smoke-peer-session-executor") {
        reject_trailing_args(args, DaemonCommand::PeerSessionExecutorSmoke)
    } else if same(first, "--serve") {
        parse_serve_options(args, 1)
    } else if is_serve_option(first) {
        parse_serve_options(args, 0)
    } else {
        Err(DaemonUsageError::UnknownArgument(first.to_owned()))
    }
}

/// The name of an option.
pub open spec fn option_name(option: ValuedOption) -> Seq<char> {
    match option {
        ValuedOption::EdgeBinding => "--edge-binding"@,
        ValuedOption::Endpoint => "--endpoint"@,
        ValuedOption::PeerListen => "--peer-listen"@,
        ValuedOption::PeerSession => "--peer-session"@,
        ValuedOption::LocalDeviceId => "--local-device-id"@,
        ValuedOption::IdentityStore => "--identity-store"@,
        ValuedOption::IdentityDisplayName => "--identity-display-name"@,
    }
}

/// A value means the same behind its option and in the argument after it.
pub proof fn values_may_follow_or_be_joined(
    options: OptionsModel,
    option: ValuedOption,
    value: Seq<char>,
    rest: Seq<Seq<char>>,
)
    ensures
        read_options(options, seq![option_name(option), value] + rest) == read_options(
            options,
            seq![option_name(option) + "="@ + value] + rest,
        ),
{
    lemma_names(option, value);
    lemma_value_follows(options, option, option_name(option), value, rest);
    lemma_value_joined(options, option, option_name(option) + "="@ + value, value, rest);
}

/// What is read once an option has its value.
spec fn read_with(
    options: OptionsModel,
    option: ValuedOption,
    value: Seq<char>,
    rest: Seq<Seq<char>>,
) -> Result<OptionsModel, UsageModel> {
    match with_value(options, option, value) {
        Ok(more) => read_options(more, rest),
        Err(error) => Err(error),
    }
}

/// The value of an option may stand in the argument after it.
proof fn lemma_value_follows(
    options: OptionsModel,
    option: ValuedOption,
    name: Seq<char>,
    value: Seq<char>,
    rest: Seq<Seq<char>>,
)
    requires
        name != "--once"@,
        name != "--capture-input"@,
        option_named(name) == Some((option, None::<Seq<char>>)),
    ensures
        read_options(options, seq![name, value] + rest) == read_with(options, option, value, rest),
{
    let args = seq![name, value] + rest;
    let later = args.drop_first();
    assert(args[0] == name);
    assert(later[0] == value);
    assert(later.drop_first() =~= rest);
}

/// The value of an option may stand behind its name.
proof fn lemma_value_joined(
    options: OptionsModel,
    option: ValuedOption,
    argument: Seq<char>,
    value: Seq<char>,
    rest: Seq<Seq<char>>,
)
    requires
        argument != "--once"@,
        argument != "--capture-input"@,
        option_named(argument) == Some((option, Some(value))),
    ensures
        read_options(options, seq![argument] + rest) == read_with(options, option, value, rest),
{
    let args = seq![argument] + rest;
    assert(args[0] == argument);
    assert(args.drop_first() =~= rest);
}

/// A text that differs from a prefix somewhere does not start with it.
proof fn lemma_differs(s: Seq<char>, prefix: Seq<char>, at: int)
    requires
        0 <= at < prefix.len(),
        at >= s.len() || s[at] != prefix[at],
    ensures
        crate::text::after_prefix(s, prefix) is None,
{
    if crate::text::has_prefix(s, prefix) {
        assert(s.subrange(0, prefix.len() as int)[at] == s[at]);
    }
}

/// A text that starts like one option is none of the others.
proof fn lemma_others(s: Seq<char>, option: ValuedOption)
    requires
        s.len() >= option_name(option).len(),
        forall|i: int| 0 <= i < option_name(option).len() ==> s[i] == option_name(option)[i],
    ensures
        s != "--once"@,
        s != "--capture-input"@,
        !(option is EdgeBinding) ==> crate::text::after_prefix(s, "--edge-binding="@) is None && s
            != "--edge-binding"@,
        !(option is Endpoint) ==> crate::text::after_prefix(s, "--endpoint="@) is None && s
            != "--endpoint"@,
        !(option is PeerListen) ==> crate::text::after_prefix(s, "--peer-listen="@) is None && s
            != "--peer-listen"@,
        !(option is PeerSession) ==> crate::text::after_prefix(s, "--peer-session="@) is None && s
            != "--peer-session"@,
        !(option is LocalDeviceId) ==> crate::text::after_prefix(s, "--local-device-id="@) is None
            && s != "--local-device-id"@,
        !(option is IdentityStore) ==> crate::text::after_prefix(s, "--identity-store="@) is None
            && s != "--identity-store"@,
        !(option is IdentityDisplayName) ==> crate::text::after_prefix(
            s,
            "--identity-display-name="@,
        ) is None && s != "--identity-display-name"@,
{
    reveal_strlit("--once");
    reveal_strlit("--capture-input");
    reveal_strlit("--edge-binding");
    reveal_strlit("--endpoint");
    reveal_strlit("--peer-listen");
    reveal_strlit("--peer-session");
    reveal_strlit("--local-device-id");
    reveal_strlit("--identity-store");
    reveal_strlit("--identity-display-name");
    reveal_strlit("--edge-binding=");
    reveal_strlit("--endpoint=");
    reveal_strlit("--peer-listen=");
    reveal_strlit("--peer-session=");
    reveal_strlit("--local-device-id=");
    reveal_strlit("--identity-store=");
    reveal_strlit("--identity-display-name=");
    let name = option_name(option);
    assert(s[2] == name[2] && s[3] == name[3] && s[7] == name[7]);
    assert(name.len() > 11 ==> s[11] == name[11]);
    if !(option is EdgeBinding) {
        lemma_differs(
            s,
            "--edge-binding="@,
            if option is Endpoint {
                3
            } else {
                2
            },
        );
    }
    if !(option is Endpoint) {
        lemma_differs(
            s,
            "--endpoint="@,
            if option is EdgeBinding {
                3
            } else {
                2
            },
        );
    }
    if !(option is PeerListen) {
        lemma_differs(
            s,
            "--peer-listen="@,
            if option is PeerSession {
                7
            } else {
                2
            },
        );
    }
    if !(option is PeerSession) {
        lemma_differs(
            s,
            "--peer-session="@,
            if option is PeerListen {
                7
            } else {
                2
            },
        );
    }
    if !(option is LocalDeviceId) {
        lemma_differs(s, "--local-device-id="@, 2);
    }
    if !(option is IdentityStore) {
        lemma_differs(
            s,
            "--identity-store="@,
            if option is IdentityDisplayName {
                11
            } else {
                2
            },
        );
    }
    if !(option is IdentityDisplayName) {
        lemma_differs(
            s,
            "--identity-display-name="@,
            if option is IdentityStore {
                11
            } else {
                2
            },
        );
    }
}

/// The name of an option with a `=` behind it.
pub open spec fn option_prefix(option: ValuedOption) -> Seq<char> {
    match option {
        ValuedOption::EdgeBinding => "--edge-binding="@,
        ValuedOption::Endpoint => "--endpoint="@,
        ValuedOption::PeerListen => "--peer-listen="@,
        ValuedOption::PeerSession => "--peer-session="@,
        ValuedOption::LocalDeviceId => "--local-device-id="@,
        ValuedOption::IdentityStore => "--identity-store="@,
        ValuedOption::IdentityDisplayName => "--identity-display-name="@,
    }
}

/// A prefix is the name with a `=` behind it.
proof fn lemma_prefix(option: ValuedOption)
    ensures
        option_prefix(option) == option_name(option) + "="@,
        "="@.len() == 1,
{
    reveal_strlit("=");
    reveal_strlit("--edge-binding");
    reveal_strlit("--endpoint");
    reveal_strlit("--peer-listen");
    reveal_strlit("--peer-session");
    reveal_strlit("--local-device-id");
    reveal_strlit("--identity-store");
    reveal_strlit("--identity-display-name");
    reveal_strlit("--edge-binding=");
    reveal_strlit("--endpoint=");
    reveal_strlit("--peer-listen=");
    reveal_strlit("--peer-session=");
    reveal_strlit("--local-device-id=");
    reveal_strlit("--identity-store=");
    reveal_strlit("--identity-display-name=");
    match option {
        ValuedOption::EdgeBinding => {
            assert("--edge-binding="@ =~= "--edge-binding"@ + "="@);
        },
        ValuedOption::Endpoint => {
            assert("--endpoint="@ =~= "--endpoint"@ + "="@);
        },
        ValuedOption::PeerListen => {
            assert("--peer-listen="@ =~= "--peer-listen"@ + "="@);
        },
        ValuedOption::PeerSession => {
            assert("--peer-session="@ =~= "--peer-session"@ + "="@);
        },
        ValuedOption::LocalDeviceId => {
            assert("--local-device-id="@ =~= "--local-device-id"@ + "="@);
        },
        ValuedOption::IdentityStore => {
            assert("--identity-store="@ =~= "--identity-store"@ + "="@);
        },
        ValuedOption::IdentityDisplayName => {
            assert("--identity-display-name="@ =~= "--identity-display-name"@ + "="@);
        },
    }
}

/// An option is found under its name, alone or with its value.
pub proof fn lemma_names(option: ValuedOption, value: Seq<char>)
    ensures
        option_named(option_name(option)) == Some((option, None::<Seq<char>>)),
        option_named(option_name(option) + "="@ + value) == Some((option, Some(value))),
        option_name(option) != "--once"@,
        option_name(option) != "--capture-input"@,
        option_name(option) + "="@ + value != "--once"@,
        option_name(option) + "="@ + value != "--capture-input"@,
{
    let name = option_name(option);
    let prefix = option_prefix(option);
    let joined = name + "="@ + value;
    lemma_prefix(option);
    lemma_others(name, option);
    lemma_others(joined, option);
    lemma_differs(name, prefix, name.len() as int);
    assert(joined.subrange(0, prefix.len() as int) =~= prefix);
    assert(joined.subrange(prefix.len() as int, joined.len() as int) =~= value);
    assert(crate::text::after_prefix(joined, prefix) == Some(value));
}

/// A binding is read as the edge in front, the peer in the middle without the space around it, and the
/// edge behind, for all edges and all peers that can be named.
pub proof fn a_binding_is_read_part_by_part(
    local_edge: ScreenEdge,
    peer: Seq<char>,
    remote_edge: ScreenEdge,
    text: &str,
    result: Result<ScreenEdgeBinding, DaemonUsageError>,
)
    requires
        text@ == crate::wire::edge_name(local_edge) + seq![':'] + peer + seq![':']
            + crate::wire::edge_name(remote_edge),
        !peer.contains(':'),
        call_ensures(parse_edge_binding, (text,), result),
    ensures
        result is Ok <==> exists|k: int|
            0 <= k < peer.len() && !crate::text::is_whitespace(#[trigger] peer[k]),
        result matches Ok(binding) ==> {
            &&& binding.local_edge == local_edge
            &&& binding.remote_edge == remote_edge
            &&& crate::text::is_without_space_around(peer, binding.peer_id.value@)
        },
{
    let local = crate::wire::edge_name(local_edge);
    let remote = crate::wire::edge_name(remote_edge);
    lemma_edge_word(local_edge);
    lemma_edge_word(remote_edge);
    crate::text::lemma_first_position(local, ':');
    assert(crate::text::pieces(local, ':') =~= seq![local]);
    crate::text::lemma_one_more_piece(local, ':', peer);
    crate::text::lemma_one_more_piece(local + seq![':'] + peer, ':', remote);
    assert(seq![local].push(peer).push(remote) =~= seq![local, peer, remote]);
    crate::text::trimming_takes_off_space_only(peer);
}

proof fn lemma_edge_word(edge: ScreenEdge)
    ensures
        read_edge(crate::wire::edge_name(edge)) == Ok::<ScreenEdge, UsageModel>(edge),
        !crate::wire::edge_name(edge).contains(':'),
{
    reveal_strlit("left");
    reveal_strlit("right");
    reveal_strlit("top");
    reveal_strlit("bottom");
    let name = crate::wire::edge_name(edge);
    crate::text::lemma_trimmed(name);
    assert(crate::text::lowercase(name) =~= name);
    crate::wire::edge_is_found_by_name(edge);
}

/// A session is read as the peer in front of the last at sign and the address behind it, each without the
/// space around it.
pub proof fn a_peer_session_is_read_part_by_part(
    peer: Seq<char>,
    address: Seq<char>,
    text: &str,
    result: Result<ServePeerSessionOptions, DaemonUsageError>,
)
    requires
        text@ == peer + seq!['@'] + address,
        !peer.contains('@'),
        !address.contains('@'),
        call_ensures(parse_peer_session, (text,), result),
    ensures
        result is Ok <==> crate::text::trim(peer).len() > 0 && crate::address::read_socket(
            crate::text::trim(address),
        ) is Some,
        result matches Ok(session) ==> {
            &&& crate::text::is_without_space_around(peer, session.peer_id.value@)
            &&& crate::address::read_socket(crate::text::trim(address)) == Some(session.address@)
        },
{
    let value = text@;
    crate::text::trimming_takes_off_space_only(peer);
    lemma_last_at(peer, address);
    assert(value.subrange(0, peer.len() as int) =~= peer);
    assert(value.subrange(peer.len() as int + 1, value.len() as int) =~= address);
    let inner = crate::text::trim(peer);
    if inner.contains('@') {
        let k = choose|k: int| 0 <= k < inner.len() && inner[k] == '@';
        let (i, j) = choose|i: int, j: int|
            0 <= i <= j <= peer.len() && inner == #[trigger] peer.subrange(i, j) && (forall|k: int|
                0 <= k < i || j <= k < peer.len() ==> crate::text::is_whitespace(
                    #[trigger] peer[k],
                ));
        assert(peer[i + k] == '@');
    }
}

proof fn lemma_last_at(peer: Seq<char>, address: Seq<char>)
    requires
        !address.contains('@'),
    ensures
        crate::text::last_position(peer + seq!['@'] + address, '@') == peer.len(),
    decreases address.len(),
{
    let value = peer + seq!['@'] + address;
    if address.len() == 0 {
        assert(value.last() == '@');
    } else {
        assert(value.last() == address.last());
        assert(address[address.len() - 1] == address.last());
        assert(value.drop_last() =~= peer + seq!['@'] + address.drop_last());
        assert forall|k: int| 0 <= k < address.len() - 1 implies address.drop_last()[k] != '@' by {
            assert(address[k] == address.drop_last()[k]);
        }
        lemma_last_at(peer, address.drop_last());
    }
}

/// An option sets what it names and nothing else: bindings add up, a listener and a session are taken
/// once, and texts are taken without the space around them.
pub proof fn an_option_sets_what_it_names(
    options: OptionsModel,
    option: ValuedOption,
    value: Seq<char>,
)
    ensures
        with_value(options, option, value) matches Ok(more) ==> {
            &&& more.once == options.once && more.capture_input == options.capture_input
            &&& option is Endpoint ==> more.endpoint == Some(value)
            &&& !(option is Endpoint) ==> more.endpoint == options.endpoint
            &&& option is EdgeBinding ==> more.edge_bindings.len() == options.edge_bindings.len() + 1
                && more.edge_bindings.drop_last() == options.edge_bindings && read_binding(value)
                == Ok::<BindingModel, UsageModel>(more.edge_bindings.last())
            &&& !(option is EdgeBinding) ==> more.edge_bindings == options.edge_bindings
            &&& option is PeerListen ==> options.peer_listen is None && more.peer_listen is Some
                && more.peer_listen == crate::address::read_socket(crate::text::trim(value))
            &&& !(option is PeerListen) ==> more.peer_listen == options.peer_listen
            &&& option is PeerSession ==> options.peer_session is None && more.peer_session is Some
                && read_peer_session(value) == Ok::<
                (Seq<char>, crate::address::SocketModel),
                UsageModel,
            >(more.peer_session->Some_0)
            &&& !(option is PeerSession) ==> more.peer_session == options.peer_session
            &&& option is LocalDeviceId ==> more.local_device_id is Some
                && crate::text::is_without_space_around(value, more.local_device_id->Some_0)
            &&& !(option is LocalDeviceId) ==> more.local_device_id == options.local_device_id
            &&& option is IdentityStore ==> more.identity_store is Some
                && crate::text::is_without_space_around(value, more.identity_store->Some_0)
            &&& !(option is IdentityStore) ==> more.identity_store == options.identity_store
            &&& option is IdentityDisplayName ==> more.identity_display_name is Some
                && crate::text::is_without_space_around(value, more.identity_display_name->Some_0)
            &&& !(option is IdentityDisplayName) ==> more.identity_display_name
                == options.identity_display_name
        },
        option is Endpoint || option is LocalDeviceId || option is IdentityStore
            || option is IdentityDisplayName ==> (with_value(options, option, value) is Err
            <==> forall|k: int|
            0 <= k < value.len() ==> crate::text::is_whitespace(#[trigger] value[k])),
        option is PeerListen && options.peer_listen is Some ==> with_value(options, option, value)
            == Err::<OptionsModel, UsageModel>(UsageModel::DuplicatePeerListen),
        option is PeerSession && options.peer_session is Some ==> with_value(
            options,
            option,
            value,
        ) == Err::<OptionsModel, UsageModel>(UsageModel::DuplicatePeerSession),
{
    crate::text::trimming_takes_off_space_only(value);
    if option is EdgeBinding && with_value(options, option, value) is Ok {
        let more = with_value(options, option, value)->Ok_0;
        assert(more.edge_bindings.drop_last() =~= options.edge_bindings);
    }
}

/// Options are read one after the other: a name with its value, `--once` and `--capture-input` alone, and
/// nothing else. A name without a value is missing one.
pub proof fn options_are_read_one_after_the_other(
    options: OptionsModel,
    option: ValuedOption,
    value: Seq<char>,
    rest: Seq<Seq<char>>,
)
    ensures
        option_name(ValuedOption::EdgeBinding) == "--edge-binding"@,
        option_name(ValuedOption::Endpoint) == "--endpoint"@,
        option_name(ValuedOption::PeerListen) == "--peer-listen"@,
        option_name(ValuedOption::PeerSession) == "--peer-session"@,
        option_name(ValuedOption::LocalDeviceId) == "--local-device-id"@,
        option_name(ValuedOption::IdentityStore) == "--identity-store"@,
        option_name(ValuedOption::IdentityDisplayName) == "--identity-display-name"@,
        read_options(options, Seq::empty()) == Ok::<OptionsModel, UsageModel>(options),
        read_options(options, seq!["--once"@] + rest) == read_options(
            OptionsModel { once: true, ..options },
            rest,
        ),
        read_options(options, seq!["--capture-input"@] + rest) == read_options(
            OptionsModel { capture_input: true, ..options },
            rest,
        ),
        read_options(options, seq![option_name(option), value] + rest) == (match with_value(
            options,
            option,
            value,
        ) {
            Ok(more) => read_options(more, rest),
            Err(error) => Err(error),
        }),
        read_options(options, seq![option_name(option)]) == Err::<OptionsModel, UsageModel>(
            value_missing(option),
        ),
{
    reveal_strlit("--once");
    reveal_strlit("--capture-input");
    assert("--once"@.len() == 6 && "--capture-input"@.len() == 15);
    lemma_names(option, value);
    lemma_value_follows(options, option, option_name(option), value, rest);
    assert((seq!["--once"@] + rest).drop_first() =~= rest);
    assert((seq!["--capture-input"@] + rest).drop_first() =~= rest);
    assert((seq!["--once"@] + rest)[0] == "--once"@);
    assert((seq!["--capture-input"@] + rest)[0] == "--capture-input"@);
    assert(seq![option_name(option)].drop_first() =~= Seq::<Seq<char>>::empty());
    assert(seq![option_name(option)][0] == option_name(option));
}

/// The daemon is told what to do by the first argument: each command by its own word and with nothing
/// behind it, and to serve by `--serve` or by saying nothing. A session needs an identity.
pub proof fn the_first_argument_is_the_command(rest: Seq<Seq<char>>)
    ensures
        read_command(Seq::empty()) == Ok::<CommandModel, UsageModel>(
            CommandModel::Serve(no_options()),
        ),
        read_command(seq!["--version"@] + rest) == alone(rest, CommandModel::Version),
        read_command(seq!["-V"@] + rest) == alone(rest, CommandModel::Version),
        read_command(seq!["--status"@] + rest) == alone(rest, CommandModel::Status),
        read_command(seq!["--akraz-smoke-loopback-transport"@] + rest) == alone(
            rest,
            CommandModel::LoopbackTransportSmoke,
        ),
        read_command(seq!["--akraz-smoke-tcp-transport"@] + rest) == alone(
            rest,
            CommandModel::TcpTransportSmoke,
        ),
        read_command(seq!["--akraz-smoke-peer-session"@] + rest) == alone(
            rest,
            CommandModel::PeerSessionSmoke,
        ),
        read_command(seq!["--akraz-smoke-peer-session-executor"@] + rest) == alone(
            rest,
            CommandModel::PeerSessionExecutorSmoke,
        ),
        read_command(seq!["--serve"@] + rest) is Ok ==> read_command(
            seq!["--serve"@] + rest,
        )->Ok_0 is Serve && read_options(no_options(), rest) == Ok::<OptionsModel, UsageModel>(
            read_command(seq!["--serve"@] + rest)->Ok_0->Serve_0,
        ),
        read_options(no_options(), rest) matches Ok(options) ==> (read_command(
            seq!["--serve"@] + rest,
        ) is Err <==> options.peer_session is Some && options.local_device_id is None
            && options.identity_store is None),
        rest.len() == 0 ==> alone(rest, CommandModel::Status) == Ok::<CommandModel, UsageModel>(
            CommandModel::Status,
        ),
        rest.len() > 0 ==> alone(rest, CommandModel::Status) == Err::<CommandModel, UsageModel>(
            UsageModel::UnknownArgument(rest[0]),
        ),
        !no_options().once && !no_options().capture_input && no_options().edge_bindings.len() == 0,
        no_options().endpoint is None && no_options().peer_listen is None
            && no_options().peer_session is None && no_options().local_device_id is None
            && no_options().identity_store is None && no_options().identity_display_name is None,
{
    reveal_strlit("--version");
    reveal_strlit("-V");
    reveal_strlit("--status");
    reveal_strlit("--akraz-smoke-loopback-transport");
    reveal_strlit("--akraz-smoke-tcp-transport");
    reveal_strlit("--akraz-smoke-peer-session");
    reveal_strlit("--akraz-smoke-peer-session-executor");
    reveal_strlit("--serve");
    assert("--version"@.len() == 9);
    assert("-V"@.len() == 2);
    assert("--status"@.len() == 8);
    assert("--akraz-smoke-loopback-transport"@.len() == 32);
    assert("--akraz-smoke-tcp-transport"@.len() == 27);
    assert("--akraz-smoke-peer-session"@.len() == 26);
    assert("--akraz-smoke-peer-session-executor"@.len() == 35);
    assert("--serve"@.len() == 7);
    lemma_first_word("--version"@, rest);
    lemma_first_word("-V"@, rest);
    lemma_first_word("--status"@, rest);
    lemma_first_word("--akraz-smoke-loopback-transport"@, rest);
    lemma_first_word("--akraz-smoke-tcp-transport"@, rest);
    lemma_first_word("--akraz-smoke-peer-session"@, rest);
    lemma_first_word("--akraz-smoke-peer-session-executor"@, rest);
    lemma_first_word("--serve"@, rest);
}

proof fn lemma_first_word(word: Seq<char>, rest: Seq<Seq<char>>)
    ensures
        (seq![word] + rest).len() > 0,
        (seq![word] + rest)[0] == word,
        (seq![word] + rest).drop_first() == rest,
{
    assert((seq![word] + rest).drop_first() =~= rest);
}

/// What a missing value is said of is the option that misses it.
pub proof fn a_missing_value_is_said_of_its_option(option: ValuedOption)
    ensures
        usage_text(value_missing(option)) == "missing value for "@ + option_name(option),
{
    reveal_strlit("missing value for ");
    reveal_strlit("--edge-binding");
    reveal_strlit("--endpoint");
    reveal_strlit("--peer-listen");
    reveal_strlit("--peer-session");
    reveal_strlit("--local-device-id");
    reveal_strlit("--identity-store");
    reveal_strlit("--identity-display-name");
    reveal_strlit("missing value for --edge-binding");
    reveal_strlit("missing value for --endpoint");
    reveal_strlit("missing value for --peer-listen");
    reveal_strlit("missing value for --peer-session");
    reveal_strlit("missing value for --local-device-id");
    reveal_strlit("missing value for --identity-store");
    reveal_strlit("missing value for --identity-display-name");
    assert(usage_text(value_missing(option)) =~= "missing value for "@ + option_name(option));
}

/// What options are seen to say, they say.
pub proof fn options_say_what_they_hold(options: ServeOptions)
    ensures
        options@.once == options.once,
        options@.capture_input == options.capture_input,
        options@.edge_bindings.len() == options.edge_bindings@.len(),
        forall|i: int|
            0 <= i < options.edge_bindings@.len() ==> (#[trigger] options@.edge_bindings[i]).local_edge
                == options.edge_bindings@[i].local_edge && options@.edge_bindings[i].remote_edge
                == options.edge_bindings@[i].remote_edge && options@.edge_bindings[i].peer_id
                == options.edge_bindings@[i].peer_id.value@,
        options.peer_listen matches Some(address) ==> options@.peer_listen == Some(address@),
        options.peer_listen is None ==> options@.peer_listen is None,
        options.peer_session matches Some(session) ==> options@.peer_session == Some(
            (session.peer_id.value@, session.address@),
        ),
        options.peer_session is None ==> options@.peer_session is None,
        options.local_device_id matches Some(id) ==> options@.local_device_id == Some(id.value@),
        options.identity_store matches Some(path) ==> options@.identity_store == Some(path@),
        options.identity_display_name matches Some(name) ==> options@.identity_display_name == Some(
            name@,
        ),
        options.endpoint matches Some(endpoint) ==> options@.endpoint == Some(endpoint.address@),
{
}

/// The daemon does what its first argument says: a command is told by its own word, alone, and without
/// any argument the daemon serves with nothing set.
pub proof fn the_daemon_is_told_by_its_first_argument(
    args: &Vec<String>,
    result: Result<DaemonCommand, DaemonUsageError>,
)
    requires
        call_ensures(parse_daemon_command, (args,), result),
    ensures
        args@.len() == 0 ==> result is Ok && result->Ok_0 is Serve && !result->Ok_0->Serve_0.once
            && !result->Ok_0->Serve_0.capture_input
            && result->Ok_0->Serve_0.edge_bindings@.len() == 0
            && result->Ok_0->Serve_0.peer_listen is None
            && result->Ok_0->Serve_0.peer_session is None
            && result->Ok_0->Serve_0.identity_store is None,
        args@.len() == 1 && args@[0]@ == "--serve"@ ==> result is Ok && result->Ok_0 is Serve
            && !result->Ok_0->Serve_0.once && !result->Ok_0->Serve_0.capture_input
            && result->Ok_0->Serve_0.edge_bindings@.len() == 0,
        args@.len() == 1 && (args@[0]@ == "--version"@ || args@[0]@ == "-V"@) ==> result is Ok
            && result->Ok_0 is Version,
        args@.len() == 1 && args@[0]@ == "--status"@ ==> result is Ok && result->Ok_0 is Status,
        args@.len() == 1 && args@[0]@ == "--akraz-smoke-loopback-transport"@ ==> result is Ok
            && result->Ok_0 is LoopbackTransportSmoke,
        args@.len() == 1 && args@[0]@ == "--akraz-smoke-tcp-transport"@ ==> result is Ok
            && result->Ok_0 is TcpTransportSmoke,
        args@.len() == 1 && args@[0]@ == "--akraz-smoke-peer-session"@ ==> result is Ok
            && result->Ok_0 is PeerSessionSmoke,
        args@.len() == 1 && args@[0]@ == "--akraz-smoke-peer-session-executor"@ ==> result is Ok
            && result->Ok_0 is PeerSessionExecutorSmoke,
{
    let words = crate::text::string_views(args@);
    assert(words.len() == args@.len());
    let none = Seq::<Seq<char>>::empty();
    the_first_argument_is_the_command(none);
    options_are_read_one_after_the_other(no_options(), ValuedOption::Endpoint, Seq::empty(), none);
    if args@.len() == 0 {
        assert(words =~= none);
    }
    if args@.len() == 1 {
        assert(words =~= seq![args@[0]@] + none);
    }
    if result is Ok && result->Ok_0 is Serve {
        options_say_what_they_hold(result->Ok_0->Serve_0);
    }
}

/// A word names the edge of that name, in any case and with space around it, and no other word names
/// one.
pub proof fn a_word_names_its_edge(value: &str, result: Result<ScreenEdge, DaemonUsageError>)
    requires
        call_ensures(parse_screen_edge, (value,), result),
    ensures
        ({
            let word = crate::text::lowercase(crate::text::trim(value@));
            &&& word == "left"@ <==> result is Ok && result->Ok_0 is Left
            &&& word == "right"@ <==> result is Ok && result->Ok_0 is Right
            &&& word == "top"@ <==> result is Ok && result->Ok_0 is Top
            &&& word == "bottom"@ <==> result is Ok && result->Ok_0 is Bottom
        }),
        result is Err ==> result->Err_0 is InvalidEdgeBinding,
{
    reveal_strlit("left");
    reveal_strlit("right");
    reveal_strlit("top");
    reveal_strlit("bottom");
    assert("left"@.len() == 4 && "right"@.len() == 5 && "top"@.len() == 3 && "bottom"@.len() == 6);
}

/// A text that is given to the daemon is taken without the space around it, and refused where nothing
/// else is in it.
pub proof fn given_texts_are_taken_without_space(
    value: &str,
    id: Result<DeviceId, DaemonUsageError>,
    store: Result<String, DaemonUsageError>,
    name: Result<String, DaemonUsageError>,
)
    requires
        call_ensures(parse_device_id, (value,), id),
        call_ensures(parse_identity_store, (value,), store),
        call_ensures(parse_identity_display_name, (value,), name),
    ensures
        ({
            let blank = forall|k: int|
                0 <= k < value@.len() ==> crate::text::is_whitespace(#[trigger] value@[k]);
            &&& id is Err <==> blank
            &&& store is Err <==> blank
            &&& name is Err <==> blank
        }),
        id is Ok ==> crate::text::is_without_space_around(value@, id->Ok_0.value@),
        store is Ok ==> crate::text::is_without_space_around(value@, store->Ok_0@),
        name is Ok ==> crate::text::is_without_space_around(value@, name->Ok_0@),
        id is Err ==> id->Err_0 is InvalidLocalDeviceId,
        store is Err ==> store->Err_0 is InvalidIdentityStore,
        name is Err ==> name->Err_0 is InvalidIdentityDisplayName,
{
    crate::text::trimming_takes_off_space_only(value@);
}

} // verus!
