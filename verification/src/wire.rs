//! Messages between peers: how commands are spelled and what is refused.

use vstd::prelude::*;

use crate::identity::AuthProof;
use crate::platform::PlatformError;
use crate::protocol::{CapabilityFlags, ProtocolVersion};
use crate::runtime::{
    EdgeCrossing, InjectedInputEvent, LogicalPoint, MouseButton, PeerId, PhysicalKey, PressState,
    ScreenEdge, SessionId,
};
use crate::text::{decimal_text, parse_number, same, strip_prefix};
use crate::transport::DaemonTransportCommand;

verus! {

/// The name of an edge.
pub open spec fn edge_name(edge: ScreenEdge) -> Seq<char> {
    match edge {
        ScreenEdge::Left => "left"@,
        ScreenEdge::Right => "right"@,
        ScreenEdge::Top => "top"@,
        ScreenEdge::Bottom => "bottom"@,
    }
}

/// The edge with a name, or why there is none.
pub open spec fn edge_named(name: Seq<char>) -> Result<ScreenEdge, Seq<char>> {
    if name == "left"@ {
        Ok(ScreenEdge::Left)
    } else if name == "right"@ {
        Ok(ScreenEdge::Right)
    } else if name == "top"@ {
        Ok(ScreenEdge::Top)
    } else if name == "bottom"@ {
        Ok(ScreenEdge::Bottom)
    } else {
        Err("unsupported peer transport screen edge: "@ + name)
    }
}

pub fn screen_edge_name(edge: ScreenEdge) -> (result: &'static str)
    ensures
        result@ == edge_name(edge),
{
    match edge {
        ScreenEdge::Left => "left",
        ScreenEdge::Right => "right",
        ScreenEdge::Top => "top",
        ScreenEdge::Bottom => "bottom",
    }
}

pub fn parse_screen_edge_name(value: &str) -> (result: Result<ScreenEdge, PlatformError>)
    ensures
        match result {
            Ok(edge) => edge_named(value@) == Ok::<ScreenEdge, Seq<char>>(edge),
            Err(error) => edge_named(value@) == Err::<ScreenEdge, Seq<char>>(error@),
        },
{
    if same(value, "left") {
        Ok(ScreenEdge::Left)
    } else if same(value, "right") {
        Ok(ScreenEdge::Right)
    } else if same(value, "top") {
        Ok(ScreenEdge::Top)
    } else if same(value, "bottom") {
        Ok(ScreenEdge::Bottom)
    } else {
        Err(
            PlatformError::from_message(
                "unsupported peer transport screen edge: ".to_owned().concat(value),
            ),
        )
    }
}

/// The name of a press state.
pub open spec fn state_name(state: PressState) -> Seq<char> {
    match state {
        PressState::Pressed => "pressed"@,
        PressState::Released => "released"@,
    }
}

/// The press state with a name, or why there is none.
pub open spec fn state_named(name: Seq<char>) -> Result<PressState, Seq<char>> {
    if name == "pressed"@ {
        Ok(PressState::Pressed)
    } else if name == "released"@ {
        Ok(PressState::Released)
    } else {
        Err("unsupported peer transport press state: "@ + name)
    }
}

pub fn press_state_name(state: PressState) -> (result: &'static str)
    ensures
        result@ == state_name(state),
{
    match state {
        PressState::Pressed => "pressed",
        PressState::Released => "released",
    }
}

pub fn parse_press_state_name(value: &str) -> (result: Result<PressState, PlatformError>)
    ensures
        match result {
            Ok(state) => state_named(value@) == Ok::<PressState, Seq<char>>(state),
            Err(error) => state_named(value@) == Err::<PressState, Seq<char>>(error@),
        },
{
    if same(value, "pressed") {
        Ok(PressState::Pressed)
    } else if same(value, "released") {
        Ok(PressState::Released)
    } else {
        Err(
            PlatformError::from_message(
                "unsupported peer transport press state: ".to_owned().concat(value),
            ),
        )
    }
}

/// The number behind a prefix, or why there is none.
pub open spec fn prefixed_code(name: Seq<char>, prefix: Seq<char>) -> Result<u16, Seq<char>> {
    match crate::text::after_prefix(name, prefix) {
        None => Err("unsupported peer transport value: "@ + name),
        Some(digits) => match crate::text::parsed_number(digits, 65535) {
            Some(code) => Ok(code as u16),
            None => Err(
                "invalid peer transport numeric code "@ + digits + ": "@
                    + crate::text::number_failure(digits, 65535),
            ),
        },
    }
}

pub fn parse_prefixed_u16(value: &str, prefix: &str) -> (result: Result<u16, PlatformError>)
    ensures
        match result {
            Ok(code) => prefixed_code(value@, prefix@) == Ok::<u16, Seq<char>>(code),
            Err(error) => prefixed_code(value@, prefix@) == Err::<u16, Seq<char>>(error@),
        },
{
    match strip_prefix(value, prefix) {
        None => Err(
            PlatformError::from_message(
                "unsupported peer transport value: ".to_owned().concat(value),
            ),
        ),
        Some(digits) => match parse_number(digits, 65535) {
            Ok(code) => Ok(code as u16),
            Err(reason) => Err(
                PlatformError::from_message(
                    "invalid peer transport numeric code ".to_owned().concat(digits).concat(
                        ": ",
                    ).concat(reason),
                ),
            ),
        },
    }
}

/// The name of a key.
pub open spec fn key_name(key: PhysicalKey) -> Seq<char> {
    match key {
        PhysicalKey::LeftShift => "leftShift"@,
        PhysicalKey::RightShift => "rightShift"@,
        PhysicalKey::LeftControl => "leftControl"@,
        PhysicalKey::RightControl => "rightControl"@,
        PhysicalKey::LeftAlt => "leftAlt"@,
        PhysicalKey::RightAlt => "rightAlt"@,
        PhysicalKey::LeftMeta => "leftMeta"@,
        PhysicalKey::RightMeta => "rightMeta"@,
        PhysicalKey::Code(code) => "code:"@ + crate::text::decimal(code as nat),
    }
}

/// The key with a name, or why there is none.
pub open spec fn key_named(name: Seq<char>) -> Result<PhysicalKey, Seq<char>> {
    if name == "leftShift"@ {
        Ok(PhysicalKey::LeftShift)
    } else if name == "rightShift"@ {
        Ok(PhysicalKey::RightShift)
    } else if name == "leftControl"@ {
        Ok(PhysicalKey::LeftControl)
    } else if name == "rightControl"@ {
        Ok(PhysicalKey::RightControl)
    } else if name == "leftAlt"@ {
        Ok(PhysicalKey::LeftAlt)
    } else if name == "rightAlt"@ {
        Ok(PhysicalKey::RightAlt)
    } else if name == "leftMeta"@ {
        Ok(PhysicalKey::LeftMeta)
    } else if name == "rightMeta"@ {
        Ok(PhysicalKey::RightMeta)
    } else {
        match prefixed_code(name, "code:"@) {
            Ok(code) => Ok(PhysicalKey::Code(code)),
            Err(reason) => Err(reason),
        }
    }
}

pub fn physical_key_name(key: PhysicalKey) -> (result: String)
    ensures
        result@ == key_name(key),
{
    match key {
        PhysicalKey::LeftShift => "leftShift".to_owned(),
        PhysicalKey::RightShift => "rightShift".to_owned(),
        PhysicalKey::LeftControl => "leftControl".to_owned(),
        PhysicalKey::RightControl => "rightControl".to_owned(),
        PhysicalKey::LeftAlt => "leftAlt".to_owned(),
        PhysicalKey::RightAlt => "rightAlt".to_owned(),
        PhysicalKey::LeftMeta => "leftMeta".to_owned(),
        PhysicalKey::RightMeta => "rightMeta".to_owned(),
        PhysicalKey::Code(code) => "code:".to_owned().concat(decimal_text(code as u64).as_str()),
    }
}

pub fn parse_physical_key_name(value: &str) -> (result: Result<PhysicalKey, PlatformError>)
    ensures
        match result {
            Ok(key) => key_named(value@) == Ok::<PhysicalKey, Seq<char>>(key),
            Err(error) => key_named(value@) == Err::<PhysicalKey, Seq<char>>(error@),
        },
{
    if same(value, "leftShift") {
        Ok(PhysicalKey::LeftShift)
    } else if same(value, "rightShift") {
        Ok(PhysicalKey::RightShift)
    } else if same(value, "leftControl") {
        Ok(PhysicalKey::LeftControl)
    } else if same(value, "rightControl") {
        Ok(PhysicalKey::RightControl)
    } else if same(value, "leftAlt") {
        Ok(PhysicalKey::LeftAlt)
    } else if same(value, "rightAlt") {
        Ok(PhysicalKey::RightAlt)
    } else if same(value, "leftMeta") {
        Ok(PhysicalKey::LeftMeta)
    } else if same(value, "rightMeta") {
        Ok(PhysicalKey::RightMeta)
    } else {
        match parse_prefixed_u16(value, "code:") {
            Ok(code) => Ok(PhysicalKey::Code(code)),
            Err(error) => Err(error),
        }
    }
}

/// The name of a mouse button.
pub open spec fn button_name(button: MouseButton) -> Seq<char> {
    match button {
        MouseButton::Left => "left"@,
        MouseButton::Right => "right"@,
        MouseButton::Middle => "middle"@,
        MouseButton::Back => "back"@,
        MouseButton::Forward => "forward"@,
        MouseButton::Other(code) => "other:"@ + crate::text::decimal(code as nat),
    }
}

/// The mouse button with a name, or why there is none.
pub open spec fn button_named(name: Seq<char>) -> Result<MouseButton, Seq<char>> {
    if name == "left"@ {
        Ok(MouseButton::Left)
    } else if name == "right"@ {
        Ok(MouseButton::Right)
    } else if name == "middle"@ {
        Ok(MouseButton::Middle)
    } else if name == "back"@ {
        Ok(MouseButton::Back)
    } else if name == "forward"@ {
        Ok(MouseButton::Forward)
    } else {
        match prefixed_code(name, "other:"@) {
            Ok(code) => Ok(MouseButton::Other(code)),
            Err(reason) => Err(reason),
        }
    }
}

pub fn mouse_button_name(button: MouseButton) -> (result: String)
    ensures
        result@ == button_name(button),
{
    match button {
        MouseButton::Left => "left".to_owned(),
        MouseButton::Right => "right".to_owned(),
        MouseButton::Middle => "middle".to_owned(),
        MouseButton::Back => "back".to_owned(),
        MouseButton::Forward => "forward".to_owned(),
        MouseButton::Other(code) => "other:".to_owned().concat(
            decimal_text(code as u64).as_str(),
        ),
    }
}

pub fn parse_mouse_button_name(value: &str) -> (result: Result<MouseButton, PlatformError>)
    ensures
        match result {
            Ok(button) => button_named(value@) == Ok::<MouseButton, Seq<char>>(button),
            Err(error) => button_named(value@) == Err::<MouseButton, Seq<char>>(error@),
        },
{
    if same(value, "left") {
        Ok(MouseButton::Left)
    } else if same(value, "right") {
        Ok(MouseButton::Right)
    } else if same(value, "middle") {
        Ok(MouseButton::Middle)
    } else if same(value, "back") {
        Ok(MouseButton::Back)
    } else if same(value, "forward") {
        Ok(MouseButton::Forward)
    } else {
        match parse_prefixed_u16(value, "other:") {
            Ok(code) => Ok(MouseButton::Other(code)),
            Err(error) => Err(error),
        }
    }
}

/// A protocol version between peers.
#[derive(Debug, Clone, Copy, PartialEq, Eq, Structural)]
pub struct PeerTransportProtocolVersion {
    pub major: u16,
    pub minor: u16,
}

impl PeerTransportProtocolVersion {
    pub fn current() -> (result: Self)
        ensures
            result.major == crate::protocol::PROTOCOL_MAJOR,
            result.minor == crate::protocol::PROTOCOL_MINOR,
    {
        let version = ProtocolVersion::current();
        PeerTransportProtocolVersion { major: version.major, minor: version.minor }
    }
}

/// What is said of a protocol version that is not spoken here.
pub open spec fn unsupported_protocol(protocol: PeerTransportProtocolVersion) -> Seq<char> {
    "unsupported peer transport protocol "@ + crate::text::decimal(protocol.major as nat) + "."@
        + crate::text::decimal(protocol.minor as nat)
}

/// The version to speak with a peer that speaks another, where there is one.
pub fn protocol_version_from_wire(protocol: PeerTransportProtocolVersion) -> (result: Result<
    ProtocolVersion,
    PlatformError,
>)
    ensures
        match result {
            Ok(version) => protocol.major == crate::protocol::PROTOCOL_MAJOR && version.major
                == protocol.major && version.minor == (if protocol.minor
                <= crate::protocol::PROTOCOL_MINOR {
                protocol.minor
            } else {
                crate::protocol::PROTOCOL_MINOR
            }),
            Err(error) => protocol.major != crate::protocol::PROTOCOL_MAJOR && error@
                == unsupported_protocol(protocol),
        },
{
    let version = ProtocolVersion { major: protocol.major, minor: protocol.minor };
    match ProtocolVersion::negotiate_with_current(version) {
        Ok(version) => Ok(version),
        Err(_) => Err(
            PlatformError::from_message(
                "unsupported peer transport protocol ".to_owned().concat(
                    decimal_text(protocol.major as u64).as_str(),
                ).concat(".").concat(decimal_text(protocol.minor as u64).as_str()),
            ),
        ),
    }
}

/// An edge crossing between peers.
#[derive(Debug, PartialEq, Eq)]
pub struct PeerTransportCrossing {
    pub peer_id: String,
    pub local_edge: String,
    pub remote_edge: String,
    pub exit_x: i32,
    pub exit_y: i32,
    pub edge_offset: i32,
}

/// What a crossing says.
pub struct CrossingModel {
    pub peer_id: Seq<char>,
    pub local_edge: ScreenEdge,
    pub remote_edge: ScreenEdge,
    pub exit_position: LogicalPoint,
    pub edge_offset: i32,
}

impl View for EdgeCrossing {
    type V = CrossingModel;

    open spec fn view(&self) -> CrossingModel {
        CrossingModel {
            peer_id: self.peer_id@,
            local_edge: self.local_edge,
            remote_edge: self.remote_edge,
            exit_position: self.exit_position,
            edge_offset: self.edge_offset,
        }
    }
}

/// How a crossing is spelled.
pub struct WireCrossingModel {
    pub peer_id: Seq<char>,
    pub local_edge: Seq<char>,
    pub remote_edge: Seq<char>,
    pub exit_x: i32,
    pub exit_y: i32,
    pub edge_offset: i32,
}

impl View for PeerTransportCrossing {
    type V = WireCrossingModel;

    open spec fn view(&self) -> WireCrossingModel {
        WireCrossingModel {
            peer_id: self.peer_id@,
            local_edge: self.local_edge@,
            remote_edge: self.remote_edge@,
            exit_x: self.exit_x,
            exit_y: self.exit_y,
            edge_offset: self.edge_offset,
        }
    }
}

/// How a crossing is spelled.
pub open spec fn spell_crossing(crossing: CrossingModel) -> WireCrossingModel {
    WireCrossingModel {
        peer_id: crossing.peer_id,
        local_edge: edge_name(crossing.local_edge),
        remote_edge: edge_name(crossing.remote_edge),
        exit_x: crossing.exit_position.x,
        exit_y: crossing.exit_position.y,
        edge_offset: crossing.edge_offset,
    }
}

/// The crossing that is spelled, or what is wrong with it.
pub open spec fn read_crossing(wire: WireCrossingModel) -> Result<CrossingModel, Seq<char>> {
    match edge_named(wire.local_edge) {
        Err(reason) => Err(reason),
        Ok(local_edge) => match edge_named(wire.remote_edge) {
            Err(reason) => Err(reason),
            Ok(remote_edge) => Ok(
                CrossingModel {
                    peer_id: wire.peer_id,
                    local_edge,
                    remote_edge,
                    exit_position: LogicalPoint { x: wire.exit_x, y: wire.exit_y },
                    edge_offset: wire.edge_offset,
                },
            ),
        },
    }
}

impl PeerTransportCrossing {
    pub fn from_crossing(crossing: &EdgeCrossing) -> (result: Self)
        ensures
            result@ == spell_crossing(crossing@),
    {
        PeerTransportCrossing {
            peer_id: crossing.peer_id.as_str().to_owned(),
            local_edge: screen_edge_name(crossing.local_edge).to_owned(),
            remote_edge: screen_edge_name(crossing.remote_edge).to_owned(),
            exit_x: crossing.exit_position.x,
            exit_y: crossing.exit_position.y,
            edge_offset: crossing.edge_offset,
        }
    }

    pub fn into_crossing(self) -> (result: Result<EdgeCrossing, PlatformError>)
        ensures
            match result {
                Ok(crossing) => read_crossing(self@) == Ok::<CrossingModel, Seq<char>>(crossing@),
                Err(error) => read_crossing(self@) == Err::<CrossingModel, Seq<char>>(error@),
            },
    {
        let local_edge = match parse_screen_edge_name(self.local_edge.as_str()) {
            Ok(edge) => edge,
            Err(error) => {
                return Err(error);
            },
        };
        let remote_edge = match parse_screen_edge_name(self.remote_edge.as_str()) {
            Ok(edge) => edge,
            Err(error) => {
                return Err(error);
            },
        };
        Ok(
            EdgeCrossing {
                peer_id: PeerId::new(self.peer_id.as_str()),
                local_edge,
                remote_edge,
                exit_position: LogicalPoint { x: self.exit_x, y: self.exit_y },
                edge_offset: self.edge_offset,
            },
        )
    }
}

/// An input event between peers.
#[allow(inconsistent_fields)]
#[derive(Debug, PartialEq, Eq)]
pub enum PeerTransportInputEvent {
    Key { key: String, state: String },
    MouseButton { button: String, state: String },
    PointerMoved { delta_x: i32, delta_y: i32 },
}

/// How an input event is spelled.
pub enum WireEventModel {
    Key { key: Seq<char>, key_state: Seq<char> },
    MouseButton { button: Seq<char>, button_state: Seq<char> },
    PointerMoved { delta_x: i32, delta_y: i32 },
}

impl View for PeerTransportInputEvent {
    type V = WireEventModel;

    open spec fn view(&self) -> WireEventModel {
        match self {
            PeerTransportInputEvent::Key { key, state } => WireEventModel::Key {
                key: key@,
                key_state: state@,
            },
            PeerTransportInputEvent::MouseButton { button, state } => WireEventModel::MouseButton {
                button: button@,
                button_state: state@,
            },
            PeerTransportInputEvent::PointerMoved { delta_x, delta_y } => {
                WireEventModel::PointerMoved { delta_x: *delta_x, delta_y: *delta_y }
            },
        }
    }
}

/// How an input event is spelled.
pub open spec fn spell_event(event: InjectedInputEvent) -> WireEventModel {
    match event {
        InjectedInputEvent::Key { key, state } => WireEventModel::Key {
            key: key_name(key),
            key_state: state_name(state),
        },
        InjectedInputEvent::MouseButton { button, state } => WireEventModel::MouseButton {
            button: button_name(button),
            button_state: state_name(state),
        },
        InjectedInputEvent::PointerMoved { delta_x, delta_y } => WireEventModel::PointerMoved {
            delta_x,
            delta_y,
        },
    }
}

/// The input event that is spelled, or what is wrong with it.
pub open spec fn read_event(wire: WireEventModel) -> Result<InjectedInputEvent, Seq<char>> {
    match wire {
        WireEventModel::Key { key, key_state } => match key_named(key) {
            Err(reason) => Err(reason),
            Ok(key) => match state_named(key_state) {
                Err(reason) => Err(reason),
                Ok(state) => Ok(InjectedInputEvent::Key { key, state }),
            },
        },
        WireEventModel::MouseButton { button, button_state } => match button_named(button) {
            Err(reason) => Err(reason),
            Ok(button) => match state_named(button_state) {
                Err(reason) => Err(reason),
                Ok(state) => Ok(InjectedInputEvent::MouseButton { button, state }),
            },
        },
        WireEventModel::PointerMoved { delta_x, delta_y } => Ok(
            InjectedInputEvent::PointerMoved { delta_x, delta_y },
        ),
    }
}

impl PeerTransportInputEvent {
    pub fn from_event(event: &InjectedInputEvent) -> (result: Self)
        ensures
            result@ == spell_event(*event),
    {
        match event {
            InjectedInputEvent::Key { key, state } => PeerTransportInputEvent::Key {
                key: physical_key_name(*key),
                state: press_state_name(*state).to_owned(),
            },
            InjectedInputEvent::MouseButton { button, state } => {
                PeerTransportInputEvent::MouseButton {
                    button: mouse_button_name(*button),
                    state: press_state_name(*state).to_owned(),
                }
            },
            InjectedInputEvent::PointerMoved { delta_x, delta_y } => {
                PeerTransportInputEvent::PointerMoved { delta_x: *delta_x, delta_y: *delta_y }
            },
        }
    }

    pub fn into_input_event(self) -> (result: Result<InjectedInputEvent, PlatformError>)
        ensures
            match result {
                Ok(event) => read_event(self@) == Ok::<InjectedInputEvent, Seq<char>>(event),
                Err(error) => read_event(self@) == Err::<InjectedInputEvent, Seq<char>>(error@),
            },
    {
        match self {
            PeerTransportInputEvent::Key { key, state } => match parse_physical_key_name(
                key.as_str(),
            ) {
                Err(error) => Err(error),
                Ok(key) => match parse_press_state_name(state.as_str()) {
                    Err(error) => Err(error),
                    Ok(state) => Ok(InjectedInputEvent::Key { key, state }),
                },
            },
            PeerTransportInputEvent::MouseButton { button, state } => match parse_mouse_button_name(
                button.as_str(),
            ) {
                Err(error) => Err(error),
                Ok(button) => match parse_press_state_name(state.as_str()) {
                    Err(error) => Err(error),
                    Ok(state) => Ok(InjectedInputEvent::MouseButton { button, state }),
                },
            },
            PeerTransportInputEvent::PointerMoved { delta_x, delta_y } => Ok(
                InjectedInputEvent::PointerMoved { delta_x, delta_y },
            ),
        }
    }
}

/// A command between peers.
#[derive(Debug, PartialEq, Eq)]
pub enum PeerTransportCommandPayload {
    StartRemoteSession { peer_id: String, crossing: Option<PeerTransportCrossing> },
    ForwardInput { event: PeerTransportInputEvent },
    ReleaseAllInputs,
    StopRemoteSession { session_id: Option<String> },
}

/// What a command asks for.
pub enum CommandModel {
    StartRemoteSession { peer_id: Seq<char>, crossing: Option<CrossingModel> },
    ForwardInput { event: InjectedInputEvent },
    ReleaseAllInputs,
    StopRemoteSession { session_id: Option<Seq<char>> },
}

impl View for DaemonTransportCommand {
    type V = CommandModel;

    open spec fn view(&self) -> CommandModel {
        match self {
            DaemonTransportCommand::StartRemoteSession { peer_id, crossing } => {
                CommandModel::StartRemoteSession {
                    peer_id: peer_id@,
                    crossing: match crossing {
                        Some(crossing) => Some(crossing@),
                        None => None,
                    },
                }
            },
            DaemonTransportCommand::ForwardInput { event } => CommandModel::ForwardInput {
                event: *event,
            },
            DaemonTransportCommand::ReleaseAllInputs => CommandModel::ReleaseAllInputs,
            DaemonTransportCommand::StopRemoteSession { session_id } => {
                CommandModel::StopRemoteSession {
                    session_id: match session_id {
                        Some(session_id) => Some(session_id@),
                        None => None,
                    },
                }
            },
        }
    }
}

/// How a command is spelled.
pub enum WireCommandModel {
    StartRemoteSession { peer_id: Seq<char>, crossing: Option<WireCrossingModel> },
    ForwardInput { event: WireEventModel },
    ReleaseAllInputs,
    StopRemoteSession { session_id: Option<Seq<char>> },
}

impl View for PeerTransportCommandPayload {
    type V = WireCommandModel;

    open spec fn view(&self) -> WireCommandModel {
        match self {
            PeerTransportCommandPayload::StartRemoteSession { peer_id, crossing } => {
                WireCommandModel::StartRemoteSession {
                    peer_id: peer_id@,
                    crossing: match crossing {
                        Some(crossing) => Some(crossing@),
                        None => None,
                    },
                }
            },
            PeerTransportCommandPayload::ForwardInput { event } => WireCommandModel::ForwardInput {
                event: event@,
            },
            PeerTransportCommandPayload::ReleaseAllInputs => WireCommandModel::ReleaseAllInputs,
            PeerTransportCommandPayload::StopRemoteSession { session_id } => {
                WireCommandModel::StopRemoteSession {
                    session_id: match session_id {
                        Some(session_id) => Some(session_id@),
                        None => None,
                    },
                }
            },
        }
    }
}

/// How a command is spelled.
pub open spec fn spell_command(command: CommandModel) -> WireCommandModel {
    match command {
        CommandModel::StartRemoteSession { peer_id, crossing } => {
            WireCommandModel::StartRemoteSession {
                peer_id,
                crossing: match crossing {
                    Some(crossing) => Some(spell_crossing(crossing)),
                    None => None,
                },
            }
        },
        CommandModel::ForwardInput { event } => WireCommandModel::ForwardInput {
            event: spell_event(event),
        },
        CommandModel::ReleaseAllInputs => WireCommandModel::ReleaseAllInputs,
        CommandModel::StopRemoteSession { session_id } => WireCommandModel::StopRemoteSession {
            session_id,
        },
    }
}

/// The command that is spelled, or what is wrong with it.
pub open spec fn read_command(wire: WireCommandModel) -> Result<CommandModel, Seq<char>> {
    match wire {
        WireCommandModel::StartRemoteSession { peer_id, crossing } => match crossing {
            None => Ok(CommandModel::StartRemoteSession { peer_id, crossing: None }),
            Some(crossing) => match read_crossing(crossing) {
                Ok(crossing) => Ok(
                    CommandModel::StartRemoteSession { peer_id, crossing: Some(crossing) },
                ),
                Err(reason) => Err(reason),
            },
        },
        WireCommandModel::ForwardInput { event } => match read_event(event) {
            Ok(event) => Ok(CommandModel::ForwardInput { event }),
            Err(reason) => Err(reason),
        },
        WireCommandModel::ReleaseAllInputs => Ok(CommandModel::ReleaseAllInputs),
        WireCommandModel::StopRemoteSession { session_id } => Ok(
            CommandModel::StopRemoteSession { session_id },
        ),
    }
}

impl PeerTransportCommandPayload {
    pub fn from_command(command: &DaemonTransportCommand) -> (result: Self)
        ensures
            result@ == spell_command(command@),
    {
        match command {
            DaemonTransportCommand::StartRemoteSession { peer_id, crossing } => {
                PeerTransportCommandPayload::StartRemoteSession {
                    peer_id: peer_id.as_str().to_owned(),
                    crossing: match crossing {
                        Some(crossing) => Some(PeerTransportCrossing::from_crossing(crossing)),
                        None => None,
                    },
                }
            },
            DaemonTransportCommand::ForwardInput { event } => {
                PeerTransportCommandPayload::ForwardInput {
                    event: PeerTransportInputEvent::from_event(event),
                }
            },
            DaemonTransportCommand::ReleaseAllInputs => {
                PeerTransportCommandPayload::ReleaseAllInputs
            },
            DaemonTransportCommand::StopRemoteSession { session_id } => {
                PeerTransportCommandPayload::StopRemoteSession {
                    session_id: match session_id {
                        Some(session_id) => Some(session_id.as_str().to_owned()),
                        None => None,
                    },
                }
            },
        }
    }

    pub fn into_command(self) -> (result: Result<DaemonTransportCommand, PlatformError>)
        ensures
            match result {
                Ok(command) => read_command(self@) == Ok::<CommandModel, Seq<char>>(command@),
                Err(error) => read_command(self@) == Err::<CommandModel, Seq<char>>(error@),
            },
    {
        match self {
            PeerTransportCommandPayload::StartRemoteSession { peer_id, crossing } => {
                match crossing {
                    None => Ok(
                        DaemonTransportCommand::StartRemoteSession {
                            peer_id: PeerId::new(peer_id.as_str()),
                            crossing: None,
                        },
                    ),
                    Some(crossing) => match crossing.into_crossing() {
                        Ok(crossing) => Ok(
                            DaemonTransportCommand::StartRemoteSession {
                                peer_id: PeerId::new(peer_id.as_str()),
                                crossing: Some(crossing),
                            },
                        ),
                        Err(error) => Err(error),
                    },
                }
            },
            PeerTransportCommandPayload::ForwardInput { event } => match event.into_input_event() {
                Ok(event) => Ok(DaemonTransportCommand::ForwardInput { event }),
                Err(error) => Err(error),
            },
            PeerTransportCommandPayload::ReleaseAllInputs => Ok(
                DaemonTransportCommand::ReleaseAllInputs,
            ),
            PeerTransportCommandPayload::StopRemoteSession { session_id } => Ok(
                DaemonTransportCommand::StopRemoteSession {
                    session_id: match session_id {
                        Some(session_id) => Some(SessionId::new(session_id.as_str())),
                        None => None,
                    },
                },
            ),
        }
    }
}

/// One command with the version of the protocol it is spelled in.
#[derive(Debug, PartialEq, Eq)]
pub struct PeerTransportMessage {
    pub protocol: PeerTransportProtocolVersion,
    pub command: PeerTransportCommandPayload,
}

impl PeerTransportMessage {
    pub fn from_command(command: &DaemonTransportCommand) -> (result: Self)
        ensures
            result.protocol.major == crate::protocol::PROTOCOL_MAJOR,
            result.protocol.minor == crate::protocol::PROTOCOL_MINOR,
            result.command@ == spell_command(command@),
    {
        PeerTransportMessage {
            protocol: PeerTransportProtocolVersion::current(),
            command: PeerTransportCommandPayload::from_command(command),
        }
    }

    pub fn into_command(self) -> (result: Result<DaemonTransportCommand, PlatformError>)
        ensures
            read_message(self.protocol, self.command@, result),
    {
        match protocol_version_from_wire(self.protocol) {
            Ok(_) => self.command.into_command(),
            Err(error) => Err(error),
        }
    }
}

/// Whether an outcome is right for a message: a version that is not spoken here is refused before
/// the command is looked at.
pub open spec fn read_message(
    protocol: PeerTransportProtocolVersion,
    command: WireCommandModel,
    result: Result<DaemonTransportCommand, PlatformError>,
) -> bool {
    if protocol.major != crate::protocol::PROTOCOL_MAJOR {
        result matches Err(error) && error@ == unsupported_protocol(protocol)
    } else {
        match result {
            Ok(read) => read_command(command) == Ok::<CommandModel, Seq<char>>(read@),
            Err(error) => read_command(command) == Err::<CommandModel, Seq<char>>(error@),
        }
    }
}

/// A name is read as what it names: no two edges share a name.
pub proof fn edge_is_found_by_name(edge: ScreenEdge)
    ensures
        edge_named(edge_name(edge)) == Ok::<ScreenEdge, Seq<char>>(edge),
{
    reveal_strlit("left");
    reveal_strlit("right");
    reveal_strlit("top");
    reveal_strlit("bottom");
    assert("left"@.len() == 4);
    assert("right"@.len() == 5);
    assert("top"@.len() == 3);
    assert("bottom"@.len() == 6);
}

/// A name is read as what it names: the two press states have different names.
pub proof fn state_is_found_by_name(state: PressState)
    ensures
        state_named(state_name(state)) == Ok::<PressState, Seq<char>>(state),
{
    reveal_strlit("pressed");
    reveal_strlit("released");
    assert("pressed"@[0] != "released"@[0]);
}

/// A number behind a prefix is read as that number.
proof fn lemma_prefixed_code(prefix: Seq<char>, code: u16)
    ensures
        prefixed_code(prefix + crate::text::decimal(code as nat), prefix) == Ok::<u16, Seq<char>>(
            code,
        ),
{
    let digits = crate::text::decimal(code as nat);
    crate::text::lemma_decimal_parses(code as nat, 65535);
    assert((prefix + digits).subrange(0, prefix.len() as int) =~= prefix);
    assert((prefix + digits).subrange(prefix.len() as int, (prefix + digits).len() as int)
        =~= digits);
}

/// A name is read as what it names: no two keys share a name.
pub proof fn key_is_found_by_name(key: PhysicalKey)
    ensures
        key_named(key_name(key)) == Ok::<PhysicalKey, Seq<char>>(key),
{
    reveal_strlit("leftShift");
    reveal_strlit("rightShift");
    reveal_strlit("leftControl");
    reveal_strlit("rightControl");
    reveal_strlit("leftAlt");
    reveal_strlit("rightAlt");
    reveal_strlit("leftMeta");
    reveal_strlit("rightMeta");
    reveal_strlit("code:");
    assert("leftShift"@.len() == 9 && "leftShift"@[0] == 'l' && "leftShift"@[4] == 'S');
    assert("rightShift"@.len() == 10 && "rightShift"@[0] == 'r' && "rightShift"@[5] == 'S');
    assert("leftControl"@.len() == 11 && "leftControl"@[0] == 'l' && "leftControl"@[4] == 'C');
    assert("rightControl"@.len() == 12 && "rightControl"@[0] == 'r' && "rightControl"@[5] == 'C');
    assert("leftAlt"@.len() == 7 && "leftAlt"@[0] == 'l' && "leftAlt"@[4] == 'A');
    assert("rightAlt"@.len() == 8 && "rightAlt"@[0] == 'r' && "rightAlt"@[5] == 'A');
    assert("leftMeta"@.len() == 8 && "leftMeta"@[0] == 'l' && "leftMeta"@[4] == 'M');
    assert("rightMeta"@.len() == 9 && "rightMeta"@[0] == 'r' && "rightMeta"@[5] == 'M');
    if let PhysicalKey::Code(code) = key {
        let name = key_name(key);
        assert(name[0] == 'c');
        lemma_prefixed_code("code:"@, code);
    }
}

/// A name is read as what it names: no two buttons share a name.
pub proof fn button_is_found_by_name(button: MouseButton)
    ensures
        button_named(button_name(button)) == Ok::<MouseButton, Seq<char>>(button),
{
    reveal_strlit("left");
    reveal_strlit("right");
    reveal_strlit("middle");
    reveal_strlit("back");
    reveal_strlit("forward");
    reveal_strlit("other:");
    assert("left"@.len() == 4 && "left"@[0] == 'l');
    assert("right"@.len() == 5 && "right"@[0] == 'r');
    assert("middle"@.len() == 6 && "middle"@[0] == 'm');
    assert("back"@.len() == 4 && "back"@[0] == 'b');
    assert("forward"@.len() == 7 && "forward"@[0] == 'f');
    if let MouseButton::Other(code) = button {
        let name = button_name(button);
        assert(name[0] == 'o');
        lemma_prefixed_code("other:"@, code);
    }
}

/// A command that was spelled is read as the command that it was.
pub proof fn spelled_command_reads_back(command: CommandModel)
    ensures
        read_command(spell_command(command)) == Ok::<CommandModel, Seq<char>>(command),
{
    match command {
        CommandModel::StartRemoteSession { peer_id, crossing } => {
            if let Some(crossing) = crossing {
                edge_is_found_by_name(crossing.local_edge);
                edge_is_found_by_name(crossing.remote_edge);
            }
        },
        CommandModel::ForwardInput { event } => match event {
            InjectedInputEvent::Key { key, state } => {
                key_is_found_by_name(key);
                state_is_found_by_name(state);
            },
            InjectedInputEvent::MouseButton { button, state } => {
                button_is_found_by_name(button);
                state_is_found_by_name(state);
            },
            InjectedInputEvent::PointerMoved { .. } => {},
        },
        _ => {},
    }
}

/// A message that was made of a command is read as that command.
pub proof fn message_round_trips(
    command: DaemonTransportCommand,
    message: PeerTransportMessage,
    result: Result<DaemonTransportCommand, PlatformError>,
)
    requires
        message.protocol.major == crate::protocol::PROTOCOL_MAJOR,
        message.command@ == spell_command(command@),
        read_message(message.protocol, message.command@, result),
    ensures
        result is Ok,
        result->Ok_0@ == command@,
{
    spelled_command_reads_back(command@);
}

/// What ends a handshake: the session's name, its first sequence number and what both sides can do.
#[derive(Debug, PartialEq, Eq)]
pub struct SessionReady {
    pub session_id: String,
    pub sequence_base: u64,
    pub capabilities: CapabilityFlags,
}

/// A frame of a persistent session.
#[derive(Debug, PartialEq, Eq)]
pub enum PeerTransportSessionFrame {
    Hello {
        protocol: PeerTransportProtocolVersion,
        device_id: String,
        peer_id: String,
        nonce: Option<[u8; 32]>,
        capabilities: CapabilityFlags,
    },
    AuthProof { proof: AuthProof },
    SessionReady { ready: SessionReady },
    Command { sequence: u64, command: PeerTransportCommandPayload },
    Heartbeat { sequence: u64 },
}

/// The words by which peers name edges, press states, keys and buttons, each word for one thing. Keys
/// and buttons without a word of their own go by their number.
pub proof fn words_between_peers(edge: ScreenEdge, state: PressState, code: u16)
    ensures
        edge_name(ScreenEdge::Left) == "left"@ && edge_name(ScreenEdge::Right) == "right"@,
        edge_name(ScreenEdge::Top) == "top"@ && edge_name(ScreenEdge::Bottom) == "bottom"@,
        state_name(PressState::Pressed) == "pressed"@,
        state_name(PressState::Released) == "released"@,
        key_name(PhysicalKey::LeftShift) == "leftShift"@,
        key_name(PhysicalKey::RightShift) == "rightShift"@,
        key_name(PhysicalKey::LeftControl) == "leftControl"@,
        key_name(PhysicalKey::RightControl) == "rightControl"@,
        key_name(PhysicalKey::LeftAlt) == "leftAlt"@,
        key_name(PhysicalKey::RightAlt) == "rightAlt"@,
        key_name(PhysicalKey::LeftMeta) == "leftMeta"@,
        key_name(PhysicalKey::RightMeta) == "rightMeta"@,
        key_name(PhysicalKey::Code(code)) == "code:"@ + crate::text::decimal(code as nat),
        button_name(MouseButton::Left) == "left"@,
        button_name(MouseButton::Right) == "right"@,
        button_name(MouseButton::Middle) == "middle"@,
        button_name(MouseButton::Back) == "back"@,
        button_name(MouseButton::Forward) == "forward"@,
        button_name(MouseButton::Other(code)) == "other:"@ + crate::text::decimal(code as nat),
        edge_named(edge_name(edge)) == Ok::<ScreenEdge, Seq<char>>(edge),
        state_named(state_name(state)) == Ok::<PressState, Seq<char>>(state),
{
    edge_is_found_by_name(edge);
    state_is_found_by_name(state);
}

/// Whatever edge, press state, key or button is read from a word, that word is its name; only the number
/// of a key or a button may be spelled in more than one way.
pub proof fn only_names_are_read(word: Seq<char>)
    ensures
        edge_named(word) matches Ok(edge) ==> edge_name(edge) == word,
        state_named(word) matches Ok(state) ==> state_name(state) == word,
        key_named(word) matches Ok(key) ==> key_name(key) == word || (key is Code
            && crate::text::has_prefix(word, "code:"@)),
        button_named(word) matches Ok(button) ==> button_name(button) == word || (button is Other
            && crate::text::has_prefix(word, "other:"@)),
{
}

/// What is written for a peer says what the command says: of the same kind, with the same peer, crossing,
/// event or session.
pub proof fn a_spelled_command_says_the_same(
    command: &DaemonTransportCommand,
    payload: PeerTransportCommandPayload,
)
    requires
        call_ensures(PeerTransportCommandPayload::from_command, (command,), payload),
    ensures
        match command {
            DaemonTransportCommand::StartRemoteSession { peer_id, crossing } => {
                &&& payload is StartRemoteSession
                &&& payload->StartRemoteSession_peer_id@ == peer_id.value@
                &&& payload->crossing is Some <==> crossing is Some
                &&& crossing matches Some(crossing) ==> {
                    &&& payload->crossing->Some_0.peer_id@ == crossing.peer_id.value@
                    &&& payload->crossing->Some_0.local_edge@ == edge_name(crossing.local_edge)
                    &&& payload->crossing->Some_0.remote_edge@ == edge_name(crossing.remote_edge)
                    &&& payload->crossing->Some_0.exit_x == crossing.exit_position.x
                    &&& payload->crossing->Some_0.exit_y == crossing.exit_position.y
                    &&& payload->crossing->Some_0.edge_offset == crossing.edge_offset
                }
            },
            DaemonTransportCommand::ForwardInput { event } => {
                &&& payload is ForwardInput
                &&& match (event, payload->event) {
                    (
                        InjectedInputEvent::Key { key, state },
                        PeerTransportInputEvent::Key { key: word, state: pressed },
                    ) => word@ == key_name(*key) && pressed@ == state_name(*state),
                    (
                        InjectedInputEvent::MouseButton { button, state },
                        PeerTransportInputEvent::MouseButton { button: word, state: pressed },
                    ) => word@ == button_name(*button) && pressed@ == state_name(*state),
                    (
                        InjectedInputEvent::PointerMoved { delta_x, delta_y },
                        PeerTransportInputEvent::PointerMoved { delta_x: x, delta_y: y },
                    ) => x == *delta_x && y == *delta_y,
                    _ => false,
                }
            },
            DaemonTransportCommand::ReleaseAllInputs => payload is ReleaseAllInputs,
            DaemonTransportCommand::StopRemoteSession { session_id } => {
                &&& payload is StopRemoteSession
                &&& payload->session_id is Some <==> session_id is Some
                &&& session_id matches Some(session_id) ==> payload->session_id->Some_0@
                    == session_id.value@
            },
        },
{
}

/// What a command is seen to say, it says: commands that look the same are of the same kind, with the
/// same peer, crossing, event or session.
pub proof fn commands_are_told_apart(a: DaemonTransportCommand, b: DaemonTransportCommand)
    requires
        a@ == b@,
    ensures
        a is StartRemoteSession ==> b is StartRemoteSession && a->StartRemoteSession_peer_id.value@
            == b->StartRemoteSession_peer_id.value@ && (a->crossing is Some <==> b->crossing is Some)
            && (a->crossing is Some ==> {
            &&& a->crossing->Some_0.peer_id.value@ == b->crossing->Some_0.peer_id.value@
            &&& a->crossing->Some_0.local_edge == b->crossing->Some_0.local_edge
            &&& a->crossing->Some_0.remote_edge == b->crossing->Some_0.remote_edge
            &&& a->crossing->Some_0.exit_position == b->crossing->Some_0.exit_position
            &&& a->crossing->Some_0.edge_offset == b->crossing->Some_0.edge_offset
        }),
        a is ForwardInput ==> b is ForwardInput && a->event == b->event,
        a is ReleaseAllInputs ==> b is ReleaseAllInputs,
        a is StopRemoteSession ==> b is StopRemoteSession && (a->session_id is Some
            <==> b->session_id is Some) && (a->session_id is Some ==> a->session_id->Some_0.value@
            == b->session_id->Some_0.value@),
{
}

/// A command that was written for a peer and read there is the command that it was.
pub proof fn a_written_command_is_read_as_it_was(
    command: &DaemonTransportCommand,
    payload: PeerTransportCommandPayload,
    result: Result<DaemonTransportCommand, PlatformError>,
)
    requires
        call_ensures(PeerTransportCommandPayload::from_command, (command,), payload),
        call_ensures(PeerTransportCommandPayload::into_command, (payload,), result),
    ensures
        result is Ok,
        result->Ok_0@ == command@,
        command is ForwardInput ==> result->Ok_0 is ForwardInput && result->Ok_0->event
            == command->event,
{
    spelled_command_reads_back(command@);
}

/// What is read from a peer says what was written: of the same kind, with the same peer, event, session
/// or crossing, or it is refused.
pub proof fn a_read_command_says_what_was_written(
    payload: PeerTransportCommandPayload,
    result: Result<DaemonTransportCommand, PlatformError>,
)
    requires
        call_ensures(PeerTransportCommandPayload::into_command, (payload,), result),
    ensures
        payload is ReleaseAllInputs ==> result is Ok && result->Ok_0 is ReleaseAllInputs,
        payload is StopRemoteSession ==> result is Ok && result->Ok_0 is StopRemoteSession,
        payload is StopRemoteSession && payload->session_id is Some
            ==> result->Ok_0->session_id is Some && result->Ok_0->session_id->Some_0.value@
            == payload->session_id->Some_0@,
        payload is StopRemoteSession && payload->session_id is None
            ==> result->Ok_0->session_id is None,
        payload is StartRemoteSession && result is Ok ==> result->Ok_0 is StartRemoteSession
            && result->Ok_0->StartRemoteSession_peer_id.value@
            == payload->StartRemoteSession_peer_id@,
        payload is StartRemoteSession && payload->crossing is None ==> result is Ok
            && result->Ok_0->crossing is None,
        payload is StartRemoteSession && payload->crossing is Some && result is Ok ==> {
            let written = payload->crossing->Some_0;
            let read = result->Ok_0->crossing->Some_0;
            &&& result->Ok_0->crossing is Some
            &&& read.peer_id.value@ == written.peer_id@
            &&& edge_name(read.local_edge) == written.local_edge@
            &&& edge_name(read.remote_edge) == written.remote_edge@
            &&& read.exit_position.x == written.exit_x
            &&& read.exit_position.y == written.exit_y
            &&& read.edge_offset == written.edge_offset
        },
        payload is ForwardInput && result is Ok ==> result->Ok_0 is ForwardInput && match (
            payload->event,
            result->Ok_0->event,
        ) {
            (
                PeerTransportInputEvent::Key { key: word, state: pressed },
                InjectedInputEvent::Key { key, state },
            ) => key_named(word@) == Ok::<PhysicalKey, Seq<char>>(key) && state_name(state)
                == pressed@,
            (
                PeerTransportInputEvent::MouseButton { button: word, state: pressed },
                InjectedInputEvent::MouseButton { button, state },
            ) => button_named(word@) == Ok::<MouseButton, Seq<char>>(button) && state_name(state)
                == pressed@,
            (
                PeerTransportInputEvent::PointerMoved { delta_x: x, delta_y: y },
                InjectedInputEvent::PointerMoved { delta_x, delta_y },
            ) => delta_x == x && delta_y == y,
            _ => false,
        },
        payload is ForwardInput && payload->event is PointerMoved ==> result is Ok,
{
    if payload is StartRemoteSession && payload->crossing is Some {
        only_names_are_read(payload->crossing->Some_0.local_edge@);
        only_names_are_read(payload->crossing->Some_0.remote_edge@);
    }
    if payload is ForwardInput {
        match payload->event {
            PeerTransportInputEvent::Key { state, .. } => only_names_are_read(state@),
            PeerTransportInputEvent::MouseButton { state, .. } => only_names_are_read(state@),
            PeerTransportInputEvent::PointerMoved { .. } => {},
        }
    }
}

/// A message is read where the major version of its protocol is the one spoken here, whatever the minor
/// one; every message that is written here says the version that is spoken here.
pub proof fn versions_of_a_message(
    command: &DaemonTransportCommand,
    written: PeerTransportMessage,
    message: PeerTransportMessage,
    read: Result<DaemonTransportCommand, PlatformError>,
)
    requires
        call_ensures(PeerTransportMessage::from_command, (command,), written),
        call_ensures(PeerTransportMessage::into_command, (message,), read),
    ensures
        written.protocol == (PeerTransportProtocolVersion {
            major: crate::protocol::PROTOCOL_MAJOR,
            minor: crate::protocol::PROTOCOL_MINOR,
        }),
        read is Ok ==> message.protocol.major == written.protocol.major,
        message.command == written.command && message.protocol.major == written.protocol.major
            ==> read is Ok && read->Ok_0@ == command@,
{
    spelled_command_reads_back(command@);
}

/// Edges, press states, keys and buttons are called by their own names, and each is read back from its
/// name.
pub proof fn what_is_named_is_read_by_its_name(
    edge: ScreenEdge,
    edge_word: &'static str,
    edge_text: &str,
    edge_read: Result<ScreenEdge, PlatformError>,
    state: PressState,
    state_word: &'static str,
    state_text: &str,
    state_read: Result<PressState, PlatformError>,
)
    requires
        call_ensures(screen_edge_name, (edge,), edge_word),
        edge_text@ == edge_word@,
        call_ensures(parse_screen_edge_name, (edge_text,), edge_read),
        call_ensures(press_state_name, (state,), state_word),
        state_text@ == state_word@,
        call_ensures(parse_press_state_name, (state_text,), state_read),
    ensures
        edge is Left ==> edge_word@ == "left"@,
        edge is Right ==> edge_word@ == "right"@,
        edge is Top ==> edge_word@ == "top"@,
        edge is Bottom ==> edge_word@ == "bottom"@,
        edge_read is Ok && edge_read->Ok_0 == edge,
        state is Pressed ==> state_word@ == "pressed"@,
        state is Released ==> state_word@ == "released"@,
        state_read is Ok && state_read->Ok_0 == state,
{
    edge_is_found_by_name(edge);
    state_is_found_by_name(state);
}

/// Keys and buttons are called by their own names, and those without a name by their number.
pub proof fn keys_and_buttons_go_by_name(
    key: PhysicalKey,
    key_word: String,
    key_text: &str,
    key_read: Result<PhysicalKey, PlatformError>,
    button: MouseButton,
    button_word: String,
    button_text: &str,
    button_read: Result<MouseButton, PlatformError>,
)
    requires
        call_ensures(physical_key_name, (key,), key_word),
        key_text@ == key_word@,
        call_ensures(parse_physical_key_name, (key_text,), key_read),
        call_ensures(mouse_button_name, (button,), button_word),
        button_text@ == button_word@,
        call_ensures(parse_mouse_button_name, (button_text,), button_read),
    ensures
        key is LeftShift ==> key_word@ == "leftShift"@,
        key is RightShift ==> key_word@ == "rightShift"@,
        key is LeftControl ==> key_word@ == "leftControl"@,
        key is RightControl ==> key_word@ == "rightControl"@,
        key is LeftAlt ==> key_word@ == "leftAlt"@,
        key is RightAlt ==> key_word@ == "rightAlt"@,
        key is LeftMeta ==> key_word@ == "leftMeta"@,
        key is RightMeta ==> key_word@ == "rightMeta"@,
        key matches PhysicalKey::Code(code) ==> key_word@ == "code:"@ + crate::text::decimal(
            code as nat,
        ),
        key_read is Ok && key_read->Ok_0 == key,
        button is Left ==> button_word@ == "left"@,
        button is Right ==> button_word@ == "right"@,
        button is Middle ==> button_word@ == "middle"@,
        button is Back ==> button_word@ == "back"@,
        button is Forward ==> button_word@ == "forward"@,
        button matches MouseButton::Other(code) ==> button_word@ == "other:"@ + crate::text::decimal(
            code as nat,
        ),
        button_read is Ok && button_read->Ok_0 == button,
{
    key_is_found_by_name(key);
    button_is_found_by_name(button);
}

/// The version of a message is spoken where its major version is this build's, and the lower minor
/// version is.
pub proof fn a_version_on_the_wire_is_negotiated(
    protocol: PeerTransportProtocolVersion,
    read: Result<ProtocolVersion, PlatformError>,
)
    requires
        call_ensures(protocol_version_from_wire, (protocol,), read),
    ensures
        read is Ok <==> protocol.major == 1,
        read matches Ok(version) ==> version.major == 1 && version.minor <= 4 && version.minor
            <= protocol.minor && (version.minor == 4 || version.minor == protocol.minor),
{
}

/// A crossing or an input event that is written for a peer and read there is the one that it was.
pub proof fn crossings_and_events_are_read_as_they_were(
    crossing: &EdgeCrossing,
    written: PeerTransportCrossing,
    read: Result<EdgeCrossing, PlatformError>,
    event: &InjectedInputEvent,
    spelled: PeerTransportInputEvent,
    taken: Result<InjectedInputEvent, PlatformError>,
)
    requires
        call_ensures(PeerTransportCrossing::from_crossing, (crossing,), written),
        call_ensures(PeerTransportCrossing::into_crossing, (written,), read),
        call_ensures(PeerTransportInputEvent::from_event, (event,), spelled),
        call_ensures(PeerTransportInputEvent::into_input_event, (spelled,), taken),
    ensures
        read is Ok,
        read->Ok_0.peer_id.value@ == crossing.peer_id.value@,
        read->Ok_0.local_edge == crossing.local_edge,
        read->Ok_0.remote_edge == crossing.remote_edge,
        read->Ok_0.exit_position == crossing.exit_position,
        read->Ok_0.edge_offset == crossing.edge_offset,
        written.local_edge@ == edge_name(crossing.local_edge),
        written.remote_edge@ == edge_name(crossing.remote_edge),
        taken == Ok::<InjectedInputEvent, PlatformError>(*event),
{
    edge_is_found_by_name(crossing.local_edge);
    edge_is_found_by_name(crossing.remote_edge);
    match event {
        InjectedInputEvent::Key { key, state } => {
            key_is_found_by_name(*key);
            state_is_found_by_name(*state);
        },
        InjectedInputEvent::MouseButton { button, state } => {
            button_is_found_by_name(*button);
            state_is_found_by_name(*state);
        },
        InjectedInputEvent::PointerMoved { .. } => {},
    }
}

/// A number behind a prefix is read as that number, whatever the number; nothing is read where the
/// prefix is missing.
pub proof fn a_number_behind_a_prefix_is_read(
    value: &str,
    prefix: &str,
    code: u16,
    result: Result<u16, PlatformError>,
)
    requires
        call_ensures(parse_prefixed_u16, (value, prefix), result),
    ensures
        value@ == prefix@ + crate::text::decimal(code as nat) ==> result is Ok && result->Ok_0
            == code,
        !prefix@.is_prefix_of(value@) ==> result is Err,
{
    if value@ == prefix@ + crate::text::decimal(code as nat) {
        lemma_prefixed_code(prefix@, code);
    }
}

} // verus!
