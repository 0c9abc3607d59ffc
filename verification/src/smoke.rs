//! What the daemon's self-checks send and report.

use vstd::prelude::*;

use crate::json::{
    json_number, json_optional_text, json_string, JsonModel, JsonObject, JsonValue, ToJson,
};
use crate::platform::PlatformError;
use crate::runtime::{
    CoreAction, EdgeCrossing, InjectedInputEvent, LogicalPoint, PeerId, ScreenEdge, SessionId,
};
use crate::session::{
    PeerTransportCommandExecution, PeerTransportSession, PeerTransportSessionExecution,
    PeerTransportSessionHello,
};
use crate::snapshot::json_list;
use crate::transport::{
    CoreActionDispatcher, DaemonTransportCommand, LoopbackPeerTransport,
    TransportCoreActionDispatcher,
};
use crate::wire::{mouse_button_name, physical_key_name, press_state_name, screen_edge_name};

verus! {

/// A crossing in a report.
#[derive(Debug, PartialEq, Eq)]
pub struct LoopbackTransportSmokeCrossing {
    pub peer_id: String,
    pub local_edge: &'static str,
    pub remote_edge: &'static str,
    pub exit_x: i32,
    pub exit_y: i32,
    pub edge_offset: i32,
}

/// Whether a report's crossing is one that was made.
pub open spec fn is_smoke_crossing(
    smoke: LoopbackTransportSmokeCrossing,
    crossing: EdgeCrossing,
) -> bool {
    &&& smoke.peer_id@ == crossing.peer_id@
    &&& smoke.local_edge@ == crate::wire::edge_name(crossing.local_edge)
    &&& smoke.remote_edge@ == crate::wire::edge_name(crossing.remote_edge)
    &&& smoke.exit_x == crossing.exit_position.x
    &&& smoke.exit_y == crossing.exit_position.y
    &&& smoke.edge_offset == crossing.edge_offset
}

impl LoopbackTransportSmokeCrossing {
    pub fn from_crossing(crossing: &EdgeCrossing) -> (result: Self)
        ensures
            is_smoke_crossing(result, *crossing),
    {
        LoopbackTransportSmokeCrossing {
            peer_id: crossing.peer_id.as_str().to_owned(),
            local_edge: screen_edge_name(crossing.local_edge),
            remote_edge: screen_edge_name(crossing.remote_edge),
            exit_x: crossing.exit_position.x,
            exit_y: crossing.exit_position.y,
            edge_offset: crossing.edge_offset,
        }
    }
}

impl ToJson for LoopbackTransportSmokeCrossing {
    open spec fn json(&self) -> JsonModel {
        JsonModel::Object(
            seq![
                ("peerId"@, JsonModel::Text(self.peer_id@)),
                ("localEdge"@, JsonModel::Text(self.local_edge@)),
                ("remoteEdge"@, JsonModel::Text(self.remote_edge@)),
                ("exitX"@, crate::json::number_model(self.exit_x as int)),
                ("exitY"@, crate::json::number_model(self.exit_y as int)),
                ("edgeOffset"@, crate::json::number_model(self.edge_offset as int)),
            ],
        )
    }

    fn to_json(&self) -> (result: JsonValue) {
        let result = JsonObject::new().with("peerId", json_string(self.peer_id.as_str())).with(
            "localEdge",
            json_string(self.local_edge),
        ).with("remoteEdge", json_string(self.remote_edge)).with(
            "exitX",
            json_number(self.exit_x),
        ).with("exitY", json_number(self.exit_y)).with(
            "edgeOffset",
            json_number(self.edge_offset),
        ).done();
        proof {
            assert(result@->Object_0 =~= self.json()->Object_0);
        }
        result
    }
}

/// Input in a report.
#[derive(Debug, PartialEq, Eq)]
pub enum LoopbackTransportSmokeInputEvent {
    Key { key: String, state: &'static str },
    MouseButton { button: String, state: &'static str },
    PointerMoved { delta_x: i32, delta_y: i32 },
}

/// Whether a report's input is some that was sent.
pub open spec fn is_smoke_event(
    smoke: LoopbackTransportSmokeInputEvent,
    event: InjectedInputEvent,
) -> bool {
    match event {
        InjectedInputEvent::Key { key, state } => {
            &&& smoke is Key
            &&& smoke->key@ == crate::wire::key_name(key)
            &&& smoke->Key_state@ == crate::wire::state_name(state)
        },
        InjectedInputEvent::MouseButton { button, state } => {
            &&& smoke is MouseButton
            &&& smoke->button@ == crate::wire::button_name(button)
            &&& smoke->MouseButton_state@ == crate::wire::state_name(state)
        },
        InjectedInputEvent::PointerMoved { delta_x, delta_y } => smoke
            == (LoopbackTransportSmokeInputEvent::PointerMoved { delta_x, delta_y }),
    }
}

impl LoopbackTransportSmokeInputEvent {
    pub fn from_event(event: &InjectedInputEvent) -> (result: Self)
        ensures
            is_smoke_event(result, *event),
    {
        match event {
            InjectedInputEvent::Key { key, state } => LoopbackTransportSmokeInputEvent::Key {
                key: physical_key_name(*key),
                state: press_state_name(*state),
            },
            InjectedInputEvent::MouseButton { button, state } => {
                LoopbackTransportSmokeInputEvent::MouseButton {
                    button: mouse_button_name(*button),
                    state: press_state_name(*state),
                }
            },
            InjectedInputEvent::PointerMoved { delta_x, delta_y } => {
                LoopbackTransportSmokeInputEvent::PointerMoved {
                    delta_x: *delta_x,
                    delta_y: *delta_y,
                }
            },
        }
    }
}

impl ToJson for LoopbackTransportSmokeInputEvent {
    open spec fn json(&self) -> JsonModel {
        match self {
            LoopbackTransportSmokeInputEvent::Key { key, state } => JsonModel::Object(
                seq![
                    ("kind"@, JsonModel::Text("key"@)),
                    ("key"@, JsonModel::Text(key@)),
                    ("state"@, JsonModel::Text(state@)),
                ],
            ),
            LoopbackTransportSmokeInputEvent::MouseButton { button, state } => JsonModel::Object(
                seq![
                    ("kind"@, JsonModel::Text("mouseButton"@)),
                    ("button"@, JsonModel::Text(button@)),
                    ("state"@, JsonModel::Text(state@)),
                ],
            ),
            LoopbackTransportSmokeInputEvent::PointerMoved { delta_x, delta_y } => {
                JsonModel::Object(
                    seq![
                        ("kind"@, JsonModel::Text("pointerMoved"@)),
                        ("deltaX"@, crate::json::number_model(*delta_x as int)),
                        ("deltaY"@, crate::json::number_model(*delta_y as int)),
                    ],
                )
            },
        }
    }

    fn to_json(&self) -> (result: JsonValue) {
        let result = match self {
            LoopbackTransportSmokeInputEvent::Key { key, state } => JsonObject::new().with(
                "kind",
                json_string("key"),
            ).with("key", json_string(key.as_str())).with("state", json_string(state)).done(),
            LoopbackTransportSmokeInputEvent::MouseButton { button, state } => {
                JsonObject::new().with("kind", json_string("mouseButton")).with(
                    "button",
                    json_string(button.as_str()),
                ).with("state", json_string(state)).done()
            },
            LoopbackTransportSmokeInputEvent::PointerMoved { delta_x, delta_y } => {
                JsonObject::new().with("kind", json_string("pointerMoved")).with(
                    "deltaX",
                    json_number(*delta_x),
                ).with("deltaY", json_number(*delta_y)).done()
            },
        };
        proof {
            assert(result@->Object_0 =~= self.json()->Object_0);
        }
        result
    }
}

/// A crossing where there is one.
pub open spec fn is_optional_crossing(
    smoke: Option<LoopbackTransportSmokeCrossing>,
    crossing: Option<EdgeCrossing>,
) -> bool {
    match (smoke, crossing) {
        (Some(smoke), Some(crossing)) => is_smoke_crossing(smoke, crossing),
        (None, None) => true,
        _ => false,
    }
}

/// A crossing where there is one.
fn optional_crossing(crossing: &Option<EdgeCrossing>) -> (result: Option<
    LoopbackTransportSmokeCrossing,
>)
    ensures
        is_optional_crossing(result, *crossing),
{
    match crossing {
        Some(crossing) => Some(LoopbackTransportSmokeCrossing::from_crossing(crossing)),
        None => None,
    }
}

/// The id of a session where there is one.
pub open spec fn session_text(session_id: Option<SessionId>) -> Option<Seq<char>> {
    match session_id {
        Some(session_id) => Some(session_id@),
        None => None,
    }
}

/// The id of a session where there is one.
fn optional_session(session_id: &Option<SessionId>) -> (result: Option<String>)
    ensures
        crate::rpc::optional_view(result) == session_text(*session_id),
{
    match session_id {
        Some(session_id) => Some(session_id.as_str().to_owned()),
        None => None,
    }
}

/// An optional crossing as JSON: the crossing, or null.
pub open spec fn crossing_json(crossing: Option<LoopbackTransportSmokeCrossing>) -> JsonModel {
    match crossing {
        Some(crossing) => crossing.json(),
        None => JsonModel::Null,
    }
}

/// An optional crossing as JSON.
fn crossing_value(crossing: &Option<LoopbackTransportSmokeCrossing>) -> (result: JsonValue)
    ensures
        result@ == crossing_json(*crossing),
{
    match crossing {
        Some(crossing) => crossing.to_json(),
        None => JsonValue::Null,
    }
}

/// A command in a report.
#[derive(Debug, PartialEq, Eq)]
pub enum LoopbackTransportSmokeCommand {
    StartRemoteSession { peer_id: String, crossing: Option<LoopbackTransportSmokeCrossing> },
    ForwardInput { event: LoopbackTransportSmokeInputEvent },
    ReleaseAllInputs,
    StopRemoteSession { session_id: Option<String> },
}

/// Whether a report's command is one that was sent.
pub open spec fn is_smoke_command(
    smoke: LoopbackTransportSmokeCommand,
    command: DaemonTransportCommand,
) -> bool {
    match command {
        DaemonTransportCommand::StartRemoteSession { peer_id, crossing } => {
            &&& smoke is StartRemoteSession
            &&& smoke->peer_id@ == peer_id@
            &&& is_optional_crossing(smoke->crossing, crossing)
        },
        DaemonTransportCommand::ForwardInput { event } => {
            &&& smoke is ForwardInput
            &&& is_smoke_event(smoke->event, event)
        },
        DaemonTransportCommand::ReleaseAllInputs => smoke is ReleaseAllInputs,
        DaemonTransportCommand::StopRemoteSession { session_id } => {
            &&& smoke is StopRemoteSession
            &&& crate::rpc::optional_view(smoke->session_id) == session_text(session_id)
        },
    }
}

impl LoopbackTransportSmokeCommand {
    pub fn from_command(command: &DaemonTransportCommand) -> (result: Self)
        ensures
            is_smoke_command(result, *command),
    {
        match command {
            DaemonTransportCommand::StartRemoteSession { peer_id, crossing } => {
                LoopbackTransportSmokeCommand::StartRemoteSession {
                    peer_id: peer_id.as_str().to_owned(),
                    crossing: optional_crossing(crossing),
                }
            },
            DaemonTransportCommand::ForwardInput { event } => {
                LoopbackTransportSmokeCommand::ForwardInput {
                    event: LoopbackTransportSmokeInputEvent::from_event(event),
                }
            },
            DaemonTransportCommand::ReleaseAllInputs => {
                LoopbackTransportSmokeCommand::ReleaseAllInputs
            },
            DaemonTransportCommand::StopRemoteSession { session_id } => {
                LoopbackTransportSmokeCommand::StopRemoteSession {
                    session_id: optional_session(session_id),
                }
            },
        }
    }
}

impl ToJson for LoopbackTransportSmokeCommand {
    open spec fn json(&self) -> JsonModel {
        match self {
            LoopbackTransportSmokeCommand::StartRemoteSession { peer_id, crossing } => {
                JsonModel::Object(
                    seq![
                        ("kind"@, JsonModel::Text("startRemoteSession"@)),
                        ("peerId"@, JsonModel::Text(peer_id@)),
                        ("crossing"@, crossing_json(*crossing)),
                    ],
                )
            },
            LoopbackTransportSmokeCommand::ForwardInput { event } => JsonModel::Object(
                seq![
                    ("kind"@, JsonModel::Text("forwardInput"@)),
                    ("event"@, event.json()),
                ],
            ),
            LoopbackTransportSmokeCommand::ReleaseAllInputs => JsonModel::Object(
                seq![("kind"@, JsonModel::Text("releaseAllInputs"@))],
            ),
            LoopbackTransportSmokeCommand::StopRemoteSession { session_id } => JsonModel::Object(
                seq![
                    ("kind"@, JsonModel::Text("stopRemoteSession"@)),
                    ("sessionId"@, crate::json::optional_text_model(*session_id)),
                ],
            ),
        }
    }

    fn to_json(&self) -> (result: JsonValue) {
        let result = match self {
            LoopbackTransportSmokeCommand::StartRemoteSession { peer_id, crossing } => {
                JsonObject::new().with("kind", json_string("startRemoteSession")).with(
                    "peerId",
                    json_string(peer_id.as_str()),
                ).with("crossing", crossing_value(crossing)).done()
            },
            LoopbackTransportSmokeCommand::ForwardInput { event } => JsonObject::new().with(
                "kind",
                json_string("forwardInput"),
            ).with("event", event.to_json()).done(),
            LoopbackTransportSmokeCommand::ReleaseAllInputs => JsonObject::new().with(
                "kind",
                json_string("releaseAllInputs"),
            ).done(),
            LoopbackTransportSmokeCommand::StopRemoteSession { session_id } => {
                JsonObject::new().with("kind", json_string("stopRemoteSession")).with(
                    "sessionId",
                    json_optional_text(session_id),
                ).done()
            },
        };
        proof {
            assert(result@->Object_0 =~= self.json()->Object_0);
        }
        result
    }
}

/// What a peer did, in a report.
#[derive(Debug, PartialEq, Eq)]
pub enum PeerSessionExecutorSmokeOutcome {
    RemoteSessionStarted { peer_id: String, crossing: Option<LoopbackTransportSmokeCrossing> },
    InputForwarded { event: LoopbackTransportSmokeInputEvent },
    InputsReleased,
    RemoteSessionStopped { session_id: Option<String> },
}

/// Whether a report's outcome is one that came about.
pub open spec fn is_smoke_outcome(
    smoke: PeerSessionExecutorSmokeOutcome,
    outcome: PeerTransportCommandExecution,
) -> bool {
    match outcome {
        PeerTransportCommandExecution::RemoteSessionStarted { peer_id, crossing } => {
            &&& smoke is RemoteSessionStarted
            &&& smoke->peer_id@ == peer_id@
            &&& is_optional_crossing(smoke->crossing, crossing)
        },
        PeerTransportCommandExecution::InputForwarded { event } => {
            &&& smoke is InputForwarded
            &&& is_smoke_event(smoke->event, event)
        },
        PeerTransportCommandExecution::InputsReleased => smoke is InputsReleased,
        PeerTransportCommandExecution::RemoteSessionStopped { session_id } => {
            &&& smoke is RemoteSessionStopped
            &&& crate::rpc::optional_view(smoke->session_id) == session_text(session_id)
        },
    }
}

impl PeerSessionExecutorSmokeOutcome {
    pub fn from_outcome(outcome: &PeerTransportCommandExecution) -> (result: Self)
        ensures
            is_smoke_outcome(result, *outcome),
    {
        match outcome {
            PeerTransportCommandExecution::RemoteSessionStarted { peer_id, crossing } => {
                PeerSessionExecutorSmokeOutcome::RemoteSessionStarted {
                    peer_id: peer_id.as_str().to_owned(),
                    crossing: optional_crossing(crossing),
                }
            },
            PeerTransportCommandExecution::InputForwarded { event } => {
                PeerSessionExecutorSmokeOutcome::InputForwarded {
                    event: LoopbackTransportSmokeInputEvent::from_event(event),
                }
            },
            PeerTransportCommandExecution::InputsReleased => {
                PeerSessionExecutorSmokeOutcome::InputsReleased
            },
            PeerTransportCommandExecution::RemoteSessionStopped { session_id } => {
                PeerSessionExecutorSmokeOutcome::RemoteSessionStopped {
                    session_id: optional_session(session_id),
                }
            },
        }
    }
}

impl ToJson for PeerSessionExecutorSmokeOutcome {
    open spec fn json(&self) -> JsonModel {
        match self {
            PeerSessionExecutorSmokeOutcome::RemoteSessionStarted { peer_id, crossing } => {
                JsonModel::Object(
                    seq![
                        ("kind"@, JsonModel::Text("remoteSessionStarted"@)),
                        ("peerId"@, JsonModel::Text(peer_id@)),
                        ("crossing"@, crossing_json(*crossing)),
                    ],
                )
            },
            PeerSessionExecutorSmokeOutcome::InputForwarded { event } => JsonModel::Object(
                seq![
                    ("kind"@, JsonModel::Text("inputForwarded"@)),
                    ("event"@, event.json()),
                ],
            ),
            PeerSessionExecutorSmokeOutcome::InputsReleased => JsonModel::Object(
                seq![("kind"@, JsonModel::Text("inputsReleased"@))],
            ),
            PeerSessionExecutorSmokeOutcome::RemoteSessionStopped { session_id } => {
                JsonModel::Object(
                    seq![
                        ("kind"@, JsonModel::Text("remoteSessionStopped"@)),
                        ("sessionId"@, crate::json::optional_text_model(*session_id)),
                    ],
                )
            },
        }
    }

    fn to_json(&self) -> (result: JsonValue) {
        let result = match self {
            PeerSessionExecutorSmokeOutcome::RemoteSessionStarted { peer_id, crossing } => {
                JsonObject::new().with("kind", json_string("remoteSessionStarted")).with(
                    "peerId",
                    json_string(peer_id.as_str()),
                ).with("crossing", crossing_value(crossing)).done()
            },
            PeerSessionExecutorSmokeOutcome::InputForwarded { event } => JsonObject::new().with(
                "kind",
                json_string("inputForwarded"),
            ).with("event", event.to_json()).done(),
            PeerSessionExecutorSmokeOutcome::InputsReleased => JsonObject::new().with(
                "kind",
                json_string("inputsReleased"),
            ).done(),
            PeerSessionExecutorSmokeOutcome::RemoteSessionStopped { session_id } => {
                JsonObject::new().with("kind", json_string("remoteSessionStopped")).with(
                    "sessionId",
                    json_optional_text(session_id),
                ).done()
            },
        };
        proof {
            assert(result@->Object_0 =~= self.json()->Object_0);
        }
        result
    }
}

/// What a session began with, in a report.
#[derive(Debug, PartialEq, Eq)]
pub struct PeerSessionSmokeHello {
    pub protocol_major: u16,
    pub protocol_minor: u16,
    pub device_id: String,
    pub peer_id: String,
}

/// Whether a report's hello is one that was said.
pub open spec fn is_smoke_hello(
    smoke: PeerSessionSmokeHello,
    hello: PeerTransportSessionHello,
) -> bool {
    &&& smoke.protocol_major == hello.protocol.major
    &&& smoke.protocol_minor == hello.protocol.minor
    &&& smoke.device_id@ == hello.device_id@
    &&& smoke.peer_id@ == hello.peer_id@
}

impl PeerSessionSmokeHello {
    pub fn from_hello(hello: &PeerTransportSessionHello) -> (result: Self)
        ensures
            is_smoke_hello(result, *hello),
    {
        PeerSessionSmokeHello {
            protocol_major: hello.protocol.major,
            protocol_minor: hello.protocol.minor,
            device_id: hello.device_id.as_str().to_owned(),
            peer_id: hello.peer_id.as_str().to_owned(),
        }
    }
}

impl ToJson for PeerSessionSmokeHello {
    open spec fn json(&self) -> JsonModel {
        JsonModel::Object(
            seq![
                ("protocolMajor"@, JsonModel::Unsigned(self.protocol_major as u64)),
                ("protocolMinor"@, JsonModel::Unsigned(self.protocol_minor as u64)),
                ("deviceId"@, JsonModel::Text(self.device_id@)),
                ("peerId"@, JsonModel::Text(self.peer_id@)),
            ],
        )
    }

    fn to_json(&self) -> (result: JsonValue) {
        let result = JsonObject::new().with(
            "protocolMajor",
            JsonValue::Unsigned(self.protocol_major as u64),
        ).with("protocolMinor", JsonValue::Unsigned(self.protocol_minor as u64)).with(
            "deviceId",
            json_string(self.device_id.as_str()),
        ).with("peerId", json_string(self.peer_id.as_str())).done();
        proof {
            assert(result@->Object_0 =~= self.json()->Object_0);
        }
        result
    }
}

/// Whether a report lists the commands that were sent, in order.
pub open spec fn lists_commands(
    smoke: Seq<LoopbackTransportSmokeCommand>,
    commands: Seq<DaemonTransportCommand>,
) -> bool {
    &&& smoke.len() == commands.len()
    &&& forall|i: int| 0 <= i < smoke.len() ==> is_smoke_command(#[trigger] smoke[i], commands[i])
}

/// List commands, in order.
fn list_commands(commands: &Vec<DaemonTransportCommand>) -> (result: Vec<
    LoopbackTransportSmokeCommand,
>)
    ensures
        lists_commands(result@, commands@),
{
    let mut result: Vec<LoopbackTransportSmokeCommand> = Vec::new();
    let mut i: usize = 0;
    while i < commands.len()
        invariant
            i <= commands@.len(),
            result@.len() == i,
            forall|k: int|
                0 <= k < i ==> is_smoke_command(#[trigger] result@[k], commands@[k]),
        decreases commands@.len() - i,
    {
        result.push(LoopbackTransportSmokeCommand::from_command(&commands[i]));
        i = i + 1;
    }
    result
}

/// The commands that went from one end of a transport to the other.
#[derive(Debug, PartialEq, Eq)]
pub struct LoopbackTransportSmokeReport {
    pub daemon_version: &'static str,
    pub commands: Vec<LoopbackTransportSmokeCommand>,
}

impl LoopbackTransportSmokeReport {
    pub fn from_commands(commands: &Vec<DaemonTransportCommand>) -> (result: Self)
        ensures
            result.daemon_version@ == crate::status::DAEMON_VERSION@,
            lists_commands(result.commands@, commands@),
    {
        LoopbackTransportSmokeReport {
            daemon_version: crate::status::DAEMON_VERSION,
            commands: list_commands(commands),
        }
    }
}

impl ToJson for LoopbackTransportSmokeReport {
    open spec fn json(&self) -> JsonModel {
        JsonModel::Object(
            seq![
                ("daemonVersion"@, JsonModel::Text(self.daemon_version@)),
                (
                    "commands"@,
                    JsonModel::Array(
                        self.commands@.map_values(|item: LoopbackTransportSmokeCommand| item.json()),
                    ),
                ),
            ],
        )
    }

    fn to_json(&self) -> (result: JsonValue) {
        let result = JsonObject::new().with("daemonVersion", json_string(self.daemon_version)).with(
            "commands",
            json_list(&self.commands),
        ).done();
        proof {
            assert(result@->Object_0 =~= self.json()->Object_0);
        }
        result
    }
}

/// The hello and the commands that went over a session.
#[derive(Debug, PartialEq, Eq)]
pub struct PeerSessionSmokeReport {
    pub daemon_version: &'static str,
    pub hello: PeerSessionSmokeHello,
    pub commands: Vec<LoopbackTransportSmokeCommand>,
}

impl PeerSessionSmokeReport {
    pub fn from_session(session: &PeerTransportSession) -> (result: Self)
        ensures
            result.daemon_version@ == crate::status::DAEMON_VERSION@,
            is_smoke_hello(result.hello, session.hello),
            lists_commands(result.commands@, session.commands@),
    {
        PeerSessionSmokeReport {
            daemon_version: crate::status::DAEMON_VERSION,
            hello: PeerSessionSmokeHello::from_hello(&session.hello),
            commands: list_commands(&session.commands),
        }
    }
}

impl ToJson for PeerSessionSmokeReport {
    open spec fn json(&self) -> JsonModel {
        JsonModel::Object(
            seq![
                ("daemonVersion"@, JsonModel::Text(self.daemon_version@)),
                ("hello"@, self.hello.json()),
                (
                    "commands"@,
                    JsonModel::Array(
                        self.commands@.map_values(|item: LoopbackTransportSmokeCommand| item.json()),
                    ),
                ),
            ],
        )
    }

    fn to_json(&self) -> (result: JsonValue) {
        let result = JsonObject::new().with("daemonVersion", json_string(self.daemon_version)).with(
            "hello",
            self.hello.to_json(),
        ).with("commands", json_list(&self.commands)).done();
        proof {
            assert(result@->Object_0 =~= self.json()->Object_0);
        }
        result
    }
}

/// What a peer did in a session, and what its platform saw of it.
#[derive(Debug, PartialEq, Eq)]
pub struct PeerSessionExecutorSmokeReport {
    pub daemon_version: &'static str,
    pub hello: PeerSessionSmokeHello,
    pub outcomes: Vec<PeerSessionExecutorSmokeOutcome>,
    pub injected_inputs: Vec<LoopbackTransportSmokeInputEvent>,
    pub release_all_count: u64,
}

impl PeerSessionExecutorSmokeReport {
    pub fn from_execution(
        execution: &PeerTransportSessionExecution,
        injected_events: &Vec<InjectedInputEvent>,
        release_all_count: u64,
    ) -> (result: Self)
        ensures
            result.daemon_version@ == crate::status::DAEMON_VERSION@,
            is_smoke_hello(result.hello, execution.hello),
            result.outcomes@.len() == execution.outcomes@.len(),
            forall|i: int|
                0 <= i < result.outcomes@.len() ==> is_smoke_outcome(
                    #[trigger] result.outcomes@[i],
                    execution.outcomes@[i],
                ),
            result.injected_inputs@.len() == injected_events@.len(),
            forall|i: int|
                0 <= i < result.injected_inputs@.len() ==> is_smoke_event(
                    #[trigger] result.injected_inputs@[i],
                    injected_events@[i],
                ),
            result.release_all_count == release_all_count,
    {
        let mut outcomes: Vec<PeerSessionExecutorSmokeOutcome> = Vec::new();
        let mut i: usize = 0;
        while i < execution.outcomes.len()
            invariant
                i <= execution.outcomes@.len(),
                outcomes@.len() == i,
                forall|k: int|
                    0 <= k < i ==> is_smoke_outcome(
                        #[trigger] outcomes@[k],
                        execution.outcomes@[k],
                    ),
            decreases execution.outcomes@.len() - i,
        {
            outcomes.push(PeerSessionExecutorSmokeOutcome::from_outcome(&execution.outcomes[i]));
            i = i + 1;
        }
        let mut injected_inputs: Vec<LoopbackTransportSmokeInputEvent> = Vec::new();
        let mut j: usize = 0;
        while j < injected_events.len()
            invariant
                j <= injected_events@.len(),
                injected_inputs@.len() == j,
                forall|k: int|
                    0 <= k < j ==> is_smoke_event(
                        #[trigger] injected_inputs@[k],
                        injected_events@[k],
                    ),
            decreases injected_events@.len() - j,
        {
            injected_inputs.push(LoopbackTransportSmokeInputEvent::from_event(&injected_events[j]));
            j = j + 1;
        }
        PeerSessionExecutorSmokeReport {
            daemon_version: crate::status::DAEMON_VERSION,
            hello: PeerSessionSmokeHello::from_hello(&execution.hello),
            outcomes,
            injected_inputs,
            release_all_count,
        }
    }
}

impl ToJson for PeerSessionExecutorSmokeReport {
    open spec fn json(&self) -> JsonModel {
        JsonModel::Object(
            seq![
                ("daemonVersion"@, JsonModel::Text(self.daemon_version@)),
                ("hello"@, self.hello.json()),
                (
                    "outcomes"@,
                    JsonModel::Array(
                        self.outcomes@.map_values(
                            |item: PeerSessionExecutorSmokeOutcome| item.json(),
                        ),
                    ),
                ),
                (
                    "injectedInputs"@,
                    JsonModel::Array(
                        self.injected_inputs@.map_values(
                            |item: LoopbackTransportSmokeInputEvent| item.json(),
                        ),
                    ),
                ),
                ("releaseAllCount"@, JsonModel::Unsigned(self.release_all_count)),
            ],
        )
    }

    fn to_json(&self) -> (result: JsonValue) {
        let result = JsonObject::new().with("daemonVersion", json_string(self.daemon_version)).with(
            "hello",
            self.hello.to_json(),
        ).with("outcomes", json_list(&self.outcomes)).with(
            "injectedInputs",
            json_list(&self.injected_inputs),
        ).with("releaseAllCount", JsonValue::Unsigned(self.release_all_count)).done();
        proof {
            assert(result@->Object_0 =~= self.json()->Object_0);
        }
        result
    }
}

/// Whether actions are those that self-checks send: a start over the right edge, one move of the
/// pointer, a release and a stop.
pub open spec fn are_smoke_actions(actions: Seq<CoreAction>) -> bool {
    &&& actions.len() == 4
    &&& actions[0] is StartRemoteSession
    &&& actions[0]->peer_id@ == "loopback-peer"@
    &&& actions[0]->crossing is Some
    &&& actions[0]->crossing->Some_0.peer_id@ == "loopback-peer"@
    &&& actions[0]->crossing->Some_0.local_edge == ScreenEdge::Right
    &&& actions[0]->crossing->Some_0.remote_edge == ScreenEdge::Left
    &&& actions[0]->crossing->Some_0.exit_position == (LogicalPoint { x: 1920, y: 540 })
    &&& actions[0]->crossing->Some_0.edge_offset == 540
    &&& actions[1] == (CoreAction::ForwardInput {
        event: InjectedInputEvent::PointerMoved { delta_x: 8, delta_y: 2 },
    })
    &&& actions[2] == CoreAction::ReleaseAllInputs
    &&& actions[3] is StopRemoteSession
    &&& session_text(actions[3]->session_id) == Some("loopback-session"@)
}

/// The actions that self-checks send.
pub fn loopback_transport_smoke_actions() -> (result: Vec<CoreAction>)
    ensures
        are_smoke_actions(result@),
{
    let crossing = EdgeCrossing {
        peer_id: PeerId::new("loopback-peer"),
        local_edge: ScreenEdge::Right,
        remote_edge: ScreenEdge::Left,
        exit_position: LogicalPoint { x: 1920, y: 540 },
        edge_offset: 540,
    };
    let mut actions: Vec<CoreAction> = Vec::new();
    actions.push(
        CoreAction::StartRemoteSession {
            peer_id: PeerId::new("loopback-peer"),
            crossing: Some(crossing),
        },
    );
    actions.push(
        CoreAction::ForwardInput {
            event: InjectedInputEvent::PointerMoved { delta_x: 8, delta_y: 2 },
        },
    );
    actions.push(CoreAction::ReleaseAllInputs);
    actions.push(
        CoreAction::StopRemoteSession { session_id: Some(SessionId::new("loopback-session")) },
    );
    actions
}

/// Send the actions through a transport that keeps what it is sent, and report what it kept.
pub fn build_loopback_transport_smoke_report() -> (result: Result<
    LoopbackTransportSmokeReport,
    PlatformError,
>)
    ensures
        result is Ok,
        result->Ok_0.daemon_version@ == crate::status::DAEMON_VERSION@,
        exists|actions: Seq<CoreAction>| #[trigger]
            are_smoke_actions(actions) && lists_commands(
                result->Ok_0.commands@,
                crate::transport::remote_commands(actions),
            ),
{
    let mut dispatcher = TransportCoreActionDispatcher::new(LoopbackPeerTransport::new());
    let actions = loopback_transport_smoke_actions();
    let ghost before = dispatcher;
    let sent = dispatcher.dispatch_core_actions(actions.as_slice());
    proof {
        crate::transport::loopback_keeps_remote_commands_in_order(
            before,
            actions@,
            sent,
            dispatcher,
        );
        assert(before.transport@ + crate::transport::remote_commands(actions@)
            =~= crate::transport::remote_commands(actions@));
        assert(are_smoke_actions(actions@));
    }
    match sent {
        Ok(_) => {},
        Err(error) => return Err(error),
    }
    let commands = dispatcher.transport().snapshot();
    Ok(LoopbackTransportSmokeReport::from_commands(&commands))
}

/// A crossing is reported as it was made, each edge by its name.
pub proof fn crossings_are_reported_as_they_were(
    crossing: EdgeCrossing,
    told: LoopbackTransportSmokeCrossing,
)
    requires
        call_ensures(LoopbackTransportSmokeCrossing::from_crossing, (&crossing,), told),
    ensures
        told.peer_id@ == crossing.peer_id.value@,
        told.exit_x == crossing.exit_position.x,
        told.exit_y == crossing.exit_position.y,
        told.edge_offset == crossing.edge_offset,
        crossing.local_edge is Left ==> told.local_edge@ == "left"@,
        crossing.local_edge is Right ==> told.local_edge@ == "right"@,
        crossing.local_edge is Top ==> told.local_edge@ == "top"@,
        crossing.local_edge is Bottom ==> told.local_edge@ == "bottom"@,
        crossing.remote_edge is Left ==> told.remote_edge@ == "left"@,
        crossing.remote_edge is Right ==> told.remote_edge@ == "right"@,
        crossing.remote_edge is Top ==> told.remote_edge@ == "top"@,
        crossing.remote_edge is Bottom ==> told.remote_edge@ == "bottom"@,
{
}

/// Input is reported as it was sent: the key or button by its name, whether it was pressed or released,
/// and how far the pointer moved.
pub proof fn input_is_reported_as_it_was(
    event: InjectedInputEvent,
    told: LoopbackTransportSmokeInputEvent,
)
    requires
        call_ensures(LoopbackTransportSmokeInputEvent::from_event, (&event,), told),
    ensures
        event matches InjectedInputEvent::PointerMoved { delta_x, delta_y } ==> told is PointerMoved
            && told->delta_x == delta_x && told->delta_y == delta_y,
        event matches InjectedInputEvent::MouseButton { button, state } ==> {
            &&& told is MouseButton
            &&& button is Left ==> told->button@ == "left"@
            &&& button is Right ==> told->button@ == "right"@
            &&& button is Middle ==> told->button@ == "middle"@
            &&& button is Back ==> told->button@ == "back"@
            &&& button is Forward ==> told->button@ == "forward"@
            &&& state is Pressed ==> told->MouseButton_state@ == "pressed"@
            &&& state is Released ==> told->MouseButton_state@ == "released"@
        },
        event matches InjectedInputEvent::Key { key, state } ==> {
            &&& told is Key
            &&& told->key@ == crate::wire::key_name(key)
            &&& state is Pressed ==> told->Key_state@ == "pressed"@
            &&& state is Released ==> told->Key_state@ == "released"@
        },
{
}

/// A command and what a peer did with it are reported as what they are.
pub proof fn commands_are_reported_as_they_were(
    command: DaemonTransportCommand,
    told: LoopbackTransportSmokeCommand,
    done: PeerTransportCommandExecution,
    outcome: PeerSessionExecutorSmokeOutcome,
)
    requires
        call_ensures(LoopbackTransportSmokeCommand::from_command, (&command,), told),
        call_ensures(PeerSessionExecutorSmokeOutcome::from_outcome, (&done,), outcome),
    ensures
        command matches DaemonTransportCommand::StartRemoteSession { peer_id, crossing } ==> {
            &&& told is StartRemoteSession
            &&& told->peer_id@ == peer_id.value@
            &&& told->crossing is Some <==> crossing is Some
        },
        command is ForwardInput <==> told is ForwardInput,
        command is ReleaseAllInputs <==> told is ReleaseAllInputs,
        command matches DaemonTransportCommand::StopRemoteSession { session_id } ==> {
            &&& told is StopRemoteSession
            &&& told->session_id is Some <==> session_id is Some
            &&& session_id matches Some(id) ==> told->session_id->Some_0@ == id.value@
        },
        done matches PeerTransportCommandExecution::RemoteSessionStarted { peer_id, crossing } ==> {
            &&& outcome is RemoteSessionStarted
            &&& outcome->peer_id@ == peer_id.value@
            &&& outcome->crossing is Some <==> crossing is Some
        },
        done is InputForwarded <==> outcome is InputForwarded,
        done is InputsReleased <==> outcome is InputsReleased,
        done matches PeerTransportCommandExecution::RemoteSessionStopped { session_id } ==> {
            &&& outcome is RemoteSessionStopped
            &&& outcome->session_id is Some <==> session_id is Some
            &&& session_id matches Some(id) ==> outcome->session_id->Some_0@ == id.value@
        },
{
}

/// A report of a session lists everything that went over it, one for one and in order, and who said
/// hello.
pub proof fn reports_list_what_happened(
    session: PeerTransportSession,
    told: PeerSessionSmokeReport,
    execution: PeerTransportSessionExecution,
    injected: Vec<InjectedInputEvent>,
    releases: u64,
    done: PeerSessionExecutorSmokeReport,
)
    requires
        call_ensures(PeerSessionSmokeReport::from_session, (&session,), told),
        call_ensures(
            PeerSessionExecutorSmokeReport::from_execution,
            (&execution, &injected, releases),
            done,
        ),
    ensures
        told.hello.device_id@ == session.hello.device_id.value@,
        told.hello.peer_id@ == session.hello.peer_id.value@,
        told.hello.protocol_major == session.hello.protocol.major,
        told.hello.protocol_minor == session.hello.protocol.minor,
        told.commands@.len() == session.commands@.len(),
        forall|i: int|
            0 <= i < session.commands@.len() ==> ((#[trigger] told.commands@[i]) is ForwardInput
                <==> session.commands@[i] is ForwardInput),
        done.hello.device_id@ == execution.hello.device_id.value@,
        done.hello.peer_id@ == execution.hello.peer_id.value@,
        done.outcomes@.len() == execution.outcomes@.len(),
        forall|i: int|
            0 <= i < execution.outcomes@.len() ==> ((#[trigger] done.outcomes@[i]) is InputForwarded
                <==> execution.outcomes@[i] is InputForwarded),
        done.injected_inputs@.len() == injected@.len(),
        forall|i: int|
            0 <= i < injected@.len() ==> ((#[trigger] done.injected_inputs@[i]) is PointerMoved
                <==> injected@[i] is PointerMoved),
        done.release_all_count == releases,
        told.daemon_version@ == "0.5.6"@,
        done.daemon_version@ == "0.5.6"@,
{
}

/// What is written of a report says what it reports, each kind of thing by its own name.
pub proof fn written_reports_name_what_they_tell(
    crossing: LoopbackTransportSmokeCrossing,
    event: LoopbackTransportSmokeInputEvent,
    command: LoopbackTransportSmokeCommand,
    outcome: PeerSessionExecutorSmokeOutcome,
)
    ensures
        crossing.json()->Object_0.contains(("localEdge"@, JsonModel::Text(crossing.local_edge@))),
        crossing.json()->Object_0.contains(("remoteEdge"@, JsonModel::Text(crossing.remote_edge@))),
        crossing.json()->Object_0.contains(("peerId"@, JsonModel::Text(crossing.peer_id@))),
        crossing.exit_x >= 0 ==> crossing.json()->Object_0.contains(
            ("exitX"@, JsonModel::Unsigned(crossing.exit_x as u64)),
        ),
        crossing.exit_y >= 0 ==> crossing.json()->Object_0.contains(
            ("exitY"@, JsonModel::Unsigned(crossing.exit_y as u64)),
        ),
        event is Key ==> event.json()->Object_0[0] == ("kind"@, JsonModel::Text("key"@))
            && event.json()->Object_0[1] == ("key"@, JsonModel::Text(event->key@))
            && event.json()->Object_0[2] == ("state"@, JsonModel::Text(event->Key_state@)),
        event is MouseButton ==> event.json()->Object_0[0] == (
            "kind"@,
            JsonModel::Text("mouseButton"@),
        ) && event.json()->Object_0[1] == ("button"@, JsonModel::Text(event->button@))
            && event.json()->Object_0[2] == ("state"@, JsonModel::Text(event->MouseButton_state@)),
        event is PointerMoved ==> event.json()->Object_0[0] == (
            "kind"@,
            JsonModel::Text("pointerMoved"@),
        ),
        event is PointerMoved && event->delta_x >= 0 && event->delta_y < 0
            ==> event.json()->Object_0[1] == ("deltaX"@, JsonModel::Unsigned(event->delta_x as u64))
            && event.json()->Object_0[2] == ("deltaY"@, JsonModel::Negative(event->delta_y as i64)),
        command is StartRemoteSession ==> command.json()->Object_0[0] == (
            "kind"@,
            JsonModel::Text("startRemoteSession"@),
        ) && command.json()->Object_0[1] == ("peerId"@, JsonModel::Text(command->peer_id@)),
        command is ForwardInput ==> command.json()->Object_0[0] == (
            "kind"@,
            JsonModel::Text("forwardInput"@),
        ) && command.json()->Object_0[1] == ("event"@, command->event.json()),
        command is ReleaseAllInputs ==> command.json()->Object_0[0] == (
            "kind"@,
            JsonModel::Text("releaseAllInputs"@),
        ),
        command is StopRemoteSession ==> command.json()->Object_0[0] == (
            "kind"@,
            JsonModel::Text("stopRemoteSession"@),
        ),
        outcome is RemoteSessionStarted ==> outcome.json()->Object_0[0] == (
            "kind"@,
            JsonModel::Text("remoteSessionStarted"@),
        ),
        outcome is InputForwarded ==> outcome.json()->Object_0[0] == (
            "kind"@,
            JsonModel::Text("inputForwarded"@),
        ) && outcome.json()->Object_0[1] == ("event"@, outcome->event.json()),
        outcome is InputsReleased ==> outcome.json()->Object_0[0] == (
            "kind"@,
            JsonModel::Text("inputsReleased"@),
        ),
        outcome is RemoteSessionStopped ==> outcome.json()->Object_0[0] == (
            "kind"@,
            JsonModel::Text("remoteSessionStopped"@),
        ),
{
    let members = crossing.json()->Object_0;
    assert(members[0] == ("peerId"@, JsonModel::Text(crossing.peer_id@)));
    assert(members[1] == ("localEdge"@, JsonModel::Text(crossing.local_edge@)));
    assert(members[2] == ("remoteEdge"@, JsonModel::Text(crossing.remote_edge@)));
    assert(members[3].0 == "exitX"@ && members[4].0 == "exitY"@);
    assert(members[3] == ("exitX"@, members[3].1));
    assert(members[4] == ("exitY"@, members[4].1));
}

/// A self-check sends a start, one move of the pointer, a release and a stop, and its report lists them.
pub proof fn a_self_check_reports_what_it_sends(
    actions: Vec<CoreAction>,
    report: Result<LoopbackTransportSmokeReport, PlatformError>,
)
    requires
        call_ensures(loopback_transport_smoke_actions, (), actions),
        call_ensures(build_loopback_transport_smoke_report, (), report),
    ensures
        actions@.len() == 4,
        actions@[0] is StartRemoteSession,
        actions@[1] is ForwardInput,
        actions@[2] is ReleaseAllInputs,
        actions@[3] is StopRemoteSession,
        report is Ok,
        report->Ok_0.commands@.len() == 4,
        report->Ok_0.commands@[0] is StartRemoteSession,
        report->Ok_0.commands@[1] is ForwardInput,
        report->Ok_0.commands@[2] is ReleaseAllInputs,
        report->Ok_0.commands@[3] is StopRemoteSession,
        report->Ok_0.commands@[0]->peer_id@ == "loopback-peer"@,
{
    let sent = choose|sent: Seq<CoreAction>| #[trigger]
        are_smoke_actions(sent) && lists_commands(
            report->Ok_0.commands@,
            crate::transport::remote_commands(sent),
        );
    let commands = crate::transport::remote_commands(sent);
    reveal_with_fuel(crate::transport::remote_commands, 5);
    assert(commands.len() == 4);
    assert(is_smoke_command(report->Ok_0.commands@[0], commands[0]));
    assert(is_smoke_command(report->Ok_0.commands@[1], commands[1]));
    assert(is_smoke_command(report->Ok_0.commands@[2], commands[2]));
    assert(is_smoke_command(report->Ok_0.commands@[3], commands[3]));
}

/// Whether a report of input tells what the input was: which button or key, pressed or released, or how
/// far the pointer moved.
pub open spec fn tells_input(
    told: LoopbackTransportSmokeInputEvent,
    event: InjectedInputEvent,
) -> bool {
    &&& event is PointerMoved ==> told is PointerMoved && told->delta_x == event->delta_x
        && told->delta_y == event->delta_y
    &&& event is MouseButton ==> told is MouseButton && (event->button is Left ==> told->button@
        == "left"@) && (event->button is Right ==> told->button@ == "right"@) && (
    event->button is Middle ==> told->button@ == "middle"@) && (event->MouseButton_state is Pressed
        ==> told->MouseButton_state@ == "pressed"@) && (event->MouseButton_state is Released
        ==> told->MouseButton_state@ == "released"@)
    &&& event is Key ==> told is Key && told->key@ == crate::wire::key_name(event->key) && (
    event->Key_state is Pressed ==> told->Key_state@ == "pressed"@) && (event->Key_state is Released
        ==> told->Key_state@ == "released"@)
}

/// The input of every command and of every outcome is reported as what it was, in order.
pub proof fn reported_input_is_what_was_sent(
    commands: &Vec<DaemonTransportCommand>,
    report: LoopbackTransportSmokeReport,
    execution: &PeerTransportSessionExecution,
    injected: &Vec<InjectedInputEvent>,
    releases: u64,
    done: PeerSessionExecutorSmokeReport,
)
    requires
        call_ensures(LoopbackTransportSmokeReport::from_commands, (commands,), report),
        call_ensures(
            PeerSessionExecutorSmokeReport::from_execution,
            (execution, injected, releases),
            done,
        ),
    ensures
        report.daemon_version@ == "0.5.6"@,
        report.commands@.len() == commands@.len(),
        forall|i: int|
            0 <= i < commands@.len() && commands@[i] is ForwardInput ==> (
            #[trigger] report.commands@[i]) is ForwardInput && tells_input(
                report.commands@[i]->event,
                commands@[i]->event,
            ),
        forall|i: int|
            0 <= i < commands@.len() && commands@[i] is ReleaseAllInputs ==> (
            #[trigger] report.commands@[i]) is ReleaseAllInputs,
        done.outcomes@.len() == execution.outcomes@.len(),
        forall|i: int|
            0 <= i < execution.outcomes@.len() && execution.outcomes@[i] is InputForwarded ==> (
            #[trigger] done.outcomes@[i]) is InputForwarded && tells_input(
                done.outcomes@[i]->event,
                execution.outcomes@[i]->event,
            ),
        done.injected_inputs@.len() == injected@.len(),
        forall|i: int|
            0 <= i < injected@.len() ==> tells_input(
                #[trigger] done.injected_inputs@[i],
                injected@[i],
            ),
{
    assert forall|i: int| 0 <= i < commands@.len() && commands@[i] is ForwardInput implies (
    #[trigger] report.commands@[i]) is ForwardInput && tells_input(
        report.commands@[i]->event,
        commands@[i]->event,
    ) by {
        assert(is_smoke_command(report.commands@[i], commands@[i]));
    }
    assert forall|i: int| 0 <= i < commands@.len() && commands@[i] is ReleaseAllInputs implies (
    #[trigger] report.commands@[i]) is ReleaseAllInputs by {
        assert(is_smoke_command(report.commands@[i], commands@[i]));
    }
}

/// Who said hello is reported as the hello says it.
pub proof fn a_hello_is_reported_as_it_was(
    hello: &PeerTransportSessionHello,
    told: PeerSessionSmokeHello,
)
    requires
        call_ensures(PeerSessionSmokeHello::from_hello, (hello,), told),
    ensures
        told.device_id@ == hello.device_id.value@,
        told.peer_id@ == hello.peer_id.value@,
        told.protocol_major == hello.protocol.major,
        told.protocol_minor == hello.protocol.minor,
{
}

} // verus!
