//! What the control channel carries: requests' parameters and their results.

use vstd::prelude::*;

use crate::json::{
    json_number, json_optional_text, json_string, JsonArray, JsonModel, JsonObject, JsonValue,
    ToJson,
};
use crate::platform::{DesktopMonitor, KeyboardLayoutSnapshot, PlatformCapabilities};
use crate::protocol::{CapabilityFlags, ProtocolVersion};
use crate::runtime::{ControlMode, LogicalPoint, LogicalRect};

verus! {

/// A list of values as a JSON array.
pub fn json_list<T: ToJson>(list: &Vec<T>) -> (result: JsonValue)
    ensures
        result@ == JsonModel::Array(list@.map_values(|item: T| item.json())),
{
    let mut items = JsonArray::new();
    let mut i: usize = 0;
    while i < list.len()
        invariant
            i <= list@.len(),
            items.items() =~= list@.subrange(0, i as int).map_values(|item: T| item.json()),
        decreases list@.len() - i,
    {
        items.push(list[i].to_json());
        i = i + 1;
    }
    proof {
        assert(list@.subrange(0, i as int) =~= list@);
    }
    items.done()
}

/// The control mode on the wire.
#[derive(Debug, Clone, Copy, PartialEq, Eq, Structural)]
pub enum ControlModeSnapshot {
    Local,
    EnteringRemote,
    Remote,
    LeavingRemote,
    Suspended,
}

/// The control mode on the wire.
pub open spec fn mode_snapshot(mode: ControlMode) -> ControlModeSnapshot {
    match mode {
        ControlMode::Local => ControlModeSnapshot::Local,
        ControlMode::EnteringRemote => ControlModeSnapshot::EnteringRemote,
        ControlMode::Remote => ControlModeSnapshot::Remote,
        ControlMode::LeavingRemote => ControlModeSnapshot::LeavingRemote,
        ControlMode::Suspended => ControlModeSnapshot::Suspended,
    }
}

impl From<ControlMode> for ControlModeSnapshot {
    fn from(mode: ControlMode) -> (result: Self) {
        match mode {
            ControlMode::Local => ControlModeSnapshot::Local,
            ControlMode::EnteringRemote => ControlModeSnapshot::EnteringRemote,
            ControlMode::Remote => ControlModeSnapshot::Remote,
            ControlMode::LeavingRemote => ControlModeSnapshot::LeavingRemote,
            ControlMode::Suspended => ControlModeSnapshot::Suspended,
        }
    }
}

impl vstd::std_specs::convert::FromSpecImpl<ControlMode> for ControlModeSnapshot {
    open spec fn obeys_from_spec() -> bool {
        true
    }

    open spec fn from_spec(mode: ControlMode) -> Self {
        mode_snapshot(mode)
    }
}

impl ToJson for ControlModeSnapshot {
    open spec fn json(&self) -> JsonModel {
        JsonModel::Text(
            match self {
                ControlModeSnapshot::Local => "Local"@,
                ControlModeSnapshot::EnteringRemote => "EnteringRemote"@,
                ControlModeSnapshot::Remote => "Remote"@,
                ControlModeSnapshot::LeavingRemote => "LeavingRemote"@,
                ControlModeSnapshot::Suspended => "Suspended"@,
            },
        )
    }

    fn to_json(&self) -> (result: JsonValue) {
        match self {
            ControlModeSnapshot::Local => json_string("Local"),
            ControlModeSnapshot::EnteringRemote => json_string("EnteringRemote"),
            ControlModeSnapshot::Remote => json_string("Remote"),
            ControlModeSnapshot::LeavingRemote => json_string("LeavingRemote"),
            ControlModeSnapshot::Suspended => json_string("Suspended"),
        }
    }
}

/// A protocol version on the wire.
#[derive(Debug, Clone, Copy, PartialEq, Eq, Structural)]
pub struct ProtocolVersionSnapshot {
    pub major: u16,
    pub minor: u16,
}

impl ToJson for ProtocolVersionSnapshot {
    open spec fn json(&self) -> JsonModel {
        JsonModel::Object(
            seq![
                ("major"@, JsonModel::Unsigned(self.major as u64)),
                ("minor"@, JsonModel::Unsigned(self.minor as u64)),
            ],
        )
    }

    fn to_json(&self) -> (result: JsonValue) {
        let result = JsonObject::new()
            .with("major", JsonValue::Unsigned(self.major as u64))
            .with("minor", JsonValue::Unsigned(self.minor as u64))
            .done();
        proof {
            assert(result@->Object_0 =~= self.json()->Object_0);
        }
        result
    }
}

impl From<ProtocolVersion> for ProtocolVersionSnapshot {
    fn from(version: ProtocolVersion) -> (result: Self) {
        ProtocolVersionSnapshot { major: version.major, minor: version.minor }
    }
}

impl vstd::std_specs::convert::FromSpecImpl<ProtocolVersion> for ProtocolVersionSnapshot {
    open spec fn obeys_from_spec() -> bool {
        true
    }

    open spec fn from_spec(version: ProtocolVersion) -> Self {
        ProtocolVersionSnapshot { major: version.major, minor: version.minor }
    }
}

/// Platform capabilities on the wire.
#[derive(Debug, Clone, Copy, PartialEq, Eq, Structural)]
pub struct IpcPlatformCapabilities {
    pub can_capture_pointer: bool,
    pub can_capture_keyboard: bool,
    pub can_inject_pointer: bool,
    pub can_inject_keyboard: bool,
}

impl ToJson for IpcPlatformCapabilities {
    open spec fn json(&self) -> JsonModel {
        JsonModel::Object(
            seq![
                ("canCapturePointer"@, JsonModel::Bool(self.can_capture_pointer)),
                ("canCaptureKeyboard"@, JsonModel::Bool(self.can_capture_keyboard)),
                ("canInjectPointer"@, JsonModel::Bool(self.can_inject_pointer)),
                ("canInjectKeyboard"@, JsonModel::Bool(self.can_inject_keyboard)),
            ],
        )
    }

    fn to_json(&self) -> (result: JsonValue) {
        let result = JsonObject::new()
            .with("canCapturePointer", JsonValue::Bool(self.can_capture_pointer))
            .with("canCaptureKeyboard", JsonValue::Bool(self.can_capture_keyboard))
            .with("canInjectPointer", JsonValue::Bool(self.can_inject_pointer))
            .with("canInjectKeyboard", JsonValue::Bool(self.can_inject_keyboard))
            .done();
        proof {
            assert(result@->Object_0 =~= self.json()->Object_0);
        }
        result
    }
}

impl From<PlatformCapabilities> for IpcPlatformCapabilities {
    fn from(capabilities: PlatformCapabilities) -> (result: Self) {
        IpcPlatformCapabilities {
            can_capture_pointer: capabilities.can_capture_pointer,
            can_capture_keyboard: capabilities.can_capture_keyboard,
            can_inject_pointer: capabilities.can_inject_pointer,
            can_inject_keyboard: capabilities.can_inject_keyboard,
        }
    }
}

impl vstd::std_specs::convert::FromSpecImpl<PlatformCapabilities> for IpcPlatformCapabilities {
    open spec fn obeys_from_spec() -> bool {
        true
    }

    open spec fn from_spec(capabilities: PlatformCapabilities) -> Self {
        IpcPlatformCapabilities {
            can_capture_pointer: capabilities.can_capture_pointer,
            can_capture_keyboard: capabilities.can_capture_keyboard,
            can_inject_pointer: capabilities.can_inject_pointer,
            can_inject_keyboard: capabilities.can_inject_keyboard,
        }
    }
}

/// A point on the wire.
#[derive(Debug, Clone, Copy, PartialEq, Eq, Structural)]
pub struct LogicalPointSnapshot {
    pub x: i32,
    pub y: i32,
}

impl ToJson for LogicalPointSnapshot {
    open spec fn json(&self) -> JsonModel {
        JsonModel::Object(
            seq![
                ("x"@, crate::json::number_model(self.x as int)),
                ("y"@, crate::json::number_model(self.y as int)),
            ],
        )
    }

    fn to_json(&self) -> (result: JsonValue) {
        let result = JsonObject::new()
            .with("x", json_number(self.x))
            .with("y", json_number(self.y))
            .done();
        proof {
            assert(result@->Object_0 =~= self.json()->Object_0);
        }
        result
    }
}

impl From<LogicalPoint> for LogicalPointSnapshot {
    fn from(point: LogicalPoint) -> (result: Self) {
        LogicalPointSnapshot { x: point.x, y: point.y }
    }
}

impl vstd::std_specs::convert::FromSpecImpl<LogicalPoint> for LogicalPointSnapshot {
    open spec fn obeys_from_spec() -> bool {
        true
    }

    open spec fn from_spec(point: LogicalPoint) -> Self {
        LogicalPointSnapshot { x: point.x, y: point.y }
    }
}

/// A rectangle on the wire.
#[derive(Debug, Clone, Copy, PartialEq, Eq, Structural)]
pub struct LogicalRectSnapshot {
    pub x: i32,
    pub y: i32,
    pub width: i32,
    pub height: i32,
}

impl ToJson for LogicalRectSnapshot {
    open spec fn json(&self) -> JsonModel {
        JsonModel::Object(
            seq![
                ("x"@, crate::json::number_model(self.x as int)),
                ("y"@, crate::json::number_model(self.y as int)),
                ("width"@, crate::json::number_model(self.width as int)),
                ("height"@, crate::json::number_model(self.height as int)),
            ],
        )
    }

    fn to_json(&self) -> (result: JsonValue) {
        let result = JsonObject::new()
            .with("x", json_number(self.x))
            .with("y", json_number(self.y))
            .with("width", json_number(self.width))
            .with("height", json_number(self.height))
            .done();
        proof {
            assert(result@->Object_0 =~= self.json()->Object_0);
        }
        result
    }
}

/// A rectangle on the wire.
pub open spec fn rect_snapshot(rect: LogicalRect) -> LogicalRectSnapshot {
    LogicalRectSnapshot {
        x: rect.origin.x,
        y: rect.origin.y,
        width: rect.size.width,
        height: rect.size.height,
    }
}

impl From<LogicalRect> for LogicalRectSnapshot {
    fn from(rect: LogicalRect) -> (result: Self) {
        LogicalRectSnapshot {
            x: rect.origin.x,
            y: rect.origin.y,
            width: rect.size.width,
            height: rect.size.height,
        }
    }
}

impl vstd::std_specs::convert::FromSpecImpl<LogicalRect> for LogicalRectSnapshot {
    open spec fn obeys_from_spec() -> bool {
        true
    }

    open spec fn from_spec(rect: LogicalRect) -> Self {
        rect_snapshot(rect)
    }
}

/// A peer session in the daemon's status. The two optional facts are written where they are known.
#[derive(Debug, PartialEq, Eq)]
pub struct PeerStatus {
    pub peer_id: String,
    pub display_name: String,
    pub connected: bool,
    pub local_device_id: Option<String>,
    pub address: Option<String>,
}

impl ToJson for PeerStatus {
    open spec fn json(&self) -> JsonModel {
        let known = seq![
            ("peerId"@, JsonModel::Text(self.peer_id@)),
            ("displayName"@, JsonModel::Text(self.display_name@)),
            ("connected"@, JsonModel::Bool(self.connected)),
        ];
        let with_device = match self.local_device_id {
            Some(device) => known.push(("localDeviceId"@, JsonModel::Text(device@))),
            None => known,
        };
        JsonModel::Object(
            match self.address {
                Some(address) => with_device.push(("address"@, JsonModel::Text(address@))),
                None => with_device,
            },
        )
    }

    fn to_json(&self) -> (result: JsonValue) {
        let known = JsonObject::new().with("peerId", json_string(self.peer_id.as_str())).with(
            "displayName",
            json_string(self.display_name.as_str()),
        ).with("connected", JsonValue::Bool(self.connected));
        let with_device = match &self.local_device_id {
            Some(device) => known.with("localDeviceId", json_string(device.as_str())),
            None => known,
        };
        let result = match &self.address {
            Some(address) => with_device.with("address", json_string(address.as_str())).done(),
            None => with_device.done(),
        };
        proof {
            assert(result@->Object_0 =~= self.json()->Object_0);
        }
        result
    }
}

/// The result of `daemon.status`.
#[derive(Debug, PartialEq, Eq)]
pub struct DaemonStatus {
    pub daemon_version: String,
    pub mode: ControlModeSnapshot,
    pub protocol: ProtocolVersionSnapshot,
    pub peers: Vec<PeerStatus>,
    pub capabilities: IpcPlatformCapabilities,
}

impl ToJson for DaemonStatus {
    open spec fn json(&self) -> JsonModel {
        JsonModel::Object(
            seq![
                ("daemonVersion"@, JsonModel::Text(self.daemon_version@)),
                ("mode"@, self.mode.json()),
                ("protocol"@, self.protocol.json()),
                ("peers"@, JsonModel::Array(self.peers@.map_values(|item: PeerStatus| item.json()))),
                ("capabilities"@, self.capabilities.json()),
            ],
        )
    }

    fn to_json(&self) -> (result: JsonValue) {
        let result = JsonObject::new()
            .with("daemonVersion", json_string(self.daemon_version.as_str()))
            .with("mode", self.mode.to_json())
            .with("protocol", self.protocol.to_json())
            .with("peers", json_list(&self.peers))
            .with("capabilities", self.capabilities.to_json())
            .done();
        proof {
            assert(result@->Object_0 =~= self.json()->Object_0);
        }
        result
    }
}

/// Something that the platform does not permit.
#[derive(Debug, PartialEq, Eq)]
pub struct PermissionIssue {
    pub code: String,
    pub message: String,
}

impl ToJson for PermissionIssue {
    open spec fn json(&self) -> JsonModel {
        JsonModel::Object(
            seq![
                ("code"@, JsonModel::Text(self.code@)),
                ("message"@, JsonModel::Text(self.message@)),
            ],
        )
    }

    fn to_json(&self) -> (result: JsonValue) {
        let result = JsonObject::new()
            .with("code", json_string(self.code.as_str()))
            .with("message", json_string(self.message.as_str()))
            .done();
        proof {
            assert(result@->Object_0 =~= self.json()->Object_0);
        }
        result
    }
}

/// The result of `permissions.probe`.
#[derive(Debug, PartialEq, Eq)]
pub struct PermissionsProbe {
    pub adapter_name: String,
    pub capabilities: IpcPlatformCapabilities,
    pub issues: Vec<PermissionIssue>,
}

impl ToJson for PermissionsProbe {
    open spec fn json(&self) -> JsonModel {
        JsonModel::Object(
            seq![
                ("adapterName"@, JsonModel::Text(self.adapter_name@)),
                ("capabilities"@, self.capabilities.json()),
                ("issues"@, JsonModel::Array(self.issues@.map_values(|item: PermissionIssue| item.json()))),
            ],
        )
    }

    fn to_json(&self) -> (result: JsonValue) {
        let result = JsonObject::new()
            .with("adapterName", json_string(self.adapter_name.as_str()))
            .with("capabilities", self.capabilities.to_json())
            .with("issues", json_list(&self.issues))
            .done();
        proof {
            assert(result@->Object_0 =~= self.json()->Object_0);
        }
        result
    }
}

/// A monitor on the wire.
#[derive(Debug, PartialEq, Eq)]
pub struct DiagnosticsMonitorSnapshot {
    pub id: String,
    pub bounds: LogicalRectSnapshot,
    pub scale_factor_percent: Option<u16>,
    pub is_primary: bool,
}

impl ToJson for DiagnosticsMonitorSnapshot {
    open spec fn json(&self) -> JsonModel {
        JsonModel::Object(
            seq![
                ("id"@, JsonModel::Text(self.id@)),
                ("bounds"@, self.bounds.json()),
                (
                    "scaleFactorPercent"@,
                    match self.scale_factor_percent {
                        Some(percent) => JsonModel::Unsigned(percent as u64),
                        None => JsonModel::Null,
                    },
                ),
                ("isPrimary"@, JsonModel::Bool(self.is_primary)),
            ],
        )
    }

    fn to_json(&self) -> (result: JsonValue) {
        let percent: JsonValue = match self.scale_factor_percent {
            Some(percent) => JsonValue::Unsigned(percent as u64),
            None => JsonValue::Null,
        };
        let result = JsonObject::new().with("id", json_string(self.id.as_str())).with(
            "bounds",
            self.bounds.to_json(),
        ).with("scaleFactorPercent", percent).with(
            "isPrimary",
            JsonValue::Bool(self.is_primary),
        ).done();
        proof {
            assert(result@->Object_0 =~= self.json()->Object_0);
        }
        result
    }
}

/// A monitor on the wire.
pub open spec fn is_monitor_snapshot(
    snapshot: DiagnosticsMonitorSnapshot,
    monitor: DesktopMonitor,
) -> bool {
    &&& snapshot.id == monitor.id
    &&& snapshot.bounds == rect_snapshot(monitor.bounds)
    &&& snapshot.scale_factor_percent == monitor.scale_factor_percent
    &&& snapshot.is_primary == monitor.is_primary
}

/// A monitor on the wire.
pub fn monitor_snapshot(monitor: &DesktopMonitor) -> (result: DiagnosticsMonitorSnapshot)
    ensures
        is_monitor_snapshot(result, *monitor),
{
    DiagnosticsMonitorSnapshot {
        id: monitor.id.clone(),
        bounds: LogicalRectSnapshot::from(monitor.bounds),
        scale_factor_percent: monitor.scale_factor_percent,
        is_primary: monitor.is_primary,
    }
}

/// The result of `diagnostics.screenTopology`. The monitors are written where there are any.
#[derive(Debug, PartialEq, Eq)]
pub struct DiagnosticsScreenTopology {
    pub pointer_position: LogicalPointSnapshot,
    pub virtual_screen_bounds: LogicalRectSnapshot,
    pub monitors: Vec<DiagnosticsMonitorSnapshot>,
}

impl ToJson for DiagnosticsScreenTopology {
    open spec fn json(&self) -> JsonModel {
        let screen = seq![
            ("pointerPosition"@, self.pointer_position.json()),
            ("virtualScreenBounds"@, self.virtual_screen_bounds.json()),
        ];
        JsonModel::Object(
            if self.monitors@.len() == 0 {
                screen
            } else {
                screen.push(
                    (
                        "monitors"@,
                        JsonModel::Array(
                            self.monitors@.map_values(
                                |item: DiagnosticsMonitorSnapshot| item.json(),
                            ),
                        ),
                    ),
                )
            },
        )
    }

    fn to_json(&self) -> (result: JsonValue) {
        let screen = JsonObject::new().with(
            "pointerPosition",
            self.pointer_position.to_json(),
        ).with("virtualScreenBounds", self.virtual_screen_bounds.to_json());
        let result = if self.monitors.len() == 0 {
            screen.done()
        } else {
            screen.with("monitors", json_list(&self.monitors)).done()
        };
        proof {
            assert(result@->Object_0 =~= self.json()->Object_0);
        }
        result
    }
}

/// The result of `diagnostics.keyboardLayout`.
#[derive(Debug, PartialEq, Eq)]
pub struct DiagnosticsKeyboardLayout {
    pub source: String,
    pub layout_id: String,
    pub language_id: String,
    pub layout_name: Option<String>,
}

impl ToJson for DiagnosticsKeyboardLayout {
    open spec fn json(&self) -> JsonModel {
        JsonModel::Object(
            seq![
                ("source"@, JsonModel::Text(self.source@)),
                ("layoutId"@, JsonModel::Text(self.layout_id@)),
                ("languageId"@, JsonModel::Text(self.language_id@)),
                ("layoutName"@, crate::json::optional_text_model(self.layout_name)),
            ],
        )
    }

    fn to_json(&self) -> (result: JsonValue) {
        let result = JsonObject::new()
            .with("source", json_string(self.source.as_str()))
            .with("layoutId", json_string(self.layout_id.as_str()))
            .with("languageId", json_string(self.language_id.as_str()))
            .with("layoutName", json_optional_text(&self.layout_name))
            .done();
        proof {
            assert(result@->Object_0 =~= self.json()->Object_0);
        }
        result
    }
}

/// A keyboard layout on the wire.
pub fn keyboard_layout_snapshot(layout: KeyboardLayoutSnapshot) -> (result: DiagnosticsKeyboardLayout)
    ensures
        result.source == layout.source,
        result.layout_id == layout.layout_id,
        result.language_id == layout.language_id,
        result.layout_name == layout.layout_name,
{
    DiagnosticsKeyboardLayout {
        source: layout.source,
        layout_id: layout.layout_id,
        language_id: layout.language_id,
        layout_name: layout.layout_name,
    }
}

/// The result of `input.releaseAll`.
#[derive(Debug, Clone, Copy, PartialEq, Eq, Structural)]
pub struct InputReleaseAllResult {
    pub released: bool,
    pub mode: ControlModeSnapshot,
}

impl ToJson for InputReleaseAllResult {
    open spec fn json(&self) -> JsonModel {
        JsonModel::Object(
            seq![
                ("released"@, JsonModel::Bool(self.released)),
                ("mode"@, self.mode.json()),
            ],
        )
    }

    fn to_json(&self) -> (result: JsonValue) {
        let result = JsonObject::new()
            .with("released", JsonValue::Bool(self.released))
            .with("mode", self.mode.to_json())
            .done();
        proof {
            assert(result@->Object_0 =~= self.json()->Object_0);
        }
        result
    }
}

/// A peer session on the wire.
#[derive(Debug, PartialEq, Eq)]
pub struct SessionStatus {
    pub peer_id: String,
    pub local_device_id: String,
    pub address: String,
    pub connected: bool,
}

impl ToJson for SessionStatus {
    open spec fn json(&self) -> JsonModel {
        JsonModel::Object(
            seq![
                ("peerId"@, JsonModel::Text(self.peer_id@)),
                ("localDeviceId"@, JsonModel::Text(self.local_device_id@)),
                ("address"@, JsonModel::Text(self.address@)),
                ("connected"@, JsonModel::Bool(self.connected)),
            ],
        )
    }

    fn to_json(&self) -> (result: JsonValue) {
        let result = JsonObject::new()
            .with("peerId", json_string(self.peer_id.as_str()))
            .with("localDeviceId", json_string(self.local_device_id.as_str()))
            .with("address", json_string(self.address.as_str()))
            .with("connected", JsonValue::Bool(self.connected))
            .done();
        proof {
            assert(result@->Object_0 =~= self.json()->Object_0);
        }
        result
    }
}

/// The result of `session.connect`.
#[derive(Debug, PartialEq, Eq)]
pub struct SessionConnectResult {
    pub connected: bool,
    pub session: SessionStatus,
}

impl ToJson for SessionConnectResult {
    open spec fn json(&self) -> JsonModel {
        JsonModel::Object(
            seq![
                ("connected"@, JsonModel::Bool(self.connected)),
                ("session"@, self.session.json()),
            ],
        )
    }

    fn to_json(&self) -> (result: JsonValue) {
        let result = JsonObject::new()
            .with("connected", JsonValue::Bool(self.connected))
            .with("session", self.session.to_json())
            .done();
        proof {
            assert(result@->Object_0 =~= self.json()->Object_0);
        }
        result
    }
}

/// The result of `session.disconnect`.
#[derive(Debug, PartialEq, Eq)]
pub struct SessionDisconnectResult {
    pub disconnected: bool,
    pub session: Option<SessionStatus>,
    pub mode: ControlModeSnapshot,
}

impl ToJson for SessionDisconnectResult {
    open spec fn json(&self) -> JsonModel {
        JsonModel::Object(
            seq![
                ("disconnected"@, JsonModel::Bool(self.disconnected)),
                (
                    "session"@,
                    match self.session {
                        Some(session) => session.json(),
                        None => JsonModel::Null,
                    },
                ),
                ("mode"@, self.mode.json()),
            ],
        )
    }

    fn to_json(&self) -> (result: JsonValue) {
        let session: JsonValue = match &self.session {
            Some(session) => session.to_json(),
            None => JsonValue::Null,
        };
        let result = JsonObject::new()
            .with("disconnected", JsonValue::Bool(self.disconnected))
            .with(
            "session",
            session,
        ).with("mode", self.mode.to_json()).done();
        proof {
            assert(result@->Object_0 =~= self.json()->Object_0);
        }
        result
    }
}

/// The result of `daemon.shutdown`.
#[derive(Debug, Clone, Copy, PartialEq, Eq, Structural)]
pub struct DaemonShutdownResult {
    pub requested: bool,
    pub released_inputs: bool,
    pub disconnected_peer_session: bool,
    pub mode: ControlModeSnapshot,
}

impl ToJson for DaemonShutdownResult {
    open spec fn json(&self) -> JsonModel {
        JsonModel::Object(
            seq![
                ("requested"@, JsonModel::Bool(self.requested)),
                ("releasedInputs"@, JsonModel::Bool(self.released_inputs)),
                ("disconnectedPeerSession"@, JsonModel::Bool(self.disconnected_peer_session)),
                ("mode"@, self.mode.json()),
            ],
        )
    }

    fn to_json(&self) -> (result: JsonValue) {
        let result = JsonObject::new()
            .with("requested", JsonValue::Bool(self.requested))
            .with("releasedInputs", JsonValue::Bool(self.released_inputs))
            .with("disconnectedPeerSession", JsonValue::Bool(self.disconnected_peer_session))
            .with("mode", self.mode.to_json())
            .done();
        proof {
            assert(result@->Object_0 =~= self.json()->Object_0);
        }
        result
    }
}

/// How much a log entry matters.
#[derive(Debug, Clone, Copy, PartialEq, Eq, Structural)]
pub enum DaemonLogLevel {
    Info,
    Warn,
    Error,
}

impl ToJson for DaemonLogLevel {
    open spec fn json(&self) -> JsonModel {
        JsonModel::Text(
            match self {
                DaemonLogLevel::Info => "info"@,
                DaemonLogLevel::Warn => "warn"@,
                DaemonLogLevel::Error => "error"@,
            },
        )
    }

    fn to_json(&self) -> (result: JsonValue) {
        match self {
            DaemonLogLevel::Info => json_string("info"),
            DaemonLogLevel::Warn => json_string("warn"),
            DaemonLogLevel::Error => json_string("error"),
        }
    }
}

/// One event of the daemon. It never holds a value that a user or a peer supplied.
#[derive(Debug, PartialEq, Eq)]
pub struct DaemonLogEntry {
    pub sequence: u64,
    pub level: DaemonLogLevel,
    pub event: String,
    pub message: String,
}

impl ToJson for DaemonLogEntry {
    open spec fn json(&self) -> JsonModel {
        JsonModel::Object(
            seq![
                ("sequence"@, JsonModel::Unsigned(self.sequence)),
                ("level"@, self.level.json()),
                ("event"@, JsonModel::Text(self.event@)),
                ("message"@, JsonModel::Text(self.message@)),
            ],
        )
    }

    fn to_json(&self) -> (result: JsonValue) {
        let result = JsonObject::new()
            .with("sequence", JsonValue::Unsigned(self.sequence))
            .with("level", self.level.to_json())
            .with("event", json_string(self.event.as_str()))
            .with("message", json_string(self.message.as_str()))
            .done();
        proof {
            assert(result@->Object_0 =~= self.json()->Object_0);
        }
        result
    }
}

impl Clone for DaemonLogEntry {
    fn clone(&self) -> (result: Self)
        ensures
            result == *self,
    {
        DaemonLogEntry {
            sequence: self.sequence,
            level: self.level,
            event: self.event.clone(),
            message: self.message.clone(),
        }
    }
}

/// The result of `daemon.logs.tail`.
#[derive(Debug, PartialEq, Eq)]
pub struct DaemonLogsTail {
    pub entries: Vec<DaemonLogEntry>,
}

impl ToJson for DaemonLogsTail {
    open spec fn json(&self) -> JsonModel {
        JsonModel::Object(
            seq![
                ("entries"@, JsonModel::Array(self.entries@.map_values(|item: DaemonLogEntry| item.json()))),
            ],
        )
    }

    fn to_json(&self) -> (result: JsonValue) {
        let result = JsonObject::new().with("entries", json_list(&self.entries)).done();
        proof {
            assert(result@->Object_0 =~= self.json()->Object_0);
        }
        result
    }
}

/// A peer that discovery found, on the wire.
#[derive(Debug, PartialEq, Eq)]
pub struct SessionDiscoveryCandidate {
    pub peer_id: String,
    pub display_name: String,
    pub fingerprint: Option<String>,
    pub trusted: bool,
    pub address: String,
    pub build_version: String,
    pub capabilities: CapabilityFlags,
}

impl ToJson for SessionDiscoveryCandidate {
    open spec fn json(&self) -> JsonModel {
        JsonModel::Object(
            seq![
                ("peerId"@, JsonModel::Text(self.peer_id@)),
                ("displayName"@, JsonModel::Text(self.display_name@)),
                ("fingerprint"@, crate::json::optional_text_model(self.fingerprint)),
                ("trusted"@, JsonModel::Bool(self.trusted)),
                ("address"@, JsonModel::Text(self.address@)),
                ("buildVersion"@, JsonModel::Text(self.build_version@)),
                ("capabilities"@, JsonModel::Unsigned(self.capabilities.bits as u64)),
            ],
        )
    }

    fn to_json(&self) -> (result: JsonValue) {
        let result = JsonObject::new()
            .with("peerId", json_string(self.peer_id.as_str()))
            .with("displayName", json_string(self.display_name.as_str()))
            .with("fingerprint", json_optional_text(&self.fingerprint))
            .with("trusted", JsonValue::Bool(self.trusted))
            .with("address", json_string(self.address.as_str()))
            .with("buildVersion", json_string(self.build_version.as_str()))
            .with("capabilities", JsonValue::Unsigned(self.capabilities.bits as u64))
            .done();
        proof {
            assert(result@->Object_0 =~= self.json()->Object_0);
        }
        result
    }
}

/// The result of `session.discoveryCandidates`.
#[derive(Debug, PartialEq, Eq)]
pub struct SessionDiscoveryCandidatesResult {
    pub candidates: Vec<SessionDiscoveryCandidate>,
}

impl ToJson for SessionDiscoveryCandidatesResult {
    open spec fn json(&self) -> JsonModel {
        JsonModel::Object(
            seq![
                ("candidates"@, JsonModel::Array(self.candidates@.map_values(|item: SessionDiscoveryCandidate| item.json()))),
            ],
        )
    }

    fn to_json(&self) -> (result: JsonValue) {
        let result = JsonObject::new().with("candidates", json_list(&self.candidates)).done();
        proof {
            assert(result@->Object_0 =~= self.json()->Object_0);
        }
        result
    }
}

/// The parameters of `session.connect`.
#[derive(Debug, PartialEq, Eq)]
pub struct SessionConnectParams {
    pub peer_id: String,
    pub local_device_id: String,
    pub address: String,
}

impl ToJson for SessionConnectParams {
    open spec fn json(&self) -> JsonModel {
        JsonModel::Object(
            seq![
                ("peerId"@, JsonModel::Text(self.peer_id@)),
                ("localDeviceId"@, JsonModel::Text(self.local_device_id@)),
                ("address"@, JsonModel::Text(self.address@)),
            ],
        )
    }

    fn to_json(&self) -> (result: JsonValue) {
        let result = JsonObject::new()
            .with("peerId", json_string(self.peer_id.as_str()))
            .with("localDeviceId", json_string(self.local_device_id.as_str()))
            .with("address", json_string(self.address.as_str()))
            .done();
        proof {
            assert(result@->Object_0 =~= self.json()->Object_0);
        }
        result
    }
}

/// The parameters of `daemon.status`: none.
#[derive(Debug, Clone, Copy, PartialEq, Eq, Structural)]
pub struct DaemonStatusParams {}

impl Default for DaemonStatusParams {
    fn default() -> (result: Self)
        ensures
            result == (DaemonStatusParams {  }),
    {
        DaemonStatusParams {  }
    }
}

impl ToJson for DaemonStatusParams {
    open spec fn json(&self) -> JsonModel {
        JsonModel::Object(Seq::empty())
    }

    fn to_json(&self) -> (result: JsonValue) {
        JsonObject::new().done()
    }
}

/// The parameters of `permissions.probe`: none.
#[derive(Debug, Clone, Copy, PartialEq, Eq, Structural)]
pub struct PermissionsProbeParams {}

impl Default for PermissionsProbeParams {
    fn default() -> (result: Self)
        ensures
            result == (PermissionsProbeParams {  }),
    {
        PermissionsProbeParams {  }
    }
}

impl ToJson for PermissionsProbeParams {
    open spec fn json(&self) -> JsonModel {
        JsonModel::Object(Seq::empty())
    }

    fn to_json(&self) -> (result: JsonValue) {
        JsonObject::new().done()
    }
}

/// The parameters of `diagnostics.screenTopology`: none.
#[derive(Debug, Clone, Copy, PartialEq, Eq, Structural)]
pub struct DiagnosticsScreenTopologyParams {}

impl Default for DiagnosticsScreenTopologyParams {
    fn default() -> (result: Self)
        ensures
            result == (DiagnosticsScreenTopologyParams {  }),
    {
        DiagnosticsScreenTopologyParams {  }
    }
}

impl ToJson for DiagnosticsScreenTopologyParams {
    open spec fn json(&self) -> JsonModel {
        JsonModel::Object(Seq::empty())
    }

    fn to_json(&self) -> (result: JsonValue) {
        JsonObject::new().done()
    }
}

/// The parameters of `diagnostics.keyboardLayout`: none.
#[derive(Debug, Clone, Copy, PartialEq, Eq, Structural)]
pub struct DiagnosticsKeyboardLayoutParams {}

impl Default for DiagnosticsKeyboardLayoutParams {
    fn default() -> (result: Self)
        ensures
            result == (DiagnosticsKeyboardLayoutParams {  }),
    {
        DiagnosticsKeyboardLayoutParams {  }
    }
}

impl ToJson for DiagnosticsKeyboardLayoutParams {
    open spec fn json(&self) -> JsonModel {
        JsonModel::Object(Seq::empty())
    }

    fn to_json(&self) -> (result: JsonValue) {
        JsonObject::new().done()
    }
}

/// The parameters of `daemon.shutdown`: none.
#[derive(Debug, Clone, Copy, PartialEq, Eq, Structural)]
pub struct DaemonShutdownParams {}

impl Default for DaemonShutdownParams {
    fn default() -> (result: Self)
        ensures
            result == (DaemonShutdownParams {  }),
    {
        DaemonShutdownParams {  }
    }
}

impl ToJson for DaemonShutdownParams {
    open spec fn json(&self) -> JsonModel {
        JsonModel::Object(Seq::empty())
    }

    fn to_json(&self) -> (result: JsonValue) {
        JsonObject::new().done()
    }
}

/// The parameters of `input.releaseAll`: none.
#[derive(Debug, Clone, Copy, PartialEq, Eq, Structural)]
pub struct InputReleaseAllParams {}

impl Default for InputReleaseAllParams {
    fn default() -> (result: Self)
        ensures
            result == (InputReleaseAllParams {  }),
    {
        InputReleaseAllParams {  }
    }
}

impl ToJson for InputReleaseAllParams {
    open spec fn json(&self) -> JsonModel {
        JsonModel::Object(Seq::empty())
    }

    fn to_json(&self) -> (result: JsonValue) {
        JsonObject::new().done()
    }
}

/// The parameters of `session.disconnect`: none.
#[derive(Debug, Clone, Copy, PartialEq, Eq, Structural)]
pub struct SessionDisconnectParams {}

impl Default for SessionDisconnectParams {
    fn default() -> (result: Self)
        ensures
            result == (SessionDisconnectParams {  }),
    {
        SessionDisconnectParams {  }
    }
}

impl ToJson for SessionDisconnectParams {
    open spec fn json(&self) -> JsonModel {
        JsonModel::Object(Seq::empty())
    }

    fn to_json(&self) -> (result: JsonValue) {
        JsonObject::new().done()
    }
}

/// The parameters of `session.discoveryCandidates`: none.
#[derive(Debug, Clone, Copy, PartialEq, Eq, Structural)]
pub struct SessionDiscoveryCandidatesParams {}

impl Default for SessionDiscoveryCandidatesParams {
    fn default() -> (result: Self)
        ensures
            result == (SessionDiscoveryCandidatesParams {  }),
    {
        SessionDiscoveryCandidatesParams {  }
    }
}

impl ToJson for SessionDiscoveryCandidatesParams {
    open spec fn json(&self) -> JsonModel {
        JsonModel::Object(Seq::empty())
    }

    fn to_json(&self) -> (result: JsonValue) {
        JsonObject::new().done()
    }
}

/// The parameters of `daemon.logs.tail`.
#[derive(Debug, Clone, Copy, PartialEq, Eq, Structural)]
pub struct DaemonLogsTailParams {
    pub limit: Option<usize>,
}

impl Default for DaemonLogsTailParams {
    fn default() -> (result: Self)
        ensures
            result.limit is None,
    {
        DaemonLogsTailParams { limit: None }
    }
}

impl ToJson for DaemonLogsTailParams {
    open spec fn json(&self) -> JsonModel {
        JsonModel::Object(
            seq![
                (
                    "limit"@,
                    match self.limit {
                        Some(limit) => JsonModel::Unsigned(limit as u64),
                        None => JsonModel::Null,
                    },
                ),
            ],
        )
    }

    fn to_json(&self) -> (result: JsonValue) {
        let limit: JsonValue = match self.limit {
            Some(limit) => JsonValue::Unsigned(limit as u64),
            None => JsonValue::Null,
        };
        JsonObject::new().with("limit", limit).done()
    }
}

/// The mode that is told names the mode that control is in: it is local exactly where control is, remote
/// exactly where control is, and no two modes are told alike.
pub proof fn told_modes_name_the_control_mode(
    mode: ControlMode,
    other: ControlMode,
    told: ControlModeSnapshot,
    told_other: ControlModeSnapshot,
)
    requires
        call_ensures(
            <ControlModeSnapshot as core::convert::From<ControlMode>>::from,
            (mode,),
            told,
        ),
        call_ensures(
            <ControlModeSnapshot as core::convert::From<ControlMode>>::from,
            (other,),
            told_other,
        ),
    ensures
        told is Local <==> mode is Local,
        told is EnteringRemote <==> mode is EnteringRemote,
        told is Remote <==> mode is Remote,
        told is LeavingRemote <==> mode is LeavingRemote,
        told is Suspended <==> mode is Suspended,
        told == told_other <==> mode == other,
        told == mode_snapshot(mode),
{
}

/// A mode is written by its name.
pub proof fn modes_are_written_by_name(mode: ControlMode)
    ensures
        mode is Local ==> mode_snapshot(mode).json() == JsonModel::Text("Local"@),
        mode is EnteringRemote ==> mode_snapshot(mode).json() == JsonModel::Text(
            "EnteringRemote"@,
        ),
        mode is Remote ==> mode_snapshot(mode).json() == JsonModel::Text("Remote"@),
        mode is LeavingRemote ==> mode_snapshot(mode).json() == JsonModel::Text("LeavingRemote"@),
        mode is Suspended ==> mode_snapshot(mode).json() == JsonModel::Text("Suspended"@),
{
}

/// Whether a value is an object with so many members, one of which has this name and this value.
pub open spec fn says(value: JsonModel, members: nat, name: Seq<char>, member: JsonModel) -> bool {
    value is Object && value->Object_0.len() == members && value->Object_0.contains((name, member))
}

proof fn lemma_says(value: JsonModel, i: int)
    requires
        value is Object,
        0 <= i < value->Object_0.len(),
    ensures
        says(value, value->Object_0.len(), value->Object_0[i].0, value->Object_0[i].1),
{
    assert(value->Object_0[i] == (value->Object_0[i].0, value->Object_0[i].1));
    assert(value->Object_0.contains(value->Object_0[i]));
}

/// What is written of points, rectangles, versions and capabilities says what they hold.
pub proof fn written_values_say_what_they_hold(
    point: LogicalPointSnapshot,
    rect: LogicalRectSnapshot,
    version: ProtocolVersionSnapshot,
    capabilities: IpcPlatformCapabilities,
)
    ensures
        says(point.json(), 2, "x"@, crate::json::number_model(point.x as int)),
        says(point.json(), 2, "y"@, crate::json::number_model(point.y as int)),
        says(rect.json(), 4, "x"@, crate::json::number_model(rect.x as int)),
        says(rect.json(), 4, "y"@, crate::json::number_model(rect.y as int)),
        says(rect.json(), 4, "width"@, crate::json::number_model(rect.width as int)),
        says(rect.json(), 4, "height"@, crate::json::number_model(rect.height as int)),
        says(version.json(), 2, "major"@, JsonModel::Unsigned(version.major as u64)),
        says(version.json(), 2, "minor"@, JsonModel::Unsigned(version.minor as u64)),
        says(
            capabilities.json(),
            4,
            "canCapturePointer"@,
            JsonModel::Bool(capabilities.can_capture_pointer),
        ),
        says(
            capabilities.json(),
            4,
            "canCaptureKeyboard"@,
            JsonModel::Bool(capabilities.can_capture_keyboard),
        ),
        says(
            capabilities.json(),
            4,
            "canInjectPointer"@,
            JsonModel::Bool(capabilities.can_inject_pointer),
        ),
        says(
            capabilities.json(),
            4,
            "canInjectKeyboard"@,
            JsonModel::Bool(capabilities.can_inject_keyboard),
        ),
{
    lemma_says(point.json(), 0);
    lemma_says(point.json(), 1);
    lemma_says(rect.json(), 0);
    lemma_says(rect.json(), 1);
    lemma_says(rect.json(), 2);
    lemma_says(rect.json(), 3);
    lemma_says(version.json(), 0);
    lemma_says(version.json(), 1);
    lemma_says(capabilities.json(), 0);
    lemma_says(capabilities.json(), 1);
    lemma_says(capabilities.json(), 2);
    lemma_says(capabilities.json(), 3);
}

/// What the platform told is told on: each coordinate, extent and permission as it is, in its own place.
pub proof fn platform_values_are_told_as_they_are(
    point: LogicalPoint,
    rect: LogicalRect,
    version: ProtocolVersion,
    capabilities: PlatformCapabilities,
    told_point: LogicalPointSnapshot,
    told_rect: LogicalRectSnapshot,
    told_version: ProtocolVersionSnapshot,
    told_capabilities: IpcPlatformCapabilities,
)
    requires
        call_ensures(
            <LogicalPointSnapshot as core::convert::From<LogicalPoint>>::from,
            (point,),
            told_point,
        ),
        call_ensures(
            <LogicalRectSnapshot as core::convert::From<LogicalRect>>::from,
            (rect,),
            told_rect,
        ),
        call_ensures(
            <ProtocolVersionSnapshot as core::convert::From<ProtocolVersion>>::from,
            (version,),
            told_version,
        ),
        call_ensures(
            <IpcPlatformCapabilities as core::convert::From<PlatformCapabilities>>::from,
            (capabilities,),
            told_capabilities,
        ),
    ensures
        told_point.x == point.x && told_point.y == point.y,
        told_rect.x == rect.origin.x && told_rect.y == rect.origin.y,
        told_rect.width == rect.size.width && told_rect.height == rect.size.height,
        told_version.major == version.major && told_version.minor == version.minor,
        told_capabilities.can_capture_pointer == capabilities.can_capture_pointer,
        told_capabilities.can_capture_keyboard == capabilities.can_capture_keyboard,
        told_capabilities.can_inject_pointer == capabilities.can_inject_pointer,
        told_capabilities.can_inject_keyboard == capabilities.can_inject_keyboard,
{
}

/// What is told of a monitor and of a keyboard is what the platform told of them.
pub proof fn monitors_and_keyboards_are_told_as_they_are(
    monitor: &DesktopMonitor,
    layout: KeyboardLayoutSnapshot,
    told_monitor: DiagnosticsMonitorSnapshot,
    told_layout: DiagnosticsKeyboardLayout,
)
    requires
        call_ensures(monitor_snapshot, (monitor,), told_monitor),
        call_ensures(keyboard_layout_snapshot, (layout,), told_layout),
    ensures
        told_monitor.id@ == monitor.id@,
        told_monitor.bounds.x == monitor.bounds.origin.x,
        told_monitor.bounds.y == monitor.bounds.origin.y,
        told_monitor.bounds.width == monitor.bounds.size.width,
        told_monitor.bounds.height == monitor.bounds.size.height,
        told_monitor.scale_factor_percent == monitor.scale_factor_percent,
        told_monitor.is_primary == monitor.is_primary,
        told_layout.source@ == layout.source@,
        told_layout.layout_id@ == layout.layout_id@,
        told_layout.language_id@ == layout.language_id@,
        told_layout.layout_name == layout.layout_name,
{
}

/// What is written of the daemon and its sessions says what is told of them, each member under its own
/// name.
pub proof fn written_statuses_say_what_is_told(
    status: DaemonStatus,
    peer: PeerStatus,
    session: SessionStatus,
)
    ensures
        says(status.json(), 5, "daemonVersion"@, JsonModel::Text(status.daemon_version@)),
        says(status.json(), 5, "mode"@, status.mode.json()),
        says(status.json(), 5, "protocol"@, status.protocol.json()),
        says(status.json(), 5, "capabilities"@, status.capabilities.json()),
        says(status.json(), 5, "peers"@, status.json()->Object_0[3].1),
        status.json()->Object_0[3].1 is Array,
        status.json()->Object_0[3].1->Array_0.len() == status.peers@.len(),
        forall|i: int|
            0 <= i < status.peers@.len() ==> #[trigger] status.json()->Object_0[3].1->Array_0[i]
                == status.peers@[i].json(),
        peer.json() is Object,
        peer.json()->Object_0.contains(("peerId"@, JsonModel::Text(peer.peer_id@))),
        peer.json()->Object_0.contains(("displayName"@, JsonModel::Text(peer.display_name@))),
        peer.json()->Object_0.contains(("connected"@, JsonModel::Bool(peer.connected))),
        peer.local_device_id matches Some(device) ==> peer.json()->Object_0.contains(
            ("localDeviceId"@, JsonModel::Text(device@)),
        ),
        peer.address matches Some(address) ==> peer.json()->Object_0.contains(
            ("address"@, JsonModel::Text(address@)),
        ),
        peer.json()->Object_0.len() == 3 + (if peer.local_device_id is Some {
            1nat
        } else {
            0
        }) + (if peer.address is Some {
            1nat
        } else {
            0
        }),
        says(session.json(), 4, "peerId"@, JsonModel::Text(session.peer_id@)),
        says(session.json(), 4, "localDeviceId"@, JsonModel::Text(session.local_device_id@)),
        says(session.json(), 4, "address"@, JsonModel::Text(session.address@)),
        says(session.json(), 4, "connected"@, JsonModel::Bool(session.connected)),
{
    lemma_says(status.json(), 0);
    lemma_says(status.json(), 1);
    lemma_says(status.json(), 2);
    lemma_says(status.json(), 3);
    lemma_says(status.json(), 4);
    lemma_says(peer.json(), 0);
    lemma_says(peer.json(), 1);
    lemma_says(peer.json(), 2);
    if peer.local_device_id is Some {
        lemma_says(peer.json(), 3);
        if peer.address is Some {
            lemma_says(peer.json(), 4);
        }
    } else if peer.address is Some {
        lemma_says(peer.json(), 3);
    }
    lemma_says(session.json(), 0);
    lemma_says(session.json(), 1);
    lemma_says(session.json(), 2);
    lemma_says(session.json(), 3);
}

/// What is written of the outcome of a request says what the outcome is, each member under its own name.
pub proof fn written_outcomes_say_what_happened(
    released: InputReleaseAllResult,
    connected: SessionConnectResult,
    disconnected: SessionDisconnectResult,
    shutdown: DaemonShutdownResult,
)
    ensures
        says(released.json(), 2, "released"@, JsonModel::Bool(released.released)),
        says(released.json(), 2, "mode"@, released.mode.json()),
        says(connected.json(), 2, "connected"@, JsonModel::Bool(connected.connected)),
        says(connected.json(), 2, "session"@, connected.session.json()),
        says(disconnected.json(), 3, "disconnected"@, JsonModel::Bool(disconnected.disconnected)),
        says(disconnected.json(), 3, "mode"@, disconnected.mode.json()),
        disconnected.session matches Some(session) ==> says(
            disconnected.json(),
            3,
            "session"@,
            session.json(),
        ),
        disconnected.session is None ==> says(
            disconnected.json(),
            3,
            "session"@,
            JsonModel::Null,
        ),
        says(shutdown.json(), 4, "requested"@, JsonModel::Bool(shutdown.requested)),
        says(shutdown.json(), 4, "releasedInputs"@, JsonModel::Bool(shutdown.released_inputs)),
        says(
            shutdown.json(),
            4,
            "disconnectedPeerSession"@,
            JsonModel::Bool(shutdown.disconnected_peer_session),
        ),
        says(shutdown.json(), 4, "mode"@, shutdown.mode.json()),
{
    lemma_says(released.json(), 0);
    lemma_says(released.json(), 1);
    lemma_says(connected.json(), 0);
    lemma_says(connected.json(), 1);
    lemma_says(disconnected.json(), 0);
    lemma_says(disconnected.json(), 1);
    lemma_says(disconnected.json(), 2);
    lemma_says(shutdown.json(), 0);
    lemma_says(shutdown.json(), 1);
    lemma_says(shutdown.json(), 2);
    lemma_says(shutdown.json(), 3);
}

/// What is written of permissions, screens, keyboards, the log and candidates says what they are.
pub proof fn written_reports_say_what_they_report(
    issue: PermissionIssue,
    probe: PermissionsProbe,
    monitor: DiagnosticsMonitorSnapshot,
    topology: DiagnosticsScreenTopology,
    layout: DiagnosticsKeyboardLayout,
    entry: DaemonLogEntry,
    candidate: SessionDiscoveryCandidate,
)
    ensures
        says(issue.json(), 2, "code"@, JsonModel::Text(issue.code@)),
        says(issue.json(), 2, "message"@, JsonModel::Text(issue.message@)),
        says(probe.json(), 3, "adapterName"@, JsonModel::Text(probe.adapter_name@)),
        says(probe.json(), 3, "capabilities"@, probe.capabilities.json()),
        says(monitor.json(), 4, "id"@, JsonModel::Text(monitor.id@)),
        says(monitor.json(), 4, "bounds"@, monitor.bounds.json()),
        says(monitor.json(), 4, "isPrimary"@, JsonModel::Bool(monitor.is_primary)),
        monitor.scale_factor_percent matches Some(percent) ==> says(
            monitor.json(),
            4,
            "scaleFactorPercent"@,
            JsonModel::Unsigned(percent as u64),
        ),
        topology.json()->Object_0.contains(("pointerPosition"@, topology.pointer_position.json())),
        topology.json()->Object_0.contains(
            ("virtualScreenBounds"@, topology.virtual_screen_bounds.json()),
        ),
        says(layout.json(), 4, "source"@, JsonModel::Text(layout.source@)),
        says(layout.json(), 4, "layoutId"@, JsonModel::Text(layout.layout_id@)),
        says(layout.json(), 4, "languageId"@, JsonModel::Text(layout.language_id@)),
        says(entry.json(), 4, "sequence"@, JsonModel::Unsigned(entry.sequence)),
        says(entry.json(), 4, "level"@, entry.level.json()),
        says(entry.json(), 4, "event"@, JsonModel::Text(entry.event@)),
        says(entry.json(), 4, "message"@, JsonModel::Text(entry.message@)),
        entry.level is Info ==> entry.level.json() == JsonModel::Text("info"@),
        entry.level is Warn ==> entry.level.json() == JsonModel::Text("warn"@),
        entry.level is Error ==> entry.level.json() == JsonModel::Text("error"@),
        says(candidate.json(), 7, "peerId"@, JsonModel::Text(candidate.peer_id@)),
        says(candidate.json(), 7, "displayName"@, JsonModel::Text(candidate.display_name@)),
        says(candidate.json(), 7, "trusted"@, JsonModel::Bool(candidate.trusted)),
        says(candidate.json(), 7, "address"@, JsonModel::Text(candidate.address@)),
        says(candidate.json(), 7, "buildVersion"@, JsonModel::Text(candidate.build_version@)),
        candidate.fingerprint matches Some(fingerprint) ==> says(
            candidate.json(),
            7,
            "fingerprint"@,
            JsonModel::Text(fingerprint@),
        ),
        candidate.fingerprint is None ==> says(
            candidate.json(),
            7,
            "fingerprint"@,
            JsonModel::Null,
        ),
        says(
            candidate.json(),
            7,
            "capabilities"@,
            JsonModel::Unsigned(candidate.capabilities.bits as u64),
        ),
{
    lemma_says(issue.json(), 0);
    lemma_says(issue.json(), 1);
    lemma_says(probe.json(), 0);
    lemma_says(probe.json(), 1);
    lemma_says(monitor.json(), 0);
    lemma_says(monitor.json(), 1);
    lemma_says(monitor.json(), 2);
    lemma_says(monitor.json(), 3);
    lemma_says(topology.json(), 0);
    lemma_says(topology.json(), 1);
    lemma_says(layout.json(), 0);
    lemma_says(layout.json(), 1);
    lemma_says(layout.json(), 2);
    lemma_says(entry.json(), 0);
    lemma_says(entry.json(), 1);
    lemma_says(entry.json(), 2);
    lemma_says(entry.json(), 3);
    lemma_says(candidate.json(), 0);
    lemma_says(candidate.json(), 1);
    lemma_says(candidate.json(), 2);
    lemma_says(candidate.json(), 3);
    lemma_says(candidate.json(), 4);
    lemma_says(candidate.json(), 5);
    lemma_says(candidate.json(), 6);
}

/// What is written to ask for a session and for the log says what is asked.
pub proof fn written_parameters_say_what_is_asked(
    session: SessionConnectParams,
    tail: DaemonLogsTailParams,
)
    ensures
        says(session.json(), 3, "peerId"@, JsonModel::Text(session.peer_id@)),
        says(session.json(), 3, "localDeviceId"@, JsonModel::Text(session.local_device_id@)),
        says(session.json(), 3, "address"@, JsonModel::Text(session.address@)),
        tail.limit matches Some(limit) ==> says(
            tail.json(),
            1,
            "limit"@,
            JsonModel::Unsigned(limit as u64),
        ),
        tail.limit is None ==> says(tail.json(), 1, "limit"@, JsonModel::Null),
{
    lemma_says(session.json(), 0);
    lemma_says(session.json(), 1);
    lemma_says(session.json(), 2);
    lemma_says(tail.json(), 0);
}

} // verus!
