//! The daemon: what it tells of itself, and how it answers requests.

use akraz::address::{parse_socket_address, IpAddress, SocketAddress};
use akraz::discovery::DiscoveryTxtRecord;
use akraz::endpoint::{IpcEndpoint, IpcTransportError, LocalIpcServer};
use akraz::identity::{
    fingerprint_for_public_key, Ed25519IdentityKey, Ed25519PublicKey, TrustedPeer,
    TrustedPeerIdentity,
};
use akraz::logs::{record_daemon_event, DaemonLogBuffer};
use akraz::managed::{
    FixedClock, KeptFrames, ManagedPeerSessionTransport, TcpPeerSessionTransport,
};
use akraz::peers::{DiscoveredPeer, DiscoverySessionCandidate};
use akraz::platform::{
    DesktopGeometry, DesktopMonitor, FakePlatformAdapter, KeyboardLayoutSnapshot,
    PlatformCapabilities, PlatformError,
};
use akraz::protocol::{peer_session_capabilities, CapabilityFlags};
use akraz::rpc::{
    to_json_line, JsonRpcRequest, JSONRPC_ERROR_METHOD_NOT_FOUND, METHOD_DAEMON_LOGS_TAIL,
    METHOD_DAEMON_SHUTDOWN, METHOD_DAEMON_STATUS, METHOD_DIAGNOSTICS_KEYBOARD_LAYOUT,
    METHOD_DIAGNOSTICS_SCREEN_TOPOLOGY, METHOD_INPUT_RELEASE_ALL, METHOD_PERMISSIONS_PROBE,
    METHOD_SESSION_CONNECT, METHOD_SESSION_DISCONNECT, METHOD_SESSION_DISCOVERY_CANDIDATES,
};
use akraz::runtime::{
    ControlMode, CoreAction, DeviceId, LogicalPoint, LogicalRect, LogicalSize, PeerId,
    RuntimeEvent, RuntimeInputState, SessionId,
};
use akraz::server::{
    begin_daemon_ipc, disconnect_peer_session, handle_ipc_request_line, serve_daemon_ipc,
    DaemonIpcRunConfig, DaemonIpcServer, DetachedSessions, ServeAction, JSONRPC_DAEMON_ERROR,
};
use akraz::services::{connect_peer_session, NoSessionServices, SessionServices};
use akraz::session::{read_peer_transport_session, session_hello, PeerSessionPrelude, QueuedFrames, SessionRead};
use akraz::snapshot::{
    ControlModeSnapshot, DaemonLogLevel, DaemonLogsTailParams, DaemonShutdownParams, DaemonStatus,
    DaemonStatusParams, DiagnosticsKeyboardLayout, DiagnosticsKeyboardLayoutParams,
    DiagnosticsScreenTopology, DiagnosticsScreenTopologyParams, InputReleaseAllParams,
    IpcPlatformCapabilities, PeerStatus, PermissionsProbe, PermissionsProbeParams,
    SessionConnectParams, SessionDisconnectParams, SessionDisconnectResult,
    SessionDiscoveryCandidatesParams, SessionStatus,
};
use akraz::status::{
    build_daemon_status, build_daemon_status_with_peer_sessions, build_diagnostics_keyboard_layout,
    build_diagnostics_screen_topology, build_peer_session_discovery_candidates,
    build_permissions_probe, build_session_discovery_candidates_result, DAEMON_VERSION,
};
use akraz::store::{IdentityStoreError, StoredLocalIdentity};
use akraz::transport::{
    CoreActionDispatcher, DaemonTransportCommand, LocalPlatformCoreActionDispatcher,
    NoopCoreActionDispatcher, TransportCoreActionDispatcher,
};

type Managed = ManagedPeerSessionTransport<KeptFrames, FixedClock>;

const CLOCK: FixedClock = FixedClock { time: 7_000_000_000 };

#[derive(Debug, Default)]
struct RecordingCoreActionDispatcher {
    actions: Vec<CoreAction>,
}

impl CoreActionDispatcher for RecordingCoreActionDispatcher {
    fn dispatch_core_actions(&mut self, actions: &[CoreAction]) -> Result<(), PlatformError> {
        self.actions.extend_from_slice(actions);
        Ok(())
    }
}

/// A store that knows one peer, and no network.
struct OnePeer {
    display_name: &'static str,
}

impl SessionServices<KeptFrames> for OnePeer {
    fn load_identity(
        &mut self,
        store: &str,
        _display_name: &str,
    ) -> Result<StoredLocalIdentity, IdentityStoreError> {
        Err(IdentityStoreError::MissingIdentityFile { path: store.to_string() })
    }

    fn load_trusted_peer(
        &mut self,
        _store: &str,
        peer_id: &str,
    ) -> Result<TrustedPeer<Ed25519PublicKey>, String> {
        let public_key = Ed25519IdentityKey::generate().public_key_bytes();
        Ok(TrustedPeer::new(
            TrustedPeerIdentity::new(
                peer_id,
                self.display_name,
                public_key.to_vec(),
                fingerprint_for_public_key(&public_key).as_str(),
                peer_session_capabilities(),
            ),
            Ed25519PublicKey::from_public_key_bytes(&public_key).expect("trusted public key"),
        ))
    }

    fn open_session(
        &mut self,
        _address: SocketAddress,
        _prelude: PeerSessionPrelude,
    ) -> Result<KeptFrames, PlatformError> {
        Err(PlatformError::new("no network"))
    }
}

fn json(text: &str) -> serde_json::Value {
    serde_json::from_str(text).expect("valid JSON")
}

fn value(text: &str) -> serde_json::Value {
    serde_json::Value::String(text.to_string())
}

fn number(count: i64) -> serde_json::Value {
    serde_json::Value::from(count)
}

fn pointer_and_keyboard() -> CapabilityFlags {
    CapabilityFlags::pointer().union(CapabilityFlags::keyboard())
}

fn address() -> SocketAddress {
    parse_socket_address("127.0.0.1:24888").expect("loopback address")
}

fn managed() -> Managed {
    ManagedPeerSessionTransport::new(CLOCK)
}

fn connected_session() -> TcpPeerSessionTransport<KeptFrames> {
    TcpPeerSessionTransport::new(
        PeerId::new("right-peer"),
        DeviceId::new("windows-desktop"),
        address(),
        KeptFrames { frames: vec![session_hello("windows-desktop", "right-peer", None)] },
    )
}

fn detached<D>(dispatcher: D) -> DetachedSessions<D, KeptFrames, FixedClock> {
    DetachedSessions::new(dispatcher, managed())
}

type LocalDispatcher = LocalPlatformCoreActionDispatcher<FakePlatformAdapter, NoopCoreActionDispatcher>;

fn local_dispatcher() -> DetachedSessions<LocalDispatcher, KeptFrames, FixedClock> {
    detached(LocalPlatformCoreActionDispatcher::new(
        FakePlatformAdapter::default(),
        NoopCoreActionDispatcher,
    ))
}

type PlainServer =
    DaemonIpcServer<FakePlatformAdapter, DetachedSessions<LocalDispatcher, KeptFrames, FixedClock>, NoSessionServices>;

fn plain_server(state: RuntimeInputState) -> PlainServer {
    DaemonIpcServer::new(state, FakePlatformAdapter::default(), CLOCK)
}

fn answer<S: LocalIpcServer>(server: &mut S, line: &str) -> serde_json::Value {
    match server.handle_request_line(line) {
        Ok(reply) => {
            assert!(reply.ends_with('\n'));
            json(&reply)
        }
        Err(error) => panic!("expected daemon IPC response: {}", error.message()),
    }
}

/// The answer of a daemon on this platform that opens no sessions.
fn answer_on(mut platform: FakePlatformAdapter, line: &str) -> serde_json::Value {
    let mut state = RuntimeInputState::new();
    let reply = handle_ipc_request_line(&mut state, &mut platform, &mut local_dispatcher(), line)
        .expect("daemon IPC response");
    json(&reply)
}

fn status_line() -> String {
    to_json_line(&JsonRpcRequest::new("req_1", METHOD_DAEMON_STATUS, DaemonStatusParams::default()))
        .expect("request line")
}

fn shutdown_line() -> String {
    to_json_line(&JsonRpcRequest::new(
        "req_1",
        METHOD_DAEMON_SHUTDOWN,
        DaemonShutdownParams::default(),
    ))
    .expect("request line")
}

fn connect_line(peer: &str, device: &str) -> String {
    to_json_line(&JsonRpcRequest::new(
        "req_connect",
        METHOD_SESSION_CONNECT,
        SessionConnectParams {
            peer_id: peer.to_string(),
            local_device_id: device.to_string(),
            address: "127.0.0.1:24888".to_string(),
        },
    ))
    .expect("request line")
}

fn remote_state(session: &str) -> RuntimeInputState {
    let mut state = RuntimeInputState::new();
    state
        .apply_event(RuntimeEvent::RemoteEntryRequested { peer_id: PeerId::new("right-peer") })
        .expect("remote entry request");
    state
        .apply_event(RuntimeEvent::RemoteEntryConfirmed { session_id: SessionId::new(session) })
        .expect("remote entry confirmed");
    state
}

fn recovery_actions(session: &str) -> Vec<CoreAction> {
    vec![
        CoreAction::ReleaseLocalInputs,
        CoreAction::ReleaseAllInputs,
        CoreAction::StopRemoteSession { session_id: Some(SessionId::new(session)) },
    ]
}

fn status_or_panic(state: &RuntimeInputState, platform: &mut FakePlatformAdapter) -> DaemonStatus {
    match build_daemon_status(state, platform) {
        Ok(status) => status,
        Err(error) => panic!("expected daemon status: {}", error.message()),
    }
}

fn probe_or_panic(platform: &mut FakePlatformAdapter) -> PermissionsProbe {
    match build_permissions_probe(platform) {
        Ok(probe) => probe,
        Err(error) => panic!("expected permission probe: {}", error.message()),
    }
}

fn topology_or_panic(platform: &mut FakePlatformAdapter) -> DiagnosticsScreenTopology {
    match build_diagnostics_screen_topology(platform) {
        Ok(topology) => topology,
        Err(error) => panic!("expected screen topology: {}", error.message()),
    }
}

fn korean_keyboard_layout() -> KeyboardLayoutSnapshot {
    KeyboardLayoutSnapshot {
        source: "foregroundWindowThread".to_string(),
        layout_id: "0x0000000004120412".to_string(),
        language_id: "0x0412".to_string(),
        layout_name: Some("00000412".to_string()),
    }
}

fn rect(x: i32, y: i32, width: i32, height: i32) -> LogicalRect {
    LogicalRect { origin: LogicalPoint { x, y }, size: LogicalSize { width, height } }
}

fn discovered_peer(device_id: &str, capabilities: CapabilityFlags) -> DiscoveredPeer {
    DiscoveredPeer {
        instance_name: format!("{device_id}._akraz._tcp.local."),
        host_name: format!("{device_id}.local."),
        addresses: vec![IpAddress::V4 { octets: [127, 0, 0, 1] }],
        port: 4455,
        txt: DiscoveryTxtRecord {
            version: 1,
            device_id: device_id.to_string(),
            display_name: None,
            identity_public_key: None,
            fingerprint: None,
            capabilities,
            build_version: "0.5.6".to_string(),
        },
    }
}

fn linux_candidate() -> DiscoverySessionCandidate {
    DiscoverySessionCandidate {
        peer_id: "linux-laptop".to_string(),
        display_name: "Linux Laptop".to_string(),
        fingerprint: Some("AKRZ-TRUSTED".to_string()),
        peer_document_json: None,
        trusted: true,
        address: parse_socket_address("127.0.0.1:4455").expect("candidate address"),
        build_version: "0.5.6".to_string(),
        capabilities: pointer_and_keyboard(),
    }
}

#[test]
fn daemon_status_reflects_runtime_state_and_capabilities() {
    let state = RuntimeInputState::new();
    let mut platform = FakePlatformAdapter::default();

    let status = status_or_panic(&state, &mut platform);

    assert_eq!(status.daemon_version, DAEMON_VERSION);
    assert_eq!(status.mode, ControlModeSnapshot::from(ControlMode::Local));
    assert_eq!(status.protocol.major, 1);
    assert_eq!(status.protocol.minor, 4);
    assert!(status.peers.is_empty());
    assert_eq!(
        status.capabilities,
        IpcPlatformCapabilities {
            can_capture_pointer: true,
            can_capture_keyboard: true,
            can_inject_pointer: true,
            can_inject_keyboard: true,
        }
    );
}

#[test]
fn daemon_status_uses_trusted_peer_display_name_for_active_session() {
    let mut peer_sessions: Managed =
        ManagedPeerSessionTransport::with_identity_store("identity.json", "Windows Desktop", CLOCK);
    peer_sessions.attach_session(connected_session()).expect("attach managed peer session");

    let status = build_daemon_status_with_peer_sessions(
        &RuntimeInputState::new(),
        &mut FakePlatformAdapter::default(),
        &peer_sessions,
        &mut OnePeer { display_name: "Right Peer" },
    )
    .expect("daemon status with trusted peer display name");

    assert_eq!(
        status.peers,
        vec![PeerStatus {
            display_name: "Right Peer".to_string(),
            peer_id: "right-peer".to_string(),
            connected: true,
            local_device_id: Some("windows-desktop".to_string()),
            address: Some("127.0.0.1:24888".to_string()),
        }]
    );
}

#[test]
fn peer_session_discovery_candidates_apply_daemon_session_policy() {
    let trusted = TrustedPeerIdentity::new(
        "linux-laptop",
        "Linux Laptop",
        b"public-key".to_vec(),
        "AKRZ-TRUSTED",
        pointer_and_keyboard(),
    );
    let local = discovered_peer("windows-desktop", pointer_and_keyboard());
    let accepted = discovered_peer("linux-laptop", pointer_and_keyboard());
    let missing_pointer = discovered_peer("keyboard-only", CapabilityFlags::keyboard());

    let candidates = build_peer_session_discovery_candidates(
        &DeviceId::new("windows-desktop"),
        &vec![local, accepted, missing_pointer],
        &vec![trusted],
    );

    assert_eq!(candidates, vec![linux_candidate()]);
}

#[test]
fn session_discovery_candidates_result_uses_ipc_wire_shape() {
    let result = build_session_discovery_candidates_result(&vec![linux_candidate()]);

    assert_eq!(
        json(&to_json_line(&result).expect("session discovery JSON")),
        json(
            r#"{
                "candidates": [{
                    "peerId": "linux-laptop",
                    "displayName": "Linux Laptop",
                    "fingerprint": "AKRZ-TRUSTED",
                    "trusted": true,
                    "address": "127.0.0.1:4455",
                    "buildVersion": "0.5.6",
                    "capabilities": 3
                }]
            }"#
        )
    );
}

#[test]
fn daemon_ipc_session_discovery_candidates_returns_empty_without_resolver() {
    let mut state = RuntimeInputState::new();
    let mut platform = FakePlatformAdapter::default();
    let request = JsonRpcRequest::new(
        "req_1",
        METHOD_SESSION_DISCOVERY_CANDIDATES,
        SessionDiscoveryCandidatesParams::default(),
    );
    let line = to_json_line(&request).expect("session discovery request line");

    let reply = handle_ipc_request_line(
        &mut state,
        &mut platform,
        &mut detached(NoopCoreActionDispatcher),
        &line,
    )
    .expect("session discovery response");

    assert_eq!(json(&reply)["result"], json(r#"{ "candidates": [] }"#));
}

#[test]
fn permissions_probe_reports_missing_capability_issues() {
    let mut platform = FakePlatformAdapter::new(PlatformCapabilities {
        can_capture_pointer: true,
        can_capture_keyboard: false,
        can_inject_pointer: true,
        can_inject_keyboard: false,
    });

    let probe = probe_or_panic(&mut platform);

    assert_eq!(probe.adapter_name, "fake");
    assert_eq!(probe.issues.len(), 2);
    assert_eq!(probe.issues[0].code, "capture_keyboard_unavailable");
    assert_eq!(probe.issues[1].code, "inject_keyboard_unavailable");
}

#[test]
fn permissions_probe_recovers_remote_control_when_capability_is_missing() {
    let mut state = remote_state("session-permission");
    let mut platform = FakePlatformAdapter::new(PlatformCapabilities {
        can_capture_pointer: true,
        can_capture_keyboard: false,
        can_inject_pointer: true,
        can_inject_keyboard: true,
    });
    let mut dispatcher = detached(RecordingCoreActionDispatcher::default());
    let request = JsonRpcRequest::new(
        "req_1",
        METHOD_PERMISSIONS_PROBE,
        PermissionsProbeParams::default(),
    );
    let line = to_json_line(&request).expect("request line");

    let reply = handle_ipc_request_line(&mut state, &mut platform, &mut dispatcher, &line)
        .expect("permissions probe response");
    let response = json(&reply);

    assert_eq!(response["id"], value("req_1"));
    assert_eq!(response["result"]["issues"].as_array().map(Vec::len), Some(1));
    assert_eq!(response["result"]["issues"][0]["code"], value("capture_keyboard_unavailable"));
    assert_eq!(state.mode(), ControlMode::Local);
    assert_eq!(dispatcher.dispatcher.actions, recovery_actions("session-permission"));
}

#[test]
fn diagnostics_screen_topology_reflects_desktop_geometry() {
    let mut platform = FakePlatformAdapter::default().with_desktop_geometry(DesktopGeometry {
        pointer_position: LogicalPoint { x: 1919, y: 540 },
        virtual_screen_bounds: rect(-1920, 0, 3840, 1080),
        monitors: vec![
            DesktopMonitor {
                id: "left".to_string(),
                bounds: rect(-1920, 0, 1920, 1080),
                scale_factor_percent: Some(125),
                is_primary: false,
            },
            DesktopMonitor {
                id: "primary".to_string(),
                bounds: rect(0, 0, 1920, 1080),
                scale_factor_percent: Some(100),
                is_primary: true,
            },
        ],
    });

    let topology = topology_or_panic(&mut platform);

    assert_eq!(topology.pointer_position.x, 1919);
    assert_eq!(topology.pointer_position.y, 540);
    assert_eq!(topology.virtual_screen_bounds.x, -1920);
    assert_eq!(topology.virtual_screen_bounds.y, 0);
    assert_eq!(topology.virtual_screen_bounds.width, 3840);
    assert_eq!(topology.virtual_screen_bounds.height, 1080);
    assert_eq!(topology.monitors.len(), 2);
    assert_eq!(topology.monitors[0].id, "left");
    assert_eq!(topology.monitors[0].scale_factor_percent, Some(125));
    assert!(topology.monitors[1].is_primary);
}

#[test]
fn diagnostics_keyboard_layout_reflects_platform_input_locale() {
    let mut platform =
        FakePlatformAdapter::default().with_keyboard_layout(korean_keyboard_layout());

    let keyboard_layout =
        build_diagnostics_keyboard_layout(&mut platform).expect("keyboard layout");

    assert_eq!(
        keyboard_layout,
        DiagnosticsKeyboardLayout {
            source: "foregroundWindowThread".to_string(),
            layout_id: "0x0000000004120412".to_string(),
            language_id: "0x0412".to_string(),
            layout_name: Some("00000412".to_string()),
        }
    );
}

#[test]
fn ipc_dispatch_handles_daemon_status_request() {
    let response = answer_on(FakePlatformAdapter::default(), &status_line());

    assert_eq!(response["id"], value("req_1"));
    assert_eq!(response["result"]["daemonVersion"], value(DAEMON_VERSION));
    assert_eq!(response["result"]["mode"], value("Local"));
}

#[test]
fn daemon_ipc_server_handles_shutdown_request() {
    let mut server = plain_server(RuntimeInputState::new());

    let response = answer(&mut server, &shutdown_line());

    assert!(server.shutdown_requested());
    assert_eq!(
        response,
        json(
            r#"{
                "jsonrpc": "2.0",
                "id": "req_1",
                "result": {
                    "requested": true,
                    "releasedInputs": true,
                    "disconnectedPeerSession": false,
                    "mode": "Local"
                }
            }"#
        )
    );
}

#[test]
fn ipc_dispatch_rejects_shutdown_without_server_control_flag() {
    let response = answer_on(FakePlatformAdapter::default(), &shutdown_line());

    assert_eq!(response["id"], value("req_1"));
    assert_eq!(response["error"]["code"], number(JSONRPC_DAEMON_ERROR as i64));
    assert_eq!(
        response["error"]["message"],
        value("daemon shutdown unavailable: shutdown control flag is unavailable")
    );
}

#[test]
fn ipc_dispatch_handles_diagnostics_screen_topology_request() {
    let platform = FakePlatformAdapter::default().with_desktop_geometry(DesktopGeometry {
        pointer_position: LogicalPoint { x: 1919, y: 540 },
        virtual_screen_bounds: rect(-1920, 0, 3840, 1080),
        monitors: vec![DesktopMonitor {
            id: "primary".to_string(),
            bounds: rect(0, 0, 1920, 1080),
            scale_factor_percent: Some(150),
            is_primary: true,
        }],
    });
    let request = JsonRpcRequest::new(
        "req_1",
        METHOD_DIAGNOSTICS_SCREEN_TOPOLOGY,
        DiagnosticsScreenTopologyParams::default(),
    );
    let line = to_json_line(&request).expect("request line");

    let response = answer_on(platform, &line);
    let result = &response["result"];

    assert_eq!(response["id"], value("req_1"));
    assert_eq!(result["pointerPosition"]["x"], number(1919));
    assert_eq!(result["pointerPosition"]["y"], number(540));
    assert_eq!(result["virtualScreenBounds"]["x"], number(-1920));
    assert_eq!(result["virtualScreenBounds"]["y"], number(0));
    assert_eq!(result["virtualScreenBounds"]["width"], number(3840));
    assert_eq!(result["virtualScreenBounds"]["height"], number(1080));
    assert_eq!(result["monitors"].as_array().map(Vec::len), Some(1));
    assert_eq!(result["monitors"][0]["scaleFactorPercent"], number(150));
}

#[test]
fn ipc_dispatch_handles_diagnostics_keyboard_layout_request() {
    let platform = FakePlatformAdapter::default().with_keyboard_layout(korean_keyboard_layout());
    let request = JsonRpcRequest::new(
        "req_1",
        METHOD_DIAGNOSTICS_KEYBOARD_LAYOUT,
        DiagnosticsKeyboardLayoutParams::default(),
    );
    let line = to_json_line(&request).expect("request line");

    let response = answer_on(platform, &line);

    assert_eq!(response["id"], value("req_1"));
    assert_eq!(response["result"]["languageId"], value("0x0412"));
    assert_eq!(response["result"]["layoutName"], value("00000412"));
}

#[test]
fn daemon_ipc_server_tails_sanitized_recent_logs() {
    let mut server = DaemonIpcServer::from_shared_state_dispatcher_peer_sessions_and_logs(
        RuntimeInputState::new(),
        FakePlatformAdapter::default(),
        local_dispatcher(),
        NoSessionServices,
        DaemonLogBuffer::new(8),
    );

    let _ = answer(&mut server, &connect_line("secret-peer-id", "secret-local-device"));

    let logs_request = JsonRpcRequest::new(
        "req_logs",
        METHOD_DAEMON_LOGS_TAIL,
        DaemonLogsTailParams { limit: Some(4) },
    );
    let logs_line = to_json_line(&logs_request).expect("request line");
    let response = answer(&mut server, &logs_line);
    let encoded = response.to_string();
    let entries = &response["result"]["entries"];

    assert_eq!(response["id"], value("req_logs"));
    assert_eq!(entries.as_array().map(Vec::len), Some(2));
    assert_eq!(entries[0]["level"], value("warn"));
    assert_eq!(entries[0]["event"], value("session.connect.failed"));
    assert_eq!(entries[1]["event"], value("daemon.logs.tail"));
    assert!(!encoded.contains("secret-peer-id"));
    assert!(!encoded.contains("secret-local-device"));
    assert!(!encoded.contains("127.0.0.1"));
}

#[test]
fn daemon_ipc_server_handles_input_release_all_request() {
    let mut server = DaemonIpcServer::from_shared_state_dispatcher_and_peer_sessions(
        remote_state("session-ipc"),
        FakePlatformAdapter::default(),
        detached(RecordingCoreActionDispatcher::default()),
        NoSessionServices,
    );
    let request = JsonRpcRequest::new(
        "req_1",
        METHOD_INPUT_RELEASE_ALL,
        InputReleaseAllParams::default(),
    );
    let line = to_json_line(&request).expect("request line");

    let response = answer(&mut server, &line);

    assert_eq!(response["id"], value("req_1"));
    assert_eq!(response["result"], json(r#"{ "released": true, "mode": "Local" }"#));
    assert_eq!(server.state.mode(), ControlMode::Local);
    assert_eq!(server.dispatcher.dispatcher.actions, recovery_actions("session-ipc"));
}

#[test]
fn peer_session_connect_command_rejects_unpaired_manager() {
    let mut peer_sessions = managed();

    let error = connect_peer_session(
        &SessionConnectParams {
            peer_id: "right-peer".to_string(),
            local_device_id: "windows-desktop".to_string(),
            address: "127.0.0.1:24888".to_string(),
        },
        &mut peer_sessions,
        &mut NoSessionServices,
    )
    .expect_err("reject session.connect without identity store");

    assert_eq!(
        error.message(),
        "managed peer session requires identity store before session.connect"
    );
    assert_eq!(peer_sessions.active_session(), None);
}

#[test]
fn peer_session_disconnect_command_recovers_local_control_and_detaches_session() {
    let mut state = remote_state("session-ipc");
    let mut peer_sessions = managed();
    peer_sessions.attach_session(connected_session()).expect("attach managed peer session");
    let mut dispatcher = LocalPlatformCoreActionDispatcher::new(
        FakePlatformAdapter::default(),
        TransportCoreActionDispatcher::new(peer_sessions),
    );

    let result =
        disconnect_peer_session(&mut state, &mut dispatcher).expect("disconnect peer session");

    assert_eq!(
        result,
        SessionDisconnectResult {
            disconnected: true,
            session: Some(SessionStatus {
                peer_id: "right-peer".to_string(),
                local_device_id: "windows-desktop".to_string(),
                address: "127.0.0.1:24888".to_string(),
                connected: false,
            }),
            mode: ControlModeSnapshot::Local,
        }
    );
    assert_eq!(state.mode(), ControlMode::Local);
    assert_eq!(dispatcher.platform().release_all_count(), 1);
    assert_eq!(dispatcher.next().transport().active_session(), None);
}

#[test]
fn a_session_on_its_way_out_releases_the_peer_first() {
    let mut session = connected_session();
    {
        let mut dispatcher = TransportCoreActionDispatcher::new(session);
        dispatcher
            .dispatch_core_actions(&recovery_actions("session-ipc"))
            .expect("recovery is sent");
        session = dispatcher.transport;
    }
    let mut reader = QueuedFrames::new();
    for frame in session.sink.frames {
        reader.push(SessionRead::Frame { frame });
    }

    let received = read_peer_transport_session(&mut reader, 2).expect("TCP peer session");

    assert_eq!(
        received.commands,
        vec![
            DaemonTransportCommand::ReleaseAllInputs,
            DaemonTransportCommand::StopRemoteSession {
                session_id: Some(SessionId::new("session-ipc")),
            },
        ]
    );
}

#[test]
fn daemon_ipc_server_rejects_session_connect_without_identity_store() {
    let dispatcher = LocalPlatformCoreActionDispatcher::new(
        FakePlatformAdapter::default(),
        TransportCoreActionDispatcher::new(managed()),
    );
    let mut server = DaemonIpcServer::from_shared_state_dispatcher_and_peer_sessions(
        RuntimeInputState::new(),
        FakePlatformAdapter::default(),
        dispatcher,
        NoSessionServices,
    );

    let response = answer(&mut server, &connect_line("right-peer", "windows-desktop"));

    assert_eq!(response["id"], value("req_connect"));
    assert_eq!(response["error"]["code"], number(JSONRPC_DAEMON_ERROR as i64));
    assert_eq!(
        response["error"]["message"],
        value(
            "session connect unavailable: managed peer session requires identity store before session.connect"
        )
    );
    assert_eq!(server.dispatcher.next().transport().active_session(), None);
}

#[test]
fn a_session_is_left_on_request() {
    let mut peer_sessions = managed();
    peer_sessions.attach_session(connected_session()).expect("attach managed peer session");
    let mut server = DaemonIpcServer::from_shared_state_dispatcher_and_peer_sessions(
        remote_state("session-ipc"),
        FakePlatformAdapter::default(),
        LocalPlatformCoreActionDispatcher::new(
            FakePlatformAdapter::default(),
            TransportCoreActionDispatcher::new(peer_sessions),
        ),
        NoSessionServices,
    );
    let request = JsonRpcRequest::new(
        "req_leave",
        METHOD_SESSION_DISCONNECT,
        SessionDisconnectParams::default(),
    );
    let line = to_json_line(&request).expect("request line");

    let response = answer(&mut server, &line);
    assert_eq!(response["result"]["disconnected"], serde_json::Value::Bool(true));
    assert_eq!(response["result"]["session"]["peerId"], value("right-peer"));
    assert_eq!(server.state.mode(), ControlMode::Local);

    let again = answer(&mut server, &line);
    assert_eq!(again["result"]["disconnected"], serde_json::Value::Bool(false));
}

#[test]
fn daemon_ipc_server_implements_local_server_contract() {
    let mut server = plain_server(RuntimeInputState::new());

    let response = answer(&mut server, &status_line());

    assert_eq!(response["id"], value("req_1"));
    assert_eq!(response["result"]["daemonVersion"], value(DAEMON_VERSION));
}

#[test]
fn daemon_ipc_server_reads_shared_runtime_state() {
    let mut server = plain_server(RuntimeInputState::new());
    server
        .state
        .apply_event(RuntimeEvent::RemoteEntryRequested { peer_id: PeerId::new("right-peer") })
        .expect("remote entry request");

    let response = answer(&mut server, &status_line());

    assert_eq!(response["result"]["mode"], value("EnteringRemote"));
}

#[test]
fn daemon_ipc_loop_serves_bounded_os_requests() {
    let endpoint = IpcEndpoint::unix_socket("/tmp/akraz-daemon-test.sock").expect("endpoint");
    let config = DaemonIpcRunConfig::serve_requests(endpoint, 1);
    let mut server = plain_server(RuntimeInputState::new());
    let mut handled: usize = 0;

    assert_eq!(begin_daemon_ipc(&config), ServeAction::ServeOnce);
    let response = answer(&mut server, &status_line());
    let server_result =
        serve_daemon_ipc(&config, &mut handled, Ok(()), server.shutdown_requested());

    assert_eq!(server_result, ServeAction::Finish(Ok(())));
    assert_eq!(handled, 1);
    assert_eq!(response["id"], value("req_1"));
    assert_eq!(response["result"]["daemonVersion"], value(DAEMON_VERSION));
}

#[test]
fn a_serving_loop_ends_when_it_is_told_to() {
    let endpoint = IpcEndpoint::manual("local-test").expect("endpoint");
    let config = DaemonIpcRunConfig::serve_forever(endpoint);
    let mut handled: usize = 0;

    assert_eq!(
        serve_daemon_ipc(&config, &mut handled, Ok(()), false),
        ServeAction::ServeOnce
    );
    assert_eq!(
        serve_daemon_ipc(&config, &mut handled, Ok(()), true),
        ServeAction::Finish(Ok(()))
    );
    let failure = IpcTransportError::request_failed("socket closed");
    assert!(matches!(
        serve_daemon_ipc(&config, &mut handled, Err(failure), false),
        ServeAction::Finish(Err(_))
    ));
    assert_eq!(handled, 2);

    let nothing = DaemonIpcRunConfig::serve_requests(
        IpcEndpoint::manual("local-test").expect("endpoint"),
        0,
    );
    assert_eq!(begin_daemon_ipc(&nothing), ServeAction::Finish(Ok(())));
}

#[test]
fn ipc_dispatch_handles_unknown_method_failure() {
    let response = answer_on(
        FakePlatformAdapter::default(),
        r#"{"jsonrpc":"2.0","id":"req_1","method":"daemon.nope","params":{}}"#,
    );

    assert_eq!(response["id"], value("req_1"));
    assert_eq!(response["error"]["code"], number(JSONRPC_ERROR_METHOD_NOT_FOUND as i64));
    assert_eq!(response["error"]["message"], value("method not found: daemon.nope"));
}

#[test]
fn ipc_dispatch_handles_malformed_request_failure() {
    let response = answer_on(FakePlatformAdapter::default(), "{not json");

    assert_eq!(
        response,
        json(
            r#"{
                "jsonrpc": "2.0",
                "id": null,
                "error": { "code": -32700, "message": "parse error" }
            }"#
        )
    );
}

#[test]
fn a_log_buffer_keeps_the_newest_entries() {
    let mut logs = Some(DaemonLogBuffer::new(2));
    for event in ["first", "second", "third"] {
        record_daemon_event(&mut logs, DaemonLogLevel::Info, event, "happened");
    }

    let entries = logs.expect("logs").tail(8);
    assert_eq!(entries.len(), 2);
    assert_eq!((entries[0].sequence, entries[0].event.as_str()), (2, "second"));
    assert_eq!((entries[1].sequence, entries[1].event.as_str()), (3, "third"));
}
