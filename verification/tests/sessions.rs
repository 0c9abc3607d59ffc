//! Sessions with peers: the wire, the executor, the handshake and the managed session.

use std::cell::RefCell;
use std::rc::Rc;

use akraz::address::{parse_socket_address, SocketAddress};
use akraz::commands::{CommandDelivery, TcpPeerTransport};
use akraz::identity::{
    fingerprint_for_public_key, DeviceIdentity, Ed25519IdentityKey, Ed25519PublicKey,
    LocalIdentity, TrustedPeer, TrustedPeerIdentity,
};
use akraz::managed::{
    check_session_identity, check_trusted_peer, connect_failure, FixedClock, KeptFrames,
    ManagedPeerSessionAuthConfig, ManagedPeerSessionSnapshot, ManagedPeerSessionTransport,
    PeerFrameSink, PeerSessionReconnectBackoff, SessionConnect, SessionConnectAction,
    SessionConnectEvent, TcpPeerSessionTransport, NANOS_PER_MILLI,
};
use akraz::platform::{FakePlatformAdapter, PlatformError};
use akraz::protocol::{
    peer_session_capabilities, AuthTranscript, CapabilityFlags, PeerRole, ProtocolVersion,
    HANDSHAKE_NONCE_LEN, TLS_EXPORTER_LEN,
};
use akraz::runtime::{
    CoreAction, DeviceId, EdgeCrossing, InjectedInputEvent, LogicalPoint, MouseButton, PeerId,
    PhysicalKey, PressState, ScreenEdge, SessionId,
};
use akraz::session::{
    build_session_prelude, connect_authenticated,
    execute_authenticated_peer_transport_session_stream_until_closed,
    execute_bounded_peer_transport_session,
    execute_paired_peer_transport_session_stream_until_closed, execute_peer_transport_command,
    execute_peer_transport_session_stream_until_closed,
    read_optional_peer_transport_session_frame, read_peer_transport_command,
    read_peer_transport_session, read_peer_transport_session_hello, session_hello,
    CommandRead, PeerSessionSender,
    PeerTransportCommandExecution, PeerTransportSessionSequence, QueuedFrames, SessionRead,
};
use akraz::smoke::{
    loopback_transport_smoke_actions, LoopbackTransportSmokeCommand,
    LoopbackTransportSmokeInputEvent, LoopbackTransportSmokeReport,
    PeerSessionExecutorSmokeReport, PeerSessionSmokeReport,
};
use akraz::status::DAEMON_VERSION;
use akraz::store::{IdentityStoreError, StoredLocalIdentity};
use akraz::transport::{
    CoreActionDispatcher, DaemonPeerTransport, DaemonTransportCommand,
    TransportCoreActionDispatcher,
};
use akraz::wire::{
    PeerTransportCommandPayload, PeerTransportInputEvent, PeerTransportMessage,
    PeerTransportProtocolVersion, PeerTransportSessionFrame, SessionReady,
};

type Session = TcpPeerSessionTransport<KeptFrames>;
type Managed = ManagedPeerSessionTransport<KeptFrames, FixedClock>;

const START: u64 = 7_000_000_000;

fn millis(count: u64) -> u64 {
    count * NANOS_PER_MILLI
}

fn pointer_and_keyboard() -> CapabilityFlags {
    CapabilityFlags::pointer().union(CapabilityFlags::keyboard())
}

fn address() -> SocketAddress {
    parse_socket_address("127.0.0.1:24888").expect("loopback address")
}

fn crossing() -> EdgeCrossing {
    EdgeCrossing {
        peer_id: PeerId::new("right-peer"),
        local_edge: ScreenEdge::Right,
        remote_edge: ScreenEdge::Left,
        exit_position: LogicalPoint { x: 1920, y: 540 },
        edge_offset: 540,
    }
}

fn moved() -> InjectedInputEvent {
    InjectedInputEvent::PointerMoved { delta_x: 8, delta_y: 2 }
}

fn four_actions() -> Vec<CoreAction> {
    vec![
        CoreAction::StartRemoteSession {
            peer_id: PeerId::new("right-peer"),
            crossing: Some(crossing()),
        },
        CoreAction::ForwardInput { event: moved() },
        CoreAction::ReleaseAllInputs,
        CoreAction::StopRemoteSession { session_id: Some(SessionId::new("session-1")) },
    ]
}

fn four_commands() -> Vec<DaemonTransportCommand> {
    vec![
        DaemonTransportCommand::StartRemoteSession {
            peer_id: PeerId::new("right-peer"),
            crossing: Some(crossing()),
        },
        DaemonTransportCommand::ForwardInput { event: moved() },
        DaemonTransportCommand::ReleaseAllInputs,
        DaemonTransportCommand::StopRemoteSession {
            session_id: Some(SessionId::new("session-1")),
        },
    ]
}

fn peer_session_hello_frame() -> PeerTransportSessionFrame {
    PeerTransportSessionFrame::Hello {
        protocol: PeerTransportProtocolVersion {
            major: ProtocolVersion::current().major,
            minor: ProtocolVersion::current().minor,
        },
        device_id: "windows-desktop".to_string(),
        peer_id: "right-peer".to_string(),
        nonce: Some([1; HANDSHAKE_NONCE_LEN]),
        capabilities: peer_session_capabilities(),
    }
}

fn peer_session_command_frame(
    sequence: u64,
    command: PeerTransportCommandPayload,
) -> PeerTransportSessionFrame {
    PeerTransportSessionFrame::Command { sequence, command }
}

fn forward_frame(sequence: u64) -> PeerTransportSessionFrame {
    peer_session_command_frame(
        sequence,
        PeerTransportCommandPayload::ForwardInput {
            event: PeerTransportInputEvent::PointerMoved { delta_x: 8, delta_y: 2 },
        },
    )
}

fn stream(frames: Vec<PeerTransportSessionFrame>) -> QueuedFrames {
    let mut queue = QueuedFrames::new();
    for frame in frames {
        queue.push(SessionRead::Frame { frame });
    }
    queue
}

/// A session as it stands right after connecting: its hello is on the way.
fn connected_session(peer: &str) -> Session {
    TcpPeerSessionTransport::new(
        PeerId::new(peer),
        DeviceId::new("windows-desktop"),
        address(),
        KeptFrames { frames: vec![session_hello("windows-desktop", peer, None)] },
    )
}

/// What the other side of a session reads.
fn other_side(session: Session) -> QueuedFrames {
    stream(session.sink.frames)
}

fn dispatch(session: Session, actions: &[CoreAction]) -> Session {
    let mut dispatcher = TransportCoreActionDispatcher::new(session);
    dispatcher.dispatch_core_actions(actions).expect("TCP peer session dispatch");
    dispatcher.transport
}

fn managed() -> Managed {
    ManagedPeerSessionTransport::new(FixedClock { time: START })
}

fn right_peer_snapshot() -> ManagedPeerSessionSnapshot {
    ManagedPeerSessionSnapshot {
        peer_id: PeerId::new("right-peer"),
        local_device_id: DeviceId::new("windows-desktop"),
        address: address(),
    }
}

fn identity(device_id: &str, name: &str) -> (LocalIdentity<Ed25519IdentityKey>, [u8; 32]) {
    let secret_key = Ed25519IdentityKey::generate();
    let public_key = secret_key.public_key_bytes();
    let fingerprint = fingerprint_for_public_key(&public_key);
    let local = LocalIdentity::new(
        DeviceIdentity::new(device_id, name, public_key.to_vec(), fingerprint.as_str()),
        secret_key,
    );
    (local, public_key)
}

fn trusted(
    device_id: &str,
    name: &str,
    public_key: &[u8; 32],
    capabilities: CapabilityFlags,
) -> TrustedPeer<Ed25519PublicKey> {
    TrustedPeer::new(
        TrustedPeerIdentity::new(
            device_id,
            name,
            public_key.to_vec(),
            fingerprint_for_public_key(public_key).as_str(),
            capabilities,
        ),
        Ed25519PublicKey::from_public_key_bytes(public_key).expect("trusted public key"),
    )
}

fn peer_session_auth_fixture(
) -> (LocalIdentity<Ed25519IdentityKey>, TrustedPeer<Ed25519PublicKey>, AuthTranscript) {
    let (local, public_key) = identity("windows-desktop", "Windows Desktop");
    let peer = trusted("windows-desktop", "Windows Desktop", &public_key, pointer_and_keyboard());
    let transcript = AuthTranscript {
        local_device_id: "windows-desktop".to_string(),
        remote_device_id: "right-peer".to_string(),
        local_nonce: [1; HANDSHAKE_NONCE_LEN],
        remote_nonce: [2; HANDSHAKE_NONCE_LEN],
        protocol: ProtocolVersion::current(),
        local_capabilities: pointer_and_keyboard(),
        remote_capabilities: pointer_and_keyboard(),
        role: PeerRole::Initiator,
        tls_exporter: [3; TLS_EXPORTER_LEN],
    };
    (local, peer, transcript)
}

fn peer_session_pair_auth_fixture() -> (
    LocalIdentity<Ed25519IdentityKey>,
    TrustedPeer<Ed25519PublicKey>,
    TrustedPeer<Ed25519PublicKey>,
) {
    let (source, source_public) = identity("windows-desktop", "Windows Desktop");
    let (_, target_public) = identity("right-peer", "Right Peer");
    let capabilities = peer_session_capabilities();
    let trusted_target = trusted("right-peer", "Right Peer", &target_public, capabilities);
    let trusted_source =
        trusted("windows-desktop", "Windows Desktop", &source_public, capabilities);
    (source, trusted_target, trusted_source)
}

fn peer_session_ready_frame() -> PeerTransportSessionFrame {
    PeerTransportSessionFrame::SessionReady {
        ready: SessionReady {
            session_id: "loopback-session".to_string(),
            sequence_base: 0,
            capabilities: pointer_and_keyboard(),
        },
    }
}

#[test]
fn peer_transport_message_round_trips_transport_commands() {
    let commands = vec![
        DaemonTransportCommand::StartRemoteSession {
            peer_id: PeerId::new("right-peer"),
            crossing: Some(EdgeCrossing {
                peer_id: PeerId::new("right-peer"),
                local_edge: ScreenEdge::Right,
                remote_edge: ScreenEdge::Left,
                exit_position: LogicalPoint { x: 1920, y: 540 },
                edge_offset: 540,
            }),
        },
        DaemonTransportCommand::ForwardInput {
            event: InjectedInputEvent::Key {
                key: PhysicalKey::Code(44),
                state: PressState::Pressed,
            },
        },
        DaemonTransportCommand::ForwardInput {
            event: InjectedInputEvent::MouseButton {
                button: MouseButton::Other(9),
                state: PressState::Released,
            },
        },
        DaemonTransportCommand::ReleaseAllInputs,
        DaemonTransportCommand::StopRemoteSession {
            session_id: Some(SessionId::new("session-1")),
        },
    ];

    for command in commands {
        let message = PeerTransportMessage::from_command(&command);

        assert_eq!(message.into_command().expect("peer command round trip"), command);
    }
}

#[test]
fn peer_transport_message_rejects_unknown_wire_values() {
    let message = PeerTransportMessage {
        protocol: PeerTransportProtocolVersion { major: 1, minor: 4 },
        command: PeerTransportCommandPayload::ForwardInput {
            event: PeerTransportInputEvent::Key {
                key: "notARealKey".to_string(),
                state: "pressed".to_string(),
            },
        },
    };

    let error = message.into_command().expect_err("unknown key should be rejected");

    assert_eq!(error.message(), "unsupported peer transport value: notARealKey");
}

#[test]
fn tcp_peer_transport_sends_commands_over_loopback() {
    let transport = TcpPeerTransport::new(PeerId::new("right-peer"), address());
    let mut received: Vec<DaemonTransportCommand> = Vec::new();
    for command in four_commands() {
        let message = transport.message_for(&command).expect("TCP peer transport dispatch");
        received.push(
            read_peer_transport_command(CommandRead::Message { message })
                .expect("TCP peer transport commands"),
        );
    }

    assert_eq!(received, four_commands());
}

#[test]
fn tcp_peer_session_sends_hello_then_commands_over_one_connection() {
    let transport = dispatch(connected_session("right-peer"), &four_actions());
    let session =
        read_peer_transport_session(&mut other_side(transport), 4).expect("TCP peer session");

    assert_eq!(session.hello.protocol, ProtocolVersion::current());
    assert_eq!(session.hello.device_id, DeviceId::new("windows-desktop"));
    assert_eq!(session.hello.peer_id, PeerId::new("right-peer"));
    assert_eq!(session.commands, four_commands());
}

#[test]
fn tcp_peer_session_transport_sends_heartbeat_frames_while_idle() {
    let mut transport = connected_session("right-peer");
    transport.send_heartbeat().expect("heartbeat");
    let mut reader = other_side(transport);

    let hello = read_peer_transport_session_hello(&mut reader).expect("hello");
    assert_eq!(hello.device_id, DeviceId::new("windows-desktop"));
    assert_eq!(hello.peer_id, PeerId::new("right-peer"));
    assert_eq!(
        read_optional_peer_transport_session_frame(&mut reader),
        Ok(Some(PeerTransportSessionFrame::Heartbeat { sequence: 0 }))
    );
    assert_eq!(read_optional_peer_transport_session_frame(&mut reader), Ok(None));
}

#[test]
fn managed_peer_session_transport_ignores_dispatch_without_active_session() {
    let mut transport = managed();

    transport
        .dispatch_transport_command(DaemonTransportCommand::ReleaseAllInputs)
        .expect("missing active session should be a no-op");

    assert!(!transport.is_connected());
    assert_eq!(transport.active_session(), None);
}

#[test]
fn managed_peer_session_transport_attaches_dispatches_and_disconnects_session() {
    let mut managed = managed();

    managed.attach_session(connected_session("right-peer")).expect("attach active session");
    assert!(managed.is_connected());
    assert_eq!(managed.active_session(), Some(right_peer_snapshot()));
    managed
        .dispatch_transport_command(DaemonTransportCommand::ReleaseAllInputs)
        .expect("managed dispatch");
    let sent = managed.active_session.as_mut().expect("active session").sink.frames.split_off(0);
    assert_eq!(managed.disconnect_session(), Some(right_peer_snapshot()));
    assert!(!managed.is_connected());

    let session = read_peer_transport_session(&mut stream(sent), 1).expect("TCP peer session");
    assert_eq!(session.hello.device_id, DeviceId::new("windows-desktop"));
    assert_eq!(session.hello.peer_id, PeerId::new("right-peer"));
    assert_eq!(session.commands, vec![DaemonTransportCommand::ReleaseAllInputs]);
}

/// A connection whose other end is still at hand when the session is gone.
struct SharedFrames {
    frames: Rc<RefCell<Vec<PeerTransportSessionFrame>>>,
}

impl PeerFrameSink for SharedFrames {
    fn write_frame(&mut self, frame: PeerTransportSessionFrame) -> Result<(), PlatformError> {
        self.frames.borrow_mut().push(frame);
        Ok(())
    }
}

#[test]
fn managed_peer_session_transport_detaches_when_stop_session_is_dispatched() {
    let frames = Rc::new(RefCell::new(vec![session_hello("windows-desktop", "right-peer", None)]));
    let mut managed: ManagedPeerSessionTransport<SharedFrames, FixedClock> =
        ManagedPeerSessionTransport::new(FixedClock { time: START });
    let session = TcpPeerSessionTransport::new(
        PeerId::new("right-peer"),
        DeviceId::new("windows-desktop"),
        address(),
        SharedFrames { frames: frames.clone() },
    );

    managed.attach_session(session).ok().expect("attach active session");
    managed
        .dispatch_transport_command(DaemonTransportCommand::StopRemoteSession {
            session_id: Some(SessionId::new("session-resume")),
        })
        .expect("managed stop dispatch");

    assert_eq!(managed.active_session(), None);
    assert!(!managed.is_connected());

    let sent = frames.borrow_mut().split_off(0);
    let session = read_peer_transport_session(&mut stream(sent), 1).expect("TCP peer session");
    assert_eq!(
        session.commands,
        vec![DaemonTransportCommand::StopRemoteSession {
            session_id: Some(SessionId::new("session-resume")),
        }]
    );
}

#[test]
fn managed_peer_session_transport_rejects_second_active_session() {
    let mut managed = managed();

    managed.attach_session(connected_session("right-peer")).expect("attach first session");
    let error = managed
        .attach_session(connected_session("left-peer"))
        .expect_err("second session should be rejected");

    assert_eq!(error.message(), "managed peer session already has an active peer");
    assert_eq!(managed.active_session(), Some(right_peer_snapshot()));
}

#[test]
fn peer_session_reconnect_backoff_grows_and_resets() {
    let mut backoff = PeerSessionReconnectBackoff::default();
    let start = START;

    assert_eq!(backoff.record_failure(start), millis(250));
    assert_eq!(backoff.retry_after(start + millis(100)), Some(millis(150)));
    assert_eq!(backoff.retry_after(start + millis(250)), None);
    assert_eq!(backoff.record_failure(start + millis(250)), millis(500));
    assert_eq!(backoff.record_failure(start + millis(750)), millis(1_000));

    for attempt in 0..10 {
        let _ = backoff.record_failure(start + millis((2 + attempt) * 1_000));
    }
    assert_eq!(backoff.record_failure(start + millis(20_000)), millis(5_000));

    backoff.reset();
    assert_eq!(backoff.retry_after(start + millis(21_000)), None);
    assert_eq!(backoff.record_failure(start + millis(21_000)), millis(250));
}

/// Try to open a session; the connection itself is refused.
fn refused_attempt(
    managed: &mut Managed,
    stored: StoredLocalIdentity,
    peer: TrustedPeer<Ed25519PublicKey>,
) -> PlatformError {
    let device = DeviceId::new(stored.identity.device_id());
    let mut attempt = SessionConnect::new(PeerId::new("right-peer"), device, address());
    let mut stored = Some(stored);
    let mut peer = Some(peer);
    let mut event = SessionConnectEvent::Begin;
    loop {
        match managed.connect_session(&mut attempt, event) {
            SessionConnectAction::LoadIdentity => {
                event = SessionConnectEvent::Identity {
                    identity: Ok(stored.take().expect("one identity")),
                };
            }
            SessionConnectAction::LoadPeer => {
                event = SessionConnectEvent::Peer { peer: Ok(peer.take().expect("one peer")) };
            }
            SessionConnectAction::Open { .. } => {
                event = SessionConnectEvent::Opened {
                    sink: Err(connect_failure(
                        &PeerId::new("right-peer"),
                        &address(),
                        "connection refused",
                    )),
                };
            }
            SessionConnectAction::Finish { result } => {
                return result.expect_err("the attempt fails");
            }
        }
    }
}

fn stored(local: LocalIdentity<Ed25519IdentityKey>) -> StoredLocalIdentity {
    StoredLocalIdentity { identity: local.identity, secret_key: local.secret_key }
}

#[test]
fn managed_peer_session_transport_delays_immediate_connect_retry_after_failure() {
    let (first_local, _) = identity("windows-desktop", "Windows Desktop");
    let (second_local, _) = identity("windows-desktop", "Windows Desktop");
    let (_, first_target, _) = peer_session_pair_auth_fixture();
    let (_, second_target, _) = peer_session_pair_auth_fixture();
    let mut managed: Managed = ManagedPeerSessionTransport::with_identity_store(
        "identity.json",
        "Windows Desktop",
        FixedClock { time: START },
    );

    let first_error = refused_attempt(&mut managed, stored(first_local), first_target);
    let retry_error = refused_attempt(&mut managed, stored(second_local), second_target);

    assert!(first_error.message().contains("retry peer session connect after 250ms"));
    assert!(retry_error.message().starts_with("peer session reconnect backoff active for "));
    assert_eq!(managed.active_session(), None);
}

/// A connection that has gone.
struct BrokenSink;

impl PeerFrameSink for BrokenSink {
    fn write_frame(&mut self, _frame: PeerTransportSessionFrame) -> Result<(), PlatformError> {
        Err(PlatformError::new("broken pipe"))
    }
}

#[test]
fn heartbeats_stop_with_the_first_that_cannot_be_sent() {
    let mut session = connected_session("right-peer");
    assert_eq!(session.beat(), None);
    assert_eq!(session.beat(), None);
    assert_eq!(
        session.sink.frames[1..],
        [
            PeerTransportSessionFrame::Heartbeat { sequence: 0 },
            PeerTransportSessionFrame::Heartbeat { sequence: 1 },
        ]
    );

    let mut broken = TcpPeerSessionTransport::new(
        PeerId::new("right-peer"),
        DeviceId::new("windows-desktop"),
        address(),
        BrokenSink,
    );
    assert_eq!(
        broken.beat().expect("the first failure is told"),
        "peer session heartbeat stopped for right-peer at 127.0.0.1:24888: broken pipe"
    );
    assert_eq!(broken.beat(), None);
}

#[test]
fn the_clock_decides_when_a_session_may_be_opened_again() {
    let mut managed: ManagedPeerSessionTransport<BrokenSink, FixedClock> =
        ManagedPeerSessionTransport::new(FixedClock { time: START });
    managed
        .attach_session(TcpPeerSessionTransport::new(
            PeerId::new("right-peer"),
            DeviceId::new("windows-desktop"),
            address(),
            BrokenSink,
        ))
        .expect("attach broken active session");
    managed
        .dispatch_transport_command(DaemonTransportCommand::ReleaseAllInputs)
        .expect_err("closed active session dispatch should fail");
    let begin = |managed: &mut ManagedPeerSessionTransport<BrokenSink, FixedClock>| {
        let mut attempt = SessionConnect::new(
            PeerId::new("right-peer"),
            DeviceId::new("windows-desktop"),
            address(),
        );
        match managed.connect_session(&mut attempt, SessionConnectEvent::Begin) {
            SessionConnectAction::Finish { result } => {
                result.expect_err("the attempt should not succeed at once").message().to_string()
            }
            _ => String::new(),
        }
    };

    managed.clock.time = START + millis(249);
    assert!(begin(&mut managed).starts_with("peer session reconnect backoff active for "));
    managed.clock.time = START + millis(250);
    assert!(!begin(&mut managed).starts_with("peer session reconnect backoff active for "));
}

#[test]
fn managed_peer_session_transport_delays_immediate_connect_retry_after_dispatch_failure() {
    let mut managed: ManagedPeerSessionTransport<BrokenSink, FixedClock> =
        ManagedPeerSessionTransport::new(FixedClock { time: START });
    let broken_session = TcpPeerSessionTransport::new(
        PeerId::new("right-peer"),
        DeviceId::new("windows-desktop"),
        address(),
        BrokenSink,
    );

    managed.attach_session(broken_session).expect("attach broken active session");
    let dispatch_error = managed
        .dispatch_transport_command(DaemonTransportCommand::ReleaseAllInputs)
        .expect_err("closed active session dispatch should fail");
    let mut attempt = SessionConnect::new(
        PeerId::new("right-peer"),
        DeviceId::new("windows-desktop"),
        address(),
    );
    let retry_error = match managed.connect_session(&mut attempt, SessionConnectEvent::Begin) {
        SessionConnectAction::Finish { result } => {
            result.expect_err("immediate retry after dispatch failure should be delayed")
        }
        _ => panic!("expected the attempt to end"),
    };

    assert!(dispatch_error.message().contains("retry peer session connect after 250ms"));
    assert!(retry_error.message().starts_with("peer session reconnect backoff active for "));
    assert_eq!(managed.active_session(), None);
}

#[test]
fn peer_transport_executor_applies_forward_and_release_to_platform() {
    let mut platform = FakePlatformAdapter::default();

    let forward = execute_peer_transport_command(
        &mut platform,
        &DaemonTransportCommand::ForwardInput {
            event: InjectedInputEvent::PointerMoved { delta_x: 8, delta_y: 2 },
        },
    )
    .expect("forward input command");
    let release =
        execute_peer_transport_command(&mut platform, &DaemonTransportCommand::ReleaseAllInputs)
            .expect("release input command");

    assert_eq!(
        forward,
        PeerTransportCommandExecution::InputForwarded {
            event: InjectedInputEvent::PointerMoved { delta_x: 8, delta_y: 2 },
        }
    );
    assert_eq!(release, PeerTransportCommandExecution::InputsReleased);
    assert_eq!(
        platform.injected_events(),
        vec![InjectedInputEvent::PointerMoved { delta_x: 8, delta_y: 2 }]
    );
    assert_eq!(platform.release_all_count(), 1);
}

#[test]
fn tcp_peer_session_executor_applies_received_commands_to_platform() {
    let mut platform = FakePlatformAdapter::default();
    let transport = dispatch(connected_session("right-peer"), &four_actions());
    let execution =
        execute_bounded_peer_transport_session(&mut other_side(transport), 4, &mut platform)
            .expect("TCP peer session execution");

    assert_eq!(execution.hello.protocol, ProtocolVersion::current());
    assert_eq!(execution.hello.device_id, DeviceId::new("windows-desktop"));
    assert_eq!(execution.hello.peer_id, PeerId::new("right-peer"));
    assert_eq!(
        execution.outcomes,
        vec![
            PeerTransportCommandExecution::RemoteSessionStarted {
                peer_id: PeerId::new("right-peer"),
                crossing: Some(crossing()),
            },
            PeerTransportCommandExecution::InputForwarded { event: moved() },
            PeerTransportCommandExecution::InputsReleased,
            PeerTransportCommandExecution::RemoteSessionStopped {
                session_id: Some(SessionId::new("session-1")),
            },
        ]
    );
    assert_eq!(platform.injected_events(), vec![moved()]);
    assert_eq!(platform.release_all_count(), 1);
}

#[test]
fn tcp_peer_session_executor_runs_until_peer_closes() {
    let mut platform = FakePlatformAdapter::default();
    let transport = dispatch(
        connected_session("right-peer"),
        &[CoreAction::ForwardInput { event: moved() }, CoreAction::ReleaseAllInputs],
    );
    let execution = execute_peer_transport_session_stream_until_closed(
        &mut other_side(transport),
        &mut platform,
    )
    .expect("TCP peer session execution");

    assert_eq!(execution.hello.protocol, ProtocolVersion::current());
    assert_eq!(execution.hello.device_id, DeviceId::new("windows-desktop"));
    assert_eq!(execution.hello.peer_id, PeerId::new("right-peer"));
    assert_eq!(
        execution.outcomes,
        vec![
            PeerTransportCommandExecution::InputForwarded { event: moved() },
            PeerTransportCommandExecution::InputsReleased,
        ]
    );
    assert_eq!(platform.injected_events(), vec![moved()]);
    assert_eq!(platform.release_all_count(), 1);
}

#[test]
fn tcp_peer_session_executor_releases_inputs_when_peer_closes_without_release() {
    let mut platform = FakePlatformAdapter::default();
    let transport = dispatch(
        connected_session("right-peer"),
        &[CoreAction::ForwardInput { event: moved() }],
    );
    let execution = execute_peer_transport_session_stream_until_closed(
        &mut other_side(transport),
        &mut platform,
    )
    .expect("TCP peer session execution");

    assert_eq!(
        execution.outcomes,
        vec![
            PeerTransportCommandExecution::InputForwarded { event: moved() },
            PeerTransportCommandExecution::InputsReleased,
        ]
    );
    assert_eq!(platform.injected_events(), vec![moved()]);
    assert_eq!(platform.release_all_count(), 1);
}

#[test]
fn tcp_peer_session_executor_releases_inputs_when_heartbeat_timeout_elapses_after_forwarded_input()
{
    let mut platform = FakePlatformAdapter::default();
    let mut reader = stream(vec![peer_session_hello_frame(), forward_frame(0)]);
    reader.push(SessionRead::Failed { cause: "timed out".to_string() });

    let error = execute_peer_transport_session_stream_until_closed(&mut reader, &mut platform)
        .expect_err("missing heartbeat should fail the peer session");

    assert!(error.message().contains("failed to read peer session frame"));
    assert_eq!(platform.injected_events(), vec![moved()]);
    assert_eq!(platform.release_all_count(), 1);
}

#[test]
fn peer_session_executor_releases_inputs_when_stream_errors_after_forwarded_input() {
    let mut platform = FakePlatformAdapter::default();
    let mut reader = stream(vec![peer_session_hello_frame(), forward_frame(0)]);
    reader.push(SessionRead::Undecodable { cause: "EOF while parsing a value".to_string() });

    let error = execute_peer_transport_session_stream_until_closed(&mut reader, &mut platform)
        .expect_err("malformed frame should fail the peer session");

    assert!(error.message().contains("failed to decode peer session frame"));
    assert_eq!(platform.injected_events(), vec![moved()]);
    assert_eq!(platform.release_all_count(), 1);
}

#[test]
fn peer_session_executor_releases_inputs_when_command_payload_is_rejected_after_forwarded_input() {
    let mut platform = FakePlatformAdapter::default();
    let rejected_frame = peer_session_command_frame(
        1,
        PeerTransportCommandPayload::ForwardInput {
            event: PeerTransportInputEvent::Key {
                key: "notARealKey".to_string(),
                state: "pressed".to_string(),
            },
        },
    );
    let mut reader = stream(vec![peer_session_hello_frame(), forward_frame(0), rejected_frame]);

    let error = execute_peer_transport_session_stream_until_closed(&mut reader, &mut platform)
        .expect_err("rejected payload should fail the peer session");

    assert_eq!(error.message(), "unsupported peer transport value: notARealKey");
    assert_eq!(platform.injected_events(), vec![moved()]);
    assert_eq!(platform.release_all_count(), 1);
}

#[test]
fn peer_session_executor_releases_inputs_when_sequence_mismatch_follows_forwarded_input() {
    let mut platform = FakePlatformAdapter::default();
    let duplicate_frame =
        peer_session_command_frame(0, PeerTransportCommandPayload::ReleaseAllInputs);
    let mut reader = stream(vec![peer_session_hello_frame(), forward_frame(0), duplicate_frame]);

    let error = execute_peer_transport_session_stream_until_closed(&mut reader, &mut platform)
        .expect_err("duplicate sequence should fail the peer session");

    assert_eq!(error.message(), "peer session sequence mismatch: expected 1, received 0");
    assert_eq!(platform.injected_events(), vec![moved()]);
    assert_eq!(platform.release_all_count(), 1);
}

#[test]
fn nothing_is_read_after_the_frame_that_ended_a_session() {
    let mut platform = FakePlatformAdapter::default();
    let mut reader = stream(vec![
        peer_session_hello_frame(),
        forward_frame(0),
        forward_frame(0),
        forward_frame(9),
    ]);

    execute_peer_transport_session_stream_until_closed(&mut reader, &mut platform)
        .expect_err("duplicate sequence should fail the peer session");
    assert_eq!(
        read_optional_peer_transport_session_frame(&mut reader),
        Ok(Some(forward_frame(9)))
    );
    assert_eq!(read_optional_peer_transport_session_frame(&mut reader), Ok(None));

    let mut bounded = stream(vec![peer_session_hello_frame(), forward_frame(0), forward_frame(1)]);
    execute_bounded_peer_transport_session(&mut bounded, 1, &mut platform)
        .expect("one command is executed");
    assert_eq!(
        read_optional_peer_transport_session_frame(&mut bounded),
        Ok(Some(forward_frame(1)))
    );

    let mut commands = stream(vec![peer_session_hello_frame(), forward_frame(0), forward_frame(1)]);
    let session = read_peer_transport_session(&mut commands, 1).expect("one command is read");
    assert_eq!(session.commands.len(), 1);
    assert_eq!(
        read_optional_peer_transport_session_frame(&mut commands),
        Ok(Some(forward_frame(1)))
    );
}

#[test]
fn authenticated_peer_session_executor_applies_commands_after_auth_ready() {
    let mut platform = FakePlatformAdapter::default();
    let (local, trusted, transcript) = peer_session_auth_fixture();
    let proof = local.sign_auth_proof(PeerRole::Initiator, &transcript).expect("auth proof");
    let mut reader = stream(vec![
        peer_session_hello_frame(),
        PeerTransportSessionFrame::AuthProof { proof },
        peer_session_ready_frame(),
        forward_frame(0),
    ]);

    let execution = execute_authenticated_peer_transport_session_stream_until_closed(
        &mut reader,
        &mut platform,
        &trusted,
        PeerRole::Initiator,
        &transcript,
    )
    .expect("authenticated peer session execution");

    assert_eq!(
        execution.outcomes,
        vec![
            PeerTransportCommandExecution::InputForwarded { event: moved() },
            PeerTransportCommandExecution::InputsReleased,
        ]
    );
    assert_eq!(platform.injected_events(), vec![moved()]);
    assert_eq!(platform.release_all_count(), 1);
}

#[test]
fn authenticated_peer_session_executor_rejects_command_before_auth_proof() {
    let mut platform = FakePlatformAdapter::default();
    let (_, trusted, transcript) = peer_session_auth_fixture();
    let mut reader = stream(vec![peer_session_hello_frame(), forward_frame(0)]);

    let error = execute_authenticated_peer_transport_session_stream_until_closed(
        &mut reader,
        &mut platform,
        &trusted,
        PeerRole::Initiator,
        &transcript,
    )
    .expect_err("command before auth proof should fail closed");

    assert_eq!(
        error.message(),
        "peer session expected auth proof frame before command frames"
    );
    assert_eq!(platform.injected_events(), Vec::<InjectedInputEvent>::new());
    assert_eq!(platform.release_all_count(), 0);
}

#[test]
fn authenticated_peer_session_executor_rejects_invalid_auth_proof_before_input() {
    let mut platform = FakePlatformAdapter::default();
    let (local, trusted, transcript) = peer_session_auth_fixture();
    let mut proof = local.sign_auth_proof(PeerRole::Initiator, &transcript).expect("auth proof");
    proof.signature.push(0);
    let mut reader = stream(vec![
        peer_session_hello_frame(),
        PeerTransportSessionFrame::AuthProof { proof },
        peer_session_ready_frame(),
        forward_frame(0),
    ]);

    let error = execute_authenticated_peer_transport_session_stream_until_closed(
        &mut reader,
        &mut platform,
        &trusted,
        PeerRole::Initiator,
        &transcript,
    )
    .expect_err("invalid auth proof should fail closed");

    assert!(error
        .message()
        .starts_with("peer session auth proof rejected for windows-desktop (AKRZ-"));
    assert_eq!(platform.injected_events(), Vec::<InjectedInputEvent>::new());
    assert_eq!(platform.release_all_count(), 0);
}

#[test]
fn paired_tcp_peer_session_connects_after_auth_and_executes_input() {
    let mut platform = FakePlatformAdapter::default();
    let (source, trusted_target, trusted_source) = peer_session_pair_auth_fixture();
    let prelude = connect_authenticated(&PeerId::new("right-peer"), &source, &trusted_target)
        .expect("connect authenticated TCP peer session");
    let transport = TcpPeerSessionTransport::new(
        PeerId::new("right-peer"),
        prelude.local_device_id,
        address(),
        KeptFrames { frames: vec![prelude.hello, prelude.proof, prelude.ready] },
    );
    let transport = dispatch(transport, &[CoreAction::ForwardInput { event: moved() }]);

    let execution = execute_paired_peer_transport_session_stream_until_closed(
        &mut other_side(transport),
        &mut platform,
        &DeviceId::new("right-peer"),
        |peer_device_id: &DeviceId| {
            assert_eq!(peer_device_id, &DeviceId::new("windows-desktop"));
            Ok(trusted_source)
        },
    )
    .expect("authenticated TCP peer execution");

    assert_eq!(execution.hello.device_id, DeviceId::new("windows-desktop"));
    assert_eq!(execution.hello.peer_id, PeerId::new("right-peer"));
    assert!(execution.hello.nonce.is_some());
    assert_eq!(
        execution.outcomes,
        vec![
            PeerTransportCommandExecution::InputForwarded { event: moved() },
            PeerTransportCommandExecution::InputsReleased,
        ]
    );
    assert_eq!(platform.injected_events(), vec![moved()]);
    assert_eq!(platform.release_all_count(), 1);
}

#[test]
fn a_peer_with_another_key_is_not_admitted() {
    let mut platform = FakePlatformAdapter::default();
    let (source, trusted_target, _) = peer_session_pair_auth_fixture();
    let (_, _, another_source) = peer_session_pair_auth_fixture();
    let prelude = connect_authenticated(&PeerId::new("right-peer"), &source, &trusted_target)
        .expect("connect authenticated TCP peer session");
    let mut reader =
        stream(vec![prelude.hello, prelude.proof, prelude.ready, forward_frame(0)]);

    let error = execute_paired_peer_transport_session_stream_until_closed(
        &mut reader,
        &mut platform,
        &DeviceId::new("right-peer"),
        |_: &DeviceId| Ok(another_source),
    )
    .expect_err("the proof is not from the trusted key");

    assert!(error.message().starts_with("peer session auth proof rejected for windows-desktop"));
    assert!(platform.injected_events().is_empty());
}

#[test]
fn tcp_peer_session_rejects_command_before_hello() {
    let mut reader = stream(vec![peer_session_command_frame(
        0,
        PeerTransportCommandPayload::ReleaseAllInputs,
    )]);

    let error = read_peer_transport_session(&mut reader, 1)
        .expect_err("command before hello should be rejected");

    assert_eq!(error.message(), "peer session expected hello frame before command frames");
}

#[test]
fn tcp_peer_transport_rejects_start_commands_for_other_peers() {
    let transport = TcpPeerTransport::new(
        PeerId::new("right-peer"),
        parse_socket_address("127.0.0.1:9").expect("discard address"),
    );

    let error = transport
        .message_for(&DaemonTransportCommand::StartRemoteSession {
            peer_id: PeerId::new("left-peer"),
            crossing: None,
        })
        .expect_err("peer mismatch should be rejected before connect");

    assert_eq!(
        error.message(),
        "peer transport configured for right-peer, got start command for left-peer"
    );
}

#[derive(Debug)]
struct FailingPeerTransport {
    message: &'static str,
}

impl DaemonPeerTransport for FailingPeerTransport {
    fn dispatch_transport_command(
        &mut self,
        _command: DaemonTransportCommand,
    ) -> Result<(), PlatformError> {
        Err(PlatformError::new(self.message))
    }
}

#[test]
fn transport_dispatcher_returns_transport_failure() {
    let mut dispatcher = TransportCoreActionDispatcher::new(FailingPeerTransport {
        message: "peer transport unavailable",
    });

    let error = dispatcher
        .dispatch_core_actions(&[CoreAction::StartRemoteSession {
            peer_id: PeerId::new("right-peer"),
            crossing: None,
        }])
        .expect_err("transport error should be returned");

    assert_eq!(error.message(), "peer transport unavailable");
}

#[test]
fn a_prelude_is_made_only_for_the_peer_that_was_asked_for() {
    let (source, trusted_target, _) = peer_session_pair_auth_fixture();

    let error =
        build_session_prelude(&PeerId::new("left-peer"), &source, &trusted_target, [4; 32])
            .err()
            .expect("another peer");

    assert_eq!(
        error.message(),
        "trusted peer id right-peer does not match requested peer left-peer"
    );

    let prelude =
        build_session_prelude(&PeerId::new("right-peer"), &source, &trusted_target, [4; 32])
            .ok()
            .expect("prelude");
    assert_eq!(
        prelude.ready,
        PeerTransportSessionFrame::SessionReady {
            ready: SessionReady {
                session_id: "windows-desktop->right-peer".to_string(),
                sequence_base: 0,
                capabilities: peer_session_capabilities(),
            },
        }
    );
}

#[test]
fn sequence_numbers_run_out() {
    let mut sender = PeerSessionSender { next_sequence: u64::MAX };
    let mut receiver = PeerTransportSessionSequence { expected: u64::MAX };

    assert!(sender.next_sequence().is_err());
    assert!(receiver.accept(u64::MAX).is_err());

    let mut sender = PeerSessionSender::new();
    let mut receiver = PeerTransportSessionSequence::new();
    for expected in 0..3 {
        let sequence = sender.next_sequence().expect("sequence");
        assert_eq!(sequence, expected);
        receiver.accept(sequence).expect("accepted");
    }
}

#[test]
fn a_lost_command_is_told_by_its_cause() {
    assert_eq!(
        read_peer_transport_command(CommandRead::Closed).expect_err("closed").message(),
        "peer transport connection closed before a command line was received"
    );
    assert_eq!(
        read_peer_transport_command(CommandRead::Failed { cause: "reset".to_string() })
            .expect_err("failed")
            .message(),
        "failed to read peer command: reset"
    );
    assert_eq!(
        read_peer_transport_command(CommandRead::Undecodable { cause: "EOF".to_string() })
            .expect_err("undecodable")
            .message(),
        "failed to decode peer command: EOF"
    );
    let old = PeerTransportMessage {
        protocol: PeerTransportProtocolVersion { major: 9, minor: 0 },
        command: PeerTransportCommandPayload::ReleaseAllInputs,
    };
    assert!(read_peer_transport_command(CommandRead::Message { message: old }).is_err());
}

#[test]
fn what_a_store_cannot_give_is_told() {
    let config = ManagedPeerSessionAuthConfig {
        identity_store: "identity.json".to_string(),
        identity_display_name: "Windows Desktop".to_string(),
    };
    let error =
        check_trusted_peer(&config, &PeerId::new("right-peer"), Err("not paired".to_string()))
            .err()
            .expect("not paired");
    assert_eq!(
        error.message(),
        "failed to load trusted peer right-peer from identity.json: not paired"
    );

    let (local, _) = identity("windows-desktop", "Windows Desktop");
    let error = check_session_identity(&config, &DeviceId::new("mac"), Ok(stored(local)))
        .err()
        .expect("another device");
    assert_eq!(
        error.message(),
        "session local device id mac does not match identity store device id windows-desktop"
    );

    let failure =
        IdentityStoreError::MissingIdentityFile { path: "identity.json".to_string() };
    let text = failure.message();
    let error = check_session_identity(&config, &DeviceId::new("mac"), Err(failure))
        .err()
        .expect("no store");
    assert_eq!(error.message(), format!("failed to load identity store identity.json: {text}"));
}

#[test]
fn a_command_that_does_not_arrive_is_told_by_its_cause() {
    let transport = TcpPeerTransport::new(PeerId::new("right-peer"), address());
    assert_eq!(transport.peer_id(), &PeerId::new("right-peer"));
    assert_eq!(transport.address(), address());

    assert_eq!(transport.dispatch_transport_command(CommandDelivery::Sent), Ok(()));
    let lost = [
        (
            CommandDelivery::NotEncoded { cause: "bad".to_string() },
            "failed to encode peer command: bad",
        ),
        (
            CommandDelivery::NotConnected { cause: "refused".to_string() },
            "failed to connect peer transport right-peer at 127.0.0.1:24888: refused",
        ),
        (
            CommandDelivery::NotSent { cause: "reset".to_string() },
            "failed to send peer transport command to right-peer at 127.0.0.1:24888: reset",
        ),
    ];
    for (delivery, expected) in lost {
        let error = transport.dispatch_transport_command(delivery).expect_err("lost");
        assert_eq!(error.message(), expected);
    }
}

fn assert_smoke_commands(commands: &[LoopbackTransportSmokeCommand]) {
    assert_eq!(commands.len(), 4);
    assert!(matches!(
        &commands[0],
        LoopbackTransportSmokeCommand::StartRemoteSession {
            peer_id,
            crossing: Some(_),
        } if peer_id == "loopback-peer"
    ));
    assert_eq!(
        commands[1],
        LoopbackTransportSmokeCommand::ForwardInput {
            event: LoopbackTransportSmokeInputEvent::PointerMoved { delta_x: 8, delta_y: 2 },
        }
    );
    assert_eq!(commands[2], LoopbackTransportSmokeCommand::ReleaseAllInputs);
    assert!(matches!(
        &commands[3],
        LoopbackTransportSmokeCommand::StopRemoteSession {
            session_id: Some(session_id),
        } if session_id == "loopback-session"
    ));
}

/// A session with the peer of the smoke runs, with its commands under way.
fn smoke_session() -> Session {
    dispatch(
        TcpPeerSessionTransport::new(
            PeerId::new("loopback-peer"),
            DeviceId::new("local-smoke-device"),
            address(),
            KeptFrames {
                frames: vec![session_hello("local-smoke-device", "loopback-peer", None)],
            },
        ),
        &loopback_transport_smoke_actions(),
    )
}

#[test]
fn tcp_transport_smoke_report_covers_network_transport_commands() {
    let transport = TcpPeerTransport::new(PeerId::new("loopback-peer"), address());
    let mut received: Vec<DaemonTransportCommand> = Vec::new();
    for action in loopback_transport_smoke_actions() {
        if let Some(command) = DaemonTransportCommand::from_remote_core_action(&action) {
            let message = transport.message_for(&command).expect("message");
            received.push(
                read_peer_transport_command(CommandRead::Message { message }).expect("command"),
            );
        }
    }
    let report = LoopbackTransportSmokeReport::from_commands(&received);

    assert_eq!(report.daemon_version, DAEMON_VERSION);
    assert_smoke_commands(&report.commands);
}

#[test]
fn a_session_report_tells_hello_and_commands() {
    let session = read_peer_transport_session(&mut other_side(smoke_session()), 4)
        .expect("peer session");
    let report = PeerSessionSmokeReport::from_session(&session);

    assert_eq!(report.daemon_version, DAEMON_VERSION);
    assert_eq!(report.hello.protocol_major, 1);
    assert_eq!(report.hello.protocol_minor, 4);
    assert_eq!(report.hello.device_id, "local-smoke-device");
    assert_eq!(report.hello.peer_id, "loopback-peer");
    assert_smoke_commands(&report.commands);
}

#[test]
fn an_execution_report_tells_what_the_platform_did() {
    let mut platform = FakePlatformAdapter::default();
    let execution =
        execute_bounded_peer_transport_session(&mut other_side(smoke_session()), 4, &mut platform)
            .expect("peer session execution");
    let report = PeerSessionExecutorSmokeReport::from_execution(
        &execution,
        &platform.injected_events(),
        platform.release_all_count(),
    );

    assert_eq!(report.daemon_version, DAEMON_VERSION);
    assert_eq!(report.hello.device_id, "local-smoke-device");
    assert_eq!(report.hello.peer_id, "loopback-peer");
    assert_eq!(report.outcomes.len(), 4);
    assert_eq!(
        report.injected_inputs,
        vec![LoopbackTransportSmokeInputEvent::PointerMoved { delta_x: 8, delta_y: 2 }]
    );
    assert_eq!(report.release_all_count, 1);
}
