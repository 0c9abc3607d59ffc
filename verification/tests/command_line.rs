//! The daemon's command line, its start and end, and its reports.

use akraz::address::{parse_socket_address, SocketAddress};
use akraz::cli::{
    parse_daemon_command, DaemonCommand, DaemonUsageError, ServeOptions, ServePeerSessionOptions,
};
use akraz::endpoint::{IpcEndpoint, IpcEndpointError, IpcEndpointKind, IpcTransportError};
use akraz::platform::PlatformError;
use akraz::rpc::to_json_line;
use akraz::runtime::{DeviceId, PeerId, ScreenEdge, ScreenEdgeBinding};
use akraz::smoke::{
    build_loopback_transport_smoke_report, LoopbackTransportSmokeCommand,
    LoopbackTransportSmokeInputEvent,
};
use akraz::startup::{
    run_peer_session_listener, DaemonRun, DaemonRunAction, DaemonRunEvent, PeerListenerAction,
    PeerListenerEvent,
};
use akraz::status::DAEMON_VERSION;

fn parse(args: &[&str]) -> Result<DaemonCommand, DaemonUsageError> {
    parse_daemon_command(&args.iter().map(|argument| argument.to_string()).collect())
}

fn socket(address: &str) -> SocketAddress {
    parse_socket_address(address).expect("socket address")
}

fn options() -> ServeOptions {
    ServeOptions {
        endpoint: None,
        once: false,
        capture_input: false,
        edge_bindings: Vec::new(),
        peer_listen: None,
        peer_session: None,
        local_device_id: None,
        identity_store: None,
        identity_display_name: None,
    }
}

fn manual_endpoint() -> Option<IpcEndpoint> {
    Some(IpcEndpoint { kind: IpcEndpointKind::Manual, address: "local-test".to_string() })
}

#[test]
fn default_command_serves_forever_on_default_endpoint() {
    assert_eq!(parse(&[]), Ok(DaemonCommand::Serve(options())));
}

#[test]
fn parses_serve_endpoint_once_and_capture_options() {
    let wanted = || {
        DaemonCommand::Serve(ServeOptions {
            endpoint: manual_endpoint(),
            once: true,
            capture_input: true,
            ..options()
        })
    };
    assert_eq!(
        parse(&["--serve", "--endpoint", "local-test", "--once", "--capture-input"]),
        Ok(wanted())
    );
    assert_eq!(parse(&["--endpoint=local-test", "--once", "--capture-input"]), Ok(wanted()));
}

#[test]
fn parses_edge_binding_options() {
    let wanted = || {
        DaemonCommand::Serve(ServeOptions {
            capture_input: true,
            edge_bindings: vec![ScreenEdgeBinding {
                local_edge: ScreenEdge::Right,
                peer_id: PeerId::new("linux-laptop"),
                remote_edge: ScreenEdge::Left,
            }],
            ..options()
        })
    };

    assert_eq!(
        parse(&["--serve", "--capture-input", "--edge-binding", "right:linux-laptop:left"]),
        Ok(wanted())
    );
    assert_eq!(
        parse(&["--capture-input", "--edge-binding=RIGHT:linux-laptop:LEFT"]),
        Ok(wanted())
    );
}

#[test]
fn parses_manual_peer_session_serve_options() {
    let wanted = || {
        DaemonCommand::Serve(ServeOptions {
            peer_listen: Some(socket("127.0.0.1:24887")),
            peer_session: Some(ServePeerSessionOptions {
                peer_id: PeerId::new("linux-laptop"),
                address: socket("127.0.0.1:24888"),
            }),
            local_device_id: Some(DeviceId::new("windows-desktop")),
            ..options()
        })
    };
    assert_eq!(
        parse(&[
            "--serve",
            "--peer-listen",
            "127.0.0.1:24887",
            "--local-device-id",
            "windows-desktop",
            "--peer-session",
            "linux-laptop@127.0.0.1:24888",
        ]),
        Ok(wanted())
    );
    assert_eq!(
        parse(&[
            "--peer-listen=127.0.0.1:24887",
            "--local-device-id=windows-desktop",
            "--peer-session=linux-laptop@127.0.0.1:24888",
        ]),
        Ok(wanted())
    );
}

#[test]
fn parses_identity_store_peer_session_serve_options() {
    assert_eq!(
        parse(&[
            "--identity-store",
            "akraz-identity.json",
            "--identity-display-name",
            "Windows Desktop",
            "--peer-session",
            "linux-laptop@127.0.0.1:24888",
        ]),
        Ok(DaemonCommand::Serve(ServeOptions {
            peer_session: Some(ServePeerSessionOptions {
                peer_id: PeerId::new("linux-laptop"),
                address: socket("127.0.0.1:24888"),
            }),
            identity_store: Some("akraz-identity.json".to_string()),
            identity_display_name: Some("Windows Desktop".to_string()),
            ..options()
        }))
    );
}

#[test]
fn parses_status_and_version_commands() {
    assert_eq!(parse(&["--status"]), Ok(DaemonCommand::Status));
    assert_eq!(parse(&["--version"]), Ok(DaemonCommand::Version));
    assert_eq!(parse(&["-V"]), Ok(DaemonCommand::Version));
}

#[test]
fn parses_hidden_loopback_transport_smoke_command() {
    assert_eq!(
        parse(&["--akraz-smoke-loopback-transport"]),
        Ok(DaemonCommand::LoopbackTransportSmoke)
    );
    assert_eq!(
        parse(&["--akraz-smoke-loopback-transport", "--once"]),
        Err(DaemonUsageError::UnknownArgument("--once".to_string()))
    );
}

#[test]
fn parses_hidden_tcp_transport_smoke_command() {
    assert_eq!(
        parse(&["--akraz-smoke-tcp-transport"]),
        Ok(DaemonCommand::TcpTransportSmoke)
    );
    assert_eq!(
        parse(&["--akraz-smoke-tcp-transport", "--once"]),
        Err(DaemonUsageError::UnknownArgument("--once".to_string()))
    );
}

#[test]
fn parses_hidden_peer_session_smoke_command() {
    assert_eq!(parse(&["--akraz-smoke-peer-session"]), Ok(DaemonCommand::PeerSessionSmoke));
    assert_eq!(
        parse(&["--akraz-smoke-peer-session", "--once"]),
        Err(DaemonUsageError::UnknownArgument("--once".to_string()))
    );
}

#[test]
fn parses_hidden_peer_session_executor_smoke_command() {
    assert_eq!(
        parse(&["--akraz-smoke-peer-session-executor"]),
        Ok(DaemonCommand::PeerSessionExecutorSmoke)
    );
    assert_eq!(
        parse(&["--akraz-smoke-peer-session-executor", "--once"]),
        Err(DaemonUsageError::UnknownArgument("--once".to_string()))
    );
}

#[test]
fn loopback_transport_smoke_report_covers_transport_commands() {
    let report = build_loopback_transport_smoke_report().expect("loopback transport smoke report");

    assert_eq!(report.daemon_version, DAEMON_VERSION);
    assert_eq!(report.commands.len(), 4);
    assert!(matches!(
        &report.commands[0],
        LoopbackTransportSmokeCommand::StartRemoteSession {
            peer_id,
            crossing: Some(_),
        } if peer_id == "loopback-peer"
    ));
    assert_eq!(
        report.commands[1],
        LoopbackTransportSmokeCommand::ForwardInput {
            event: LoopbackTransportSmokeInputEvent::PointerMoved { delta_x: 8, delta_y: 2 },
        }
    );
    assert_eq!(report.commands[2], LoopbackTransportSmokeCommand::ReleaseAllInputs);
    assert!(matches!(
        &report.commands[3],
        LoopbackTransportSmokeCommand::StopRemoteSession {
            session_id: Some(session_id),
        } if session_id == "loopback-session"
    ));

    let line = to_json_line(&report).expect("line");
    let value: serde_json::Value = serde_json::from_str(&line).expect("JSON");
    assert_eq!(value["daemonVersion"], DAEMON_VERSION);
    assert_eq!(value["commands"].as_array().map(|commands| commands.len()), Some(4));
}

#[test]
fn rejects_invalid_daemon_options() {
    assert_eq!(parse(&["--endpoint"]), Err(DaemonUsageError::MissingEndpointValue));
    assert_eq!(parse(&["--edge-binding"]), Err(DaemonUsageError::MissingEdgeBindingValue));
    assert_eq!(parse(&["--peer-listen"]), Err(DaemonUsageError::MissingPeerListenValue));
    assert_eq!(parse(&["--peer-session"]), Err(DaemonUsageError::MissingPeerSessionValue));
    assert_eq!(parse(&["--local-device-id"]), Err(DaemonUsageError::MissingLocalDeviceIdValue));
    assert_eq!(
        parse(&["--peer-listen", "not-an-address"]),
        Err(DaemonUsageError::InvalidPeerListen("not-an-address".to_string()))
    );
    assert_eq!(
        parse(&["--local-device-id", "windows-desktop", "--peer-session", "missing-address"]),
        Err(DaemonUsageError::InvalidPeerSession("missing-address".to_string()))
    );
    assert_eq!(
        parse(&["--peer-session", "linux-laptop@127.0.0.1:24888"]),
        Err(DaemonUsageError::MissingLocalIdentityForPeerSession)
    );
    assert_eq!(
        parse(&["--peer-listen", "127.0.0.1:24887", "--peer-listen", "127.0.0.1:24888"]),
        Err(DaemonUsageError::DuplicatePeerListen)
    );
    assert_eq!(
        parse(&[
            "--local-device-id",
            "windows-desktop",
            "--peer-session",
            "linux-laptop@127.0.0.1:24888",
            "--peer-session",
            "other-laptop@127.0.0.1:24889"
        ]),
        Err(DaemonUsageError::DuplicatePeerSession)
    );
    assert_eq!(
        parse(&["--edge-binding", "right::left"]),
        Err(DaemonUsageError::InvalidEdgeBinding("right::left".to_string()))
    );
    assert_eq!(
        parse(&["--edge-binding", "east:peer:left"]),
        Err(DaemonUsageError::InvalidEdgeBinding("east".to_string()))
    );
    assert_eq!(
        parse(&["--status", "--once"]),
        Err(DaemonUsageError::UnknownArgument("--once".to_string()))
    );
    assert_eq!(
        parse(&["--bad"]),
        Err(DaemonUsageError::UnknownArgument("--bad".to_string()))
    );
}

#[test]
fn usage_errors_say_what_was_expected() {
    let said = |args: &[&str]| parse(args).unwrap_err().message();
    assert_eq!(said(&["--identity-store"]), "missing value for --identity-store");
    assert_eq!(said(&["--identity-display-name"]), "missing value for --identity-display-name");
    assert_eq!(said(&["--endpoint", " "]), "invalid endpoint: empty endpoint address");
    assert_eq!(
        said(&["--identity-store", " "]),
        "invalid identity store path: . Expected a non-empty path"
    );
    assert_eq!(
        said(&["--identity-display-name", ""]),
        "invalid identity display name: . Expected a non-empty display name"
    );
    assert_eq!(said(&["--local-device-id", ""]), "invalid local device id: ");
    assert_eq!(
        said(&["--edge-binding", "x"]),
        "invalid edge binding: x. Expected <local-edge>:<peer-id>:<remote-edge>"
    );
    assert_eq!(
        said(&["--peer-listen", "x"]),
        "invalid peer listener address: x. Expected <ip>:<port> or [<ipv6>]:<port>"
    );
    assert_eq!(
        said(&["--peer-session", "a@b"]),
        "invalid peer session: b. Expected <peer-id>@<ip>:<port>"
    );
    assert_eq!(
        said(&["--peer-session", "a@1.2.3.4:5"]),
        "--peer-session requires --local-device-id or --identity-store"
    );
    assert_eq!(said(&["nope"]), "unknown argument: nope");
}

#[test]
fn a_daemon_that_is_told_nothing_serves_and_ends() {
    let (mut run, (said, action)) = DaemonRun::begin(options());
    assert_eq!(said, None);
    assert!(matches!(action, DaemonRunAction::ResolveEndpoint));
    let endpoint = manual_endpoint().expect("endpoint");
    let (said, action) = run.run_daemon(DaemonRunEvent::Endpoint(Ok(endpoint)));
    assert_eq!(said.as_deref(), Some("akraz-daemon listening at local-test"));
    assert!(matches!(action, DaemonRunAction::Serve { .. }));
    let (_, action) = run.run_daemon(DaemonRunEvent::Served(Ok(())));
    assert!(matches!(action, DaemonRunAction::Exit { success: true }));
}

#[test]
fn what_was_started_is_stopped_in_turn() {
    let (mut run, (_, action)) = DaemonRun::begin(ServeOptions {
        endpoint: manual_endpoint(),
        capture_input: true,
        peer_listen: Some(socket("127.0.0.1:24887")),
        ..options()
    });
    assert!(matches!(action, DaemonRunAction::StartListener { .. }));
    let (_, action) = run.run_daemon(DaemonRunEvent::Listener(Ok(())));
    assert!(matches!(action, DaemonRunAction::StartCapture { .. }));
    let (_, action) = run.run_daemon(DaemonRunEvent::Capture(Ok(())));
    assert!(matches!(action, DaemonRunAction::Serve { .. }));
    let (said, action) = run.run_daemon(DaemonRunEvent::Served(Err(
        IpcTransportError::request_failed("pipe closed"),
    )));
    assert_eq!(said.as_deref(), Some("daemon IPC request failed. Details: pipe closed"));
    assert!(matches!(action, DaemonRunAction::StopCapture));
    let (_, action) = run.run_daemon(DaemonRunEvent::CaptureStopped(true));
    assert!(matches!(action, DaemonRunAction::StopListener));
    let (_, action) = run.run_daemon(DaemonRunEvent::ListenerStopped(true));
    assert!(matches!(action, DaemonRunAction::Exit { success: false }));
}

#[test]
fn starts_of_the_daemon_that_go_wrong_say_how() {
    let (mut run, _) = DaemonRun::begin(options());
    let (said, action) =
        run.run_daemon(DaemonRunEvent::Endpoint(Err(IpcEndpointError::MissingHomeDir)));
    assert_eq!(
        said.as_deref(),
        Some("failed to resolve daemon IPC endpoint: missing home directory for macOS Unix socket")
    );
    assert!(matches!(action, DaemonRunAction::Exit { success: false }));

    let (mut run, _) = DaemonRun::begin(ServeOptions {
        endpoint: manual_endpoint(),
        peer_listen: Some(socket("127.0.0.1:24887")),
        capture_input: true,
        ..options()
    });
    run.run_daemon(DaemonRunEvent::Listener(Ok(())));
    let (said, action) =
        run.run_daemon(DaemonRunEvent::Capture(Err(PlatformError::new("no permission"))));
    assert_eq!(said.as_deref(), Some("failed to start daemon input capture: no permission"));
    assert!(matches!(action, DaemonRunAction::StopListener));
    let (_, action) = run.run_daemon(DaemonRunEvent::ListenerStopped(true));
    assert!(matches!(action, DaemonRunAction::Exit { success: false }));
}

#[test]
fn a_listener_releases_input_after_a_failed_session() {
    let (said, action) = run_peer_session_listener(true, PeerListenerEvent::Started);
    assert_eq!(said, None);
    assert!(matches!(action, PeerListenerAction::Accept));
    let (_, action) = run_peer_session_listener(true, PeerListenerEvent::Idle);
    assert!(matches!(action, PeerListenerAction::Wait));
    let (said, action) = run_peer_session_listener(
        true,
        PeerListenerEvent::SessionEnded(Err(PlatformError::new("broken"))),
    );
    assert_eq!(said.as_deref(), Some("peer session ended with error: broken"));
    assert!(matches!(action, PeerListenerAction::ReleaseAll));
    let (_, action) = run_peer_session_listener(false, PeerListenerEvent::Waited);
    assert!(matches!(action, PeerListenerAction::Finish(Ok(()))));
    let (_, action) =
        run_peer_session_listener(true, PeerListenerEvent::AcceptFailed("denied".to_string()));
    match action {
        PeerListenerAction::Finish(Err(error)) => {
            assert_eq!(error.message(), "failed to accept peer session: denied")
        }
        _ => panic!("expected the listener to end"),
    }
}
