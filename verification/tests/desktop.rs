//! Settings, launch arguments and the lifecycle of the daemon as the desktop application sees it.

use akraz::calls::{call_daemon_json_rpc, DaemonCall};
use akraz::cli::{parse_daemon_command, DaemonCommand};
use akraz::control::{
    resolve_adjacent_daemon_executable, DaemonSpawn, DaemonStart, DaemonStop, SpawnAction,
    SpawnEvent, SpawnFailure, SpawnedProcess, StartAction, StartEvent, StopAction, StopEvent,
    DAEMON_START_RETRIES, DAEMON_STOP_RETRIES,
};
use akraz::diagnostics::{DiagnosticsAction, DiagnosticsEvent, DiagnosticsRun};
use akraz::endpoint::{
    InProcessIpcClient, IpcEndpoint, IpcEndpointError, IpcTransportError, LocalIpcServer,
};
use akraz::json::{JsonValue, ToJson};
use akraz::launch::{
    choose_app_command, daemon_capture_input_enabled_from, daemon_executable_name,
    daemon_spawn_args_from, format_daemon_path_arg, format_edge_binding_arg, has_exact_arg,
    resolve_env_daemon_executable_from, settings_start_smoke_settings, AppCommand,
    DaemonStartOptions, DAEMON_CAPTURE_INPUT_ARG, DAEMON_CRASH_MARKER_ARG, DAEMON_EDGE_BINDING_ARG,
    DAEMON_IDENTITY_DISPLAY_NAME, DAEMON_IDENTITY_DISPLAY_NAME_ARG, DAEMON_IDENTITY_STORE_ARG,
    DAEMON_LIFECYCLE_SMOKE_FLAG, DAEMON_PEER_LISTEN_ARG, DAEMON_SERVE_ARG,
    DAEMON_SETTINGS_START_SMOKE_FLAG, DAEMON_SIDECAR_NAME,
};
use akraz::lifecycle::{
    classify_daemon_call_error, default_daemon_endpoint, parse_json_rpc_response,
    read_previous_daemon_crash, snapshot_after_call, sort_response, CrashFile, DaemonCallFailure,
    DaemonCrashMarker, DaemonLifecyclePhase, DaemonLifecycleSnapshot, DaemonProcessState,
    DaemonStopMethod, DaemonStopOutcome, ManagedDaemonChild, ResponseKind, StoreOutcome,
};
use akraz::rpc::{
    to_json_line, IpcCallError, JsonRpcError, JsonRpcFailure, JsonRpcSuccess,
};
use akraz::settings::{
    daemon_crash_marker_path_from_config_dir, identity_store_path_from_config_dir, load_layout,
    load_settings, normalize_session_connect_options, normalize_settings, same_settings,
    save_layout, settings_path_from_config_dir, settings_save_message, AppSettings,
    DaemonEdgeBindingOption, DaemonScreenEdgeOption, LayoutSettings, ManualPeerAddressSetting,
    SessionConnectOptions, SettingsFile, SettingsSaveFailure, DAEMON_CRASH_DIR_NAME,
    DAEMON_CRASH_MARKER_FILE_NAME, IDENTITY_STORE_DIR_NAME, IDENTITY_STORE_FILE_NAME,
};
use akraz::snapshot::{
    ControlModeSnapshot, DaemonShutdownResult, DaemonStatus, DiagnosticsKeyboardLayout,
    DiagnosticsMonitorSnapshot, DiagnosticsScreenTopology, InputReleaseAllResult,
    IpcPlatformCapabilities, LogicalPointSnapshot, LogicalRectSnapshot, PermissionIssue,
    PermissionsProbe, ProtocolVersionSnapshot, SessionConnectResult, SessionStatus,
};
use akraz::tryout::{DaemonLifecycleSmokeReport, Tryout, TryoutAction, TryoutEvent};

fn status_fixture() -> DaemonStatus {
    DaemonStatus {
        daemon_version: "0.1.0".to_string(),
        mode: ControlModeSnapshot::Local,
        protocol: ProtocolVersionSnapshot { major: 1, minor: 0 },
        peers: Vec::new(),
        capabilities: IpcPlatformCapabilities {
            can_capture_pointer: true,
            can_capture_keyboard: true,
            can_inject_pointer: true,
            can_inject_keyboard: true,
        },
    }
}

fn monitor_snapshots() -> Vec<DiagnosticsMonitorSnapshot> {
    vec![DiagnosticsMonitorSnapshot {
        id: "primary".to_string(),
        bounds: LogicalRectSnapshot { x: 0, y: 0, width: 1920, height: 1080 },
        scale_factor_percent: Some(100),
        is_primary: true,
    }]
}

fn keyboard_layout() -> DiagnosticsKeyboardLayout {
    DiagnosticsKeyboardLayout {
        source: "foregroundWindowThread".to_string(),
        layout_id: "0x0000000004120412".to_string(),
        language_id: "0x0412".to_string(),
        layout_name: Some("00000412".to_string()),
    }
}

fn shutdown_fixture() -> DaemonShutdownResult {
    DaemonShutdownResult {
        requested: true,
        released_inputs: true,
        disconnected_peer_session: false,
        mode: ControlModeSnapshot::Local,
    }
}

fn no_failure() -> Result<JsonRpcFailure, String> {
    Err("no failure was read".to_string())
}

fn edge(peer_id: &str) -> DaemonEdgeBindingOption {
    DaemonEdgeBindingOption {
        local_edge: DaemonScreenEdgeOption::Right,
        peer_id: peer_id.to_string(),
        remote_edge: DaemonScreenEdgeOption::Left,
    }
}

fn manual(peer_id: &str, address: &str) -> ManualPeerAddressSetting {
    ManualPeerAddressSetting { peer_id: peer_id.to_string(), address: address.to_string() }
}

fn endpoint() -> IpcEndpoint {
    match IpcEndpoint::manual("local-test") {
        Ok(endpoint) => endpoint,
        Err(error) => panic!("expected endpoint: {}", error.message()),
    }
}

fn not_running() -> DaemonCallFailure {
    DaemonCallFailure::NotRunning("not there".to_string())
}

fn unreachable_daemon() -> DaemonCallFailure {
    DaemonCallFailure::Unreachable("broke off".to_string())
}

/// The line that a success is sent as, held against the value that a reader makes of it.
fn read_back<T: ToJson + PartialEq + core::fmt::Debug>(label: &str, sent: T, read: T, again: T) {
    let line = match to_json_line(&JsonRpcSuccess::new("tauri", sent)) {
        Ok(line) => line,
        Err(error) => panic!("expected JSON: {}", error.message()),
    };
    let value: serde_json::Value = serde_json::from_str(&line).expect("line is JSON");
    assert_eq!(value["jsonrpc"], "2.0");
    assert_eq!(value["id"], "tauri");
    assert_eq!(sort_response(&line), Ok(ResponseKind::Success));
    assert_eq!(
        parse_json_rpc_response(&line, label, no_failure(), Ok(JsonRpcSuccess::new("tauri", read))),
        Ok(again)
    );
}

#[test]
fn parses_daemon_status_success_response() {
    read_back("status", status_fixture(), status_fixture(), status_fixture());
}

#[test]
fn parses_daemon_error_response_as_user_message() {
    let failure = || {
        JsonRpcFailure::new(
            Some("tauri".to_string()),
            JsonRpcError::new(-32000, "daemon status unavailable"),
        )
    };
    let line = match to_json_line(&failure()) {
        Ok(line) => line,
        Err(error) => panic!("expected failure JSON: {}", error.message()),
    };

    assert_eq!(
        parse_json_rpc_response::<DaemonStatus>(
            &line,
            "status",
            Ok(failure()),
            Err("missing field `result`".to_string())
        ),
        Err("daemon status unavailable".to_string())
    );
}

#[test]
fn parses_permissions_probe_success_response() {
    let probe = || PermissionsProbe {
        adapter_name: "fake".to_string(),
        capabilities: IpcPlatformCapabilities {
            can_capture_pointer: true,
            can_capture_keyboard: false,
            can_inject_pointer: true,
            can_inject_keyboard: false,
        },
        issues: vec![PermissionIssue {
            code: "capture_keyboard_unavailable".to_string(),
            message: "Keyboard capture is not available.".to_string(),
        }],
    };
    read_back("permissions probe", probe(), probe(), probe());
}

#[test]
fn parses_diagnostics_screen_topology_success_response() {
    let topology = || DiagnosticsScreenTopology {
        pointer_position: LogicalPointSnapshot { x: 1919, y: 540 },
        virtual_screen_bounds: LogicalRectSnapshot { x: -1920, y: 0, width: 3840, height: 1080 },
        monitors: monitor_snapshots(),
    };
    read_back("screen topology", topology(), topology(), topology());
}

#[test]
fn parses_diagnostics_keyboard_layout_success_response() {
    read_back("keyboard layout", keyboard_layout(), keyboard_layout(), keyboard_layout());
}

#[test]
fn parses_session_connect_success_response() {
    let result = || SessionConnectResult {
        connected: true,
        session: SessionStatus {
            peer_id: "linux-laptop".to_string(),
            local_device_id: "windows-desktop".to_string(),
            address: "127.0.0.1:4455".to_string(),
            connected: true,
        },
    };
    read_back("session connect", result(), result(), result());
}

#[test]
fn parses_input_release_all_success_response() {
    let result =
        || InputReleaseAllResult { released: true, mode: ControlModeSnapshot::Local };
    read_back("input release all", result(), result(), result());
}

#[test]
fn parses_daemon_shutdown_success_response() {
    read_back("daemon shutdown", shutdown_fixture(), shutdown_fixture(), shutdown_fixture());
}

#[test]
fn responses_that_do_not_answer_are_refused() {
    let success = |jsonrpc: &str, id: &str| {
        Ok(JsonRpcSuccess { jsonrpc: jsonrpc.to_string(), id: id.to_string(), result: 7u32 })
    };
    let line = "{\"jsonrpc\":\"2.0\",\"id\":\"tauri\",\"result\":7}\n";

    assert_eq!(parse_json_rpc_response(line, "status", no_failure(), success("2.0", "tauri")), Ok(7));
    assert_eq!(
        parse_json_rpc_response(line, "status", no_failure(), success("1.0", "tauri")),
        Err("daemon returned unsupported JSON-RPC version: 1.0".to_string())
    );
    assert_eq!(
        parse_json_rpc_response(line, "status", no_failure(), success("2.0", "other")),
        Err("daemon returned unexpected response id: other".to_string())
    );
    assert_eq!(
        parse_json_rpc_response::<u32>(line, "status", no_failure(), Err("wrong type".to_string())),
        Err("daemon returned an invalid status response: wrong type".to_string())
    );
    assert_eq!(
        parse_json_rpc_response(
            "{\"error\":null}",
            "status",
            Err("missing field `code`".to_string()),
            success("2.0", "tauri")
        ),
        Err("daemon returned an invalid error response: missing field `code`".to_string())
    );
    let refused = parse_json_rpc_response("{", "status", no_failure(), success("2.0", "tauri"));
    assert!(refused.unwrap_err().starts_with("daemon returned invalid JSON: EOF"));
}

#[test]
fn daemon_call_error_distinguishes_not_running_endpoint() {
    let endpoint = endpoint();
    let error = IpcCallError::Transport {
        source: IpcTransportError::endpoint_unavailable(endpoint.clone(), "not found"),
    };
    let snapshot = classify_daemon_call_error(&error, &endpoint).into_snapshot();

    assert_eq!(snapshot.phase, DaemonLifecyclePhase::NotRunning);
    assert_eq!(snapshot.status, None);
    assert_eq!(
        snapshot.detail,
        Some("akraz-daemon is not running at local-test. Details: not found".to_string())
    );
}

#[test]
fn daemon_call_error_distinguishes_unreachable_endpoint() {
    let endpoint = endpoint();
    let error =
        IpcCallError::Transport { source: IpcTransportError::request_failed("pipe closed") };
    let snapshot = classify_daemon_call_error(&error, &endpoint).into_snapshot();

    assert_eq!(snapshot.phase, DaemonLifecyclePhase::Unreachable);
    assert_eq!(
        snapshot.detail,
        Some(
            "akraz-daemon accepted a connection at local-test, but did not answer correctly. Details: pipe closed"
                .to_string()
        )
    );
}

/// Keeps the lines it is sent, and answers each of them as it was told.
struct RecordingServer {
    answer: fn() -> Result<String, IpcTransportError>,
    lines: Vec<String>,
}

impl LocalIpcServer for RecordingServer {
    fn handle_request_line(&mut self, request_line: &str) -> Result<String, IpcTransportError> {
        self.lines.push(request_line.to_string());
        (self.answer)()
    }
}

fn client_of(
    answer: fn() -> Result<String, IpcTransportError>,
) -> InProcessIpcClient<RecordingServer> {
    InProcessIpcClient::new(endpoint(), RecordingServer { answer, lines: Vec::new() })
}

#[test]
fn calls_send_their_method_and_hand_the_answer_back() {
    let mut client = client_of(|| Ok("answer\n".to_string()));
    let connect = DaemonCall::SessionConnect {
        options: SessionConnectOptions {
            peer_id: "peer-b".to_string(),
            local_device_id: "device-a".to_string(),
            address: "127.0.0.1:24888".to_string(),
        },
    };

    for call in [&DaemonCall::Status, &DaemonCall::LogsTail, &connect] {
        assert_eq!(call_daemon_json_rpc(&mut client, call), Ok("answer\n".to_string()));
    }

    assert_eq!(
        client.server.lines,
        vec![
            "{\"jsonrpc\":\"2.0\",\"id\":\"tauri\",\"method\":\"daemon.status\",\"params\":{}}\n",
            "{\"jsonrpc\":\"2.0\",\"id\":\"tauri\",\"method\":\"daemon.logs.tail\",\"params\":{\"limit\":null}}\n",
            "{\"jsonrpc\":\"2.0\",\"id\":\"tauri\",\"method\":\"session.connect\",\"params\":{\"peerId\":\"peer-b\",\"localDeviceId\":\"device-a\",\"address\":\"127.0.0.1:24888\"}}\n",
        ]
    );
}

#[test]
fn failed_calls_tell_what_is_known_of_the_daemon() {
    let mut missing =
        client_of(|| Err(IpcTransportError::endpoint_unavailable(endpoint(), "not found")));
    assert_eq!(
        call_daemon_json_rpc(&mut missing, &DaemonCall::Shutdown),
        Err(DaemonCallFailure::NotRunning(
            "akraz-daemon is not running at local-test. Details: not found".to_string()
        ))
    );

    let mut silent = client_of(|| Err(IpcTransportError::request_failed("pipe closed")));
    assert_eq!(
        call_daemon_json_rpc(&mut silent, &DaemonCall::SessionDisconnect),
        Err(DaemonCallFailure::Unreachable(
            "akraz-daemon accepted a connection at local-test, but did not answer correctly. Details: pipe closed"
                .to_string()
        ))
    );
}

#[test]
fn every_call_has_a_label_of_its_own() {
    assert_eq!(DaemonCall::Status.label(), "status");
    assert_eq!(DaemonCall::Shutdown.label(), "daemon shutdown");
    assert_eq!(DaemonCall::PermissionsProbe.label(), "permissions probe");
    assert_eq!(DaemonCall::ScreenTopology.label(), "screen topology");
    assert_eq!(DaemonCall::KeyboardLayout.label(), "keyboard layout");
    assert_eq!(DaemonCall::LogsTail.label(), "daemon logs tail");
    assert_eq!(DaemonCall::SessionDisconnect.label(), "session disconnect");
    assert_eq!(DaemonCall::InputReleaseAll.label(), "input release all");
}

#[test]
fn missing_endpoints_are_failures() {
    let failure = default_daemon_endpoint(Err(IpcEndpointError::MissingHomeDir));
    match failure {
        Err(failure) => {
            let message = failure.to_user_message();
            let snapshot = failure.into_snapshot();
            assert_eq!(snapshot.phase, DaemonLifecyclePhase::Failed);
            assert_eq!(snapshot.detail, Some(message));
        }
        Ok(_) => panic!("expected no endpoint"),
    }
    assert_eq!(default_daemon_endpoint(Ok(endpoint())), Ok(endpoint()));
}

#[test]
fn what_a_user_asked_for_ends_in_a_status_or_a_message() {
    assert_eq!(
        snapshot_after_call(Ok(()), Ok(status_fixture())),
        Ok(DaemonLifecycleSnapshot::running(status_fixture(), None))
    );
    assert_eq!(
        snapshot_after_call(Err("refused".to_string()), Ok(status_fixture())),
        Err("refused".to_string())
    );
    assert_eq!(snapshot_after_call(Ok(()), Err(unreachable_daemon())), Err("broke off".to_string()));
}

#[test]
fn daemon_executable_name_matches_platform() {
    if std::path::MAIN_SEPARATOR == '\\' {
        assert_eq!(daemon_executable_name(true), "akraz-daemon.exe");
    } else {
        assert_eq!(daemon_executable_name(false), "akraz-daemon");
    }
}

#[test]
fn sidecar_name_matches_tauri_external_bin_basename() {
    assert_eq!(DAEMON_SIDECAR_NAME, "akraz-daemon");
}

#[test]
fn daemon_smoke_flags_are_explicit_and_hidden() {
    assert!(has_exact_arg(
        &vec![DAEMON_LIFECYCLE_SMOKE_FLAG.to_string()],
        DAEMON_LIFECYCLE_SMOKE_FLAG
    ));
    assert!(has_exact_arg(
        &vec![
            "--ordinary-open-argument".to_string(),
            DAEMON_SETTINGS_START_SMOKE_FLAG.to_string()
        ],
        DAEMON_SETTINGS_START_SMOKE_FLAG
    ));
    assert!(!has_exact_arg(
        &vec!["--smoke-daemon-lifecycle".to_string()],
        DAEMON_LIFECYCLE_SMOKE_FLAG
    ));
    assert!(!has_exact_arg(
        &vec!["document.akraz".to_string()],
        DAEMON_SETTINGS_START_SMOKE_FLAG
    ));
}

#[test]
fn arguments_choose_what_the_application_does() {
    assert_eq!(choose_app_command(&vec![]), AppCommand::Window);
    assert_eq!(
        choose_app_command(&vec!["x".to_string(), DAEMON_LIFECYCLE_SMOKE_FLAG.to_string()]),
        AppCommand::LifecycleSmoke
    );
    assert_eq!(
        choose_app_command(&vec![
            DAEMON_LIFECYCLE_SMOKE_FLAG.to_string(),
            DAEMON_SETTINGS_START_SMOKE_FLAG.to_string()
        ]),
        AppCommand::SettingsStartSmoke
    );
}

#[test]
fn daemon_path_env_override_ignores_missing_and_empty_values() {
    assert_eq!(resolve_env_daemon_executable_from(None), None);
    assert_eq!(resolve_env_daemon_executable_from(Some(String::new())), None);
}

#[test]
fn daemon_path_env_override_accepts_explicit_path() {
    assert_eq!(
        resolve_env_daemon_executable_from(Some("custom-daemon".to_string())),
        Some("custom-daemon".to_string())
    );
}

#[test]
fn daemon_capture_input_env_accepts_explicit_truthy_values() {
    for value in ["1", "true", "TRUE", "yes", "on"] {
        assert!(daemon_capture_input_enabled_from(Some(value)));
    }
    for value in ["", "0", "false", "no", "off", "maybe"] {
        assert!(!daemon_capture_input_enabled_from(Some(value)));
    }
    assert!(!daemon_capture_input_enabled_from(None));
}

#[test]
fn daemon_spawn_args_include_capture_only_when_enabled() {
    assert_eq!(
        daemon_spawn_args_from(&DaemonStartOptions::default(), None, None, None),
        Ok(vec![DAEMON_SERVE_ARG.to_string()])
    );
    assert_eq!(
        daemon_spawn_args_from(&DaemonStartOptions::default(), Some("1"), None, None),
        Ok(vec![DAEMON_SERVE_ARG.to_string(), DAEMON_CAPTURE_INPUT_ARG.to_string()])
    );
    assert_eq!(
        daemon_spawn_args_from(
            &DaemonStartOptions {
                capture_input: Some(false),
                peer_listen_address: None,
                edge_bindings: Vec::new(),
            },
            Some("1"),
            None,
            None,
        ),
        Ok(vec![DAEMON_SERVE_ARG.to_string()])
    );
}

#[test]
fn daemon_spawn_args_include_identity_store_when_configured() {
    assert_eq!(
        daemon_spawn_args_from(
            &DaemonStartOptions::default(),
            None,
            Some("akraz-identity.json"),
            None
        ),
        Ok(vec![
            DAEMON_SERVE_ARG.to_string(),
            DAEMON_IDENTITY_STORE_ARG.to_string(),
            "akraz-identity.json".to_string(),
            DAEMON_IDENTITY_DISPLAY_NAME_ARG.to_string(),
            DAEMON_IDENTITY_DISPLAY_NAME.to_string()
        ])
    );
}

#[test]
fn daemon_spawn_args_include_crash_marker_when_configured() {
    assert_eq!(
        daemon_spawn_args_from(
            &DaemonStartOptions::default(),
            None,
            None,
            Some("daemon-crash.json")
        ),
        Ok(vec![
            DAEMON_SERVE_ARG.to_string(),
            DAEMON_CRASH_MARKER_ARG.to_string(),
            "daemon-crash.json".to_string()
        ])
    );
}

#[test]
fn daemon_spawn_args_include_configured_edge_bindings() {
    let options = DaemonStartOptions {
        capture_input: Some(true),
        peer_listen_address: None,
        edge_bindings: vec![edge(" linux-laptop ")],
    };

    assert_eq!(
        daemon_spawn_args_from(&options, None, None, None),
        Ok(vec![
            DAEMON_SERVE_ARG.to_string(),
            DAEMON_CAPTURE_INPUT_ARG.to_string(),
            DAEMON_EDGE_BINDING_ARG.to_string(),
            "right:linux-laptop:left".to_string()
        ])
    );
}

#[test]
fn daemon_spawn_args_include_configured_peer_listener() {
    let options = DaemonStartOptions {
        capture_input: Some(false),
        peer_listen_address: Some(" 127.0.0.1:4455 ".to_string()),
        edge_bindings: Vec::new(),
    };

    assert_eq!(
        daemon_spawn_args_from(&options, None, Some("akraz-identity.json"), None),
        Ok(vec![
            DAEMON_SERVE_ARG.to_string(),
            DAEMON_IDENTITY_STORE_ARG.to_string(),
            "akraz-identity.json".to_string(),
            DAEMON_IDENTITY_DISPLAY_NAME_ARG.to_string(),
            DAEMON_IDENTITY_DISPLAY_NAME.to_string(),
            DAEMON_PEER_LISTEN_ARG.to_string(),
            "127.0.0.1:4455".to_string()
        ])
    );
    assert_eq!(
        daemon_spawn_args_from(&options, None, None, None),
        Err("peer listener requires an identity store.".to_string())
    );
}

#[test]
fn daemon_reads_the_arguments_that_it_is_started_with() {
    let options = DaemonStartOptions {
        capture_input: None,
        peer_listen_address: Some("[::1]:4455".to_string()),
        edge_bindings: vec![edge("linux-laptop"), edge(" other ")],
    };
    let args = daemon_spawn_args_from(&options, Some(" On "), Some("identity.json"), None)
        .expect("arguments");
    match parse_daemon_command(&args) {
        Ok(DaemonCommand::Serve(serve)) => {
            assert!(serve.capture_input);
            assert_eq!(serve.edge_bindings.len(), 2);
            assert_eq!(serve.edge_bindings[1].peer_id.as_str(), "other");
            assert!(serve.peer_listen.is_some());
            assert_eq!(serve.identity_store.as_deref(), Some("identity.json"));
            assert_eq!(serve.identity_display_name.as_deref(), Some("Akraz Desktop"));
        }
        other => panic!("expected to serve: {other:?}"),
    }
}

#[test]
fn paths_that_are_no_text_are_refused() {
    assert_eq!(format_daemon_path_arg(Some("a b")), Ok("a b".to_string()));
    assert_eq!(
        format_daemon_path_arg(None),
        Err("Akraz daemon path contains invalid Unicode.".to_string())
    );
}

/// Whether this system spells its paths with backslashes.
const WINDOWS: bool = std::path::MAIN_SEPARATOR == '\\';

#[test]
fn identity_store_path_lives_under_config_secrets_directory() {
    let expected = std::path::PathBuf::from("akraz-config")
        .join(IDENTITY_STORE_DIR_NAME)
        .join(IDENTITY_STORE_FILE_NAME);
    assert_eq!(
        std::path::PathBuf::from(identity_store_path_from_config_dir("akraz-config", WINDOWS)),
        expected
    );
}

#[test]
fn daemon_crash_marker_path_lives_under_config_crash_directory() {
    let expected = std::path::PathBuf::from("akraz-config")
        .join(DAEMON_CRASH_DIR_NAME)
        .join(DAEMON_CRASH_MARKER_FILE_NAME);
    assert_eq!(
        std::path::PathBuf::from(daemon_crash_marker_path_from_config_dir("akraz-config", WINDOWS)),
        expected
    );
}

#[test]
fn paths_are_joined_as_the_system_joins_them() {
    for directory in ["akraz-config", "akraz-config/", "", "/", "a/b"] {
        let expected = std::path::Path::new(directory).join("settings.json");
        assert_eq!(
            settings_path_from_config_dir(directory, WINDOWS),
            expected.to_string_lossy().into_owned()
        );
    }
    for (directory, path) in [
        ("", "settings.json"),
        ("C:\\Users\\a", "C:\\Users\\a\\settings.json"),
        ("C:\\Users\\a\\", "C:\\Users\\a\\settings.json"),
        ("C:/Users/a/", "C:/Users/a/settings.json"),
        ("C:", "C:settings.json"),
        ("a:b", "a:b\\settings.json"),
        ("\\\\?\\C:\\a/", "\\\\?\\C:\\a/\\settings.json"),
    ] {
        assert_eq!(settings_path_from_config_dir(directory, true), path);
    }
    assert_eq!(settings_path_from_config_dir("a\\", false), "a\\/settings.json");
    assert_eq!(
        resolve_adjacent_daemon_executable(Ok(Some("C:\\akraz".to_string())), true),
        Ok("C:\\akraz\\akraz-daemon.exe".to_string())
    );
}

fn crash_marker() -> DaemonCrashMarker {
    DaemonCrashMarker {
        schema_version: "akraz.daemonCrashMarker/v1".to_string(),
        process_role: "akraz-daemon".to_string(),
        daemon_version: "0.5.6".to_string(),
        reason: "panic".to_string(),
        panic_message_class: "stringPayload".to_string(),
        panic_location: None,
        recorded_at_unix_millis: 123_456,
        privacy: JsonValue::Object(Vec::new()),
    }
}

#[test]
fn reads_previous_daemon_crash_marker_from_path() {
    let decoded = read_previous_daemon_crash("marker", CrashFile::Read(Ok(crash_marker())))
        .expect("previous crash marker");

    assert_eq!(decoded, Some(crash_marker()));
}

#[test]
fn crash_markers_that_are_none_are_told_of() {
    assert_eq!(read_previous_daemon_crash("marker", CrashFile::Missing), Ok(None));
    assert_eq!(
        read_previous_daemon_crash("marker", CrashFile::Unreadable("denied".to_string())),
        Err("failed to read previous daemon crash marker marker: denied".to_string())
    );
    let refused = "invalid type: integer `5`, expected struct DaemonCrashMarker at line 1 column 1";
    assert_eq!(
        read_previous_daemon_crash("marker", CrashFile::Read(Err(refused.to_string()))),
        Err(format!("failed to parse previous daemon crash marker: {refused}"))
    );
}

#[test]
fn snapshots_hold_the_crash_marker_they_were_given() {
    let snapshot =
        DaemonLifecycleSnapshot::not_running("gone").with_previous_crash(Some(crash_marker()));
    let line = to_json_line(&snapshot).expect("line");
    let value: serde_json::Value = serde_json::from_str(&line).expect("JSON");
    assert_eq!(
        value["previousCrash"].to_string(),
        "{\"schemaVersion\":\"akraz.daemonCrashMarker/v1\",\"processRole\":\"akraz-daemon\",\"daemonVersion\":\"0.5.6\",\"reason\":\"panic\",\"panicMessageClass\":\"stringPayload\",\"panicLocation\":null,\"recordedAtUnixMillis\":123456,\"privacy\":{}}"
    );
    assert!(value["status"].is_null());
    assert!(value["managedPid"].is_null());
}

#[test]
fn settings_load_defaults_when_file_is_missing() {
    assert_eq!(load_settings(SettingsFile::Missing), Ok(AppSettings::default()));
}

#[test]
fn settings_that_cannot_be_read_or_saved_say_why() {
    assert_eq!(
        load_settings(SettingsFile::Unreadable("denied".to_string())),
        Err("failed to read Akraz settings: denied".to_string())
    );
    assert_eq!(
        load_settings(SettingsFile::Malformed("no JSON".to_string())),
        Err("failed to read Akraz settings: no JSON".to_string())
    );
    assert_eq!(
        settings_save_message(SettingsSaveFailure::NoDirectory),
        "failed to resolve Akraz settings directory."
    );
    assert_eq!(
        settings_save_message(SettingsSaveFailure::Directory("denied".to_string())),
        "failed to create Akraz settings directory: denied"
    );
    assert_eq!(
        settings_save_message(SettingsSaveFailure::Encode("bad".to_string())),
        "failed to encode Akraz settings: bad"
    );
    assert_eq!(
        settings_save_message(SettingsSaveFailure::Write("full".to_string())),
        "failed to save Akraz settings: full"
    );
}

#[test]
fn settings_save_normalizes_and_loads_edge_bindings() {
    let settings = AppSettings {
        capture_input: true,
        peer_listen_address: " 127.0.0.1:4455 ".to_string(),
        edge_bindings: vec![edge(" linux-laptop ")],
        manual_peer_addresses: vec![
            manual(" linux-laptop ", " 127.0.0.1:4455 "),
            manual("empty-address", " "),
            manual("linux-laptop", "127.0.0.1:4456"),
        ],
    };
    let wanted = || AppSettings {
        capture_input: true,
        peer_listen_address: "127.0.0.1:4455".to_string(),
        edge_bindings: vec![edge("linux-laptop")],
        manual_peer_addresses: vec![manual("linux-laptop", "127.0.0.1:4456")],
    };

    let saved = normalize_settings(settings).expect("save settings");

    assert_eq!(saved, wanted());
    assert_eq!(load_settings(SettingsFile::Read(saved)), Ok(wanted()));
}

#[test]
fn settings_save_rejects_edge_bindings_that_break_daemon_cli_contract() {
    let settings = AppSettings {
        capture_input: true,
        peer_listen_address: String::new(),
        edge_bindings: vec![edge("linux:laptop")],
        manual_peer_addresses: Vec::new(),
    };

    assert_eq!(
        normalize_settings(settings),
        Err("edge binding peer id cannot contain ':'.".to_string())
    );
}

#[test]
fn layout_set_updates_edge_bindings_without_replacing_other_settings() {
    let original = AppSettings {
        capture_input: true,
        peer_listen_address: "127.0.0.1:4455".to_string(),
        edge_bindings: Vec::new(),
        manual_peer_addresses: vec![manual("linux-laptop", "127.0.0.1:4456")],
    };
    let original = normalize_settings(original).expect("save original settings");

    let layout = LayoutSettings { edge_bindings: vec![edge(" linux-laptop ")] };
    let saved = save_layout(SettingsFile::Read(original), layout).expect("save layout");

    assert_eq!(
        saved,
        AppSettings {
            capture_input: true,
            peer_listen_address: "127.0.0.1:4455".to_string(),
            edge_bindings: vec![edge("linux-laptop")],
            manual_peer_addresses: vec![manual("linux-laptop", "127.0.0.1:4456")],
        }
    );
    assert_eq!(
        load_layout(SettingsFile::Read(saved)),
        Ok(LayoutSettings { edge_bindings: vec![edge("linux-laptop")] })
    );
}

#[test]
fn layout_set_rejects_edge_bindings_that_break_daemon_cli_contract() {
    assert_eq!(
        save_layout(
            SettingsFile::Missing,
            LayoutSettings { edge_bindings: vec![edge("linux:laptop")] }
        ),
        Err("edge binding peer id cannot contain ':'.".to_string())
    );
}

#[test]
fn settings_save_rejects_manual_peer_addresses_that_break_session_contract() {
    let with = |address: ManualPeerAddressSetting| AppSettings {
        capture_input: false,
        peer_listen_address: String::new(),
        edge_bindings: Vec::new(),
        manual_peer_addresses: vec![address],
    };
    assert_eq!(
        normalize_settings(with(manual("linux:laptop", "127.0.0.1:4455"))),
        Err("manual peer address peer id cannot contain ':' or '@'.".to_string())
    );
    assert_eq!(
        normalize_settings(with(manual("linux-laptop", "localhost:4455"))),
        Err("address must be an IP address and port.".to_string())
    );
}

#[test]
fn session_connect_options_are_trimmed_before_ipc() {
    let options = SessionConnectOptions {
        peer_id: " linux-laptop ".to_string(),
        local_device_id: " windows-desktop ".to_string(),
        address: " 127.0.0.1:4455 ".to_string(),
    };

    assert_eq!(
        normalize_session_connect_options(options),
        Ok(SessionConnectOptions {
            peer_id: "linux-laptop".to_string(),
            local_device_id: "windows-desktop".to_string(),
            address: "127.0.0.1:4455".to_string(),
        })
    );
}

#[test]
fn session_connect_options_reject_invalid_values() {
    assert_eq!(
        normalize_session_connect_options(SessionConnectOptions {
            peer_id: "linux:laptop".to_string(),
            local_device_id: "windows-desktop".to_string(),
            address: "127.0.0.1:4455".to_string(),
        }),
        Err("peer id cannot contain ':' or '@'.".to_string())
    );
    assert_eq!(
        normalize_session_connect_options(SessionConnectOptions {
            peer_id: "linux-laptop".to_string(),
            local_device_id: " ".to_string(),
            address: "127.0.0.1:4455".to_string(),
        }),
        Err("local device id is required.".to_string())
    );
    assert_eq!(
        normalize_session_connect_options(SessionConnectOptions {
            peer_id: "linux-laptop".to_string(),
            local_device_id: "windows-desktop".to_string(),
            address: "localhost:4455".to_string(),
        }),
        Err("address must be an IP address and port.".to_string())
    );
    assert_eq!(
        normalize_session_connect_options(SessionConnectOptions {
            peer_id: "linux laptop".to_string(),
            local_device_id: "windows-desktop".to_string(),
            address: "127.0.0.1:4455".to_string(),
        }),
        Err("peer id cannot contain whitespace.".to_string())
    );
}

#[test]
fn daemon_lifecycle_smoke_report_records_graceful_stop_evidence() {
    let mut report =
        DaemonLifecycleSmokeReport::new(DaemonLifecycleSnapshot::not_running("initial"));

    report.started = Some(DaemonLifecycleSnapshot::running(status_fixture(), Some(42)));
    report.record_stop(DaemonStopOutcome::graceful(
        DaemonLifecycleSnapshot::not_running("Akraz stopped."),
        shutdown_fixture(),
    ));

    let line = to_json_line(&report).expect("smoke report JSON");
    let value: serde_json::Value = serde_json::from_str(&line).expect("JSON");
    assert_eq!(value["started"]["phase"], "running");
    assert_eq!(value["started"]["managedPid"], 42);
    assert_eq!(value["stopped"]["phase"], "not_running");
    assert_eq!(value["stopMethod"], "graceful_shutdown");
    assert_eq!(value["shutdown"]["requested"], true);
    assert_eq!(value["shutdown"]["releasedInputs"], true);
    assert_eq!(value["shutdown"]["disconnectedPeerSession"], false);
    assert!(value.get("settings").is_none());
    assert!(value.get("permissions").is_none());
}

#[test]
fn settings_start_smoke_settings_become_daemon_start_options() {
    let options = DaemonStartOptions::from(settings_start_smoke_settings());

    assert_eq!(
        daemon_spawn_args_from(&options, None, Some("akraz-identity.json"), None),
        Ok(vec![
            DAEMON_SERVE_ARG.to_string(),
            DAEMON_IDENTITY_STORE_ARG.to_string(),
            "akraz-identity.json".to_string(),
            DAEMON_IDENTITY_DISPLAY_NAME_ARG.to_string(),
            DAEMON_IDENTITY_DISPLAY_NAME.to_string(),
            DAEMON_CAPTURE_INPUT_ARG.to_string(),
            DAEMON_PEER_LISTEN_ARG.to_string(),
            "127.0.0.1:0".to_string(),
            DAEMON_EDGE_BINDING_ARG.to_string(),
            "right:linux-laptop:left".to_string()
        ])
    );
    assert!(same_settings(&settings_start_smoke_settings(), &settings_start_smoke_settings()));
    assert!(!same_settings(&settings_start_smoke_settings(), &AppSettings::default()));
}

#[test]
fn edge_binding_arg_rejects_values_that_break_daemon_cli_contract() {
    assert_eq!(
        format_edge_binding_arg(&DaemonEdgeBindingOption {
            local_edge: DaemonScreenEdgeOption::Right,
            peer_id: " ".to_string(),
            remote_edge: DaemonScreenEdgeOption::Left,
        }),
        Err("edge binding peer id is required.".to_string())
    );
    assert_eq!(
        format_edge_binding_arg(&DaemonEdgeBindingOption {
            local_edge: DaemonScreenEdgeOption::Right,
            peer_id: "linux:laptop".to_string(),
            remote_edge: DaemonScreenEdgeOption::Left,
        }),
        Err("edge binding peer id cannot contain ':'.".to_string())
    );
}

fn finished(action: StartAction) -> Result<DaemonLifecycleSnapshot, String> {
    match action {
        StartAction::Finish(result) => result,
        _ => panic!("expected the start to end"),
    }
}

#[test]
fn a_running_daemon_is_not_started_again() {
    let (mut run, first) = DaemonStart::begin();
    assert!(matches!(first, StartAction::ReadPid));
    assert!(matches!(run.start_daemon(StartEvent::Pid(Ok(Some(7)))), StartAction::ReadStatus));
    let snapshot =
        finished(run.start_daemon(StartEvent::Status(Ok(status_fixture())))).expect("snapshot");
    assert_eq!(snapshot.phase, DaemonLifecyclePhase::Running);
    assert_eq!(snapshot.managed_pid, Some(7));
    assert_eq!(snapshot.detail.as_deref(), Some("Akraz is already running."));
}

#[test]
fn a_missing_daemon_is_started_and_asked_until_it_answers() {
    let (mut run, _) = DaemonStart::begin();
    run.start_daemon(StartEvent::Pid(Ok(None)));
    assert!(matches!(
        run.start_daemon(StartEvent::Status(Err(not_running()))),
        StartAction::ReadPid
    ));
    assert!(matches!(run.start_daemon(StartEvent::Pid(Ok(None))), StartAction::Spawn));
    assert!(matches!(run.start_daemon(StartEvent::Spawned(Ok(()))), StartAction::Store));
    assert!(matches!(run.start_daemon(StartEvent::Stored(Ok(42))), StartAction::ReadPid));
    assert!(matches!(run.start_daemon(StartEvent::Pid(Ok(Some(42)))), StartAction::ReadStatus));
    assert!(matches!(
        run.start_daemon(StartEvent::Status(Err(not_running()))),
        StartAction::Sleep { millis: 40 }
    ));
    assert!(matches!(run.start_daemon(StartEvent::Slept), StartAction::ReadPid));
    run.start_daemon(StartEvent::Pid(Ok(Some(42))));
    let snapshot =
        finished(run.start_daemon(StartEvent::Status(Ok(status_fixture())))).expect("snapshot");
    assert_eq!(snapshot.managed_pid, Some(42));
    assert_eq!(snapshot.detail.as_deref(), Some("Akraz is running."));
}

fn started_run() -> DaemonStart {
    let (mut run, _) = DaemonStart::begin();
    run.start_daemon(StartEvent::Pid(Ok(None)));
    run.start_daemon(StartEvent::Status(Err(not_running())));
    run.start_daemon(StartEvent::Pid(Ok(None)));
    run
}

#[test]
fn starts_that_go_wrong_say_how() {
    let (mut run, _) = DaemonStart::begin();
    assert_eq!(
        finished(run.start_daemon(StartEvent::Pid(Err("no state".to_string())))),
        Err("no state".to_string())
    );

    let (mut run, _) = DaemonStart::begin();
    run.start_daemon(StartEvent::Pid(Ok(None)));
    assert_eq!(
        finished(run.start_daemon(StartEvent::Status(Err(unreachable_daemon())))),
        Ok(DaemonLifecycleSnapshot::unreachable("broke off"))
    );

    let (mut run, _) = DaemonStart::begin();
    run.start_daemon(StartEvent::Pid(Ok(None)));
    run.start_daemon(StartEvent::Status(Err(not_running())));
    assert_eq!(
        finished(run.start_daemon(StartEvent::Pid(Ok(Some(9))))),
        Ok(DaemonLifecycleSnapshot::starting("Akraz is already starting.", Some(9)))
    );

    let mut run = started_run();
    assert_eq!(
        finished(run.start_daemon(StartEvent::Spawned(Err("no file".to_string())))),
        Ok(DaemonLifecycleSnapshot::failed("no file"))
    );

    let mut run = started_run();
    run.start_daemon(StartEvent::Spawned(Ok(())));
    assert_eq!(
        finished(run.start_daemon(StartEvent::Stored(Err("no state".to_string())))),
        Err("no state".to_string())
    );

    let mut run = started_run();
    run.start_daemon(StartEvent::Spawned(Ok(())));
    run.start_daemon(StartEvent::Stored(Ok(42)));
    assert_eq!(
        finished(run.start_daemon(StartEvent::Pid(Ok(None)))),
        Ok(DaemonLifecycleSnapshot::failed("akraz-daemon exited before it became reachable."))
    );
}

#[test]
fn a_slow_daemon_is_asked_often_enough() {
    let mut run = started_run();
    run.start_daemon(StartEvent::Spawned(Ok(())));
    let mut action = run.start_daemon(StartEvent::Stored(Ok(42)));
    let mut asked = 0;
    let result = loop {
        action = match action {
            StartAction::ReadPid => run.start_daemon(StartEvent::Pid(Ok(Some(42)))),
            StartAction::ReadStatus => {
                asked += 1;
                run.start_daemon(StartEvent::Status(Err(not_running())))
            }
            StartAction::Sleep { .. } => run.start_daemon(StartEvent::Slept),
            StartAction::Finish(result) => break result,
            _ => panic!("unexpected step"),
        };
    };
    assert_eq!(asked, DAEMON_START_RETRIES);
    assert_eq!(
        result,
        Ok(DaemonLifecycleSnapshot::starting(
            "Akraz is starting, but it has not answered yet.",
            Some(42)
        ))
    );
}

fn stopped(action: StopAction) -> Result<DaemonStopOutcome, String> {
    match action {
        StopAction::Finish(result) => result,
        _ => panic!("expected the stop to end"),
    }
}

#[test]
fn a_daemon_of_someone_else_is_left_alone() {
    let (mut run, _) = DaemonStop::begin();
    assert!(matches!(run.stop_daemon(StopEvent::Pid(Ok(None))), StopAction::ReadStatus));
    let outcome =
        stopped(run.stop_daemon(StopEvent::Status(Ok(status_fixture())))).expect("outcome");
    assert_eq!(outcome.method, DaemonStopMethod::Unmanaged);
    assert_eq!(outcome.shutdown, None);
    assert_eq!(
        outcome.snapshot.detail.as_deref(),
        Some("This app did not start the current Akraz background process.")
    );
}

#[test]
fn a_daemon_that_goes_when_asked_is_not_ended() {
    let (mut run, _) = DaemonStop::begin();
    assert!(matches!(run.stop_daemon(StopEvent::Pid(Ok(Some(42)))), StopAction::AskToStop));
    assert!(matches!(
        run.stop_daemon(StopEvent::Asked(Some(shutdown_fixture()))),
        StopAction::ReadStatus
    ));
    assert!(matches!(
        run.stop_daemon(StopEvent::Status(Ok(status_fixture()))),
        StopAction::Sleep { millis: 40 }
    ));
    assert!(matches!(run.stop_daemon(StopEvent::Slept), StopAction::ReadStatus));
    assert!(matches!(
        run.stop_daemon(StopEvent::Status(Err(not_running()))),
        StopAction::ClearChild
    ));
    let outcome = stopped(run.stop_daemon(StopEvent::Cleared(Ok(())))).expect("outcome");
    assert_eq!(
        outcome,
        DaemonStopOutcome::graceful(
            DaemonLifecycleSnapshot::not_running("Akraz stopped."),
            shutdown_fixture()
        )
    );
}

#[test]
fn a_daemon_that_stays_is_ended() {
    let (mut run, _) = DaemonStop::begin();
    run.stop_daemon(StopEvent::Pid(Ok(Some(42))));
    let mut action = run.stop_daemon(StopEvent::Asked(Some(shutdown_fixture())));
    let mut looks = 0;
    while !matches!(action, StopAction::TakeChild) {
        action = match action {
            StopAction::ReadStatus => {
                looks += 1;
                run.stop_daemon(StopEvent::Status(Ok(status_fixture())))
            }
            StopAction::Sleep { .. } => run.stop_daemon(StopEvent::Slept),
            _ => panic!("unexpected step"),
        };
    }
    assert_eq!(looks, DAEMON_STOP_RETRIES + 1);
    assert!(matches!(run.stop_daemon(StopEvent::Taken(Ok(true))), StopAction::KillChild));
    assert!(matches!(run.stop_daemon(StopEvent::Killed(Ok(()))), StopAction::ReadStatus));
    let outcome =
        stopped(run.stop_daemon(StopEvent::Status(Err(not_running())))).expect("outcome");
    assert_eq!(outcome.method, DaemonStopMethod::ForcedKill);
    assert_eq!(outcome.shutdown, Some(shutdown_fixture()));
    assert_eq!(
        outcome.snapshot.detail.as_deref(),
        Some("Akraz graceful stop did not settle, so the managed process was stopped.")
    );
}

#[test]
fn stops_that_go_wrong_say_how() {
    let (mut run, _) = DaemonStop::begin();
    assert_eq!(
        stopped(run.stop_daemon(StopEvent::Pid(Err("no state".to_string())))),
        Err("no state".to_string())
    );

    let (mut run, _) = DaemonStop::begin();
    run.stop_daemon(StopEvent::Pid(Ok(Some(42))));
    assert!(matches!(run.stop_daemon(StopEvent::Asked(None)), StopAction::TakeChild));
    assert!(matches!(run.stop_daemon(StopEvent::Taken(Ok(false))), StopAction::ReadStatus));
    let outcome =
        stopped(run.stop_daemon(StopEvent::Status(Err(not_running())))).expect("outcome");
    assert_eq!(outcome.method, DaemonStopMethod::Unmanaged);
    assert_eq!(outcome.snapshot.detail.as_deref(), Some("Akraz stopped."));

    let (mut run, _) = DaemonStop::begin();
    run.stop_daemon(StopEvent::Pid(Ok(Some(42))));
    run.stop_daemon(StopEvent::Asked(None));
    run.stop_daemon(StopEvent::Taken(Ok(true)));
    assert_eq!(
        stopped(run.stop_daemon(StopEvent::Killed(Err("denied".to_string())))),
        Ok(DaemonStopOutcome::forced(DaemonLifecycleSnapshot::failed("denied"), None))
    );
}

#[test]
fn the_bundled_daemon_is_tried_before_the_adjacent_one() {
    let (run, action) = DaemonSpawn::begin(None);
    assert!(matches!(action, SpawnAction::SpawnSidecar));
    let (run, action) =
        run.spawn_daemon_process(SpawnEvent::Sidecar(Err("not bundled".to_string())));
    assert!(matches!(action, SpawnAction::LocateAdjacent));
    let adjacent = resolve_adjacent_daemon_executable(Ok(Some("/opt/akraz".to_string())), false);
    let (run, action) = run.spawn_daemon_process(SpawnEvent::Located(adjacent));
    assert!(matches!(&action, SpawnAction::SpawnExecutable(path) if path == "/opt/akraz/akraz-daemon"));
    let (_, action) = run.spawn_daemon_process(SpawnEvent::Executable(Err(
        SpawnFailure::Process("no file".to_string()),
    )));
    match action {
        SpawnAction::Finish(Err(message)) => assert_eq!(
            message,
            "failed to start bundled akraz-daemon sidecar: not bundled. Also failed to start adjacent daemon at /opt/akraz/akraz-daemon: failed to start akraz-daemon at /opt/akraz/akraz-daemon: no file"
        ),
        _ => panic!("expected a message"),
    }

    let (run, _) = DaemonSpawn::begin(None);
    let (_, action) = run.spawn_daemon_process(SpawnEvent::Sidecar(Ok(())));
    assert!(matches!(action, SpawnAction::Finish(Ok(SpawnedProcess::Sidecar))));
}

#[test]
fn a_named_daemon_is_the_only_one_tried() {
    let (run, action) = DaemonSpawn::begin(Some("custom".to_string()));
    assert!(matches!(&action, SpawnAction::SpawnExecutable(path) if path == "custom"));
    let (_, action) = run.spawn_daemon_process(SpawnEvent::Executable(Err(
        SpawnFailure::Arguments("peer listener requires an identity store.".to_string()),
    )));
    assert!(matches!(
        &action,
        SpawnAction::Finish(Err(message)) if message == "peer listener requires an identity store."
    ));
    let (run, _) = DaemonSpawn::begin(Some("custom".to_string()));
    let (_, action) = run.spawn_daemon_process(SpawnEvent::Executable(Ok(())));
    assert!(matches!(action, SpawnAction::Finish(Ok(SpawnedProcess::Os))));

    assert_eq!(
        resolve_adjacent_daemon_executable(Err("denied".to_string()), false),
        Err("failed to locate the Akraz app executable: denied".to_string())
    );
    assert_eq!(
        resolve_adjacent_daemon_executable(Ok(None), true),
        Err("failed to locate the Akraz app executable directory.".to_string())
    );
}

#[test]
fn the_known_process_is_forgotten_when_it_has_ended() {
    let child = |pid: u32| ManagedDaemonChild { pid, handle: () };
    let mut state = DaemonProcessState::new();
    assert_eq!(state.managed_daemon_pid(true), None);
    assert_eq!(state.store_managed_child(child(1), false), StoreOutcome::Stored { pid: 1 });
    assert_eq!(state.managed_daemon_pid(true), Some(1));
    assert_eq!(
        state.store_managed_child(child(2), true),
        StoreOutcome::Superseded { child: child(2), existing_pid: 1 }
    );
    assert_eq!(state.store_managed_child(child(3), false), StoreOutcome::Stored { pid: 3 });
    state.clear_managed_child_if_pid(1);
    assert_eq!(state.managed_daemon_pid(true), Some(3));
    state.clear_managed_child_if_pid(3);
    assert_eq!(state.managed_daemon_pid(true), None);
    state.store_managed_child(child(4), false);
    assert_eq!(state.managed_daemon_pid(false), None);
    assert_eq!(state.child, None);
    state.store_managed_child(child(5), false);
    assert_eq!(state.take_managed_child(true), Some(child(5)));
    state.store_managed_child(child(6), false);
    assert_eq!(state.take_managed_child(false), None);
    assert_eq!(state.child, None);
    state.store_managed_child(child(7), false);
    state.clear_managed_child();
    assert_eq!(state.child, None);
}

fn permissions() -> PermissionsProbe {
    PermissionsProbe {
        adapter_name: "fake".to_string(),
        capabilities: IpcPlatformCapabilities {
            can_capture_pointer: true,
            can_capture_keyboard: true,
            can_inject_pointer: true,
            can_inject_keyboard: true,
        },
        issues: Vec::new(),
    }
}

#[test]
fn diagnostics_need_a_status_and_permissions_and_nothing_else() {
    let (run, first) = DiagnosticsRun::begin();
    assert!(matches!(first, DiagnosticsAction::AskStatus));
    let (run, _) = run
        .call_daemon_diagnostics_snapshot(DiagnosticsEvent::Status(Ok((status_fixture(), 10))));
    let (run, _) = run
        .call_daemon_diagnostics_snapshot(DiagnosticsEvent::Permissions(Ok((permissions(), 20))));
    let (run, _) = run
        .call_daemon_diagnostics_snapshot(DiagnosticsEvent::Topology(Err("no screens".to_string())));
    let (_, last) = run
        .call_daemon_diagnostics_snapshot(DiagnosticsEvent::Keyboard(Ok((keyboard_layout(), 40))));
    match last {
        DiagnosticsAction::Finish(Ok(parts)) => {
            assert_eq!(parts.status, status_fixture());
            assert_eq!(parts.permissions, permissions());
            assert_eq!(parts.screen_topology, None);
            assert_eq!(parts.keyboard_layout, Some(keyboard_layout()));
            assert_eq!(parts.latency_samples, vec![10, 20, 40]);
        }
        _ => panic!("expected parts"),
    }

    let (run, _) = DiagnosticsRun::begin();
    let (_, last) =
        run.call_daemon_diagnostics_snapshot(DiagnosticsEvent::Status(Err("down".to_string())));
    assert!(matches!(&last, DiagnosticsAction::Finish(Err(message)) if message == "down"));
}

fn ended(action: TryoutAction) -> (Option<DaemonLifecycleSmokeReport>, Result<(), String>) {
    match action {
        TryoutAction::Finish { report, result } => (report, result),
        _ => panic!("expected the try to end"),
    }
}

#[test]
fn a_try_starts_asks_and_stops() {
    let (mut run, first) = Tryout::begin(true);
    assert!(matches!(first, TryoutAction::Refresh));
    assert!(matches!(
        run.run_daemon_smoke(TryoutEvent::Refreshed(Ok(DaemonLifecycleSnapshot::not_running("none")))),
        TryoutAction::TrySettings
    ));
    let start = run.run_daemon_smoke(TryoutEvent::Settings(Ok((
        settings_start_smoke_settings(),
        settings_start_smoke_settings(),
    ))));
    match start {
        TryoutAction::Start(options) => {
            assert_eq!(options, DaemonStartOptions::from(settings_start_smoke_settings()))
        }
        _ => panic!("expected a start"),
    }
    assert!(matches!(
        run.run_daemon_smoke(TryoutEvent::Started(Ok(DaemonLifecycleSnapshot::running(
            status_fixture(),
            Some(1)
        )))),
        TryoutAction::Probe
    ));
    assert!(matches!(
        run.run_daemon_smoke(TryoutEvent::Probed(Ok(permissions()))),
        TryoutAction::Stop
    ));
    let (report, result) = ended(run.run_daemon_smoke(TryoutEvent::Stopped(Ok(
        DaemonStopOutcome::graceful(
            DaemonLifecycleSnapshot::not_running("Akraz stopped."),
            shutdown_fixture(),
        ),
    ))));
    assert_eq!(result, Ok(()));
    let line = to_json_line(&report.expect("report")).expect("line");
    let value: serde_json::Value = serde_json::from_str(&line).expect("JSON");
    assert_eq!(value["settings"]["edgeBindings"][0]["localEdge"], "right");
    assert_eq!(value["settings"]["manualPeerAddresses"][0]["address"], "127.0.0.1:4455");
    assert_eq!(value["permissions"]["adapterName"], "fake");
}

#[test]
fn tries_that_go_wrong_say_how() {
    let running = || DaemonLifecycleSnapshot::running(status_fixture(), None);
    let none = || DaemonLifecycleSnapshot::not_running("none");

    let (mut run, _) = Tryout::begin(false);
    let (report, result) = ended(run.run_daemon_smoke(TryoutEvent::Refreshed(Ok(running()))));
    assert!(report.is_some());
    assert_eq!(
        result,
        Err("daemon lifecycle smoke requires no existing daemon, but initial phase was Running"
            .to_string())
    );

    let (mut run, _) = Tryout::begin(true);
    run.run_daemon_smoke(TryoutEvent::Refreshed(Ok(none())));
    let (report, result) = ended(run.run_daemon_smoke(TryoutEvent::Settings(Ok((
        settings_start_smoke_settings(),
        AppSettings::default(),
    )))));
    assert_eq!(report.expect("report").settings, Some(AppSettings::default()));
    assert_eq!(
        result,
        Err("daemon settings smoke loaded settings did not match saved settings.".to_string())
    );

    let (mut run, _) = Tryout::begin(false);
    run.run_daemon_smoke(TryoutEvent::Refreshed(Ok(none())));
    assert!(matches!(
        run.run_daemon_smoke(TryoutEvent::Started(Ok(DaemonLifecycleSnapshot::failed("no file")))),
        TryoutAction::Stop
    ));
    let (report, result) =
        ended(run.run_daemon_smoke(TryoutEvent::Stopped(Ok(DaemonStopOutcome::unmanaged(none())))));
    assert!(report.is_some());
    assert_eq!(
        result,
        Err("daemon lifecycle smoke expected running after start, got Failed".to_string())
    );

    let (mut run, _) = Tryout::begin(false);
    run.run_daemon_smoke(TryoutEvent::Refreshed(Ok(none())));
    run.run_daemon_smoke(TryoutEvent::Started(Ok(running())));
    run.run_daemon_smoke(TryoutEvent::Probed(Err("denied".to_string())));
    let (report, result) =
        ended(run.run_daemon_smoke(TryoutEvent::Stopped(Err("no state".to_string()))));
    assert!(report.is_some());
    assert_eq!(result, Err("no state".to_string()));

    let (mut run, _) = Tryout::begin(false);
    run.run_daemon_smoke(TryoutEvent::Refreshed(Ok(none())));
    run.run_daemon_smoke(TryoutEvent::Started(Ok(running())));
    run.run_daemon_smoke(TryoutEvent::Probed(Err("denied".to_string())));
    let (_, result) =
        ended(run.run_daemon_smoke(TryoutEvent::Stopped(Ok(DaemonStopOutcome::unmanaged(none())))));
    assert_eq!(result, Err("daemon smoke permissions probe failed: denied".to_string()));

    let (mut run, _) = Tryout::begin(true);
    run.run_daemon_smoke(TryoutEvent::Refreshed(Ok(none())));
    run.run_daemon_smoke(TryoutEvent::Settings(Ok((AppSettings::default(), AppSettings::default()))));
    run.run_daemon_smoke(TryoutEvent::Started(Ok(running())));
    run.run_daemon_smoke(TryoutEvent::Probed(Ok(permissions())));
    let (report, result) = ended(
        run.run_daemon_smoke(TryoutEvent::Stopped(Ok(DaemonStopOutcome::unmanaged(running())))),
    );
    assert!(report.is_some());
    assert_eq!(
        result,
        Err("daemon settings smoke expected daemon to stop, but it is still running.".to_string())
    );
}
