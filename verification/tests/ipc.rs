//! The control channel: endpoints, envelopes and the lines that carry them.

use akraz::endpoint::{
    accept_ipc_line, format_daemon_ipc_error, resolve_default_endpoint, InProcessIpcClient,
    IpcEndpoint, IpcEndpointEnvironment, IpcEndpointError, IpcEndpointKind, IpcOperatingSystem,
    IpcTransportError, LocalIpcClient, LocalIpcServer,
};
use akraz::json::JsonValue;
use akraz::rpc::{
    call_json_rpc, parse_logs_tail_params, parse_request_line, to_json_line, IpcRequest, JsonRpcError, JsonRpcFailure,
    JsonRpcRequest, JsonRpcSuccess, JSONRPC_ERROR_INVALID_PARAMS, JSONRPC_ERROR_INVALID_REQUEST,
    JSONRPC_ERROR_METHOD_NOT_FOUND, JSONRPC_ERROR_PARSE, METHOD_DAEMON_LOGS_TAIL,
    METHOD_DAEMON_STATUS, METHOD_DIAGNOSTICS_SCREEN_TOPOLOGY, METHOD_INPUT_RELEASE_ALL,
    METHOD_SESSION_CONNECT, METHOD_SESSION_DISCONNECT,
};
use akraz::snapshot::{
    ControlModeSnapshot, DaemonLogsTailParams, DaemonStatus, DaemonStatusParams,
    DiagnosticsScreenTopology, DiagnosticsScreenTopologyParams, InputReleaseAllParams,
    IpcPlatformCapabilities, LogicalPointSnapshot, LogicalRectSnapshot, ProtocolVersionSnapshot,
    SessionConnectParams, SessionConnectResult, SessionDisconnectParams, SessionDisconnectResult,
    SessionStatus,
};

struct EchoServer;

impl LocalIpcServer for EchoServer {
    fn handle_request_line(&mut self, request_line: &str) -> Result<String, IpcTransportError> {
        Ok(format!("handled:{request_line}"))
    }
}

struct FailingServer;

impl LocalIpcServer for FailingServer {
    fn handle_request_line(&mut self, _request_line: &str) -> Result<String, IpcTransportError> {
        Err(IpcTransportError::request_failed("server unavailable"))
    }
}

fn json(text: &str) -> serde_json::Value {
    match serde_json::from_str(text) {
        Ok(value) => value,
        Err(error) => panic!("expected valid JSON: {error}"),
    }
}

fn endpoint(address: &str) -> IpcEndpoint {
    match IpcEndpoint::manual(address) {
        Ok(endpoint) => endpoint,
        Err(error) => panic!("expected endpoint: {}", error.message()),
    }
}

fn connect_params() -> SessionConnectParams {
    SessionConnectParams {
        peer_id: "linux-laptop".to_string(),
        local_device_id: "windows-desktop".to_string(),
        address: "127.0.0.1:24888".to_string(),
    }
}

#[test]
fn daemon_status_request_uses_json_rpc_envelope() {
    let request =
        JsonRpcRequest::new("req_1", METHOD_DAEMON_STATUS, DaemonStatusParams::default());
    let line = match to_json_line(&request) {
        Ok(line) => line,
        Err(error) => panic!("expected request serialization: {}", error.message()),
    };

    assert_eq!(
        json(&line),
        json(r#"{"jsonrpc": "2.0", "id": "req_1", "method": "daemon.status", "params": {}}"#)
    );
    assert!(line.ends_with('\n'));
}

#[test]
fn daemon_status_response_uses_camel_case_contract() {
    let status = DaemonStatus {
        daemon_version: "0.1.0".to_string(),
        mode: ControlModeSnapshot::Local,
        protocol: ProtocolVersionSnapshot { major: 1, minor: 0 },
        peers: Vec::new(),
        capabilities: IpcPlatformCapabilities {
            can_capture_pointer: true,
            can_capture_keyboard: true,
            can_inject_pointer: true,
            can_inject_keyboard: true,
        },
    };
    let response = JsonRpcSuccess::new("req_1", status);
    let line = match to_json_line(&response) {
        Ok(line) => line,
        Err(error) => panic!("expected response serialization: {}", error.message()),
    };

    assert_eq!(
        json(&line),
        json(
            r#"{
                "jsonrpc": "2.0",
                "id": "req_1",
                "result": {
                    "daemonVersion": "0.1.0",
                    "mode": "Local",
                    "protocol": { "major": 1, "minor": 0 },
                    "peers": [],
                    "capabilities": {
                        "canCapturePointer": true,
                        "canCaptureKeyboard": true,
                        "canInjectPointer": true,
                        "canInjectKeyboard": true
                    }
                }
            }"#
        )
    );
}

#[test]
fn diagnostics_screen_topology_response_uses_camel_case_contract() {
    let topology = DiagnosticsScreenTopology {
        pointer_position: LogicalPointSnapshot { x: 1919, y: 540 },
        virtual_screen_bounds: LogicalRectSnapshot { x: -1920, y: 0, width: 3840, height: 1080 },
        monitors: Vec::new(),
    };
    let response = JsonRpcSuccess::new("req_1", topology);
    let line = match to_json_line(&response) {
        Ok(line) => line,
        Err(error) => panic!("expected response serialization: {}", error.message()),
    };

    assert_eq!(
        json(&line),
        json(
            r#"{
                "jsonrpc": "2.0",
                "id": "req_1",
                "result": {
                    "pointerPosition": { "x": 1919, "y": 540 },
                    "virtualScreenBounds": { "x": -1920, "y": 0, "width": 3840, "height": 1080 }
                }
            }"#
        )
    );
}

#[test]
fn session_connect_request_uses_camel_case_contract() {
    let request = JsonRpcRequest::new("req_1", METHOD_SESSION_CONNECT, connect_params());
    let line = match to_json_line(&request) {
        Ok(line) => line,
        Err(error) => panic!("expected request serialization: {}", error.message()),
    };

    assert_eq!(
        json(&line),
        json(
            r#"{
                "jsonrpc": "2.0",
                "id": "req_1",
                "method": "session.connect",
                "params": {
                    "peerId": "linux-laptop",
                    "localDeviceId": "windows-desktop",
                    "address": "127.0.0.1:24888"
                }
            }"#
        )
    );
}

#[test]
fn session_connect_response_uses_camel_case_contract() {
    let response = JsonRpcSuccess::new(
        "req_1",
        SessionConnectResult {
            connected: true,
            session: SessionStatus {
                peer_id: "linux-laptop".to_string(),
                local_device_id: "windows-desktop".to_string(),
                address: "127.0.0.1:24888".to_string(),
                connected: true,
            },
        },
    );
    let line = match to_json_line(&response) {
        Ok(line) => line,
        Err(error) => panic!("expected response serialization: {}", error.message()),
    };

    assert_eq!(
        json(&line),
        json(
            r#"{
                "jsonrpc": "2.0",
                "id": "req_1",
                "result": {
                    "connected": true,
                    "session": {
                        "peerId": "linux-laptop",
                        "localDeviceId": "windows-desktop",
                        "address": "127.0.0.1:24888",
                        "connected": true
                    }
                }
            }"#
        )
    );
}

#[test]
fn session_disconnect_response_uses_camel_case_contract() {
    let response = JsonRpcSuccess::new(
        "req_1",
        SessionDisconnectResult {
            disconnected: true,
            session: Some(SessionStatus {
                peer_id: "linux-laptop".to_string(),
                local_device_id: "windows-desktop".to_string(),
                address: "127.0.0.1:24888".to_string(),
                connected: false,
            }),
            mode: ControlModeSnapshot::Local,
        },
    );
    let line = match to_json_line(&response) {
        Ok(line) => line,
        Err(error) => panic!("expected response serialization: {}", error.message()),
    };

    assert_eq!(
        json(&line),
        json(
            r#"{
                "jsonrpc": "2.0",
                "id": "req_1",
                "result": {
                    "disconnected": true,
                    "session": {
                        "peerId": "linux-laptop",
                        "localDeviceId": "windows-desktop",
                        "address": "127.0.0.1:24888",
                        "connected": false
                    },
                    "mode": "Local"
                }
            }"#
        )
    );
}

#[test]
fn in_process_client_sends_request_lines_to_server() {
    let endpoint = endpoint("in-process://test");
    let mut client = InProcessIpcClient::new(endpoint.clone(), EchoServer);

    assert_eq!(client.endpoint(), &endpoint);
    assert_eq!(client.send_request_line("request\n"), Ok("handled:request\n".to_string()));
}

#[test]
fn local_json_rpc_call_encodes_request_before_transport_send() {
    let mut client = InProcessIpcClient::new(endpoint("in-process://test"), EchoServer);
    let request =
        JsonRpcRequest::new("req_1", METHOD_DAEMON_STATUS, DaemonStatusParams::default());
    let response_line = match call_json_rpc(&mut client, &request) {
        Ok(line) => line,
        Err(error) => panic!("expected local JSON-RPC response: {}", error.message()),
    };

    assert_eq!(
        json(&response_line[8..]),
        json(r#"{"jsonrpc": "2.0", "id": "req_1", "method": "daemon.status", "params": {}}"#)
    );
}

#[test]
fn local_json_rpc_call_returns_transport_failures() {
    let mut client = InProcessIpcClient::new(endpoint("in-process://test"), FailingServer);
    let request =
        JsonRpcRequest::new("req_1", METHOD_DAEMON_STATUS, DaemonStatusParams::default());

    let error = match call_json_rpc(&mut client, &request) {
        Ok(response) => panic!("expected transport error, got {response}"),
        Err(error) => error,
    };

    assert_eq!(error.message(), "IPC request failed: server unavailable");
}

#[test]
fn parses_daemon_status_request_line() {
    let request =
        || JsonRpcRequest::new("req_1", METHOD_DAEMON_STATUS, DaemonStatusParams::default());
    let line = to_json_line(&request()).expect("request serialization");

    assert_eq!(parse_request_line(&line), Ok(IpcRequest::DaemonStatus(request())));
}

#[test]
fn parses_diagnostics_screen_topology_request_line() {
    let request = || {
        JsonRpcRequest::new(
            "req_1",
            METHOD_DIAGNOSTICS_SCREEN_TOPOLOGY,
            DiagnosticsScreenTopologyParams::default(),
        )
    };
    let line = to_json_line(&request()).expect("request serialization");

    assert_eq!(parse_request_line(&line), Ok(IpcRequest::DiagnosticsScreenTopology(request())));
}

#[test]
fn parses_input_release_all_request_line() {
    let request = || {
        JsonRpcRequest::new("req_1", METHOD_INPUT_RELEASE_ALL, InputReleaseAllParams::default())
    };
    let line = to_json_line(&request()).expect("request serialization");

    assert_eq!(parse_request_line(&line), Ok(IpcRequest::InputReleaseAll(request())));
}

#[test]
fn parses_session_connect_request_line() {
    let request = || JsonRpcRequest::new("req_1", METHOD_SESSION_CONNECT, connect_params());
    let line = to_json_line(&request()).expect("request serialization");

    assert_eq!(parse_request_line(&line), Ok(IpcRequest::SessionConnect(request())));
}

#[test]
fn parses_session_disconnect_request_line() {
    let request = || {
        JsonRpcRequest::new("req_1", METHOD_SESSION_DISCONNECT, SessionDisconnectParams::default())
    };
    let line = to_json_line(&request()).expect("request serialization");

    assert_eq!(parse_request_line(&line), Ok(IpcRequest::SessionDisconnect(request())));
}

#[test]
fn log_limits_are_read_where_they_are_given() {
    let request = |limit: Option<usize>| {
        JsonRpcRequest::new("req_1", METHOD_DAEMON_LOGS_TAIL, DaemonLogsTailParams { limit })
    };
    for limit in [None, Some(0), Some(25)] {
        let line = to_json_line(&request(limit)).expect("request serialization");
        assert_eq!(parse_request_line(&line), Ok(IpcRequest::DaemonLogsTail(request(limit))));
    }
    let line = r#"{"jsonrpc":"2.0","id":"a","method":"daemon.logs.tail","params":{"limit":"x"}}"#;
    let failure = parse_request_line(line).unwrap_err();
    assert_eq!(failure.error.code, JSONRPC_ERROR_INVALID_PARAMS);
    assert_eq!(
        failure.error.message,
        "invalid params for daemon.logs.tail: invalid type: string \"x\", expected usize"
    );
}

#[test]
fn log_limits_are_whole_numbers_that_the_machine_counts_to() {
    let asked = |limit: JsonValue| {
        let params = JsonValue::Object(vec![("limit".to_string(), limit)]);
        match parse_logs_tail_params(&params) {
            Ok(params) => Ok(params.limit),
            Err(reason) => Err(reason),
        }
    };
    assert_eq!(asked(JsonValue::Null), Ok(None));
    assert_eq!(asked(JsonValue::Unsigned(7)), Ok(Some(7)));
    assert_eq!(asked(JsonValue::Negative(7)), Ok(Some(7)));
    assert_eq!(asked(JsonValue::Fraction("7".to_string())), Ok(Some(7)));
    assert_eq!(
        asked(JsonValue::Negative(-7)),
        Err("invalid value: integer `-7`, expected usize".to_string())
    );
    assert_eq!(
        asked(JsonValue::Fraction("1.5".to_string())),
        Err("invalid type: floating point `1.5`, expected usize".to_string())
    );
    assert_eq!(
        asked(JsonValue::Bool(true)),
        Err("invalid type: boolean `true`, expected usize".to_string())
    );
}

#[test]
fn malformed_request_line_returns_parse_error() {
    assert_eq!(
        parse_request_line("{not json"),
        Err(JsonRpcFailure::new(None, JsonRpcError::new(JSONRPC_ERROR_PARSE, "parse error")))
    );
}

#[test]
fn lines_that_are_no_request_return_invalid_request() {
    for line in ["[]", "7", r#"{"jsonrpc":"2.0"}"#] {
        let failure = parse_request_line(line).unwrap_err();
        assert_eq!(failure.error.code, JSONRPC_ERROR_INVALID_REQUEST);
    }
    let failure =
        parse_request_line(r#"{"jsonrpc":"1.0","id":"a","method":"daemon.status","params":{}}"#)
            .unwrap_err();
    assert_eq!(failure.error.code, JSONRPC_ERROR_INVALID_REQUEST);
    assert_eq!(failure.id, Some("a".to_string()));
}

#[test]
fn unknown_request_method_returns_method_not_found() {
    let line = r#"{"jsonrpc":"2.0","id":"req_1","method":"daemon.nope","params":{}}"#;

    assert_eq!(
        parse_request_line(line),
        Err(JsonRpcFailure::new(
            Some("req_1".to_string()),
            JsonRpcError::new(JSONRPC_ERROR_METHOD_NOT_FOUND, "method not found: daemon.nope")
        ))
    );
}

#[test]
fn invalid_request_params_return_invalid_params() {
    let line = r#"{"jsonrpc":"2.0","id":"req_1","method":"daemon.status","params":[]}"#;
    let failure = match parse_request_line(line) {
        Ok(request) => panic!("expected invalid params failure, got {request:?}"),
        Err(failure) => failure,
    };

    assert_eq!(failure.id, Some("req_1".to_string()));
    assert_eq!(failure.error.code, JSONRPC_ERROR_INVALID_PARAMS);
    assert!(failure.error.message.starts_with("invalid params for daemon.status:"));
}

#[test]
fn connect_params_must_be_texts() {
    let line = r#"{"jsonrpc":"2.0","id":"a","method":"session.connect","params":{"peerId":7,"localDeviceId":"b","address":"c"}}"#;
    let failure = parse_request_line(line).unwrap_err();
    assert_eq!(failure.error.code, JSONRPC_ERROR_INVALID_PARAMS);
    assert_eq!(
        failure.error.message,
        "invalid params for session.connect: invalid type: integer `7`, expected a string"
    );
    let line = r#"{"jsonrpc":"2.0","id":"a","method":"session.connect","params":{"peerId":"a","localDeviceId":"b"}}"#;
    let failure = parse_request_line(line).unwrap_err();
    assert_eq!(
        failure.error.message,
        "invalid params for session.connect: missing field `address`"
    );
}

#[test]
fn resolves_windows_named_pipe_endpoint() {
    let endpoint = resolve_default_endpoint(&IpcEndpointEnvironment {
        operating_system: Some(IpcOperatingSystem::Windows),
        user_id: Some("S-1-5-21-1000".to_string()),
        ..Default::default()
    });

    assert_eq!(
        endpoint,
        Ok(IpcEndpoint {
            kind: IpcEndpointKind::WindowsNamedPipe,
            address: r"\\.\pipe\akrazd-S-1-5-21-1000".to_string(),
        })
    );
}

#[test]
fn resolves_linux_unix_socket_endpoint() {
    let endpoint = resolve_default_endpoint(&IpcEndpointEnvironment {
        operating_system: Some(IpcOperatingSystem::Linux),
        xdg_runtime_dir: Some("/run/user/1000".to_string()),
        ..Default::default()
    });

    assert_eq!(
        endpoint,
        Ok(IpcEndpoint {
            kind: IpcEndpointKind::UnixSocket,
            address: "/run/user/1000/akraz/akrazd.sock".to_string(),
        })
    );
}

#[test]
fn resolves_macos_unix_socket_endpoint() {
    let endpoint = resolve_default_endpoint(&IpcEndpointEnvironment {
        operating_system: Some(IpcOperatingSystem::Macos),
        home_dir: Some("/Users/cherry".to_string()),
        ..Default::default()
    });

    assert_eq!(
        endpoint,
        Ok(IpcEndpoint {
            kind: IpcEndpointKind::UnixSocket,
            address: "/Users/cherry/Library/Application Support/Akraz/akrazd.sock".to_string(),
        })
    );
}

#[test]
fn endpoint_resolution_reports_missing_required_facts() {
    assert_eq!(
        resolve_default_endpoint(&IpcEndpointEnvironment {
            operating_system: Some(IpcOperatingSystem::Windows),
            ..Default::default()
        }),
        Err(IpcEndpointError::MissingUserId)
    );
    assert_eq!(
        resolve_default_endpoint(&IpcEndpointEnvironment {
            operating_system: Some(IpcOperatingSystem::Linux),
            ..Default::default()
        }),
        Err(IpcEndpointError::MissingXdgRuntimeDir)
    );
    assert_eq!(
        resolve_default_endpoint(&IpcEndpointEnvironment {
            operating_system: Some(IpcOperatingSystem::Macos),
            ..Default::default()
        }),
        Err(IpcEndpointError::MissingHomeDir)
    );
    assert_eq!(
        resolve_default_endpoint(&IpcEndpointEnvironment::default()),
        Err(IpcEndpointError::UnsupportedOperatingSystem)
    );
    assert_eq!(
        resolve_default_endpoint(&IpcEndpointEnvironment {
            operating_system: Some(IpcOperatingSystem::Windows),
            user_id: Some(" ".to_string()),
            ..Default::default()
        }),
        Err(IpcEndpointError::EmptyValue { field: "user_id" })
    );
}

#[test]
fn daemon_ipc_error_reports_unavailable_endpoint_with_lifecycle_hint() {
    let error =
        IpcTransportError::endpoint_unavailable(endpoint("local-test"), "Access is denied.");

    assert_eq!(
        format_daemon_ipc_error(&error),
        "failed to open daemon IPC endpoint at local-test. Another akraz-daemon may already be running, or the endpoint path may be unavailable. Details: Access is denied."
    );
}

#[test]
fn daemon_ipc_error_reports_request_failure_detail() {
    let error = IpcTransportError::request_failed("pipe closed before a request line");

    assert_eq!(
        format_daemon_ipc_error(&error),
        "daemon IPC request failed. Details: pipe closed before a request line"
    );
}

#[test]
fn empty_reads_are_no_lines() {
    assert_eq!(accept_ipc_line("a\n".to_string(), 2, "request"), Ok("a\n".to_string()));
    assert!(accept_ipc_line(String::new(), 0, "request").is_err());
}
