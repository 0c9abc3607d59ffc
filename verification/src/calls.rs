//! The desktop application's calls to the daemon.

use vstd::prelude::*;

use crate::endpoint::{IpcTransportError, LocalIpcClient};
use crate::json::{JsonModel, ToJson};
use crate::lifecycle::{classify_daemon_call_error, DaemonCallFailure, LOCAL_REQUEST_ID};
use crate::rpc::{
    call_json_rpc, IpcCallError, JsonRpcRequest, METHOD_DAEMON_LOGS_TAIL, METHOD_DAEMON_SHUTDOWN,
    METHOD_DAEMON_STATUS, METHOD_DIAGNOSTICS_KEYBOARD_LAYOUT, METHOD_DIAGNOSTICS_SCREEN_TOPOLOGY,
    METHOD_INPUT_RELEASE_ALL, METHOD_PERMISSIONS_PROBE, METHOD_SESSION_CONNECT,
    METHOD_SESSION_DISCONNECT,
};
use crate::settings::SessionConnectOptions;
use crate::snapshot::{
    DaemonLogsTailParams, DaemonShutdownParams, DaemonStatusParams, DiagnosticsKeyboardLayoutParams,
    DiagnosticsScreenTopologyParams, InputReleaseAllParams, PermissionsProbeParams,
    SessionConnectParams, SessionDisconnectParams,
};

verus! {

/// What the application asks of the daemon.
#[derive(Debug, PartialEq, Eq)]
pub enum DaemonCall {
    Status,
    Shutdown,
    PermissionsProbe,
    ScreenTopology,
    KeyboardLayout,
    LogsTail,
    SessionConnect { options: SessionConnectOptions },
    SessionDisconnect,
    InputReleaseAll,
}

impl DaemonCall {
    /// The method that is called.
    pub open spec fn method(&self) -> Seq<char> {
        match self {
            DaemonCall::Status => METHOD_DAEMON_STATUS@,
            DaemonCall::Shutdown => METHOD_DAEMON_SHUTDOWN@,
            DaemonCall::PermissionsProbe => METHOD_PERMISSIONS_PROBE@,
            DaemonCall::ScreenTopology => METHOD_DIAGNOSTICS_SCREEN_TOPOLOGY@,
            DaemonCall::KeyboardLayout => METHOD_DIAGNOSTICS_KEYBOARD_LAYOUT@,
            DaemonCall::LogsTail => METHOD_DAEMON_LOGS_TAIL@,
            DaemonCall::SessionConnect { .. } => METHOD_SESSION_CONNECT@,
            DaemonCall::SessionDisconnect => METHOD_SESSION_DISCONNECT@,
            DaemonCall::InputReleaseAll => METHOD_INPUT_RELEASE_ALL@,
        }
    }

    /// What the method is called with.
    pub open spec fn params(&self) -> JsonModel {
        match self {
            DaemonCall::SessionConnect { options } => JsonModel::Object(
                seq![
                    ("peerId"@, JsonModel::Text(options.peer_id@)),
                    ("localDeviceId"@, JsonModel::Text(options.local_device_id@)),
                    ("address"@, JsonModel::Text(options.address@)),
                ],
            ),
            DaemonCall::LogsTail => JsonModel::Object(seq![("limit"@, JsonModel::Null)]),
            _ => JsonModel::Object(Seq::empty()),
        }
    }

    /// The request line.
    pub open spec fn line(&self) -> Seq<char> {
        crate::json::json_text(
            JsonModel::Object(
                seq![
                    ("jsonrpc"@, JsonModel::Text(crate::rpc::JSONRPC_VERSION@)),
                    ("id"@, JsonModel::Text(LOCAL_REQUEST_ID@)),
                    ("method"@, JsonModel::Text(self.method())),
                    ("params"@, self.params()),
                ],
            ),
        ).push('\n')
    }

    /// How the answer is called where it cannot be read.
    pub fn label(&self) -> (result: &'static str)
        ensures
            result@ == (match self {
                DaemonCall::Status => "status"@,
                DaemonCall::Shutdown => "daemon shutdown"@,
                DaemonCall::PermissionsProbe => "permissions probe"@,
                DaemonCall::ScreenTopology => "screen topology"@,
                DaemonCall::KeyboardLayout => "keyboard layout"@,
                DaemonCall::LogsTail => "daemon logs tail"@,
                DaemonCall::SessionConnect { .. } => "session connect"@,
                DaemonCall::SessionDisconnect => "session disconnect"@,
                DaemonCall::InputReleaseAll => "input release all"@,
            }),
    {
        match self {
            DaemonCall::Status => "status",
            DaemonCall::Shutdown => "daemon shutdown",
            DaemonCall::PermissionsProbe => "permissions probe",
            DaemonCall::ScreenTopology => "screen topology",
            DaemonCall::KeyboardLayout => "keyboard layout",
            DaemonCall::LogsTail => "daemon logs tail",
            DaemonCall::SessionConnect { .. } => "session connect",
            DaemonCall::SessionDisconnect => "session disconnect",
            DaemonCall::InputReleaseAll => "input release all",
        }
    }
}

/// What sending a line comes to: the line that answers it, or what its failure tells of the daemon.
pub open spec fn line_called<C: LocalIpcClient>(
    before: C,
    line: Seq<char>,
    result: Result<String, DaemonCallFailure>,
    after: C,
) -> bool {
    match result {
        Ok(answer) => C::gets(before, line, Ok::<String, IpcTransportError>(answer), after),
        Err(failure) => exists|
            error: IpcTransportError,
            endpoint: crate::endpoint::IpcEndpoint,
        | #[trigger]
            C::gets(before, line, Err::<String, IpcTransportError>(error), after) && #[trigger]
            after.calls(endpoint) && crate::lifecycle::call_failure_told(
                IpcCallError::Transport { source: error },
                endpoint,
                failure,
            ),
    }
}

/// Send one request to the daemon.
fn call_with<C: LocalIpcClient, P: ToJson>(client: &mut C, method: &str, params: P) -> (result: Result<
    String,
    DaemonCallFailure,
>)
    ensures
        line_called(
            *old(client),
            crate::json::json_text(
                JsonModel::Object(
                    seq![
                        ("jsonrpc"@, JsonModel::Text(crate::rpc::JSONRPC_VERSION@)),
                        ("id"@, JsonModel::Text(LOCAL_REQUEST_ID@)),
                        ("method"@, JsonModel::Text(method@)),
                        ("params"@, params.json()),
                    ],
                ),
            ).push('\n'),
            result,
            *final(client),
        ),
{
    match call_json_rpc(client, &JsonRpcRequest::new(LOCAL_REQUEST_ID, method, params)) {
        Ok(answer) => Ok(answer),
        Err(error) => {
            let endpoint = client.endpoint();
            assert(client.calls(*endpoint));
            Err(classify_daemon_call_error(&error, endpoint))
        },
    }
}

/// Call the daemon.
pub fn call_daemon_json_rpc<C: LocalIpcClient>(client: &mut C, call: &DaemonCall) -> (result: Result<
    String,
    DaemonCallFailure,
>)
    ensures
        line_called(*old(client), call.line(), result, *final(client)),
{
    match call {
        DaemonCall::Status => call_with(client, METHOD_DAEMON_STATUS, DaemonStatusParams::default()),
        DaemonCall::Shutdown => call_with(
            client,
            METHOD_DAEMON_SHUTDOWN,
            DaemonShutdownParams::default(),
        ),
        DaemonCall::PermissionsProbe => call_with(
            client,
            METHOD_PERMISSIONS_PROBE,
            PermissionsProbeParams::default(),
        ),
        DaemonCall::ScreenTopology => call_with(
            client,
            METHOD_DIAGNOSTICS_SCREEN_TOPOLOGY,
            DiagnosticsScreenTopologyParams::default(),
        ),
        DaemonCall::KeyboardLayout => call_with(
            client,
            METHOD_DIAGNOSTICS_KEYBOARD_LAYOUT,
            DiagnosticsKeyboardLayoutParams::default(),
        ),
        DaemonCall::LogsTail => call_with(
            client,
            METHOD_DAEMON_LOGS_TAIL,
            DaemonLogsTailParams::default(),
        ),
        DaemonCall::SessionConnect { options } => call_with(
            client,
            METHOD_SESSION_CONNECT,
            SessionConnectParams {
                peer_id: options.peer_id.clone(),
                local_device_id: options.local_device_id.clone(),
                address: options.address.clone(),
            },
        ),
        DaemonCall::SessionDisconnect => call_with(
            client,
            METHOD_SESSION_DISCONNECT,
            SessionDisconnectParams::default(),
        ),
        DaemonCall::InputReleaseAll => call_with(
            client,
            METHOD_INPUT_RELEASE_ALL,
            InputReleaseAllParams::default(),
        ),
    }
}

/// A call asks the daemon for what it is named after, under the application's id and with the
/// parameters that it carries.
pub proof fn a_call_asks_for_what_it_is_named_after<C: LocalIpcClient>(
    client: &mut C,
    call: DaemonCall,
    result: Result<String, DaemonCallFailure>,
    name: Seq<char>,
)
    requires
        call_ensures(call_daemon_json_rpc::<C>, (client, &call), result),
        call is Status ==> name == "daemon.status"@,
        call is Shutdown ==> name == "daemon.shutdown"@,
        call is PermissionsProbe ==> name == "permissions.probe"@,
        call is ScreenTopology ==> name == "diagnostics.screenTopology"@,
        call is KeyboardLayout ==> name == "diagnostics.keyboardLayout"@,
        call is LogsTail ==> name == "daemon.logs.tail"@,
        call is SessionConnect ==> name == "session.connect"@,
        call is SessionDisconnect ==> name == "session.disconnect"@,
        call is InputReleaseAll ==> name == "input.releaseAll"@,
    ensures
        exists|asked: JsonModel, params: JsonModel, answer: Result<String, IpcTransportError>| {
            &&& #[trigger] C::gets(
                *old(client),
                crate::json::json_text(asked).push('\n'),
                answer,
                *final(client),
            )
            &&& crate::snapshot::says(asked, 4, "jsonrpc"@, JsonModel::Text("2.0"@))
            &&& crate::snapshot::says(asked, 4, "id"@, JsonModel::Text("tauri"@))
            &&& crate::snapshot::says(asked, 4, "method"@, JsonModel::Text(name))
            &&& #[trigger] crate::snapshot::says(asked, 4, "params"@, params)
            &&& call matches DaemonCall::SessionConnect { options } ==> {
                &&& crate::snapshot::says(params, 3, "peerId"@, JsonModel::Text(options.peer_id@))
                &&& crate::snapshot::says(
                    params,
                    3,
                    "localDeviceId"@,
                    JsonModel::Text(options.local_device_id@),
                )
                &&& crate::snapshot::says(params, 3, "address"@, JsonModel::Text(options.address@))
            }
            &&& answer is Ok <==> result is Ok
            &&& answer matches Ok(line) ==> result->Ok_0 == line
            &&& answer matches Err(error) ==> {
                &&& error is EndpointUnavailable <==> result->Err_0 is NotRunning
                &&& error is RequestFailed <==> result->Err_0 is Unreachable
            }
        },
{
    let asked = JsonModel::Object(
        seq![
            ("jsonrpc"@, JsonModel::Text(crate::rpc::JSONRPC_VERSION@)),
            ("id"@, JsonModel::Text(LOCAL_REQUEST_ID@)),
            ("method"@, JsonModel::Text(call.method())),
            ("params"@, call.params()),
        ],
    );
    let params = call.params();
    let members = asked->Object_0;
    assert(members[0] == ("jsonrpc"@, JsonModel::Text("2.0"@)));
    assert(members[1] == ("id"@, JsonModel::Text("tauri"@)));
    assert(members[2] == ("method"@, JsonModel::Text(name)));
    assert(members[3] == ("params"@, params));
    if let DaemonCall::SessionConnect { options } = call {
        let fields = params->Object_0;
        assert(fields[0] == ("peerId"@, JsonModel::Text(options.peer_id@)));
        assert(fields[1] == ("localDeviceId"@, JsonModel::Text(options.local_device_id@)));
        assert(fields[2] == ("address"@, JsonModel::Text(options.address@)));
    }
    assert(crate::snapshot::says(asked, 4, "params"@, params));
    match result {
        Ok(line) => {
            assert(C::gets(
                *old(client),
                crate::json::json_text(asked).push('\n'),
                Ok::<String, IpcTransportError>(line),
                *final(client),
            ));
        },
        Err(failure) => {
            let (error, endpoint) = choose|
                error: IpcTransportError,
                endpoint: crate::endpoint::IpcEndpoint,
            | #[trigger]
                C::gets(
                    *old(client),
                    call.line(),
                    Err::<String, IpcTransportError>(error),
                    *final(client),
                ) && #[trigger] (*final(client)).calls(endpoint)
                    && crate::lifecycle::call_failure_told(
                    IpcCallError::Transport { source: error },
                    endpoint,
                    failure,
                );
            assert(C::gets(
                *old(client),
                crate::json::json_text(asked).push('\n'),
                Err::<String, IpcTransportError>(error),
                *final(client),
            ));
        },
    }
}

/// A call is spoken of by its own name.
pub proof fn calls_are_spoken_of_by_name(call: DaemonCall, label: &'static str)
    requires
        call_ensures(DaemonCall::label, (&call,), label),
    ensures
        call is Status ==> label@ == "status"@,
        call is Shutdown ==> label@ == "daemon shutdown"@,
        call is PermissionsProbe ==> label@ == "permissions probe"@,
        call is ScreenTopology ==> label@ == "screen topology"@,
        call is KeyboardLayout ==> label@ == "keyboard layout"@,
        call is LogsTail ==> label@ == "daemon logs tail"@,
        call is SessionConnect ==> label@ == "session connect"@,
        call is SessionDisconnect ==> label@ == "session disconnect"@,
        call is InputReleaseAll ==> label@ == "input release all"@,
{
}

} // verus!
