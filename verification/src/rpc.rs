//! JSON-RPC over the control channel: envelopes, requests and the errors that answer bad ones.

use vstd::prelude::*;

use crate::endpoint::{IpcTransportError, LocalIpcClient};
use crate::json::{
    decode_json, encode_json, json_number, json_optional_text, json_string, optional_count,
    text_error, JsonModel, JsonObject, JsonValue, ToJson,
};
use crate::snapshot::{
    DaemonLogsTailParams, DaemonShutdownParams, DaemonStatusParams,
    DiagnosticsKeyboardLayoutParams, DiagnosticsScreenTopologyParams, InputReleaseAllParams,
    PermissionsProbeParams, SessionConnectParams, SessionDisconnectParams,
    SessionDiscoveryCandidatesParams,
};
use crate::text::{decimal_text, same};

verus! {

/// The version that every envelope carries.
pub const JSONRPC_VERSION: &'static str = "2.0";

pub const METHOD_DAEMON_STATUS: &'static str = "daemon.status";

pub const METHOD_PERMISSIONS_PROBE: &'static str = "permissions.probe";

pub const METHOD_DIAGNOSTICS_SCREEN_TOPOLOGY: &'static str = "diagnostics.screenTopology";

pub const METHOD_DIAGNOSTICS_KEYBOARD_LAYOUT: &'static str = "diagnostics.keyboardLayout";

pub const METHOD_DAEMON_LOGS_TAIL: &'static str = "daemon.logs.tail";

pub const METHOD_DAEMON_SHUTDOWN: &'static str = "daemon.shutdown";

pub const METHOD_INPUT_RELEASE_ALL: &'static str = "input.releaseAll";

pub const METHOD_SESSION_CONNECT: &'static str = "session.connect";

pub const METHOD_SESSION_DISCONNECT: &'static str = "session.disconnect";

pub const METHOD_SESSION_DISCOVERY_CANDIDATES: &'static str = "session.discoveryCandidates";

/// The line is no JSON.
pub const JSONRPC_ERROR_PARSE: i32 = -32700;

/// The JSON is no request.
pub const JSONRPC_ERROR_INVALID_REQUEST: i32 = -32600;

/// The request names no method of the daemon.
pub const JSONRPC_ERROR_METHOD_NOT_FOUND: i32 = -32601;

/// The method does not take these parameters.
pub const JSONRPC_ERROR_INVALID_PARAMS: i32 = -32602;

/// A request envelope.
#[derive(Debug, PartialEq, Eq)]
pub struct JsonRpcRequest<P> {
    pub jsonrpc: String,
    pub id: String,
    pub method: String,
    pub params: P,
}

impl<P> JsonRpcRequest<P> {
    pub fn new(id: &str, method: &str, params: P) -> (result: Self)
        ensures
            result.jsonrpc@ == JSONRPC_VERSION@,
            result.id@ == id@,
            result.method@ == method@,
            result.params == params,
    {
        JsonRpcRequest {
            jsonrpc: JSONRPC_VERSION.to_owned(),
            id: id.to_owned(),
            method: method.to_owned(),
            params,
        }
    }
}

impl<P: ToJson> ToJson for JsonRpcRequest<P> {
    open spec fn json(&self) -> JsonModel {
        JsonModel::Object(
            seq![
                ("jsonrpc"@, JsonModel::Text(self.jsonrpc@)),
                ("id"@, JsonModel::Text(self.id@)),
                ("method"@, JsonModel::Text(self.method@)),
                ("params"@, self.params.json()),
            ],
        )
    }

    fn to_json(&self) -> (result: JsonValue) {
        let result = JsonObject::new().with("jsonrpc", json_string(self.jsonrpc.as_str())).with(
            "id",
            json_string(self.id.as_str()),
        ).with("method", json_string(self.method.as_str())).with(
            "params",
            self.params.to_json(),
        ).done();
        proof {
            assert(result@->Object_0 =~= self.json()->Object_0);
        }
        result
    }
}

/// The answer to a request that was carried out.
#[derive(Debug, PartialEq, Eq)]
pub struct JsonRpcSuccess<T> {
    pub jsonrpc: String,
    pub id: String,
    pub result: T,
}

impl<T> JsonRpcSuccess<T> {
    pub fn new(id: &str, result: T) -> (success: Self)
        ensures
            success.jsonrpc@ == JSONRPC_VERSION@,
            success.id@ == id@,
            success.result == result,
    {
        JsonRpcSuccess { jsonrpc: JSONRPC_VERSION.to_owned(), id: id.to_owned(), result }
    }
}

/// What a success is written as.
pub open spec fn success_json(id: Seq<char>, result: JsonModel) -> JsonModel {
    JsonModel::Object(
        seq![
            ("jsonrpc"@, JsonModel::Text(JSONRPC_VERSION@)),
            ("id"@, JsonModel::Text(id)),
            ("result"@, result),
        ],
    )
}

impl<T: ToJson> ToJson for JsonRpcSuccess<T> {
    open spec fn json(&self) -> JsonModel {
        JsonModel::Object(
            seq![
                ("jsonrpc"@, JsonModel::Text(self.jsonrpc@)),
                ("id"@, JsonModel::Text(self.id@)),
                ("result"@, self.result.json()),
            ],
        )
    }

    fn to_json(&self) -> (result: JsonValue) {
        let result = JsonObject::new().with("jsonrpc", json_string(self.jsonrpc.as_str())).with(
            "id",
            json_string(self.id.as_str()),
        ).with("result", self.result.to_json()).done();
        proof {
            assert(result@->Object_0 =~= self.json()->Object_0);
        }
        result
    }
}

/// What went wrong with a request.
#[derive(Debug, PartialEq, Eq)]
pub struct JsonRpcError {
    pub code: i32,
    pub message: String,
}

impl JsonRpcError {
    pub fn new(code: i32, message: &str) -> (result: Self)
        ensures
            result.code == code,
            result.message@ == message@,
    {
        JsonRpcError { code, message: message.to_owned() }
    }
}

impl ToJson for JsonRpcError {
    open spec fn json(&self) -> JsonModel {
        JsonModel::Object(
            seq![
                ("code"@, crate::json::number_model(self.code as int)),
                ("message"@, JsonModel::Text(self.message@)),
            ],
        )
    }

    fn to_json(&self) -> (result: JsonValue) {
        let result = JsonObject::new().with("code", json_number(self.code)).with(
            "message",
            json_string(self.message.as_str()),
        ).done();
        proof {
            assert(result@->Object_0 =~= self.json()->Object_0);
        }
        result
    }
}

/// The answer to a request that was not carried out. The id is null where the line gives none.
#[derive(Debug, PartialEq, Eq)]
pub struct JsonRpcFailure {
    pub jsonrpc: String,
    pub id: Option<String>,
    pub error: JsonRpcError,
}

/// What a failure says.
pub struct FailureModel {
    pub id: Option<Seq<char>>,
    pub code: i32,
    pub message: Seq<char>,
}

/// An optional text as an optional sequence.
pub open spec fn optional_view(text: Option<String>) -> Option<Seq<char>> {
    match text {
        Some(text) => Some(text@),
        None => None,
    }
}

impl View for JsonRpcFailure {
    type V = FailureModel;

    open spec fn view(&self) -> FailureModel {
        FailureModel {
            id: optional_view(self.id),
            code: self.error.code,
            message: self.error.message@,
        }
    }
}

/// What a failure is written as.
pub open spec fn failure_json(failure: FailureModel) -> JsonModel {
    JsonModel::Object(
        seq![
            ("jsonrpc"@, JsonModel::Text(JSONRPC_VERSION@)),
            (
                "id"@,
                match failure.id {
                    Some(id) => JsonModel::Text(id),
                    None => JsonModel::Null,
                },
            ),
            (
                "error"@,
                JsonModel::Object(
                    seq![
                        ("code"@, crate::json::number_model(failure.code as int)),
                        ("message"@, JsonModel::Text(failure.message)),
                    ],
                ),
            ),
        ],
    )
}

impl JsonRpcFailure {
    pub fn new(id: Option<String>, error: JsonRpcError) -> (result: Self)
        ensures
            result.jsonrpc@ == JSONRPC_VERSION@,
            result.id == id,
            result.error == error,
            result.json() == failure_json(result@),
    {
        let result = JsonRpcFailure { jsonrpc: JSONRPC_VERSION.to_owned(), id, error };
        proof {
            let written = failure_json(result@)->Object_0;
            assert(result.error.json()->Object_0 =~= written[2].1->Object_0);
            assert(result.json()->Object_0 =~= written);
        }
        result
    }
}

impl ToJson for JsonRpcFailure {
    open spec fn json(&self) -> JsonModel {
        JsonModel::Object(
            seq![
                ("jsonrpc"@, JsonModel::Text(self.jsonrpc@)),
                ("id"@, crate::json::optional_text_model(self.id)),
                ("error"@, self.error.json()),
            ],
        )
    }

    fn to_json(&self) -> (result: JsonValue) {
        let result = JsonObject::new().with("jsonrpc", json_string(self.jsonrpc.as_str())).with(
            "id",
            json_optional_text(&self.id),
        ).with("error", self.error.to_json()).done();
        proof {
            assert(result@->Object_0 =~= self.json()->Object_0);
        }
        result
    }
}

/// A value could not be written.
#[derive(Debug, PartialEq, Eq)]
pub struct IpcCodecError {
    pub source: String,
}

impl IpcCodecError {
    pub open spec fn text(&self) -> Seq<char> {
        "failed to encode IPC JSON: "@ + self.source@
    }

    pub fn message(&self) -> (result: String)
        ensures
            result@ == self.text(),
    {
        "failed to encode IPC JSON: ".to_owned().concat(self.source.as_str())
    }
}

/// Write a value as one line. Every value of the control channel can be written.
pub fn to_json_line<T: ToJson>(value: &T) -> (result: Result<String, IpcCodecError>)
    ensures
        result is Ok,
        result->Ok_0@ == crate::json::json_text(value.json()).push('\n'),
        crate::json::is_plain(value.json(), 64) ==> crate::json::json_parsed(result->Ok_0@) == Ok::<
            JsonModel,
            Seq<char>,
        >(value.json()),
{
    let mut line = encode_json(&value.to_json());
    line.push('\n');
    Ok(line)
}

/// A call over the control channel failed before or in transport.
#[allow(inconsistent_fields)]
#[derive(Debug, PartialEq, Eq)]
pub enum IpcCallError {
    Encode { source: IpcCodecError },
    Transport { source: IpcTransportError },
}

impl IpcCallError {
    pub open spec fn text(&self) -> Seq<char> {
        match self {
            IpcCallError::Encode { source } => "failed to encode IPC request: "@ + source.text(),
            IpcCallError::Transport { source } => source.text(),
        }
    }

    pub fn message(&self) -> (result: String)
        ensures
            result@ == self.text(),
    {
        match self {
            IpcCallError::Encode { source } => "failed to encode IPC request: ".to_owned().concat(
                source.message().as_str(),
            ),
            IpcCallError::Transport { source } => source.message(),
        }
    }
}

/// Send one request and return the line that answers it.
pub fn call_json_rpc<C: LocalIpcClient, P: ToJson>(
    client: &mut C,
    request: &JsonRpcRequest<P>,
) -> (result: Result<String, IpcCallError>)
    ensures
        match result {
            Ok(line) => C::gets(
                *old(client),
                crate::json::json_text(request.json()).push('\n'),
                Ok::<String, IpcTransportError>(line),
                *final(client),
            ),
            Err(IpcCallError::Transport { source: error }) => C::gets(
                *old(client),
                crate::json::json_text(request.json()).push('\n'),
                Err::<String, IpcTransportError>(error),
                *final(client),
            ),
            Err(IpcCallError::Encode { .. }) => false,
        },
{
    match to_json_line(request) {
        Ok(line) => match client.send_request_line(line.as_str()) {
            Ok(answer) => Ok(answer),
            Err(error) => Err(IpcCallError::Transport { source: error }),
        },
        Err(source) => Err(IpcCallError::Encode { source }),
    }
}

/// The methods of the daemon.
#[derive(Debug, Clone, Copy, PartialEq, Eq, Structural)]
pub enum IpcMethod {
    DaemonStatus,
    PermissionsProbe,
    DiagnosticsScreenTopology,
    DiagnosticsKeyboardLayout,
    DaemonLogsTail,
    DaemonShutdown,
    InputReleaseAll,
    SessionConnect,
    SessionDisconnect,
    SessionDiscoveryCandidates,
}

/// A method's name.
pub open spec fn method_name(method: IpcMethod) -> Seq<char> {
    match method {
        IpcMethod::DaemonStatus => METHOD_DAEMON_STATUS@,
        IpcMethod::PermissionsProbe => METHOD_PERMISSIONS_PROBE@,
        IpcMethod::DiagnosticsScreenTopology => METHOD_DIAGNOSTICS_SCREEN_TOPOLOGY@,
        IpcMethod::DiagnosticsKeyboardLayout => METHOD_DIAGNOSTICS_KEYBOARD_LAYOUT@,
        IpcMethod::DaemonLogsTail => METHOD_DAEMON_LOGS_TAIL@,
        IpcMethod::DaemonShutdown => METHOD_DAEMON_SHUTDOWN@,
        IpcMethod::InputReleaseAll => METHOD_INPUT_RELEASE_ALL@,
        IpcMethod::SessionConnect => METHOD_SESSION_CONNECT@,
        IpcMethod::SessionDisconnect => METHOD_SESSION_DISCONNECT@,
        IpcMethod::SessionDiscoveryCandidates => METHOD_SESSION_DISCOVERY_CANDIDATES@,
    }
}

/// The method with a name, where there is one.
pub open spec fn method_named(name: Seq<char>) -> Option<IpcMethod> {
    if name == METHOD_DAEMON_STATUS@ {
        Some(IpcMethod::DaemonStatus)
    } else if name == METHOD_PERMISSIONS_PROBE@ {
        Some(IpcMethod::PermissionsProbe)
    } else if name == METHOD_DIAGNOSTICS_SCREEN_TOPOLOGY@ {
        Some(IpcMethod::DiagnosticsScreenTopology)
    } else if name == METHOD_DIAGNOSTICS_KEYBOARD_LAYOUT@ {
        Some(IpcMethod::DiagnosticsKeyboardLayout)
    } else if name == METHOD_DAEMON_LOGS_TAIL@ {
        Some(IpcMethod::DaemonLogsTail)
    } else if name == METHOD_DAEMON_SHUTDOWN@ {
        Some(IpcMethod::DaemonShutdown)
    } else if name == METHOD_INPUT_RELEASE_ALL@ {
        Some(IpcMethod::InputReleaseAll)
    } else if name == METHOD_SESSION_CONNECT@ {
        Some(IpcMethod::SessionConnect)
    } else if name == METHOD_SESSION_DISCONNECT@ {
        Some(IpcMethod::SessionDisconnect)
    } else if name == METHOD_SESSION_DISCOVERY_CANDIDATES@ {
        Some(IpcMethod::SessionDiscoveryCandidates)
    } else {
        None
    }
}

/// The method with a name, where there is one.
pub fn find_method(name: &str) -> (result: Option<IpcMethod>)
    ensures
        result == method_named(name@),
{
    if same(name, METHOD_DAEMON_STATUS) {
        Some(IpcMethod::DaemonStatus)
    } else if same(name, METHOD_PERMISSIONS_PROBE) {
        Some(IpcMethod::PermissionsProbe)
    } else if same(name, METHOD_DIAGNOSTICS_SCREEN_TOPOLOGY) {
        Some(IpcMethod::DiagnosticsScreenTopology)
    } else if same(name, METHOD_DIAGNOSTICS_KEYBOARD_LAYOUT) {
        Some(IpcMethod::DiagnosticsKeyboardLayout)
    } else if same(name, METHOD_DAEMON_LOGS_TAIL) {
        Some(IpcMethod::DaemonLogsTail)
    } else if same(name, METHOD_DAEMON_SHUTDOWN) {
        Some(IpcMethod::DaemonShutdown)
    } else if same(name, METHOD_INPUT_RELEASE_ALL) {
        Some(IpcMethod::InputReleaseAll)
    } else if same(name, METHOD_SESSION_CONNECT) {
        Some(IpcMethod::SessionConnect)
    } else if same(name, METHOD_SESSION_DISCONNECT) {
        Some(IpcMethod::SessionDisconnect)
    } else if same(name, METHOD_SESSION_DISCOVERY_CANDIDATES) {
        Some(IpcMethod::SessionDiscoveryCandidates)
    } else {
        None
    }
}

/// A request that the daemon understands.
#[derive(Debug, PartialEq, Eq)]
pub enum IpcRequest {
    DaemonStatus(JsonRpcRequest<DaemonStatusParams>),
    PermissionsProbe(JsonRpcRequest<PermissionsProbeParams>),
    DiagnosticsScreenTopology(JsonRpcRequest<DiagnosticsScreenTopologyParams>),
    DiagnosticsKeyboardLayout(JsonRpcRequest<DiagnosticsKeyboardLayoutParams>),
    DaemonLogsTail(JsonRpcRequest<DaemonLogsTailParams>),
    DaemonShutdown(JsonRpcRequest<DaemonShutdownParams>),
    InputReleaseAll(JsonRpcRequest<InputReleaseAllParams>),
    SessionConnect(JsonRpcRequest<SessionConnectParams>),
    SessionDisconnect(JsonRpcRequest<SessionDisconnectParams>),
    SessionDiscoveryCandidates(JsonRpcRequest<SessionDiscoveryCandidatesParams>),
}

/// The parameters of a request.
pub enum ParamsModel {
    Nothing,
    LogsTail { limit: Option<usize> },
    Connect { peer_id: Seq<char>, local_device_id: Seq<char>, address: Seq<char> },
}

/// What a request asks for.
pub struct RequestModel {
    pub method: IpcMethod,
    pub id: Seq<char>,
    pub params: ParamsModel,
}

/// The parameters of `session.connect`.
pub open spec fn connect_model(params: SessionConnectParams) -> ParamsModel {
    ParamsModel::Connect {
        peer_id: params.peer_id@,
        local_device_id: params.local_device_id@,
        address: params.address@,
    }
}

impl View for IpcRequest {
    type V = RequestModel;

    open spec fn view(&self) -> RequestModel {
        RequestModel { method: self.asks(), id: self.id_text(), params: self.params_model() }
    }
}

impl IpcRequest {
    /// The method that a request is for.
    pub open spec fn asks(&self) -> IpcMethod {
        match self {
            IpcRequest::DaemonStatus(_) => IpcMethod::DaemonStatus,
            IpcRequest::PermissionsProbe(_) => IpcMethod::PermissionsProbe,
            IpcRequest::DiagnosticsScreenTopology(_) => IpcMethod::DiagnosticsScreenTopology,
            IpcRequest::DiagnosticsKeyboardLayout(_) => IpcMethod::DiagnosticsKeyboardLayout,
            IpcRequest::DaemonLogsTail(_) => IpcMethod::DaemonLogsTail,
            IpcRequest::DaemonShutdown(_) => IpcMethod::DaemonShutdown,
            IpcRequest::InputReleaseAll(_) => IpcMethod::InputReleaseAll,
            IpcRequest::SessionConnect(_) => IpcMethod::SessionConnect,
            IpcRequest::SessionDisconnect(_) => IpcMethod::SessionDisconnect,
            IpcRequest::SessionDiscoveryCandidates(_) => IpcMethod::SessionDiscoveryCandidates,
        }
    }

    pub open spec fn id_text(&self) -> Seq<char> {
        match self {
            IpcRequest::DaemonStatus(request) => request.id@,
            IpcRequest::PermissionsProbe(request) => request.id@,
            IpcRequest::DiagnosticsScreenTopology(request) => request.id@,
            IpcRequest::DiagnosticsKeyboardLayout(request) => request.id@,
            IpcRequest::DaemonLogsTail(request) => request.id@,
            IpcRequest::DaemonShutdown(request) => request.id@,
            IpcRequest::InputReleaseAll(request) => request.id@,
            IpcRequest::SessionConnect(request) => request.id@,
            IpcRequest::SessionDisconnect(request) => request.id@,
            IpcRequest::SessionDiscoveryCandidates(request) => request.id@,
        }
    }

    pub open spec fn method_text(&self) -> Seq<char> {
        match self {
            IpcRequest::DaemonStatus(request) => request.method@,
            IpcRequest::PermissionsProbe(request) => request.method@,
            IpcRequest::DiagnosticsScreenTopology(request) => request.method@,
            IpcRequest::DiagnosticsKeyboardLayout(request) => request.method@,
            IpcRequest::DaemonLogsTail(request) => request.method@,
            IpcRequest::DaemonShutdown(request) => request.method@,
            IpcRequest::InputReleaseAll(request) => request.method@,
            IpcRequest::SessionConnect(request) => request.method@,
            IpcRequest::SessionDisconnect(request) => request.method@,
            IpcRequest::SessionDiscoveryCandidates(request) => request.method@,
        }
    }

    pub open spec fn version_text(&self) -> Seq<char> {
        match self {
            IpcRequest::DaemonStatus(request) => request.jsonrpc@,
            IpcRequest::PermissionsProbe(request) => request.jsonrpc@,
            IpcRequest::DiagnosticsScreenTopology(request) => request.jsonrpc@,
            IpcRequest::DiagnosticsKeyboardLayout(request) => request.jsonrpc@,
            IpcRequest::DaemonLogsTail(request) => request.jsonrpc@,
            IpcRequest::DaemonShutdown(request) => request.jsonrpc@,
            IpcRequest::InputReleaseAll(request) => request.jsonrpc@,
            IpcRequest::SessionConnect(request) => request.jsonrpc@,
            IpcRequest::SessionDisconnect(request) => request.jsonrpc@,
            IpcRequest::SessionDiscoveryCandidates(request) => request.jsonrpc@,
        }
    }

    pub open spec fn params_model(&self) -> ParamsModel {
        match self {
            IpcRequest::DaemonLogsTail(request) => ParamsModel::LogsTail {
                limit: request.params.limit,
            },
            IpcRequest::SessionConnect(request) => connect_model(request.params),
            _ => ParamsModel::Nothing,
        }
    }

    /// Whether a request's envelope says what the request is: its version and the name of its method.
    pub open spec fn wf(&self) -> bool {
        &&& self.version_text() == JSONRPC_VERSION@
        &&& self.method_text() == method_name(self.asks())
    }

    pub fn id(&self) -> (result: &str)
        ensures
            result@ == self.id_text(),
    {
        match self {
            IpcRequest::DaemonStatus(request) => request.id.as_str(),
            IpcRequest::PermissionsProbe(request) => request.id.as_str(),
            IpcRequest::DiagnosticsScreenTopology(request) => request.id.as_str(),
            IpcRequest::DiagnosticsKeyboardLayout(request) => request.id.as_str(),
            IpcRequest::DaemonLogsTail(request) => request.id.as_str(),
            IpcRequest::DaemonShutdown(request) => request.id.as_str(),
            IpcRequest::InputReleaseAll(request) => request.id.as_str(),
            IpcRequest::SessionConnect(request) => request.id.as_str(),
            IpcRequest::SessionDisconnect(request) => request.id.as_str(),
            IpcRequest::SessionDiscoveryCandidates(request) => request.id.as_str(),
        }
    }

    pub fn method(&self) -> (result: &str)
        ensures
            result@ == self.method_text(),
    {
        match self {
            IpcRequest::DaemonStatus(request) => request.method.as_str(),
            IpcRequest::PermissionsProbe(request) => request.method.as_str(),
            IpcRequest::DiagnosticsScreenTopology(request) => request.method.as_str(),
            IpcRequest::DiagnosticsKeyboardLayout(request) => request.method.as_str(),
            IpcRequest::DaemonLogsTail(request) => request.method.as_str(),
            IpcRequest::DaemonShutdown(request) => request.method.as_str(),
            IpcRequest::InputReleaseAll(request) => request.method.as_str(),
            IpcRequest::SessionConnect(request) => request.method.as_str(),
            IpcRequest::SessionDisconnect(request) => request.method.as_str(),
            IpcRequest::SessionDiscoveryCandidates(request) => request.method.as_str(),
        }
    }
}

impl ToJson for IpcRequest {
    open spec fn json(&self) -> JsonModel {
        match self {
            IpcRequest::DaemonStatus(request) => request.json(),
            IpcRequest::PermissionsProbe(request) => request.json(),
            IpcRequest::DiagnosticsScreenTopology(request) => request.json(),
            IpcRequest::DiagnosticsKeyboardLayout(request) => request.json(),
            IpcRequest::DaemonLogsTail(request) => request.json(),
            IpcRequest::DaemonShutdown(request) => request.json(),
            IpcRequest::InputReleaseAll(request) => request.json(),
            IpcRequest::SessionConnect(request) => request.json(),
            IpcRequest::SessionDisconnect(request) => request.json(),
            IpcRequest::SessionDiscoveryCandidates(request) => request.json(),
        }
    }

    fn to_json(&self) -> (result: JsonValue) {
        match self {
            IpcRequest::DaemonStatus(request) => request.to_json(),
            IpcRequest::PermissionsProbe(request) => request.to_json(),
            IpcRequest::DiagnosticsScreenTopology(request) => request.to_json(),
            IpcRequest::DiagnosticsKeyboardLayout(request) => request.to_json(),
            IpcRequest::DaemonLogsTail(request) => request.to_json(),
            IpcRequest::DaemonShutdown(request) => request.to_json(),
            IpcRequest::InputReleaseAll(request) => request.to_json(),
            IpcRequest::SessionConnect(request) => request.to_json(),
            IpcRequest::SessionDisconnect(request) => request.to_json(),
            IpcRequest::SessionDiscoveryCandidates(request) => request.to_json(),
        }
    }
}

/// The members of a request before its method is known.
pub struct RawModel {
    pub jsonrpc: Seq<char>,
    pub id: Seq<char>,
    pub method: Seq<char>,
    pub params: JsonModel,
}

/// The members of a request. They stand under their names, or in order in an array; the parameters
/// may be left out.
pub open spec fn raw_request(value: JsonModel) -> Option<RawModel> {
    match value {
        JsonModel::Array(items) => if 3 <= items.len() <= 4 && items[0] is Text && items[1] is Text
            && items[2] is Text {
            Some(
                RawModel {
                    jsonrpc: items[0]->Text_0,
                    id: items[1]->Text_0,
                    method: items[2]->Text_0,
                    params: if items.len() == 4 {
                        items[3]
                    } else {
                        JsonModel::Object(Seq::empty())
                    },
                },
            )
        } else {
            None
        },
        _ => match (
            crate::json::text_field(value, "jsonrpc"@),
            crate::json::text_field(value, "id"@),
            crate::json::text_field(value, "method"@),
        ) {
            (Some(jsonrpc), Some(id), Some(method)) => Some(
                RawModel {
                    jsonrpc,
                    id,
                    method,
                    params: match crate::json::field(value, "params"@) {
                        Some(params) => params,
                        None => JsonModel::Object(Seq::empty()),
                    },
                },
            ),
            _ => None,
        },
    }
}

/// Whether a key is one of a connection's parameters.
pub open spec fn is_connect_key(key: Seq<char>) -> bool {
    key == "peerId"@ || key == "localDeviceId"@ || key == "address"@
}

/// The first of a connection's parameters, in the order in which they stand, that is no text.
pub open spec fn first_untyped(entries: Seq<(Seq<char>, JsonModel)>) -> Option<JsonModel>
    decreases entries.len(),
{
    if entries.len() == 0 {
        None
    } else if is_connect_key(entries[0].0) && !(entries[0].1 is Text) {
        Some(entries[0].1)
    } else {
        first_untyped(entries.drop_first())
    }
}

/// The parameters of `session.connect` in an object, or what is wrong with them.
pub open spec fn read_connect(object: JsonModel) -> Result<ParamsModel, Seq<char>> {
    match first_untyped(object->Object_0) {
        Some(value) => Err(crate::json::json_text_error(value)),
        None => match (
            crate::json::text_field(object, "peerId"@),
            crate::json::text_field(object, "localDeviceId"@),
            crate::json::text_field(object, "address"@),
        ) {
            (None, _, _) => Err("missing field `peerId`"@),
            (_, None, _) => Err("missing field `localDeviceId`"@),
            (_, _, None) => Err("missing field `address`"@),
            (Some(peer_id), Some(local_device_id), Some(address)) => Ok(
                ParamsModel::Connect { peer_id, local_device_id, address },
            ),
        },
    }
}

/// The parameters of `daemon.logs.tail` in an object, or what is wrong with them.
pub open spec fn read_logs_tail(object: JsonModel) -> Result<ParamsModel, Seq<char>> {
    match crate::json::field(object, "limit"@) {
        None | Some(JsonModel::Null) => Ok(ParamsModel::LogsTail { limit: None }),
        Some(JsonModel::Unsigned(n)) => if n <= usize::MAX {
            Ok(ParamsModel::LogsTail { limit: Some(n as usize) })
        } else {
            Err("invalid value: integer `"@ + crate::text::decimal(n as nat) + "`, expected usize"@)
        },
        Some(other) => match crate::json::json_count(other, usize::MAX as nat) {
            Ok(limit) => Ok(ParamsModel::LogsTail { limit }),
            Err(reason) => Err(reason),
        },
    }
}

/// The parameters of a method, or what is wrong with them.
pub open spec fn read_params(method: IpcMethod, params: JsonModel) -> Result<ParamsModel, Seq<char>> {
    if !(params is Object) {
        Err("params must be an object"@)
    } else {
        match method {
            IpcMethod::SessionConnect => read_connect(params),
            IpcMethod::DaemonLogsTail => read_logs_tail(params),
            _ => Ok(ParamsModel::Nothing),
        }
    }
}

/// The request that a JSON value is, or the failure that answers it.
pub open spec fn read_request(value: JsonModel) -> Result<RequestModel, FailureModel> {
    match raw_request(value) {
        None => Err(
            FailureModel {
                id: crate::json::text_field(value, "id"@),
                code: JSONRPC_ERROR_INVALID_REQUEST,
                message: "invalid request"@,
            },
        ),
        Some(raw) => if raw.jsonrpc != JSONRPC_VERSION@ {
            Err(
                FailureModel {
                    id: Some(raw.id),
                    code: JSONRPC_ERROR_INVALID_REQUEST,
                    message: "invalid JSON-RPC version"@,
                },
            )
        } else {
            match method_named(raw.method) {
                None => Err(
                    FailureModel {
                        id: Some(raw.id),
                        code: JSONRPC_ERROR_METHOD_NOT_FOUND,
                        message: "method not found: "@ + raw.method,
                    },
                ),
                Some(method) => match read_params(method, raw.params) {
                    Ok(params) => Ok(RequestModel { method, id: raw.id, params }),
                    Err(reason) => Err(
                        FailureModel {
                            id: Some(raw.id),
                            code: JSONRPC_ERROR_INVALID_PARAMS,
                            message: "invalid params for "@ + raw.method + ": "@ + reason,
                        },
                    ),
                },
            }
        },
    }
}

/// The request that a line is, or the failure that answers it.
pub open spec fn read_line(line: Seq<char>) -> Result<RequestModel, FailureModel> {
    match crate::json::json_parsed(line) {
        Ok(value) => read_request(value),
        Err(_) => Err(
            FailureModel { id: None, code: JSONRPC_ERROR_PARSE, message: "parse error"@ },
        ),
    }
}

/// Whether an outcome is the one that a model says.
pub open spec fn is_request(
    result: Result<IpcRequest, JsonRpcFailure>,
    model: Result<RequestModel, FailureModel>,
) -> bool {
    match result {
        Ok(request) => request.wf() && model == Ok::<RequestModel, FailureModel>(request@),
        Err(failure) => {
            &&& model == Err::<RequestModel, FailureModel>(failure@)
            &&& failure.json() == failure_json(failure@)
        },
    }
}

/// The failure that answers a request.
fn failed(id: Option<&str>, code: i32, message: &str) -> (result: JsonRpcFailure)
    ensures
        result@ == (FailureModel {
            id: match id {
                Some(id) => Some(id@),
                None => None,
            },
            code,
            message: message@,
        }),
        result.json() == failure_json(result@),
{
    JsonRpcFailure::new(
        match id {
            Some(id) => Some(id.to_owned()),
            None => None,
        },
        JsonRpcError::new(code, message),
    )
}

/// Read the parameters of `session.connect`.
pub fn parse_connect_params(object: &JsonValue) -> (result: Result<SessionConnectParams, String>)
    requires
        object@ is Object,
    ensures
        match result {
            Ok(params) => read_connect(object@) == Ok::<ParamsModel, Seq<char>>(
                connect_model(params),
            ),
            Err(reason) => read_connect(object@) == Err::<ParamsModel, Seq<char>>(reason@),
        },
{
    match object {
        JsonValue::Object(entries) => {
            let ghost all = object@->Object_0;
            proof {
                assert(all.subrange(0, all.len() as int) =~= all);
            }
            let mut i: usize = 0;
            while i < entries.len()
                invariant
                    i <= entries@.len(),
                    all.len() == entries@.len(),
                    *object == JsonValue::Object(*entries),
                    all == object@->Object_0,
                    first_untyped(all) == first_untyped(
                        all.subrange(i as int, all.len() as int),
                    ),
                decreases entries@.len() - i,
            {
                let ghost rest = all.subrange(i as int, all.len() as int);
                proof {
                    assert(rest[0] == (entries@[i as int].0@, entries@[i as int].1@));
                    assert(rest.drop_first() =~= all.subrange(i + 1, all.len() as int));
                }
                let key = entries[i].0.as_str();
                if same(key, "peerId") || same(key, "localDeviceId") || same(key, "address") {
                    match entries[i].1.as_text() {
                        Some(_) => {},
                        None => {
                            return Err(text_error(&entries[i].1));
                        },
                    }
                }
                i = i + 1;
            }
        },
        _ => {},
    }
    match (object.get_text("peerId"), object.get_text("localDeviceId"), object.get_text("address")) {
        (None, _, _) => Err("missing field `peerId`".to_owned()),
        (_, None, _) => Err("missing field `localDeviceId`".to_owned()),
        (_, _, None) => Err("missing field `address`".to_owned()),
        (Some(peer_id), Some(local_device_id), Some(address)) => Ok(
            SessionConnectParams {
                peer_id: peer_id.to_owned(),
                local_device_id: local_device_id.to_owned(),
                address: address.to_owned(),
            },
        ),
    }
}

/// Read the parameters of `daemon.logs.tail`.
pub fn parse_logs_tail_params(object: &JsonValue) -> (result: Result<DaemonLogsTailParams, String>)
    requires
        object@ is Object,
    ensures
        match result {
            Ok(params) => read_logs_tail(object@) == Ok::<ParamsModel, Seq<char>>(
                ParamsModel::LogsTail { limit: params.limit },
            ),
            Err(reason) => read_logs_tail(object@) == Err::<ParamsModel, Seq<char>>(reason@),
        },
        crate::json::field(object@, "limit"@) matches Some(limit) && crate::json::is_no_count(limit)
            ==> result is Err,
{
    match object.get("limit") {
        None => Ok(DaemonLogsTailParams { limit: None }),
        Some(JsonValue::Null) => Ok(DaemonLogsTailParams { limit: None }),
        Some(JsonValue::Unsigned(n)) => if *n <= usize::MAX as u64 {
            Ok(DaemonLogsTailParams { limit: Some(*n as usize) })
        } else {
            Err(
                "invalid value: integer `".to_owned().concat(decimal_text(*n).as_str()).concat(
                    "`, expected usize",
                ),
            )
        },
        Some(other) => match optional_count(other) {
            Ok(limit) => Ok(DaemonLogsTailParams { limit }),
            Err(reason) => Err(reason),
        },
    }
}

/// The request for a method, from its id and parameters.
fn typed_request(method: IpcMethod, id: &str, params: &JsonValue) -> (result: Result<
    IpcRequest,
    String,
>)
    ensures
        match result {
            Ok(request) => request.wf() && request@.method == method && request@.id == id@
                && read_params(method, params@) == Ok::<ParamsModel, Seq<char>>(request@.params),
            Err(reason) => read_params(method, params@) == Err::<ParamsModel, Seq<char>>(reason@),
        },
{
    if !params.is_object() {
        return Err("params must be an object".to_owned());
    }
    match method {
        IpcMethod::DaemonStatus => Ok(
            IpcRequest::DaemonStatus(
                JsonRpcRequest::new(id, METHOD_DAEMON_STATUS, DaemonStatusParams {  }),
            ),
        ),
        IpcMethod::PermissionsProbe => Ok(
            IpcRequest::PermissionsProbe(
                JsonRpcRequest::new(id, METHOD_PERMISSIONS_PROBE, PermissionsProbeParams {  }),
            ),
        ),
        IpcMethod::DiagnosticsScreenTopology => Ok(
            IpcRequest::DiagnosticsScreenTopology(
                JsonRpcRequest::new(id, METHOD_DIAGNOSTICS_SCREEN_TOPOLOGY, DiagnosticsScreenTopologyParams {  }),
            ),
        ),
        IpcMethod::DiagnosticsKeyboardLayout => Ok(
            IpcRequest::DiagnosticsKeyboardLayout(
                JsonRpcRequest::new(id, METHOD_DIAGNOSTICS_KEYBOARD_LAYOUT, DiagnosticsKeyboardLayoutParams {  }),
            ),
        ),
        IpcMethod::DaemonLogsTail => match parse_logs_tail_params(params) {
            Ok(params) => Ok(
                IpcRequest::DaemonLogsTail(JsonRpcRequest::new(id, METHOD_DAEMON_LOGS_TAIL, params)),
            ),
            Err(reason) => Err(reason),
        },
        IpcMethod::DaemonShutdown => Ok(
            IpcRequest::DaemonShutdown(
                JsonRpcRequest::new(id, METHOD_DAEMON_SHUTDOWN, DaemonShutdownParams {  }),
            ),
        ),
        IpcMethod::InputReleaseAll => Ok(
            IpcRequest::InputReleaseAll(
                JsonRpcRequest::new(id, METHOD_INPUT_RELEASE_ALL, InputReleaseAllParams {  }),
            ),
        ),
        IpcMethod::SessionConnect => match parse_connect_params(params) {
            Ok(params) => Ok(
                IpcRequest::SessionConnect(JsonRpcRequest::new(id, METHOD_SESSION_CONNECT, params)),
            ),
            Err(reason) => Err(reason),
        },
        IpcMethod::SessionDisconnect => Ok(
            IpcRequest::SessionDisconnect(
                JsonRpcRequest::new(id, METHOD_SESSION_DISCONNECT, SessionDisconnectParams {  }),
            ),
        ),
        IpcMethod::SessionDiscoveryCandidates => Ok(
            IpcRequest::SessionDiscoveryCandidates(
                JsonRpcRequest::new(id, METHOD_SESSION_DISCOVERY_CANDIDATES, SessionDiscoveryCandidatesParams {  }),
            ),
        ),
    }
}

/// Classify a request whose members are known.
fn classify(jsonrpc: &str, id: &str, method: &str, params: &JsonValue) -> (result: Result<
    IpcRequest,
    JsonRpcFailure,
>)
    ensures
        forall|value: JsonModel|
            #![trigger read_request(value)]
            raw_request(value) == Some(
                RawModel { jsonrpc: jsonrpc@, id: id@, method: method@, params: params@ },
            ) ==> is_request(result, read_request(value)),
{
    if !same(jsonrpc, JSONRPC_VERSION) {
        return Err(
            failed(Some(id), JSONRPC_ERROR_INVALID_REQUEST, "invalid JSON-RPC version"),
        );
    }
    match find_method(method) {
        None => Err(
            failed(
                Some(id),
                JSONRPC_ERROR_METHOD_NOT_FOUND,
                "method not found: ".to_owned().concat(method).as_str(),
            ),
        ),
        Some(found) => match typed_request(found, id, params) {
            Ok(request) => Ok(request),
            Err(reason) => Err(
                failed(
                    Some(id),
                    JSONRPC_ERROR_INVALID_PARAMS,
                    "invalid params for ".to_owned().concat(method).concat(": ").concat(
                        reason.as_str(),
                    ).as_str(),
                ),
            ),
        },
    }
}

/// Read a request from a JSON value.
pub fn parse_request_value(value: &JsonValue) -> (result: Result<IpcRequest, JsonRpcFailure>)
    ensures
        is_request(result, read_request(value@)),
{
    match value {
        JsonValue::Array(items) => {
            if items.len() == 3 || items.len() == 4 {
                match (items[0].as_text(), items[1].as_text(), items[2].as_text()) {
                    (Some(jsonrpc), Some(id), Some(method)) => {
                        if items.len() == 4 {
                            classify(jsonrpc, id, method, &items[3])
                        } else {
                            classify(jsonrpc, id, method, &JsonObject::new().done())
                        }
                    },
                    _ => Err(failed(None, JSONRPC_ERROR_INVALID_REQUEST, "invalid request")),
                }
            } else {
                Err(failed(None, JSONRPC_ERROR_INVALID_REQUEST, "invalid request"))
            }
        },
        _ => match (value.get_text("jsonrpc"), value.get_text("id"), value.get_text("method")) {
            (Some(jsonrpc), Some(id), Some(method)) => match value.get("params") {
                Some(params) => classify(jsonrpc, id, method, params),
                None => classify(jsonrpc, id, method, &JsonObject::new().done()),
            },
            (_, id, _) => Err(failed(id, JSONRPC_ERROR_INVALID_REQUEST, "invalid request")),
        },
    }
}

/// Read one request line.
pub fn parse_request_line(line: &str) -> (result: Result<IpcRequest, JsonRpcFailure>)
    ensures
        is_request(result, read_line(line@)),
{
    match decode_json(line) {
        Ok(value) => parse_request_value(&value),
        Err(_) => Err(failed(None, JSONRPC_ERROR_PARSE, "parse error")),
    }
}

/// A method is found under its own name.
pub proof fn method_is_found_by_name(method: IpcMethod)
    ensures
        method_named(method_name(method)) == Some(method),
{
    reveal_strlit("daemon.status");
    reveal_strlit("permissions.probe");
    reveal_strlit("diagnostics.screenTopology");
    reveal_strlit("diagnostics.keyboardLayout");
    reveal_strlit("daemon.logs.tail");
    reveal_strlit("daemon.shutdown");
    reveal_strlit("input.releaseAll");
    reveal_strlit("session.connect");
    reveal_strlit("session.disconnect");
    reveal_strlit("session.discoveryCandidates");
    assert(METHOD_DAEMON_STATUS@.len() == 13);
    assert(METHOD_PERMISSIONS_PROBE@.len() == 17);
    assert(METHOD_DIAGNOSTICS_SCREEN_TOPOLOGY@.len() == 26);
    assert(METHOD_DIAGNOSTICS_KEYBOARD_LAYOUT@.len() == 26);
    assert(METHOD_DAEMON_LOGS_TAIL@.len() == 16);
    assert(METHOD_DAEMON_SHUTDOWN@.len() == 15);
    assert(METHOD_INPUT_RELEASE_ALL@.len() == 16);
    assert(METHOD_SESSION_CONNECT@.len() == 15);
    assert(METHOD_SESSION_DISCONNECT@.len() == 18);
    assert(METHOD_SESSION_DISCOVERY_CANDIDATES@.len() == 27);
    assert(METHOD_DIAGNOSTICS_SCREEN_TOPOLOGY@[12] != METHOD_DIAGNOSTICS_KEYBOARD_LAYOUT@[12]);
    assert(METHOD_DAEMON_LOGS_TAIL@[0] != METHOD_INPUT_RELEASE_ALL@[0]);
    assert(METHOD_DAEMON_SHUTDOWN@[0] != METHOD_SESSION_CONNECT@[0]);
}

/// The four members of a request's envelope stand under different names, so each is found.
proof fn lemma_envelope(jsonrpc: JsonModel, id: JsonModel, method: JsonModel, params: JsonModel)
    ensures
        ({
            let entries = seq![
                ("jsonrpc"@, jsonrpc),
                ("id"@, id),
                ("method"@, method),
                ("params"@, params),
            ];
            &&& crate::json::entry(entries, "jsonrpc"@) == Some(jsonrpc)
            &&& crate::json::entry(entries, "id"@) == Some(id)
            &&& crate::json::entry(entries, "method"@) == Some(method)
            &&& crate::json::entry(entries, "params"@) == Some(params)
            &&& forall|i: int, j: int|
                0 <= i < j < 4 ==> (#[trigger] entries[i]).0 != (#[trigger] entries[j]).0
        }),
{
    reveal_strlit("jsonrpc");
    reveal_strlit("id");
    reveal_strlit("method");
    reveal_strlit("params");
    reveal_with_fuel(crate::json::entry, 5);
    assert("method"@[0] != "params"@[0]);
    assert("jsonrpc"@.len() == 7 && "id"@.len() == 2 && "method"@.len() == 6 && "params"@.len() == 6);
    let entries = seq![
        ("jsonrpc"@, jsonrpc),
        ("id"@, id),
        ("method"@, method),
        ("params"@, params),
    ];
    assert(entries.drop_first()[0] == entries[1]);
    assert(entries.drop_first().drop_first()[0] == entries[2]);
    assert(entries.drop_first().drop_first().drop_first()[0] == entries[3]);
}

/// The parameters of a request read back as what they were.
proof fn lemma_params_read_back(request: IpcRequest)
    requires
        request.wf(),
    ensures
        request.json() is Object,
        request.json()->Object_0.len() == 4,
        crate::json::is_plain(request.json()->Object_0[3].1, 63),
        read_params(request.asks(), request.json()->Object_0[3].1) == Ok::<ParamsModel, Seq<char>>(
            request.params_model(),
        ),
{
    let params = request.json()->Object_0[3].1;
    reveal_with_fuel(crate::json::is_plain, 2);
    match request {
        IpcRequest::SessionConnect(request) => {
            reveal_strlit("peerId");
            reveal_strlit("localDeviceId");
            reveal_strlit("address");
            reveal_with_fuel(crate::json::entry, 4);
            reveal_with_fuel(first_untyped, 4);
            let entries = params->Object_0;
            assert(entries.len() == 3);
            assert("peerId"@.len() == 6 && "localDeviceId"@.len() == 13 && "address"@.len() == 7);
            assert(entries.drop_first()[0] == entries[1]);
            assert(entries.drop_first().drop_first()[0] == entries[2]);
            assert(entries.drop_first().drop_first().drop_first().len() == 0);
        },
        IpcRequest::DaemonLogsTail(request) => {
            reveal_with_fuel(crate::json::entry, 2);
        },
        _ => {},
    }
}

/// A request that was written is read back as the request that it was, and its line spells nothing
/// else.
pub proof fn written_request_reads_back(request: IpcRequest)
    requires
        request.wf(),
    ensures
        crate::json::is_plain(request.json(), 64),
        read_request(request.json()) == Ok::<RequestModel, FailureModel>(request@),
{
    reveal_with_fuel(crate::json::is_plain, 2);
    lemma_params_read_back(request);
    method_is_found_by_name(request.asks());
    let entries = request.json()->Object_0;
    lemma_envelope(entries[0].1, entries[1].1, entries[2].1, entries[3].1);
    assert(entries =~= seq![
        ("jsonrpc"@, entries[0].1),
        ("id"@, entries[1].1),
        ("method"@, entries[2].1),
        ("params"@, entries[3].1),
    ]);
}

/// Each method is found by its name, and by no other.
pub proof fn methods_are_found_by_their_names(name: &str, found: Option<IpcMethod>)
    requires
        call_ensures(find_method, (name,), found),
    ensures
        found == Some(IpcMethod::DaemonStatus) <==> name@ == "daemon.status"@,
        found == Some(IpcMethod::PermissionsProbe) <==> name@ == "permissions.probe"@,
        found == Some(IpcMethod::DiagnosticsScreenTopology) <==> name@
            == "diagnostics.screenTopology"@,
        found == Some(IpcMethod::DiagnosticsKeyboardLayout) <==> name@
            == "diagnostics.keyboardLayout"@,
        found == Some(IpcMethod::DaemonLogsTail) <==> name@ == "daemon.logs.tail"@,
        found == Some(IpcMethod::DaemonShutdown) <==> name@ == "daemon.shutdown"@,
        found == Some(IpcMethod::InputReleaseAll) <==> name@ == "input.releaseAll"@,
        found == Some(IpcMethod::SessionConnect) <==> name@ == "session.connect"@,
        found == Some(IpcMethod::SessionDisconnect) <==> name@ == "session.disconnect"@,
        found == Some(IpcMethod::SessionDiscoveryCandidates) <==> name@
            == "session.discoveryCandidates"@,
{
    method_is_found_by_name(IpcMethod::DaemonStatus);
    method_is_found_by_name(IpcMethod::PermissionsProbe);
    method_is_found_by_name(IpcMethod::DiagnosticsScreenTopology);
    method_is_found_by_name(IpcMethod::DiagnosticsKeyboardLayout);
    method_is_found_by_name(IpcMethod::DaemonLogsTail);
    method_is_found_by_name(IpcMethod::DaemonShutdown);
    method_is_found_by_name(IpcMethod::InputReleaseAll);
    method_is_found_by_name(IpcMethod::SessionConnect);
    method_is_found_by_name(IpcMethod::SessionDisconnect);
    method_is_found_by_name(IpcMethod::SessionDiscoveryCandidates);
}

/// Whether a request is the one that a method's name, an id and parameters ask for.
pub open spec fn is_asked_for(
    request: IpcRequest,
    name: Seq<char>,
    id: Seq<char>,
    params: JsonModel,
) -> bool {
    &&& params is Object
    &&& match request {
        IpcRequest::DaemonStatus(request) => {
            &&& name == "daemon.status"@ && request.id@ == id && request.method@ == name
        },
        IpcRequest::PermissionsProbe(request) => {
            &&& name == "permissions.probe"@ && request.id@ == id && request.method@ == name
        },
        IpcRequest::DiagnosticsScreenTopology(request) => {
            &&& name == "diagnostics.screenTopology"@ && request.id@ == id && request.method@
                == name
        },
        IpcRequest::DiagnosticsKeyboardLayout(request) => {
            &&& name == "diagnostics.keyboardLayout"@ && request.id@ == id && request.method@
                == name
        },
        IpcRequest::DaemonLogsTail(request) => {
            &&& name == "daemon.logs.tail"@ && request.id@ == id && request.method@ == name
            &&& crate::json::field(params, "limit"@) is None ==> request.params.limit is None
            &&& crate::json::field(params, "limit"@) == Some(JsonModel::Null)
                ==> request.params.limit is None
            &&& crate::json::field(params, "limit"@) matches Some(JsonModel::Unsigned(n))
                ==> request.params.limit is Some && request.params.limit->Some_0 == n
        },
        IpcRequest::DaemonShutdown(request) => {
            &&& name == "daemon.shutdown"@ && request.id@ == id && request.method@ == name
        },
        IpcRequest::InputReleaseAll(request) => {
            &&& name == "input.releaseAll"@ && request.id@ == id && request.method@ == name
        },
        IpcRequest::SessionConnect(request) => {
            &&& name == "session.connect"@ && request.id@ == id && request.method@ == name
            &&& crate::json::field(params, "peerId"@) == Some(
                JsonModel::Text(request.params.peer_id@),
            )
            &&& crate::json::field(params, "localDeviceId"@) == Some(
                JsonModel::Text(request.params.local_device_id@),
            )
            &&& crate::json::field(params, "address"@) == Some(
                JsonModel::Text(request.params.address@),
            )
        },
        IpcRequest::SessionDisconnect(request) => {
            &&& name == "session.disconnect"@ && request.id@ == id && request.method@ == name
        },
        IpcRequest::SessionDiscoveryCandidates(request) => {
            &&& name == "session.discoveryCandidates"@ && request.id@ == id && request.method@
                == name
        },
    }
}

/// A request that is read is the one that the object names: its method by its name, its id as it
/// stands, and its parameters one by one. What is refused is refused with the code for it.
pub proof fn a_read_request_is_the_one_that_was_asked_for(
    value: JsonValue,
    parsed: Result<IpcRequest, JsonRpcFailure>,
)
    requires
        call_ensures(parse_request_value, (&value,), parsed),
        value is Object,
    ensures
        parsed matches Ok(request) ==> {
            &&& crate::json::field(value@, "jsonrpc"@) == Some(JsonModel::Text("2.0"@))
            &&& crate::json::field(value@, "id"@) is Some
            &&& crate::json::field(value@, "id"@)->Some_0 is Text
            &&& crate::json::field(value@, "method"@) is Some
            &&& crate::json::field(value@, "method"@)->Some_0 is Text
            &&& is_asked_for(
                request,
                crate::json::field(value@, "method"@)->Some_0->Text_0,
                crate::json::field(value@, "id"@)->Some_0->Text_0,
                if crate::json::field(value@, "params"@) is Some {
                    crate::json::field(value@, "params"@)->Some_0
                } else {
                    JsonModel::Object(Seq::empty())
                },
            )
        },
        parsed matches Err(failure) ==> {
            &&& failure.error.code == -32600 || failure.error.code == -32601 || failure.error.code
                == -32602
            &&& crate::json::field(value@, "id"@) matches Some(JsonModel::Text(id)) ==> failure.id
                is Some && failure.id->Some_0@ == id
            &&& failure.error.code == -32601 ==> crate::json::field(value@, "method"@) is Some
                && failure.error.message@ == "method not found: "@ + crate::json::field(
                value@,
                "method"@,
            )->Some_0->Text_0
        },
{
}

/// Whether an object asks for something in the way that the daemon reads.
pub open spec fn is_envelope(value: JsonModel) -> bool {
    &&& crate::json::field(value, "jsonrpc"@) == Some(JsonModel::Text("2.0"@))
    &&& crate::json::field(value, "id"@) is Some
    &&& crate::json::field(value, "id"@)->Some_0 is Text
    &&& crate::json::field(value, "method"@) is Some
    &&& crate::json::field(value, "method"@)->Some_0 is Text
}

/// An envelope that names a method of the daemon without parameters of its own is a request for it,
/// where its parameters are an object or left out.
pub proof fn a_plain_request_is_understood(
    value: JsonValue,
    parsed: Result<IpcRequest, JsonRpcFailure>,
    method: IpcMethod,
)
    requires
        call_ensures(parse_request_value, (&value,), parsed),
        value is Object,
        is_envelope(value@),
        crate::json::field(value@, "method"@)->Some_0->Text_0 == method_name(method),
        crate::json::field(value@, "params"@) is None || crate::json::field(
            value@,
            "params"@,
        )->Some_0 is Object,
        !(method is SessionConnect) && !(method is DaemonLogsTail),
    ensures
        parsed is Ok,
        method is DaemonStatus ==> parsed->Ok_0 is DaemonStatus,
        method is PermissionsProbe ==> parsed->Ok_0 is PermissionsProbe,
        method is DiagnosticsScreenTopology ==> parsed->Ok_0 is DiagnosticsScreenTopology,
        method is DiagnosticsKeyboardLayout ==> parsed->Ok_0 is DiagnosticsKeyboardLayout,
        method is DaemonShutdown ==> parsed->Ok_0 is DaemonShutdown,
        method is InputReleaseAll ==> parsed->Ok_0 is InputReleaseAll,
        method is SessionDisconnect ==> parsed->Ok_0 is SessionDisconnect,
        method is SessionDiscoveryCandidates ==> parsed->Ok_0 is SessionDiscoveryCandidates,
{
    method_is_found_by_name(method);
}

/// A line that is no JSON is refused without an id, since there is none to be read.
pub proof fn a_line_that_is_no_json_is_refused(
    line: &str,
    parsed: Result<IpcRequest, JsonRpcFailure>,
)
    requires
        call_ensures(parse_request_line, (line,), parsed),
        crate::json::json_parsed(line@) is Err,
    ensures
        parsed is Err,
        parsed->Err_0.id is None,
        parsed->Err_0.error.code == -32700,
        parsed->Err_0.error.message@ == "parse error"@,
{
}

/// A request that is written on a line is read as the request that it was: for the same method, from
/// the same asker and with the same parameters.
pub proof fn a_written_request_is_read_as_it_was(
    request: IpcRequest,
    line: String,
    text: &str,
    parsed: Result<IpcRequest, JsonRpcFailure>,
)
    requires
        request.wf(),
        call_ensures(to_json_line::<IpcRequest>, (&request,), Ok::<String, IpcCodecError>(line)),
        text@ == line@,
        call_ensures(parse_request_line, (text,), parsed),
    ensures
        parsed is Ok,
        request matches IpcRequest::DaemonStatus(sent) ==> parsed->Ok_0 is DaemonStatus
            && parsed->Ok_0->DaemonStatus_0.id@ == sent.id@,
        request matches IpcRequest::PermissionsProbe(sent) ==> parsed->Ok_0 is PermissionsProbe
            && parsed->Ok_0->PermissionsProbe_0.id@ == sent.id@,
        request matches IpcRequest::DiagnosticsScreenTopology(sent) ==> parsed->Ok_0
            is DiagnosticsScreenTopology && parsed->Ok_0->DiagnosticsScreenTopology_0.id@
            == sent.id@,
        request matches IpcRequest::DiagnosticsKeyboardLayout(sent) ==> parsed->Ok_0
            is DiagnosticsKeyboardLayout && parsed->Ok_0->DiagnosticsKeyboardLayout_0.id@
            == sent.id@,
        request matches IpcRequest::DaemonLogsTail(sent) ==> parsed->Ok_0 is DaemonLogsTail
            && parsed->Ok_0->DaemonLogsTail_0.id@ == sent.id@
            && parsed->Ok_0->DaemonLogsTail_0.params.limit == sent.params.limit,
        request matches IpcRequest::DaemonShutdown(sent) ==> parsed->Ok_0 is DaemonShutdown
            && parsed->Ok_0->DaemonShutdown_0.id@ == sent.id@,
        request matches IpcRequest::InputReleaseAll(sent) ==> parsed->Ok_0 is InputReleaseAll
            && parsed->Ok_0->InputReleaseAll_0.id@ == sent.id@,
        request matches IpcRequest::SessionConnect(sent) ==> {
            &&& parsed->Ok_0 is SessionConnect
            &&& parsed->Ok_0->SessionConnect_0.id@ == sent.id@
            &&& parsed->Ok_0->SessionConnect_0.params.peer_id@ == sent.params.peer_id@
            &&& parsed->Ok_0->SessionConnect_0.params.local_device_id@
                == sent.params.local_device_id@
            &&& parsed->Ok_0->SessionConnect_0.params.address@ == sent.params.address@
        },
        request matches IpcRequest::SessionDisconnect(sent) ==> parsed->Ok_0 is SessionDisconnect
            && parsed->Ok_0->SessionDisconnect_0.id@ == sent.id@,
        request matches IpcRequest::SessionDiscoveryCandidates(sent) ==> parsed->Ok_0
            is SessionDiscoveryCandidates && parsed->Ok_0->SessionDiscoveryCandidates_0.id@
            == sent.id@,
{
    written_request_reads_back(request);
}

/// What a call hands to the channel is the request on a line of its own, and what it gives back is what
/// the channel answered.
pub proof fn a_call_hands_on_the_request<C: LocalIpcClient, P: ToJson>(
    client: &mut C,
    request: JsonRpcRequest<P>,
    result: Result<String, IpcCallError>,
)
    requires
        call_ensures(call_json_rpc::<C, P>, (client, &request), result),
    ensures
        exists|answer: Result<String, IpcTransportError>| {
            &&& #[trigger] C::gets(
                *old(client),
                crate::json::json_text(request.json()).push('\n'),
                answer,
                *final(client),
            )
            &&& answer is Ok <==> result is Ok
            &&& answer matches Ok(line) ==> result->Ok_0 == line
            &&& answer matches Err(error) ==> result->Err_0 == IpcCallError::Transport {
                source: error,
            }
        },
{
    match result {
        Ok(line) => {
            assert(C::gets(
                *old(client),
                crate::json::json_text(request.json()).push('\n'),
                Ok::<String, IpcTransportError>(line),
                *final(client),
            ));
        },
        Err(IpcCallError::Transport { source: error }) => {
            assert(C::gets(
                *old(client),
                crate::json::json_text(request.json()).push('\n'),
                Err::<String, IpcTransportError>(error),
                *final(client),
            ));
        },
        Err(IpcCallError::Encode { .. }) => {},
    }
}

/// What is written of a request, a success and a failure says what they are: the version, whose they
/// are, and what they carry.
pub proof fn envelopes_say_what_they_carry<P: ToJson>(
    id: &str,
    method: &str,
    params: P,
    request: JsonRpcRequest<P>,
    result: P,
    success: JsonRpcSuccess<P>,
    asker: Option<String>,
    error: JsonRpcError,
    failure: JsonRpcFailure,
)
    requires
        call_ensures(JsonRpcRequest::<P>::new, (id, method, params), request),
        call_ensures(JsonRpcSuccess::<P>::new, (id, result), success),
        call_ensures(JsonRpcFailure::new, (asker, error), failure),
    ensures
        crate::snapshot::says(request.json(), 4, "jsonrpc"@, JsonModel::Text("2.0"@)),
        crate::snapshot::says(request.json(), 4, "id"@, JsonModel::Text(id@)),
        crate::snapshot::says(request.json(), 4, "method"@, JsonModel::Text(method@)),
        crate::snapshot::says(request.json(), 4, "params"@, params.json()),
        crate::snapshot::says(success.json(), 3, "jsonrpc"@, JsonModel::Text("2.0"@)),
        crate::snapshot::says(success.json(), 3, "id"@, JsonModel::Text(id@)),
        crate::snapshot::says(success.json(), 3, "result"@, result.json()),
        crate::snapshot::says(failure.json(), 3, "jsonrpc"@, JsonModel::Text("2.0"@)),
        asker matches Some(text) ==> crate::snapshot::says(
            failure.json(),
            3,
            "id"@,
            JsonModel::Text(text@),
        ),
        asker is None ==> crate::snapshot::says(failure.json(), 3, "id"@, JsonModel::Null),
        crate::snapshot::says(failure.json(), 3, "error"@, error.json()),
        crate::snapshot::says(error.json(), 2, "message"@, JsonModel::Text(error.message@)),
        error.code < 0 ==> crate::snapshot::says(
            error.json(),
            2,
            "code"@,
            JsonModel::Negative(error.code as i64),
        ),
{
    let asked = request.json()->Object_0;
    assert(asked[0] == ("jsonrpc"@, JsonModel::Text("2.0"@)));
    assert(asked[1] == ("id"@, JsonModel::Text(id@)));
    assert(asked[2] == ("method"@, JsonModel::Text(method@)));
    assert(asked[3] == ("params"@, params.json()));
    let told = success.json()->Object_0;
    assert(told[0] == ("jsonrpc"@, JsonModel::Text("2.0"@)));
    assert(told[1] == ("id"@, JsonModel::Text(id@)));
    assert(told[2] == ("result"@, result.json()));
    let refused = failure.json()->Object_0;
    assert(refused[0] == ("jsonrpc"@, JsonModel::Text("2.0"@)));
    assert(refused[1].0 == "id"@);
    assert(refused[1] == ("id"@, refused[1].1));
    assert(refused[2] == ("error"@, error.json()));
    let why = error.json()->Object_0;
    assert(why[0] == ("code"@, why[0].1));
    assert(why[1] == ("message"@, JsonModel::Text(error.message@)));
}

/// A session is asked for with the fields of the request, each under its own name, and only where all of
/// them are there; a limit is taken as the number that was given.
pub proof fn parameters_are_taken_under_their_names(
    object: &JsonValue,
    session: Result<SessionConnectParams, String>,
    tail: Result<DaemonLogsTailParams, String>,
)
    requires
        object@ is Object,
        call_ensures(parse_connect_params, (object,), session),
        call_ensures(parse_logs_tail_params, (object,), tail),
    ensures
        session matches Ok(params) ==> crate::json::text_field(object@, "peerId"@) == Some(
            params.peer_id@,
        ) && crate::json::text_field(object@, "localDeviceId"@) == Some(params.local_device_id@)
            && crate::json::text_field(object@, "address"@) == Some(params.address@),
        crate::json::text_field(object@, "peerId"@) is None || crate::json::text_field(
            object@,
            "localDeviceId"@,
        ) is None || crate::json::text_field(object@, "address"@) is None ==> session is Err,
        crate::json::field(object@, "limit"@) is None ==> tail is Ok && tail->Ok_0.limit is None,
        crate::json::field(object@, "limit"@) is Some && crate::json::field(
            object@,
            "limit"@,
        )->Some_0 is Unsigned ==> {
            let n = crate::json::field(object@, "limit"@)->Some_0->Unsigned_0;
            &&& n <= usize::MAX ==> tail is Ok && tail->Ok_0.limit == Some(n as usize)
            &&& n > usize::MAX ==> tail is Err
        },
{
}

} // verus!
