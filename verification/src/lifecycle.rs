//! The daemon as the desktop application sees it: whether it runs, what it answers, and the process
//! that the application started.

use vstd::prelude::*;

use crate::endpoint::{IpcEndpoint, IpcEndpointError, IpcTransportError};
use crate::json::{
    decode_json, json_optional_text, json_string, JsonModel, JsonObject, JsonValue, ToJson,
};
use crate::rpc::{IpcCallError, JsonRpcFailure, JsonRpcSuccess, JSONRPC_VERSION};
use crate::snapshot::{DaemonShutdownResult, DaemonStatus};
use crate::text::{same, trimmed_end};

verus! {

/// The id of every request of the application.
pub const LOCAL_REQUEST_ID: &'static str = "tauri";

/// Whether the daemon runs.
#[derive(Debug, Clone, Copy, PartialEq, Eq, Structural)]
pub enum DaemonLifecyclePhase {
    NotRunning,
    Starting,
    Running,
    Unreachable,
    Failed,
}

/// How a phase is written.
pub open spec fn phase_text(phase: DaemonLifecyclePhase) -> Seq<char> {
    match phase {
        DaemonLifecyclePhase::NotRunning => "not_running"@,
        DaemonLifecyclePhase::Starting => "starting"@,
        DaemonLifecyclePhase::Running => "running"@,
        DaemonLifecyclePhase::Unreachable => "unreachable"@,
        DaemonLifecyclePhase::Failed => "failed"@,
    }
}

impl ToJson for DaemonLifecyclePhase {
    open spec fn json(&self) -> JsonModel {
        JsonModel::Text(phase_text(*self))
    }

    fn to_json(&self) -> (result: JsonValue) {
        match self {
            DaemonLifecyclePhase::NotRunning => json_string("not_running"),
            DaemonLifecyclePhase::Starting => json_string("starting"),
            DaemonLifecyclePhase::Running => json_string("running"),
            DaemonLifecyclePhase::Unreachable => json_string("unreachable"),
            DaemonLifecyclePhase::Failed => json_string("failed"),
        }
    }
}

/// The name of a phase.
pub open spec fn phase_named(phase: DaemonLifecyclePhase) -> Seq<char> {
    match phase {
        DaemonLifecyclePhase::NotRunning => "NotRunning"@,
        DaemonLifecyclePhase::Starting => "Starting"@,
        DaemonLifecyclePhase::Running => "Running"@,
        DaemonLifecyclePhase::Unreachable => "Unreachable"@,
        DaemonLifecyclePhase::Failed => "Failed"@,
    }
}

/// The name of a phase.
pub fn phase_name(phase: DaemonLifecyclePhase) -> (result: &'static str)
    ensures
        result@ == phase_named(phase),
{
    match phase {
        DaemonLifecyclePhase::NotRunning => "NotRunning",
        DaemonLifecyclePhase::Starting => "Starting",
        DaemonLifecyclePhase::Running => "Running",
        DaemonLifecyclePhase::Unreachable => "Unreachable",
        DaemonLifecyclePhase::Failed => "Failed",
    }
}

/// The word that the daemon leaves of a crash. Where it happened, and what is said of privacy, is kept
/// as it was written.
#[derive(Debug, PartialEq, Eq)]
pub struct DaemonCrashMarker {
    pub schema_version: String,
    pub process_role: String,
    pub daemon_version: String,
    pub reason: String,
    pub panic_message_class: String,
    pub panic_location: Option<JsonValue>,
    pub recorded_at_unix_millis: u64,
    pub privacy: JsonValue,
}

impl ToJson for DaemonCrashMarker {
    open spec fn json(&self) -> JsonModel {
        JsonModel::Object(
            seq![
                ("schemaVersion"@, JsonModel::Text(self.schema_version@)),
                ("processRole"@, JsonModel::Text(self.process_role@)),
                ("daemonVersion"@, JsonModel::Text(self.daemon_version@)),
                ("reason"@, JsonModel::Text(self.reason@)),
                ("panicMessageClass"@, JsonModel::Text(self.panic_message_class@)),
                (
                    "panicLocation"@,
                    match self.panic_location {
                        Some(location) => location@,
                        None => JsonModel::Null,
                    },
                ),
                ("recordedAtUnixMillis"@, JsonModel::Unsigned(self.recorded_at_unix_millis)),
                ("privacy"@, self.privacy@),
            ],
        )
    }

    fn to_json(&self) -> (result: JsonValue) {
        let location = match &self.panic_location {
            Some(location) => copy_json(location),
            None => JsonValue::Null,
        };
        let result = JsonObject::new().with(
            "schemaVersion",
            json_string(self.schema_version.as_str()),
        ).with("processRole", json_string(self.process_role.as_str())).with(
            "daemonVersion",
            json_string(self.daemon_version.as_str()),
        ).with("reason", json_string(self.reason.as_str())).with(
            "panicMessageClass",
            json_string(self.panic_message_class.as_str()),
        ).with("panicLocation", location).with(
            "recordedAtUnixMillis",
            JsonValue::Unsigned(self.recorded_at_unix_millis),
        ).with("privacy", copy_json(&self.privacy)).done();
        proof {
            assert(result@->Object_0 =~= self.json()->Object_0);
        }
        result
    }
}

/// What is known of the daemon, with the word that it left of a crash.
#[derive(Debug, PartialEq, Eq)]
pub struct DaemonLifecycleSnapshot {
    pub phase: DaemonLifecyclePhase,
    pub status: Option<DaemonStatus>,
    pub detail: Option<String>,
    pub managed_pid: Option<u32>,
    pub previous_crash: Option<DaemonCrashMarker>,
}

/// What is known of the daemon.
pub struct SnapshotModel {
    pub phase: DaemonLifecyclePhase,
    pub status: Option<DaemonStatus>,
    pub detail: Option<Seq<char>>,
    pub managed_pid: Option<u32>,
    pub previous_crash: Option<DaemonCrashMarker>,
}

impl View for DaemonLifecycleSnapshot {
    type V = SnapshotModel;

    open spec fn view(&self) -> SnapshotModel {
        SnapshotModel {
            phase: self.phase,
            status: self.status,
            detail: crate::rpc::optional_view(self.detail),
            managed_pid: self.managed_pid,
            previous_crash: self.previous_crash,
        }
    }
}

/// What is known where there is no status.
pub open spec fn no_status(phase: DaemonLifecyclePhase, detail: Seq<char>) -> SnapshotModel {
    SnapshotModel {
        phase,
        status: None,
        detail: Some(detail),
        managed_pid: None,
        previous_crash: None,
    }
}

/// What is known of a daemon that answered.
pub open spec fn runs(status: DaemonStatus, managed_pid: Option<u32>) -> SnapshotModel {
    SnapshotModel {
        phase: DaemonLifecyclePhase::Running,
        status: Some(status),
        detail: None,
        managed_pid,
        previous_crash: None,
    }
}

/// What is known of a daemon that was started and has not answered yet.
pub open spec fn starts(detail: Seq<char>, managed_pid: Option<u32>) -> SnapshotModel {
    SnapshotModel { managed_pid, ..no_status(DaemonLifecyclePhase::Starting, detail) }
}

impl DaemonLifecycleSnapshot {
    /// The daemon answered.
    pub fn running(status: DaemonStatus, managed_pid: Option<u32>) -> (result: Self)
        ensures
            result@ == runs(status, managed_pid),
    {
        DaemonLifecycleSnapshot {
            phase: DaemonLifecyclePhase::Running,
            status: Some(status),
            detail: None,
            managed_pid,
            previous_crash: None,
        }
    }

    /// The daemon answered; whose process it is was not asked.
    pub fn running_without_managed_pid(status: DaemonStatus) -> (result: Self)
        ensures
            result@ == runs(status, None),
    {
        DaemonLifecycleSnapshot::running(status, None)
    }

    /// There is no daemon.
    pub fn not_running(detail: &str) -> (result: Self)
        ensures
            result@ == no_status(DaemonLifecyclePhase::NotRunning, detail@),
    {
        DaemonLifecycleSnapshot::without_status(DaemonLifecyclePhase::NotRunning, detail)
    }

    /// The daemon was started and has not answered yet.
    pub fn starting(detail: &str, managed_pid: Option<u32>) -> (result: Self)
        ensures
            result@ == starts(detail@, managed_pid),
    {
        DaemonLifecycleSnapshot {
            phase: DaemonLifecyclePhase::Starting,
            status: None,
            detail: Some(detail.to_owned()),
            managed_pid,
            previous_crash: None,
        }
    }

    /// There is a daemon that does not answer.
    pub fn unreachable(detail: &str) -> (result: Self)
        ensures
            result@ == no_status(DaemonLifecyclePhase::Unreachable, detail@),
    {
        DaemonLifecycleSnapshot::without_status(DaemonLifecyclePhase::Unreachable, detail)
    }

    /// Something went wrong.
    pub fn failed(detail: &str) -> (result: Self)
        ensures
            result@ == no_status(DaemonLifecyclePhase::Failed, detail@),
    {
        DaemonLifecycleSnapshot::without_status(DaemonLifecyclePhase::Failed, detail)
    }

    /// A phase, and why.
    pub fn without_status(phase: DaemonLifecyclePhase, detail: &str) -> (result: Self)
        ensures
            result@ == no_status(phase, detail@),
    {
        DaemonLifecycleSnapshot {
            phase,
            status: None,
            detail: Some(detail.to_owned()),
            managed_pid: None,
            previous_crash: None,
        }
    }

    /// The same with other words.
    pub fn with_detail(self, detail: &str) -> (result: Self)
        ensures
            result@ == (SnapshotModel { detail: Some(detail@), ..self@ }),
    {
        DaemonLifecycleSnapshot { detail: Some(detail.to_owned()), ..self }
    }

    /// The same with another process.
    pub fn with_managed_pid(self, managed_pid: Option<u32>) -> (result: Self)
        ensures
            result@ == (SnapshotModel { managed_pid, ..self@ }),
    {
        DaemonLifecycleSnapshot { managed_pid, ..self }
    }

    /// The same with the word of an earlier crash.
    pub fn with_previous_crash(self, previous_crash: Option<DaemonCrashMarker>) -> (result: Self)
        ensures
            result@ == (SnapshotModel { previous_crash, ..self@ }),
    {
        DaemonLifecycleSnapshot { previous_crash, ..self }
    }
}

/// An optional process id: the id, or null.
pub open spec fn optional_pid_model(pid: Option<u32>) -> JsonModel {
    match pid {
        Some(pid) => JsonModel::Unsigned(pid as u64),
        None => JsonModel::Null,
    }
}

/// An optional status: what it is written as, or null.
pub open spec fn optional_status_model(status: Option<DaemonStatus>) -> JsonModel {
    match status {
        Some(status) => status.json(),
        None => JsonModel::Null,
    }
}

/// A copy of a JSON value.
pub fn copy_json(value: &JsonValue) -> (result: JsonValue)
    ensures
        result@ == value@,
    decreases *value,
{
    match value {
        JsonValue::Null => JsonValue::Null,
        JsonValue::Bool(b) => JsonValue::Bool(*b),
        JsonValue::Unsigned(n) => JsonValue::Unsigned(*n),
        JsonValue::Negative(n) => JsonValue::Negative(*n),
        JsonValue::Fraction(text) => JsonValue::Fraction(text.clone()),
        JsonValue::Text(text) => JsonValue::Text(text.clone()),
        JsonValue::Array(items) => {
            let mut copies: Vec<JsonValue> = Vec::new();
            let mut i: usize = 0;
            while i < items.len()
                invariant
                    i <= items@.len(),
                    copies@.len() == i,
                    *value == JsonValue::Array(*items),
                    forall|k: int| 0 <= k < i ==> (#[trigger] copies@[k])@ == items@[k]@,
                decreases items@.len() - i,
            {
                proof {
                    assert(decreases_to!(*value => value->Array_0));
                    assert(decreases_to!(*items => items@));
                    assert(decreases_to!(items@ => items@[i as int]));
                }
                copies.push(copy_json(&items[i]));
                i = i + 1;
            }
            let result = JsonValue::Array(copies);
            proof {
                assert(result@->Array_0 =~= value@->Array_0);
            }
            result
        },
        JsonValue::Object(entries) => {
            let mut copies: Vec<(String, JsonValue)> = Vec::new();
            let mut i: usize = 0;
            while i < entries.len()
                invariant
                    i <= entries@.len(),
                    copies@.len() == i,
                    *value == JsonValue::Object(*entries),
                    forall|k: int|
                        0 <= k < i ==> (#[trigger] copies@[k]).0@ == entries@[k].0@ && copies@[k].1@
                            == entries@[k].1@,
                decreases entries@.len() - i,
            {
                proof {
                    assert(decreases_to!(*value => value->Object_0));
                    assert(decreases_to!(*entries => entries@));
                    assert(decreases_to!(entries@ => entries@[i as int]));
                    assert(decreases_to!(entries@[i as int] => entries@[i as int].1));
                }
                copies.push((entries[i].0.clone(), copy_json(&entries[i].1)));
                i = i + 1;
            }
            let result = JsonValue::Object(copies);
            proof {
                assert(result@->Object_0 =~= value@->Object_0);
            }
            result
        },
    }
}

impl ToJson for DaemonLifecycleSnapshot {
    open spec fn json(&self) -> JsonModel {
        let known = seq![
            ("phase"@, self.phase.json()),
            ("status"@, optional_status_model(self.status)),
            ("detail"@, crate::json::optional_text_model(self.detail)),
            ("managedPid"@, optional_pid_model(self.managed_pid)),
        ];
        JsonModel::Object(
            match self.previous_crash {
                Some(crash) => known.push(("previousCrash"@, crash.json())),
                None => known,
            },
        )
    }

    fn to_json(&self) -> (result: JsonValue) {
        let status = match &self.status {
            Some(status) => status.to_json(),
            None => JsonValue::Null,
        };
        let pid = match self.managed_pid {
            Some(pid) => JsonValue::Unsigned(pid as u64),
            None => JsonValue::Null,
        };
        let known = JsonObject::new().with("phase", self.phase.to_json()).with(
            "status",
            status,
        ).with("detail", json_optional_text(&self.detail)).with("managedPid", pid);
        let result = match &self.previous_crash {
            Some(crash) => known.with("previousCrash", crash.to_json()).done(),
            None => known.done(),
        };
        proof {
            assert(result@->Object_0 =~= self.json()->Object_0);
        }
        result
    }
}

/// How the daemon came to stop.
#[derive(Debug, Clone, Copy, PartialEq, Eq, Structural)]
pub enum DaemonStopMethod {
    GracefulShutdown,
    ForcedKill,
    Unmanaged,
}

impl ToJson for DaemonStopMethod {
    open spec fn json(&self) -> JsonModel {
        JsonModel::Text(
            match self {
                DaemonStopMethod::GracefulShutdown => "graceful_shutdown"@,
                DaemonStopMethod::ForcedKill => "forced_kill"@,
                DaemonStopMethod::Unmanaged => "unmanaged"@,
            },
        )
    }

    fn to_json(&self) -> (result: JsonValue) {
        match self {
            DaemonStopMethod::GracefulShutdown => json_string("graceful_shutdown"),
            DaemonStopMethod::ForcedKill => json_string("forced_kill"),
            DaemonStopMethod::Unmanaged => json_string("unmanaged"),
        }
    }
}

/// What came of stopping the daemon.
#[derive(Debug, PartialEq, Eq)]
pub struct DaemonStopOutcome {
    pub snapshot: DaemonLifecycleSnapshot,
    pub method: DaemonStopMethod,
    pub shutdown: Option<DaemonShutdownResult>,
}

impl DaemonStopOutcome {
    pub fn new(
        snapshot: DaemonLifecycleSnapshot,
        method: DaemonStopMethod,
        shutdown: Option<DaemonShutdownResult>,
    ) -> (result: Self)
        ensures
            result == (DaemonStopOutcome { snapshot, method, shutdown }),
    {
        DaemonStopOutcome { snapshot, method, shutdown }
    }

    /// The daemon stopped because it was asked to.
    pub fn graceful(snapshot: DaemonLifecycleSnapshot, shutdown: DaemonShutdownResult) -> (result:
        Self)
        ensures
            result == (DaemonStopOutcome {
                snapshot,
                method: DaemonStopMethod::GracefulShutdown,
                shutdown: Some(shutdown),
            }),
    {
        DaemonStopOutcome::new(snapshot, DaemonStopMethod::GracefulShutdown, Some(shutdown))
    }

    /// The daemon's process was ended.
    pub fn forced(
        snapshot: DaemonLifecycleSnapshot,
        shutdown: Option<DaemonShutdownResult>,
    ) -> (result: Self)
        ensures
            result == (DaemonStopOutcome {
                snapshot,
                method: DaemonStopMethod::ForcedKill,
                shutdown,
            }),
    {
        DaemonStopOutcome::new(snapshot, DaemonStopMethod::ForcedKill, shutdown)
    }

    /// The daemon is not the application's to stop.
    pub fn unmanaged(snapshot: DaemonLifecycleSnapshot) -> (result: Self)
        ensures
            result == (DaemonStopOutcome {
                snapshot,
                method: DaemonStopMethod::Unmanaged,
                shutdown: None,
            }),
    {
        DaemonStopOutcome::new(snapshot, DaemonStopMethod::Unmanaged, None)
    }
}

/// A call of the daemon that came to nothing.
#[derive(Debug, PartialEq, Eq)]
pub enum DaemonCallFailure {
    NotRunning(String),
    Unreachable(String),
    Failed(String),
}

impl DaemonCallFailure {
    /// Why the call came to nothing.
    pub open spec fn reason(self) -> Seq<char> {
        match self {
            DaemonCallFailure::NotRunning(detail) => detail@,
            DaemonCallFailure::Unreachable(detail) => detail@,
            DaemonCallFailure::Failed(detail) => detail@,
        }
    }

    /// What the call tells of the daemon.
    pub open spec fn phase(self) -> DaemonLifecyclePhase {
        match self {
            DaemonCallFailure::NotRunning(_) => DaemonLifecyclePhase::NotRunning,
            DaemonCallFailure::Unreachable(_) => DaemonLifecyclePhase::Unreachable,
            DaemonCallFailure::Failed(_) => DaemonLifecyclePhase::Failed,
        }
    }

    /// What the call tells of the daemon.
    pub fn into_snapshot(self) -> (result: DaemonLifecycleSnapshot)
        ensures
            result@ == no_status(self.phase(), self.reason()),
    {
        match self {
            DaemonCallFailure::NotRunning(detail) => {
                DaemonLifecycleSnapshot::not_running(detail.as_str())
            },
            DaemonCallFailure::Unreachable(detail) => {
                DaemonLifecycleSnapshot::unreachable(detail.as_str())
            },
            DaemonCallFailure::Failed(detail) => DaemonLifecycleSnapshot::failed(detail.as_str()),
        }
    }

    /// Why the call came to nothing.
    pub fn to_user_message(&self) -> (result: String)
        ensures
            result@ == self.reason(),
    {
        match self {
            DaemonCallFailure::NotRunning(detail) => detail.clone(),
            DaemonCallFailure::Unreachable(detail) => detail.clone(),
            DaemonCallFailure::Failed(detail) => detail.clone(),
        }
    }
}

/// What a failed call tells of the daemon: an endpoint that is not there has no daemon behind it, one
/// that breaks off has.
pub open spec fn call_failure_told(
    error: IpcCallError,
    called: IpcEndpoint,
    failure: DaemonCallFailure,
) -> bool {
    match error {
        IpcCallError::Transport {
            source: IpcTransportError::EndpointUnavailable { endpoint, message },
        } => failure is NotRunning && failure.reason() == "akraz-daemon is not running at "@
            + endpoint.address@ + ". Details: "@ + message@,
        IpcCallError::Transport { source: IpcTransportError::RequestFailed { message } } => {
            failure is Unreachable && failure.reason() == "akraz-daemon accepted a connection at "@
                + called.address@ + ", but did not answer correctly. Details: "@ + message@
        },
        IpcCallError::Encode { source } => failure is Failed && failure.reason()
            == "failed to encode daemon IPC request: "@ + source.text(),
    }
}

/// Say what a failed call tells of the daemon.
pub fn classify_daemon_call_error(error: &IpcCallError, fallback_endpoint: &IpcEndpoint) -> (result:
    DaemonCallFailure)
    ensures
        call_failure_told(*error, *fallback_endpoint, result),
{
    match error {
        IpcCallError::Transport {
            source: IpcTransportError::EndpointUnavailable { endpoint, message },
        } => DaemonCallFailure::NotRunning(
            "akraz-daemon is not running at ".to_owned().concat(endpoint.address.as_str()).concat(
                ". Details: ",
            ).concat(message.as_str()),
        ),
        IpcCallError::Transport { source: IpcTransportError::RequestFailed { message } } => {
            DaemonCallFailure::Unreachable(
                "akraz-daemon accepted a connection at ".to_owned().concat(
                    fallback_endpoint.address.as_str(),
                ).concat(", but did not answer correctly. Details: ").concat(message.as_str()),
            )
        },
        IpcCallError::Encode { source } => DaemonCallFailure::Failed(
            "failed to encode daemon IPC request: ".to_owned().concat(source.message().as_str()),
        ),
    }
}

/// The endpoint to call, or why there is none.
pub fn default_daemon_endpoint(resolved: Result<IpcEndpoint, IpcEndpointError>) -> (result: Result<
    IpcEndpoint,
    DaemonCallFailure,
>)
    ensures
        match resolved {
            Ok(endpoint) => result == Ok::<IpcEndpoint, DaemonCallFailure>(endpoint),
            Err(error) => result matches Err(failure) && failure is Failed && failure.reason()
                == error.text(),
        },
{
    match resolved {
        Ok(endpoint) => Ok(endpoint),
        Err(error) => Err(DaemonCallFailure::Failed(error.message())),
    }
}

/// What is known of the daemon after it was asked for its status.
pub open spec fn seen(answer: Result<DaemonStatus, DaemonCallFailure>) -> SnapshotModel {
    match answer {
        Ok(status) => runs(status, None),
        Err(failure) => no_status(failure.phase(), failure.reason()),
    }
}

/// What is known of the daemon after it was asked for its status.
pub fn read_daemon_snapshot(answer: Result<DaemonStatus, DaemonCallFailure>) -> (result:
    DaemonLifecycleSnapshot)
    ensures
        result@ == seen(answer),
{
    match answer {
        Ok(status) => DaemonLifecycleSnapshot::running(status, None),
        Err(failure) => failure.into_snapshot(),
    }
}

/// What a user is told who asked for something: the daemon's status, or what went wrong.
pub fn snapshot_after_call(
    called: Result<(), String>,
    answer: Result<DaemonStatus, DaemonCallFailure>,
) -> (result: Result<DaemonLifecycleSnapshot, String>)
    ensures
        match called {
            Err(refused) => result matches Err(message) && message@ == refused@,
            Ok(_) => match answer {
                Ok(status) => result matches Ok(snapshot) && snapshot@ == runs(status, None),
                Err(failure) => result matches Err(message) && message@ == failure.reason(),
            },
        },
{
    match called {
        Err(refused) => Err(refused),
        Ok(_) => match answer {
            Ok(status) => Ok(DaemonLifecycleSnapshot::running_without_managed_pid(status)),
            Err(failure) => Err(failure.to_user_message()),
        },
    }
}

/// What a line of the daemon is.
#[derive(Debug, Clone, Copy, PartialEq, Eq, Structural)]
pub enum ResponseKind {
    Failure,
    Success,
}

/// What a line of the daemon is, or why it is nothing.
pub open spec fn response_kind(line: Seq<char>) -> Result<ResponseKind, Seq<char>> {
    match crate::json::json_parsed(crate::text::trim_end(line)) {
        Err(error) => Err("daemon returned invalid JSON: "@ + error),
        Ok(value) => if crate::json::field(value, "error"@) is Some {
            Ok(ResponseKind::Failure)
        } else {
            Ok(ResponseKind::Success)
        },
    }
}

/// What a line of the daemon is.
pub fn sort_response(response_line: &str) -> (result: Result<ResponseKind, String>)
    ensures
        match result {
            Ok(kind) => response_kind(response_line@) == Ok::<ResponseKind, Seq<char>>(kind),
            Err(message) => response_kind(response_line@) == Err::<ResponseKind, Seq<char>>(
                message@,
            ),
        },
{
    match decode_json(trimmed_end(response_line)) {
        Err(error) => Err("daemon returned invalid JSON: ".to_owned().concat(error.as_str())),
        Ok(value) => {
            if value.get("error").is_some() {
                Ok(ResponseKind::Failure)
            } else {
                Ok(ResponseKind::Success)
            }
        },
    }
}

/// What a failure of the daemon tells a user: its message, or that it could not be read.
pub fn failure_message(decoded: Result<JsonRpcFailure, String>) -> (result: String)
    ensures
        result@ == (match decoded {
            Ok(failure) => failure.error.message@,
            Err(error) => "daemon returned an invalid error response: "@ + error@,
        }),
{
    match decoded {
        Ok(failure) => failure.error.message,
        Err(error) => "daemon returned an invalid error response: ".to_owned().concat(
            error.as_str(),
        ),
    }
}

/// Why a success is no answer to a request of the application: it could not be read, it speaks another
/// version, or it answers another request.
pub open spec fn success_refusal<T>(
    decoded: Result<JsonRpcSuccess<T>, String>,
    label: Seq<char>,
) -> Option<Seq<char>> {
    match decoded {
        Err(error) => Some(
            "daemon returned an invalid "@ + label + " response: "@ + error@,
        ),
        Ok(success) => if success.jsonrpc@ != JSONRPC_VERSION@ {
            Some("daemon returned unsupported JSON-RPC version: "@ + success.jsonrpc@)
        } else if success.id@ != LOCAL_REQUEST_ID@ {
            Some("daemon returned unexpected response id: "@ + success.id@)
        } else {
            None
        },
    }
}

/// The result of a success, where it answers a request of the application.
pub fn success_result<T>(decoded: Result<JsonRpcSuccess<T>, String>, label: &str) -> (result:
    Result<T, String>)
    ensures
        match success_refusal(decoded, label@) {
            Some(refused) => result matches Err(message) && message@ == refused,
            None => result == Ok::<T, String>(decoded->Ok_0.result),
        },
{
    match decoded {
        Err(error) => Err(
            "daemon returned an invalid ".to_owned().concat(label).concat(" response: ").concat(
                error.as_str(),
            ),
        ),
        Ok(success) => {
            if !same(success.jsonrpc.as_str(), JSONRPC_VERSION) {
                return Err(
                    "daemon returned unsupported JSON-RPC version: ".to_owned().concat(
                        success.jsonrpc.as_str(),
                    ),
                );
            }
            if !same(success.id.as_str(), LOCAL_REQUEST_ID) {
                return Err(
                    "daemon returned unexpected response id: ".to_owned().concat(
                        success.id.as_str(),
                    ),
                );
            }
            Ok(success.result)
        },
    }
}

/// What a line of the daemon answers. Of the two readings of the line the one counts that fits it.
pub fn parse_json_rpc_response<T>(
    response_line: &str,
    label: &str,
    failure: Result<JsonRpcFailure, String>,
    success: Result<JsonRpcSuccess<T>, String>,
) -> (result: Result<T, String>)
    ensures
        match response_kind(response_line@) {
            Err(refused) => result matches Err(message) && message@ == refused,
            Ok(ResponseKind::Failure) => result matches Err(message) && message@ == (match failure {
                Ok(failure) => failure.error.message@,
                Err(error) => "daemon returned an invalid error response: "@ + error@,
            }),
            Ok(ResponseKind::Success) => match success_refusal(success, label@) {
                Some(refused) => result matches Err(message) && message@ == refused,
                None => result == Ok::<T, String>(success->Ok_0.result),
            },
        },
{
    match sort_response(response_line) {
        Err(message) => Err(message),
        Ok(ResponseKind::Failure) => Err(failure_message(failure)),
        Ok(ResponseKind::Success) => success_result(success, label),
    }
}

/// What was found where the daemon leaves word of a crash: no file, one that cannot be read, or one that
/// was read and decoded, with the decoder's words where it holds no such word.
pub enum CrashFile {
    Missing,
    Unreadable(String),
    Read(Result<DaemonCrashMarker, String>),
}

/// The word that the daemon left of a crash, if it left any.
pub fn read_previous_daemon_crash(path: &str, file: CrashFile) -> (result: Result<
    Option<DaemonCrashMarker>,
    String,
>)
    ensures
        match file {
            CrashFile::Missing => result == Ok::<Option<DaemonCrashMarker>, String>(None),
            CrashFile::Unreadable(cause) => result matches Err(message) && message@
                == "failed to read previous daemon crash marker "@ + path@ + ": "@ + cause@,
            CrashFile::Read(Ok(marker)) => result == Ok::<Option<DaemonCrashMarker>, String>(
                Some(marker),
            ),
            CrashFile::Read(Err(cause)) => result matches Err(message) && message@
                == "failed to parse previous daemon crash marker: "@ + cause@,
        },
{
    match file {
        CrashFile::Missing => Ok(None),
        CrashFile::Unreadable(cause) => Err(
            "failed to read previous daemon crash marker ".to_owned().concat(path).concat(
                ": ",
            ).concat(cause.as_str()),
        ),
        CrashFile::Read(Ok(marker)) => Ok(Some(marker)),
        CrashFile::Read(Err(cause)) => Err(
            "failed to parse previous daemon crash marker: ".to_owned().concat(cause.as_str()),
        ),
    }
}

/// A process that the application started.
#[derive(Debug, PartialEq, Eq)]
pub struct ManagedDaemonChild<C> {
    pub pid: u32,
    pub handle: C,
}

/// The process that the application started, if it is still known.
#[derive(Debug, PartialEq, Eq)]
pub struct DaemonProcessState<C> {
    pub child: Option<ManagedDaemonChild<C>>,
}

/// What came of a newly started process.
#[derive(Debug, PartialEq, Eq)]
pub enum StoreOutcome<C> {
    /// It is the application's now.
    Stored { pid: u32 },
    /// An earlier one still runs: the new one has to go.
    Superseded { child: ManagedDaemonChild<C>, existing_pid: u32 },
}

impl<C> DaemonProcessState<C> {
    /// No process was started.
    pub fn new() -> (result: Self)
        ensures
            result.child is None,
    {
        DaemonProcessState { child: None }
    }

    /// The process that runs, given whether the known one does. One that has ended is forgotten.
    pub fn managed_daemon_pid(&mut self, running: bool) -> (result: Option<u32>)
        ensures
            match old(self).child {
                Some(child) => if running {
                    result == Some(child.pid) && *final(self) == *old(self)
                } else {
                    result is None && final(self).child is None
                },
                None => result is None && final(self).child is None,
            },
    {
        let pid = match &self.child {
            Some(child) => {
                if running {
                    Some(child.pid)
                } else {
                    None
                }
            },
            None => None,
        };
        if pid.is_none() {
            self.child = None;
        }
        pid
    }

    /// Take a newly started process, given whether an earlier one still runs.
    pub fn store_managed_child(&mut self, child: ManagedDaemonChild<C>, existing_running: bool) -> (
    result: StoreOutcome<C>)
        ensures
            if old(self).child is Some && existing_running {
                &&& *final(self) == *old(self)
                &&& result == (StoreOutcome::Superseded {
                    child,
                    existing_pid: old(self).child->Some_0.pid,
                })
            } else {
                &&& final(self).child == Some(child)
                &&& result == (StoreOutcome::<C>::Stored { pid: child.pid })
            },
    {
        let existing = match &self.child {
            Some(existing) => {
                if existing_running {
                    Some(existing.pid)
                } else {
                    None
                }
            },
            None => None,
        };
        match existing {
            Some(existing_pid) => StoreOutcome::Superseded { child, existing_pid },
            None => {
                let pid: u32 = child.pid;
                self.child = Some(child);
                StoreOutcome::Stored { pid }
            },
        }
    }

    /// Give the process away, given whether it runs. Afterwards none is known.
    pub fn take_managed_child(&mut self, running: bool) -> (result: Option<ManagedDaemonChild<C>>)
        ensures
            final(self).child is None,
            result == (if running {
                old(self).child
            } else {
                None
            }),
    {
        let child = self.child.take();
        if running {
            child
        } else {
            None
        }
    }

    /// Forget the process.
    pub fn clear_managed_child(&mut self)
        ensures
            final(self).child is None,
    {
        self.child = None;
    }

    /// Forget the process if it is this one.
    pub fn clear_managed_child_if_pid(&mut self, pid: u32)
        ensures
            if old(self).child matches Some(child) && child.pid == pid {
                final(self).child is None
            } else {
                *final(self) == *old(self)
            },
    {
        let known = match &self.child {
            Some(child) => child.pid == pid,
            None => false,
        };
        if known {
            self.child = None;
        }
    }
}

/// What is known of a daemon says what was found out: one that answered runs and its status is known,
/// and one that did not is in the phase that it was seen in, with the reason.
pub proof fn a_snapshot_says_what_was_found_out(
    status: DaemonStatus,
    pid: Option<u32>,
    detail: &str,
    running: DaemonLifecycleSnapshot,
    unmanaged: DaemonLifecycleSnapshot,
    absent: DaemonLifecycleSnapshot,
    starting: DaemonLifecycleSnapshot,
    unreachable: DaemonLifecycleSnapshot,
    failed: DaemonLifecycleSnapshot,
)
    requires
        call_ensures(DaemonLifecycleSnapshot::running, (status, pid), running),
        call_ensures(DaemonLifecycleSnapshot::running_without_managed_pid, (status,), unmanaged),
        call_ensures(DaemonLifecycleSnapshot::not_running, (detail,), absent),
        call_ensures(DaemonLifecycleSnapshot::starting, (detail, pid), starting),
        call_ensures(DaemonLifecycleSnapshot::unreachable, (detail,), unreachable),
        call_ensures(DaemonLifecycleSnapshot::failed, (detail,), failed),
    ensures
        running.phase is Running && running.status == Some(status) && running.managed_pid == pid
            && running.detail is None && running.previous_crash is None,
        unmanaged.phase is Running && unmanaged.status == Some(status) && unmanaged.managed_pid
            is None,
        absent.phase is NotRunning && absent.status is None && absent.managed_pid is None,
        absent.detail is Some && absent.detail->Some_0@ == detail@,
        starting.phase is Starting && starting.status is None && starting.managed_pid == pid,
        starting.detail is Some && starting.detail->Some_0@ == detail@,
        unreachable.phase is Unreachable && unreachable.status is None,
        unreachable.detail is Some && unreachable.detail->Some_0@ == detail@,
        failed.phase is Failed && failed.status is None,
        failed.detail is Some && failed.detail->Some_0@ == detail@,
{
}

/// What is added to a snapshot is there afterwards, and everything else stays as it was.
pub proof fn additions_leave_the_rest_alone(
    snapshot: DaemonLifecycleSnapshot,
    detail: &str,
    pid: Option<u32>,
    crash: Option<DaemonCrashMarker>,
    detailed: DaemonLifecycleSnapshot,
    managed: DaemonLifecycleSnapshot,
    crashed: DaemonLifecycleSnapshot,
)
    requires
        call_ensures(DaemonLifecycleSnapshot::with_detail, (snapshot, detail), detailed),
        call_ensures(DaemonLifecycleSnapshot::with_managed_pid, (snapshot, pid), managed),
        call_ensures(DaemonLifecycleSnapshot::with_previous_crash, (snapshot, crash), crashed),
    ensures
        detailed.detail is Some && detailed.detail->Some_0@ == detail@,
        detailed.phase == snapshot.phase,
        detailed.status == snapshot.status,
        detailed.managed_pid == snapshot.managed_pid,
        detailed.previous_crash == snapshot.previous_crash,
        managed.managed_pid == pid,
        managed.phase == snapshot.phase,
        managed.status == snapshot.status,
        managed.detail is Some <==> snapshot.detail is Some,
        snapshot.detail matches Some(text) ==> managed.detail->Some_0@ == text@,
        managed.previous_crash == snapshot.previous_crash,
        crashed.previous_crash == crash,
        crashed.phase == snapshot.phase,
        crashed.status == snapshot.status,
        crashed.managed_pid == snapshot.managed_pid,
        crashed.detail is Some <==> snapshot.detail is Some,
        snapshot.detail matches Some(text) ==> crashed.detail->Some_0@ == text@,
{
}

/// Phases and ways of stopping are written by their names, and no two by the same.
pub proof fn phases_are_written_by_name(
    phase: DaemonLifecyclePhase,
    name: &'static str,
    method: DaemonStopMethod,
)
    requires
        call_ensures(phase_name, (phase,), name),
    ensures
        phase is NotRunning ==> phase.json() == JsonModel::Text("not_running"@) && name@
            == "NotRunning"@,
        phase is Starting ==> phase.json() == JsonModel::Text("starting"@) && name@ == "Starting"@,
        phase is Running ==> phase.json() == JsonModel::Text("running"@) && name@ == "Running"@,
        phase is Unreachable ==> phase.json() == JsonModel::Text("unreachable"@) && name@
            == "Unreachable"@,
        phase is Failed ==> phase.json() == JsonModel::Text("failed"@) && name@ == "Failed"@,
        method is GracefulShutdown ==> method.json() == JsonModel::Text("graceful_shutdown"@),
        method is ForcedKill ==> method.json() == JsonModel::Text("forced_kill"@),
        method is Unmanaged ==> method.json() == JsonModel::Text("unmanaged"@),
{
}

/// What is written of a snapshot and of a crash says what they hold.
pub proof fn written_snapshots_say_what_is_known(
    snapshot: DaemonLifecycleSnapshot,
    crash: DaemonCrashMarker,
)
    ensures
        ({
            let members = snapshot.json()->Object_0;
            &&& members.contains(("phase"@, snapshot.phase.json()))
            &&& snapshot.status matches Some(status) ==> members.contains(
                ("status"@, status.json()),
            )
            &&& snapshot.status is None ==> members.contains(("status"@, JsonModel::Null))
            &&& snapshot.detail matches Some(detail) ==> members.contains(
                ("detail"@, JsonModel::Text(detail@)),
            )
            &&& snapshot.detail is None ==> members.contains(("detail"@, JsonModel::Null))
            &&& snapshot.managed_pid matches Some(pid) ==> members.contains(
                ("managedPid"@, JsonModel::Unsigned(pid as u64)),
            )
            &&& snapshot.managed_pid is None ==> members.contains(("managedPid"@, JsonModel::Null))
            &&& snapshot.previous_crash is None ==> members.len() == 4
            &&& snapshot.previous_crash matches Some(crash) ==> members.len() == 5
                && members.contains(("previousCrash"@, crash.json()))
        }),
        crate::snapshot::says(
            crash.json(),
            8,
            "schemaVersion"@,
            JsonModel::Text(crash.schema_version@),
        ),
        crate::snapshot::says(crash.json(), 8, "processRole"@, JsonModel::Text(crash.process_role@)),
        crate::snapshot::says(
            crash.json(),
            8,
            "daemonVersion"@,
            JsonModel::Text(crash.daemon_version@),
        ),
        crate::snapshot::says(crash.json(), 8, "reason"@, JsonModel::Text(crash.reason@)),
        crate::snapshot::says(
            crash.json(),
            8,
            "panicMessageClass"@,
            JsonModel::Text(crash.panic_message_class@),
        ),
        crate::snapshot::says(
            crash.json(),
            8,
            "recordedAtUnixMillis"@,
            JsonModel::Unsigned(crash.recorded_at_unix_millis),
        ),
        crate::snapshot::says(crash.json(), 8, "privacy"@, crash.privacy@),
{
    let members = snapshot.json()->Object_0;
    assert(members[0] == ("phase"@, snapshot.phase.json()));
    assert(members[1] == ("status"@, optional_status_model(snapshot.status)));
    assert(members[2] == ("detail"@, crate::json::optional_text_model(snapshot.detail)));
    assert(members[3] == ("managedPid"@, optional_pid_model(snapshot.managed_pid)));
    if let Some(crash) = snapshot.previous_crash {
        assert(members[4] == ("previousCrash"@, crash.json()));
    }
    let parts = crash.json()->Object_0;
    assert(parts[0] == ("schemaVersion"@, JsonModel::Text(crash.schema_version@)));
    assert(parts[1] == ("processRole"@, JsonModel::Text(crash.process_role@)));
    assert(parts[2] == ("daemonVersion"@, JsonModel::Text(crash.daemon_version@)));
    assert(parts[3] == ("reason"@, JsonModel::Text(crash.reason@)));
    assert(parts[4] == ("panicMessageClass"@, JsonModel::Text(crash.panic_message_class@)));
    assert(parts[6] == (
        "recordedAtUnixMillis"@,
        JsonModel::Unsigned(crash.recorded_at_unix_millis),
    ));
    assert(parts[7] == ("privacy"@, crash.privacy@));
}

/// A call that failed tells of the daemon: behind an endpoint that is not there no daemon runs, and one
/// that broke off cannot be reached. What is known afterwards is in that phase and gives the reason.
pub proof fn a_failed_call_tells_of_the_daemon(
    error: IpcCallError,
    endpoint: IpcEndpoint,
    failure: DaemonCallFailure,
    told: String,
    snapshot: DaemonLifecycleSnapshot,
)
    requires
        call_ensures(classify_daemon_call_error, (&error, &endpoint), failure),
        call_ensures(DaemonCallFailure::to_user_message, (&failure,), told),
        call_ensures(DaemonCallFailure::into_snapshot, (failure,), snapshot),
    ensures
        error matches IpcCallError::Transport {
            source: IpcTransportError::EndpointUnavailable { endpoint: gone, message },
        } ==> {
            &&& snapshot.phase is NotRunning
            &&& told@ == "akraz-daemon is not running at "@ + gone.address@ + ". Details: "@
                + message@
        },
        error matches IpcCallError::Transport {
            source: IpcTransportError::RequestFailed { message },
        } ==> {
            &&& snapshot.phase is Unreachable
            &&& told@ == "akraz-daemon accepted a connection at "@ + endpoint.address@
                + ", but did not answer correctly. Details: "@ + message@
        },
        error is Encode ==> snapshot.phase is Failed,
        snapshot.detail is Some && snapshot.detail->Some_0@ == told@,
        snapshot.status is None,
        snapshot.managed_pid is None,
{
}

/// What is known after asking for the status is what the daemon answered, or why it did not. A call
/// that was refused is told as it was refused, whatever the status.
pub proof fn what_is_known_is_what_was_answered(
    answer: Result<DaemonStatus, DaemonCallFailure>,
    seen: DaemonLifecycleSnapshot,
    called: Result<(), String>,
    after: Result<DaemonLifecycleSnapshot, String>,
    resolved: Result<IpcEndpoint, IpcEndpointError>,
    endpoint: Result<IpcEndpoint, DaemonCallFailure>,
)
    requires
        call_ensures(read_daemon_snapshot, (answer,), seen),
        call_ensures(snapshot_after_call, (called, answer), after),
        call_ensures(default_daemon_endpoint, (resolved,), endpoint),
    ensures
        answer matches Ok(status) ==> seen.phase is Running && seen.status == Some(status),
        answer matches Err(DaemonCallFailure::NotRunning(why)) ==> seen.phase is NotRunning
            && seen.status is None && seen.detail->Some_0@ == why@,
        answer matches Err(DaemonCallFailure::Unreachable(why)) ==> seen.phase is Unreachable
            && seen.status is None && seen.detail->Some_0@ == why@,
        answer matches Err(DaemonCallFailure::Failed(why)) ==> seen.phase is Failed && seen.status
            is None && seen.detail->Some_0@ == why@,
        called matches Err(refused) ==> after is Err && after->Err_0@ == refused@,
        called is Ok && answer is Ok ==> after is Ok && after->Ok_0.phase is Running
            && after->Ok_0.status == Some(answer->Ok_0),
        called is Ok && answer is Err ==> after is Err,
        resolved matches Ok(known) ==> endpoint is Ok && endpoint->Ok_0 == known,
        resolved matches Err(error) ==> endpoint is Err && endpoint->Err_0 is Failed
            && endpoint->Err_0->Failed_0@ == error.text(),
{
}

/// An answer of the daemon is taken where it answers the application's own request in the version that
/// is spoken, and a refusal is told in the daemon's words. A line with an error is never taken for a
/// success.
pub proof fn only_answers_to_own_requests_are_taken<T>(
    line: &str,
    label: &str,
    failure: Result<JsonRpcFailure, String>,
    success: Result<JsonRpcSuccess<T>, String>,
    result: Result<T, String>,
)
    requires
        call_ensures(parse_json_rpc_response::<T>, (line, label, failure, success), result),
    ensures
        result matches Ok(value) ==> {
            &&& success is Ok
            &&& success->Ok_0.result == value
            &&& success->Ok_0.jsonrpc@ == "2.0"@
            &&& success->Ok_0.id@ == "tauri"@
            &&& crate::json::json_parsed(crate::text::trim_end(line@)) is Ok
            &&& crate::json::field(
                crate::json::json_parsed(crate::text::trim_end(line@))->Ok_0,
                "error"@,
            ) is None
        },
        crate::json::json_parsed(crate::text::trim_end(line@)) is Ok && crate::json::field(
            crate::json::json_parsed(crate::text::trim_end(line@))->Ok_0,
            "error"@,
        ) is None && success is Ok && success->Ok_0.jsonrpc@ == "2.0"@ && success->Ok_0.id@
            == "tauri"@ ==> result is Ok,
        crate::json::json_parsed(crate::text::trim_end(line@)) is Ok && crate::json::field(
            crate::json::json_parsed(crate::text::trim_end(line@))->Ok_0,
            "error"@,
        ) is Some && failure is Ok ==> result is Err && result->Err_0@
            == failure->Ok_0.error.message@,
{
}

/// Word of a crash is told where there is any, none where there is none, and it is an error where it
/// cannot be read.
pub proof fn word_of_a_crash_is_told(
    path: &str,
    file: CrashFile,
    result: Result<Option<DaemonCrashMarker>, String>,
)
    requires
        call_ensures(read_previous_daemon_crash, (path, file), result),
    ensures
        file is Missing <==> result == Ok::<Option<DaemonCrashMarker>, String>(None),
        file matches CrashFile::Read(Ok(marker)) ==> result is Ok && result->Ok_0 == Some(marker),
        file matches CrashFile::Unreadable(cause) ==> result is Err && result->Err_0@
            == "failed to read previous daemon crash marker "@ + path@ + ": "@ + cause@,
        file matches CrashFile::Read(Err(cause)) ==> result is Err && result->Err_0@
            == "failed to parse previous daemon crash marker: "@ + cause@,
{
}

/// The application keeps one process: the first one that still runs. A new one is kept where there is
/// no other, and handed back where there is.
pub proof fn one_process_is_kept<C>(
    state: &mut DaemonProcessState<C>,
    child: ManagedDaemonChild<C>,
    existing_running: bool,
    stored: StoreOutcome<C>,
    later: &mut DaemonProcessState<C>,
    running: bool,
    pid: Option<u32>,
)
    requires
        call_ensures(
            DaemonProcessState::<C>::store_managed_child,
            (state, child, existing_running),
            stored,
        ),
        *old(later) == *final(state),
        call_ensures(DaemonProcessState::<C>::managed_daemon_pid, (later, running), pid),
    ensures
        old(state).child is None || !existing_running ==> {
            &&& stored is Stored && stored->Stored_pid == child.pid
            &&& running ==> pid == Some(child.pid) && final(later).child == Some(child)
        },
        old(state).child is Some && existing_running ==> {
            &&& stored is Superseded
            &&& stored->Superseded_child == child
            &&& stored->Superseded_existing_pid == old(state).child->Some_0.pid
            &&& running ==> pid == Some(old(state).child->Some_0.pid) && final(later).child
                == old(state).child
        },
        !running ==> pid is None && final(later).child is None,
{
}

/// A process is given up once: taking it hands it over while it runs and leaves none behind. Clearing
/// by its number clears that process and no other.
pub proof fn a_process_is_given_up_once<C>(
    state: &mut DaemonProcessState<C>,
    running: bool,
    taken: Option<ManagedDaemonChild<C>>,
    other: &mut DaemonProcessState<C>,
    pid: u32,
    cleared: &mut DaemonProcessState<C>,
    fresh: DaemonProcessState<C>,
)
    requires
        call_ensures(DaemonProcessState::<C>::take_managed_child, (state, running), taken),
        call_ensures(DaemonProcessState::<C>::clear_managed_child_if_pid, (other, pid), ()),
        call_ensures(DaemonProcessState::<C>::clear_managed_child, (cleared,), ()),
        call_ensures(DaemonProcessState::<C>::new, (), fresh),
    ensures
        final(state).child is None,
        running ==> taken == old(state).child,
        !running ==> taken is None,
        old(other).child is Some && old(other).child->Some_0.pid == pid ==> final(other).child
            is None,
        old(other).child is Some && old(other).child->Some_0.pid != pid ==> final(other).child
            == old(other).child,
        old(other).child is None ==> final(other).child is None,
        final(cleared).child is None,
        fresh.child is None,
{
}

/// A line of the daemon tells of an error just where it has one, and nothing is made of a line that is
/// no JSON.
pub proof fn a_line_with_an_error_tells_of_it(line: &str, result: Result<ResponseKind, String>)
    requires
        call_ensures(sort_response, (line,), result),
    ensures
        ({
            let read = crate::json::json_parsed(crate::text::trim_end(line@));
            &&& result is Ok <==> read is Ok
            &&& result is Ok && result->Ok_0 is Failure <==> read is Ok && crate::json::field(
                read->Ok_0,
                "error"@,
            ) is Some
        }),
{
}

/// An answer is taken where it speaks the protocol and answers the application's own request; then what
/// is taken is what was answered. A failure tells what the daemon said.
pub proof fn an_own_answer_is_taken_as_it_was_given<T>(
    decoded: Result<JsonRpcSuccess<T>, String>,
    label: &str,
    result: Result<T, String>,
    failed: Result<JsonRpcFailure, String>,
    message: String,
)
    requires
        call_ensures(success_result::<T>, (decoded, label), result),
        call_ensures(failure_message, (failed,), message),
    ensures
        result is Ok <==> decoded is Ok && decoded->Ok_0.jsonrpc@ == JSONRPC_VERSION@
            && decoded->Ok_0.id@ == LOCAL_REQUEST_ID@,
        result is Ok ==> result->Ok_0 == decoded->Ok_0.result,
        failed matches Ok(failure) ==> message@ == failure.error.message@,
{
}

/// How a daemon was stopped is told as it was.
pub proof fn a_stop_is_told_as_it_was(
    snapshot: DaemonLifecycleSnapshot,
    shutdown: DaemonShutdownResult,
    asked: DaemonStopOutcome,
    other: DaemonLifecycleSnapshot,
    answer: Option<DaemonShutdownResult>,
    killed: DaemonStopOutcome,
)
    requires
        call_ensures(DaemonStopOutcome::graceful, (snapshot, shutdown), asked),
        call_ensures(DaemonStopOutcome::forced, (other, answer), killed),
    ensures
        asked.method is GracefulShutdown,
        asked.snapshot == snapshot,
        asked.shutdown == Some(shutdown),
        killed.method is ForcedKill,
        killed.snapshot == other,
        killed.shutdown == answer,
{
}

} // verus!
