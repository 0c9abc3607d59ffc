//! The daemon's side of the control channel: every request, what it does and what it is answered.

use vstd::prelude::*;

use crate::endpoint::{IpcEndpoint, IpcTransportError, LocalIpcServer};
use crate::json::ToJson;
use crate::logs::{
    daemon_log_tail, record_daemon_event, DaemonLogBuffer, DEFAULT_DAEMON_LOG_CAPACITY,
};
use crate::managed::{
    ManagedPeerSessionSnapshot, ManagedPeerSessionTransport, MonotonicClock, PeerFrameSink,
    TcpPeerSessionTransport,
};
use crate::platform::{
    DesktopGeometry, KeyboardLayoutSnapshot, PlatformAdapter, PlatformCall, PlatformCapabilities,
    PlatformError,
};
use crate::recovery::{
    recover_local_control_and_release_inputs, recover_runtime_state_after_interrupt_and_dispatch,
    RuntimeRecoveryInterrupt,
};
use crate::rpc::{
    parse_request_line, to_json_line, IpcCodecError, IpcRequest, JsonRpcError, JsonRpcFailure,
    JsonRpcSuccess,
};
use crate::runtime::{CoreAction, RuntimeInputState};
use crate::services::{
    connect_peer_session, session_status_from_snapshot, NoSessionServices, SessionServices,
};
use crate::snapshot::{
    ControlModeSnapshot, DaemonLogLevel, DaemonLogsTail, DaemonShutdownResult, DaemonStatus,
    DiagnosticsKeyboardLayout, DiagnosticsScreenTopology, InputReleaseAllResult, PermissionsProbe,
    SessionConnectParams, SessionConnectResult, SessionDisconnectResult,
    SessionDiscoveryCandidatesResult,
};
use crate::status::{
    build_daemon_status_with_peer_sessions, build_diagnostics_keyboard_layout,
    build_diagnostics_screen_topology, build_permissions_probe,
    build_session_discovery_candidates_result,
};
use crate::transport::{
    CoreActionDispatcher, LocalPlatformCoreActionDispatcher, NoopCoreActionDispatcher,
    TransportCoreActionDispatcher,
};

verus! {

/// A dispatcher that goes with the session that the daemon keeps. What it dispatches may end that
/// session.
pub trait SessionDispatcher: CoreActionDispatcher {
    type Sink: PeerFrameSink;

    type Clock: MonotonicClock;

    /// The session that the daemon keeps.
    spec fn sessions(self) -> ManagedPeerSessionTransport<Self::Sink, Self::Clock>;

    /// The same dispatcher with other sessions.
    spec fn with_sessions(
        self,
        sessions: ManagedPeerSessionTransport<Self::Sink, Self::Clock>,
    ) -> Self;

    /// The sessions that a dispatcher was given are those that it has.
    proof fn sessions_are_those_given(
        self,
        sessions: ManagedPeerSessionTransport<Self::Sink, Self::Clock>,
    )
        ensures
            self.with_sessions(sessions).sessions() == sessions,
    ;

    fn peer_sessions(&self) -> (result: &ManagedPeerSessionTransport<Self::Sink, Self::Clock>)
        ensures
            *result == self.sessions(),
    ;

    fn peer_sessions_mut(&mut self) -> (result: &mut ManagedPeerSessionTransport<
        Self::Sink,
        Self::Clock,
    >)
        ensures
            *result == old(self).sessions(),
            *final(self) == old(self).with_sessions(*final(result)),
    ;
}

impl<P: PlatformAdapter, W: PeerFrameSink, C: MonotonicClock> SessionDispatcher
    for LocalPlatformCoreActionDispatcher<
    P,
    TransportCoreActionDispatcher<ManagedPeerSessionTransport<W, C>>,
> {
    type Sink = W;

    type Clock = C;

    open spec fn sessions(self) -> ManagedPeerSessionTransport<W, C> {
        self.next.transport
    }

    open spec fn with_sessions(self, sessions: ManagedPeerSessionTransport<W, C>) -> Self {
        LocalPlatformCoreActionDispatcher {
            platform: self.platform,
            next: TransportCoreActionDispatcher { transport: sessions },
        }
    }

    proof fn sessions_are_those_given(self, sessions: ManagedPeerSessionTransport<W, C>) {
    }

    fn peer_sessions(&self) -> (result: &ManagedPeerSessionTransport<W, C>) {
        &self.next.transport
    }

    fn peer_sessions_mut(&mut self) -> (result: &mut ManagedPeerSessionTransport<W, C>) {
        &mut self.next.transport
    }
}

/// A dispatcher and a session that have nothing to do with each other.
#[derive(Debug)]
pub struct DetachedSessions<D, W, C> {
    pub dispatcher: D,
    pub sessions: ManagedPeerSessionTransport<W, C>,
}

impl<D, W, C> DetachedSessions<D, W, C> {
    pub fn new(dispatcher: D, sessions: ManagedPeerSessionTransport<W, C>) -> (result: Self)
        ensures
            result == (DetachedSessions { dispatcher, sessions }),
    {
        DetachedSessions { dispatcher, sessions }
    }
}

impl<D: CoreActionDispatcher, W, C> CoreActionDispatcher for DetachedSessions<D, W, C> {
    open spec fn dispatches(
        before: Self,
        actions: Seq<CoreAction>,
        result: Result<(), PlatformError>,
        after: Self,
    ) -> bool {
        &&& D::dispatches(before.dispatcher, actions, result, after.dispatcher)
        &&& after.sessions == before.sessions
    }

    fn dispatch_core_actions(&mut self, actions: &[CoreAction]) -> (result: Result<
        (),
        PlatformError,
    >) {
        self.dispatcher.dispatch_core_actions(actions)
    }
}

impl<D: CoreActionDispatcher, W: PeerFrameSink, C: MonotonicClock> SessionDispatcher
    for DetachedSessions<D, W, C> {
    type Sink = W;

    type Clock = C;

    open spec fn sessions(self) -> ManagedPeerSessionTransport<W, C> {
        self.sessions
    }

    open spec fn with_sessions(self, sessions: ManagedPeerSessionTransport<W, C>) -> Self {
        DetachedSessions { dispatcher: self.dispatcher, sessions }
    }

    proof fn sessions_are_those_given(self, sessions: ManagedPeerSessionTransport<W, C>) {
    }

    fn peer_sessions(&self) -> (result: &ManagedPeerSessionTransport<W, C>) {
        &self.sessions
    }

    fn peer_sessions_mut(&mut self) -> (result: &mut ManagedPeerSessionTransport<W, C>) {
        &mut self.sessions
    }
}

/// What a request is answered where the daemon cannot carry it out.
pub const JSONRPC_DAEMON_ERROR: i32 = -32000;

/// An answer could not be written.
#[derive(Debug, PartialEq, Eq)]
pub struct DaemonIpcError {
    pub source: IpcCodecError,
}

impl DaemonIpcError {
    pub fn from_source(source: IpcCodecError) -> (result: Self)
        ensures
            result.source == source,
    {
        DaemonIpcError { source }
    }

    pub open spec fn text(&self) -> Seq<char> {
        "failed to encode daemon IPC response: "@ + self.source.text()
    }

    pub fn message(&self) -> (result: String)
        ensures
            result@ == self.text(),
    {
        "failed to encode daemon IPC response: ".to_owned().concat(self.source.message().as_str())
    }
}

/// The line that answers a request that was carried out.
pub open spec fn success_line(id: Seq<char>, result: crate::json::JsonModel) -> Seq<char> {
    crate::json::json_text(crate::rpc::success_json(id, result)).push('\n')
}

/// The line that answers a request with a failure.
pub open spec fn failure_line(failure: crate::rpc::FailureModel) -> Seq<char> {
    crate::json::json_text(crate::rpc::failure_json(failure)).push('\n')
}

/// The line that answers a request that could not be carried out.
pub open spec fn error_line(id: Seq<char>, message: Seq<char>, error: Seq<char>) -> Seq<char> {
    failure_line(
        crate::rpc::FailureModel {
            id: Some(id),
            code: JSONRPC_DAEMON_ERROR,
            message: message + ": "@ + error,
        },
    )
}

/// The line for an outcome.
pub open spec fn answered<T: ToJson>(
    id: Seq<char>,
    message: Seq<char>,
    outcome: Result<T, PlatformError>,
) -> Seq<char> {
    match outcome {
        Ok(result) => success_line(id, result.json()),
        Err(error) => error_line(id, message, error@),
    }
}

/// Answer a request that was carried out.
fn encode_success<T: ToJson>(id: &str, result: T) -> (line: Result<String, DaemonIpcError>)
    ensures
        line is Ok,
        line->Ok_0@ == success_line(id@, result.json()),
{
    let ghost written = result.json();
    let success = JsonRpcSuccess::new(id, result);
    proof {
        assert(success.json()->Object_0 =~= crate::rpc::success_json(id@, written)->Object_0);
    }
    encode_response(&success)
}

/// Answer a request that could not be carried out.
fn encode_platform_error(id: &str, message: &'static str, error: PlatformError) -> (line: Result<
    String,
    DaemonIpcError,
>)
    ensures
        line is Ok,
        line->Ok_0@ == error_line(id@, message@, error@),
{
    let failure = JsonRpcFailure::new(
        Some(id.to_owned()),
        JsonRpcError::new(
            JSONRPC_DAEMON_ERROR,
            message.to_owned().concat(": ").concat(error.message()).as_str(),
        ),
    );
    encode_response(&failure)
}

/// Write an answer.
fn encode_response<T: ToJson>(response: &T) -> (line: Result<String, DaemonIpcError>)
    ensures
        line is Ok,
        line->Ok_0@ == crate::json::json_text(response.json()).push('\n'),
{
    match to_json_line(response) {
        Ok(line) => Ok(line),
        Err(source) => Err(DaemonIpcError::from_source(source)),
    }
}

/// Sessions without the open one.
pub open spec fn without_session<W, C>(
    sessions: ManagedPeerSessionTransport<W, C>,
) -> ManagedPeerSessionTransport<W, C> {
    ManagedPeerSessionTransport {
        active_session: None,
        reconnect_backoff: sessions.reconnect_backoff,
        auth_config: sessions.auth_config,
        clock: sessions.clock,
    }
}

/// The session that was left: the one that was open when it was dropped, else the one that was open
/// when control was taken back.
pub open spec fn session_left<W>(
    dropped: Option<TcpPeerSessionTransport<W>>,
    known: Option<TcpPeerSessionTransport<W>>,
) -> Option<TcpPeerSessionTransport<W>> {
    match dropped {
        Some(session) => Some(session),
        None => known,
    }
}

/// Whether facts are those of a session, where there is one.
pub open spec fn is_left<W>(
    left: Option<ManagedPeerSessionSnapshot>,
    session: Option<TcpPeerSessionTransport<W>>,
) -> bool {
    match (left, session) {
        (Some(left), Some(session)) => crate::managed::is_snapshot(left, session),
        (None, None) => true,
        _ => false,
    }
}

/// What leaving the session does: control is taken back first, and only then, where that worked, is
/// the session dropped.
pub open spec fn leaves<D: SessionDispatcher>(
    state: crate::runtime::RuntimeModel,
    dispatcher: D,
    outcome: Result<Option<ManagedPeerSessionSnapshot>, PlatformError>,
    next_state: crate::runtime::RuntimeModel,
    next: D,
) -> bool {
    &&& next_state == crate::runtime::recovered(state)
    &&& exists|sent: Result<(), PlatformError>, told: D| #[trigger]
        D::dispatches(dispatcher, crate::runtime::recovery_actions(state), sent, told)
            && match sent {
            Err(error) => {
                &&& outcome == Err::<Option<ManagedPeerSessionSnapshot>, PlatformError>(error)
                &&& next == told
            },
            Ok(_) => {
                &&& next == told.with_sessions(without_session(told.sessions()))
                &&& outcome is Ok
                &&& is_left(
                    outcome->Ok_0,
                    session_left(
                        told.sessions().active_session,
                        dispatcher.sessions().active_session,
                    ),
                )
            },
        }
}

/// Take control back and leave the session.
fn leave_session<D: SessionDispatcher>(state: &mut RuntimeInputState, dispatcher: &mut D) -> (result:
    Result<Option<ManagedPeerSessionSnapshot>, PlatformError>)
    ensures
        leaves(old(state)@, *old(dispatcher), result, final(state)@, *final(dispatcher)),
{
    let known = dispatcher.peer_sessions().active_session();
    let recovery = recover_local_control_and_release_inputs(state, dispatcher);
    let ghost told = *dispatcher;
    match recovery {
        Err(error) => {
            assert(D::dispatches(
                *old(dispatcher),
                crate::runtime::recovery_actions(old(state)@),
                Err::<(), PlatformError>(error),
                told,
            ));
            Err(error)
        },
        Ok(_) => {
            assert(D::dispatches(
                *old(dispatcher),
                crate::runtime::recovery_actions(old(state)@),
                Ok::<(), PlatformError>(()),
                told,
            ));
            let sessions = dispatcher.peer_sessions_mut();
            let dropped = sessions.disconnect_session();
            assert(*sessions == without_session(told.sessions()));
            Ok(
                match dropped {
                    Some(session) => Some(session),
                    None => known,
                },
            )
        },
    }
}

/// What shutting down does.
pub open spec fn shuts_down<D: SessionDispatcher>(
    state: crate::runtime::RuntimeModel,
    dispatcher: D,
    result: Result<DaemonShutdownResult, PlatformError>,
    next_state: crate::runtime::RuntimeModel,
    next: D,
) -> bool {
    exists|outcome: Result<Option<ManagedPeerSessionSnapshot>, PlatformError>| #[trigger]
        leaves(state, dispatcher, outcome, next_state, next) && match outcome {
            Err(error) => result == Err::<DaemonShutdownResult, PlatformError>(error),
            Ok(left) => result == Ok::<DaemonShutdownResult, PlatformError>(
                DaemonShutdownResult {
                    requested: true,
                    released_inputs: true,
                    disconnected_peer_session: left is Some,
                    mode: ControlModeSnapshot::Local,
                },
            ),
        }
}

/// Take control back and leave the session before the daemon ends.
pub fn shutdown_daemon<D: SessionDispatcher>(state: &mut RuntimeInputState, dispatcher: &mut D) -> (result:
    Result<DaemonShutdownResult, PlatformError>)
    ensures
        shuts_down(old(state)@, *old(dispatcher), result, final(state)@, *final(dispatcher)),
{
    let outcome = leave_session(state, dispatcher);
    let ghost left = outcome;
    assert(leaves(old(state)@, *old(dispatcher), left, state@, *dispatcher));
    match outcome {
        Err(error) => Err(error),
        Ok(left) => Ok(
            DaemonShutdownResult {
                requested: true,
                released_inputs: true,
                disconnected_peer_session: left.is_some(),
                mode: ControlModeSnapshot::Local,
            },
        ),
    }
}

/// What disconnecting does.
pub open spec fn disconnects<D: SessionDispatcher>(
    state: crate::runtime::RuntimeModel,
    dispatcher: D,
    result: Result<SessionDisconnectResult, PlatformError>,
    next_state: crate::runtime::RuntimeModel,
    next: D,
) -> bool {
    exists|outcome: Result<Option<ManagedPeerSessionSnapshot>, PlatformError>| #[trigger]
        leaves(state, dispatcher, outcome, next_state, next) && match outcome {
            Err(error) => result == Err::<SessionDisconnectResult, PlatformError>(error),
            Ok(left) => {
                &&& result is Ok
                &&& result->Ok_0.mode == ControlModeSnapshot::Local
                &&& result->Ok_0.disconnected == (left is Some)
                &&& match (result->Ok_0.session, left) {
                    (Some(status), Some(left)) => crate::services::is_status(
                        status,
                        left.peer_id@,
                        left.local_device_id@,
                        left.address,
                        false,
                    ),
                    (None, None) => true,
                    _ => false,
                }
            },
        }
}

/// Take control back and leave the session.
pub fn disconnect_peer_session<D: SessionDispatcher>(
    state: &mut RuntimeInputState,
    dispatcher: &mut D,
) -> (result: Result<SessionDisconnectResult, PlatformError>)
    ensures
        disconnects(old(state)@, *old(dispatcher), result, final(state)@, *final(dispatcher)),
{
    let outcome = leave_session(state, dispatcher);
    let ghost left = outcome;
    assert(leaves(old(state)@, *old(dispatcher), left, state@, *dispatcher));
    match outcome {
        Err(error) => Err(error),
        Ok(left) => Ok(
            SessionDisconnectResult {
                disconnected: left.is_some(),
                session: match &left {
                    Some(snapshot) => Some(session_status_from_snapshot(snapshot, false)),
                    None => None,
                },
                mode: ControlModeSnapshot::Local,
            },
        ),
    }
}

/// Once the session was left, none is open, control is local, and no peer is pending.
pub proof fn left_session_is_gone<D: SessionDispatcher>(
    state: crate::runtime::RuntimeModel,
    dispatcher: D,
    outcome: Result<Option<ManagedPeerSessionSnapshot>, PlatformError>,
    next_state: crate::runtime::RuntimeModel,
    next: D,
)
    requires
        leaves(state, dispatcher, outcome, next_state, next),
    ensures
        next_state.mode == crate::runtime::ControlMode::Local,
        next_state.pending_peer_id is None,
        outcome is Ok ==> next.sessions().active_session is None,
        dispatcher.sessions().active_session is Some && outcome is Ok ==> outcome->Ok_0 is Some,
{
    let (sent, told) = choose|sent: Result<(), PlatformError>, told: D| #[trigger]
        D::dispatches(dispatcher, crate::runtime::recovery_actions(state), sent, told)
            && match sent {
            Err(error) => {
                &&& outcome == Err::<Option<ManagedPeerSessionSnapshot>, PlatformError>(error)
                &&& next == told
            },
            Ok(_) => {
                &&& next == told.with_sessions(without_session(told.sessions()))
                &&& outcome is Ok
                &&& is_left(
                    outcome->Ok_0,
                    session_left(
                        told.sessions().active_session,
                        dispatcher.sessions().active_session,
                    ),
                )
            },
        };
    if sent is Ok {
        told.sessions_are_those_given(without_session(told.sessions()));
    }
}

/// What requests act on.
pub struct DeskModel<P, D, S> {
    pub state: crate::runtime::RuntimeModel,
    pub platform: P,
    pub dispatcher: D,
    pub logs: Option<DaemonLogBuffer>,
    pub shutdown: Option<bool>,
    pub services: S,
}

/// Whether nothing but the platform and the log differ.
pub open spec fn desk_kept<P: PlatformAdapter, D, S>(
    before: DeskModel<P, D, S>,
    after: DeskModel<P, D, S>,
) -> bool {
    &&& after.state == before.state
    &&& after.dispatcher == before.dispatcher
    &&& after.shutdown == before.shutdown
    &&& after.services == before.services
}

/// What `daemon.status` does.
pub open spec fn status_handled<
    P: PlatformAdapter,
    D: SessionDispatcher,
    S: SessionServices<D::Sink>,
>(
    before: DeskModel<P, D, S>,
    id: Seq<char>,
    reply: Seq<char>,
    after: DeskModel<P, D, S>,
) -> bool {
    &&& after.state == before.state
    &&& after.dispatcher == before.dispatcher
    &&& after.shutdown == before.shutdown
    &&& crate::logs::logged(
        before.logs,
        DaemonLogLevel::Info,
        "daemon.status"@,
        "Daemon status requested."@,
        after.logs,
    )
    &&& exists|
        answer: Result<PlatformCapabilities, PlatformError>,
        outcome: Result<DaemonStatus, PlatformError>,
    |
        P::answers(
            before.platform,
            PlatformCall::ProbeCapabilities { capabilities: answer },
            after.platform,
        )
            && #[trigger] crate::status::status_told(
            before.state.mode,
            answer,
            before.dispatcher.sessions(),
            before.services,
            outcome,
            after.services,
        ) && reply == answered(id, "daemon status unavailable"@, outcome)
}

/// What `permissions.probe` does once the platform has answered. Where anything is missing, control is
/// taken back before the answer is given.
pub open spec fn probe_answered<P: PlatformAdapter, D: SessionDispatcher, S>(
    before: DeskModel<P, D, S>,
    id: Seq<char>,
    outcome: Result<PermissionsProbe, PlatformError>,
    reply: Seq<char>,
    after: DeskModel<P, D, S>,
) -> bool {
    match outcome {
        Err(error) => {
            &&& after.state == before.state
            &&& after.dispatcher == before.dispatcher
            &&& crate::logs::logged(
                before.logs,
                DaemonLogLevel::Warn,
                "permissions.probe.failed"@,
                "Permissions probe failed."@,
                after.logs,
            )
            &&& reply == error_line(id, "permissions probe unavailable"@, error@)
        },
        Ok(probe) => if probe.issues@.len() == 0 {
            &&& after.state == before.state
            &&& after.dispatcher == before.dispatcher
            &&& crate::logs::logged(
                before.logs,
                DaemonLogLevel::Info,
                "permissions.probe"@,
                "Permissions probe requested."@,
                after.logs,
            )
            &&& reply == success_line(id, probe.json())
        } else {
            exists|recovered: Result<(), PlatformError>, noted: Option<DaemonLogBuffer>| #[trigger]
                crate::recovery::interrupt_recovers(
                    before.state,
                    before.dispatcher,
                    before.logs,
                    RuntimeRecoveryInterrupt::PermissionLost,
                    recovered,
                    after.state,
                    after.dispatcher,
                    noted,
                ) && match recovered {
                    Err(error) => {
                        &&& after.logs == noted
                        &&& reply == error_line(id, "permission recovery unavailable"@, error@)
                    },
                    Ok(_) => {
                        &&& crate::logs::logged(
                            noted,
                            DaemonLogLevel::Info,
                            "permissions.probe"@,
                            "Permissions probe requested."@,
                            after.logs,
                        )
                        &&& reply == success_line(id, probe.json())
                    },
                }
        },
    }
}

/// What `permissions.probe` does.
pub open spec fn probe_handled<P: PlatformAdapter, D: SessionDispatcher, S>(
    before: DeskModel<P, D, S>,
    id: Seq<char>,
    reply: Seq<char>,
    after: DeskModel<P, D, S>,
) -> bool {
    &&& after.shutdown == before.shutdown
    &&& after.services == before.services
    &&& exists|
        answer: Result<PlatformCapabilities, PlatformError>,
        outcome: Result<PermissionsProbe, PlatformError>,
    |
        P::answers(
            before.platform,
            PlatformCall::ProbeCapabilities { capabilities: answer },
            after.platform,
        )
            && #[trigger] crate::status::probe_outcome(answer, outcome, after.platform)
            && probe_answered(before, id, outcome, reply, after)
}

/// What a diagnosis leaves in the log.
pub open spec fn diagnosis_logged(
    before: Option<DaemonLogBuffer>,
    worked: bool,
    event: Seq<char>,
    message: Seq<char>,
    failed_event: Seq<char>,
    failed_message: Seq<char>,
    after: Option<DaemonLogBuffer>,
) -> bool {
    if worked {
        crate::logs::logged(before, DaemonLogLevel::Info, event, message, after)
    } else {
        crate::logs::logged(before, DaemonLogLevel::Warn, failed_event, failed_message, after)
    }
}

/// What `diagnostics.screenTopology` does.
pub open spec fn topology_handled<P: PlatformAdapter, D, S>(
    before: DeskModel<P, D, S>,
    id: Seq<char>,
    reply: Seq<char>,
    after: DeskModel<P, D, S>,
) -> bool {
    &&& desk_kept(before, after)
    &&& exists|
        answer: Result<DesktopGeometry, PlatformError>,
        outcome: Result<DiagnosticsScreenTopology, PlatformError>,
    |
        P::answers(
            before.platform,
            PlatformCall::ReadDesktopGeometry { geometry: answer },
            after.platform,
        )
            && #[trigger] crate::status::topology_outcome(answer, outcome) && diagnosis_logged(
            before.logs,
            outcome is Ok,
            "diagnostics.screenTopology"@,
            "Screen topology diagnostics requested."@,
            "diagnostics.screenTopology.failed"@,
            "Screen topology diagnostics failed."@,
            after.logs,
        ) && reply == answered(id, "screen topology unavailable"@, outcome)
}

/// What `diagnostics.keyboardLayout` does.
pub open spec fn layout_handled<P: PlatformAdapter, D, S>(
    before: DeskModel<P, D, S>,
    id: Seq<char>,
    reply: Seq<char>,
    after: DeskModel<P, D, S>,
) -> bool {
    &&& desk_kept(before, after)
    &&& exists|
        answer: Result<KeyboardLayoutSnapshot, PlatformError>,
        outcome: Result<DiagnosticsKeyboardLayout, PlatformError>,
    |
        P::answers(
            before.platform,
            PlatformCall::ReadKeyboardLayout { layout: answer },
            after.platform,
        )
            && #[trigger] crate::status::layout_outcome(answer, outcome) && diagnosis_logged(
            before.logs,
            outcome is Ok,
            "diagnostics.keyboardLayout"@,
            "Keyboard layout diagnostics requested."@,
            "diagnostics.keyboardLayout.failed"@,
            "Keyboard layout diagnostics failed."@,
            after.logs,
        ) && reply == answered(id, "keyboard layout unavailable"@, outcome)
}

/// What `daemon.logs.tail` does. The request itself is the newest event that it shows.
pub open spec fn logs_tail_handled<P: PlatformAdapter, D, S>(
    before: DeskModel<P, D, S>,
    id: Seq<char>,
    limit: Option<usize>,
    reply: Seq<char>,
    after: DeskModel<P, D, S>,
) -> bool {
    &&& desk_kept(before, after)
    &&& after.platform == before.platform
    &&& crate::logs::logged(
        before.logs,
        DaemonLogLevel::Info,
        "daemon.logs.tail"@,
        "Daemon logs tail requested."@,
        after.logs,
    )
    &&& exists|tail: DaemonLogsTail|
        crate::logs::entry_models(tail.entries@) == crate::logs::log_tail(after.logs, limit)
            && reply == success_line(id, #[trigger] tail.json())
}

/// What `daemon.shutdown` does. Where the daemon cannot be told to end, nothing happens.
pub open spec fn shutdown_handled<P: PlatformAdapter, D: SessionDispatcher, S>(
    before: DeskModel<P, D, S>,
    id: Seq<char>,
    reply: Seq<char>,
    after: DeskModel<P, D, S>,
) -> bool {
    &&& after.platform == before.platform
    &&& after.services == before.services
    &&& match before.shutdown {
        None => {
            &&& desk_kept(before, after)
            &&& crate::logs::logged(
                before.logs,
                DaemonLogLevel::Error,
                "daemon.shutdown.failed"@,
                "Daemon shutdown failed."@,
                after.logs,
            )
            &&& reply == error_line(
                id,
                "daemon shutdown unavailable"@,
                "shutdown control flag is unavailable"@,
            )
        },
        Some(_) => exists|outcome: Result<DaemonShutdownResult, PlatformError>| #[trigger]
            shuts_down(
                before.state,
                before.dispatcher,
                outcome,
                after.state,
                after.dispatcher,
            ) && reply == answered(id, "daemon shutdown unavailable"@, outcome) && match outcome {
                Ok(_) => {
                    &&& after.shutdown == Some(true)
                    &&& crate::logs::logged(
                        before.logs,
                        DaemonLogLevel::Warn,
                        "daemon.shutdown"@,
                        "Daemon shutdown requested."@,
                        after.logs,
                    )
                },
                Err(_) => {
                    &&& after.shutdown == before.shutdown
                    &&& crate::logs::logged(
                        before.logs,
                        DaemonLogLevel::Error,
                        "daemon.shutdown.failed"@,
                        "Daemon shutdown failed."@,
                        after.logs,
                    )
                },
            },
    }
}

/// What taking control back on request does.
pub open spec fn releases<D: CoreActionDispatcher>(
    state: crate::runtime::RuntimeModel,
    dispatcher: D,
    outcome: Result<InputReleaseAllResult, PlatformError>,
    next_state: crate::runtime::RuntimeModel,
    next: D,
) -> bool {
    &&& next_state == crate::runtime::recovered(state)
    &&& match outcome {
        Ok(result) => {
            &&& result == (InputReleaseAllResult {
                released: true,
                mode: ControlModeSnapshot::Local,
            })
            &&& D::dispatches(
                dispatcher,
                crate::runtime::recovery_actions(state),
                Ok::<(), PlatformError>(()),
                next,
            )
        },
        Err(error) => D::dispatches(
            dispatcher,
            crate::runtime::recovery_actions(state),
            Err::<(), PlatformError>(error),
            next,
        ),
    }
}

/// What `input.releaseAll` does.
pub open spec fn release_handled<P: PlatformAdapter, D: SessionDispatcher, S>(
    before: DeskModel<P, D, S>,
    id: Seq<char>,
    reply: Seq<char>,
    after: DeskModel<P, D, S>,
) -> bool {
    &&& after.platform == before.platform
    &&& after.services == before.services
    &&& after.shutdown == before.shutdown
    &&& exists|outcome: Result<InputReleaseAllResult, PlatformError>| #[trigger]
        releases(before.state, before.dispatcher, outcome, after.state, after.dispatcher) && reply
            == answered(id, "input release unavailable"@, outcome) && (if outcome is Ok {
            crate::logs::logged(
                before.logs,
                DaemonLogLevel::Warn,
                "input.releaseAll"@,
                "Input release requested."@,
                after.logs,
            )
        } else {
            crate::logs::logged(
                before.logs,
                DaemonLogLevel::Error,
                "input.releaseAll.failed"@,
                "Input release failed."@,
                after.logs,
            )
        })
}

/// What `session.connect` does.
pub open spec fn connect_handled<
    P: PlatformAdapter,
    D: SessionDispatcher,
    S: SessionServices<D::Sink>,
>(
    before: DeskModel<P, D, S>,
    id: Seq<char>,
    params: SessionConnectParams,
    reply: Seq<char>,
    after: DeskModel<P, D, S>,
) -> bool {
    &&& after.platform == before.platform
    &&& after.state == before.state
    &&& after.shutdown == before.shutdown
    &&& exists|
        outcome: Result<SessionConnectResult, PlatformError>,
        sessions: ManagedPeerSessionTransport<D::Sink, D::Clock>,
    | #[trigger]
        crate::services::connects(
            before.dispatcher.sessions(),
            before.services,
            params,
            outcome,
            sessions,
            after.services,
        ) && after.dispatcher == before.dispatcher.with_sessions(sessions) && reply == answered(
            id,
            "session connect unavailable"@,
            outcome,
        ) && diagnosis_logged(
            before.logs,
            outcome is Ok,
            "session.connect"@,
            "Peer session connect requested."@,
            "session.connect.failed"@,
            "Peer session connect failed."@,
            after.logs,
        )
}

/// What `session.discoveryCandidates` does. The daemon has found no peers of its own.
pub open spec fn candidates_handled<P: PlatformAdapter, D, S>(
    before: DeskModel<P, D, S>,
    id: Seq<char>,
    reply: Seq<char>,
    after: DeskModel<P, D, S>,
) -> bool {
    &&& desk_kept(before, after)
    &&& after.platform == before.platform
    &&& crate::logs::logged(
        before.logs,
        DaemonLogLevel::Info,
        "session.discoveryCandidates"@,
        "Peer session discovery candidates requested."@,
        after.logs,
    )
    &&& exists|result: SessionDiscoveryCandidatesResult|
        result.candidates@.len() == 0 && reply == success_line(id, #[trigger] result.json())
}

/// What `session.disconnect` does.
pub open spec fn disconnect_handled<P: PlatformAdapter, D: SessionDispatcher, S>(
    before: DeskModel<P, D, S>,
    id: Seq<char>,
    reply: Seq<char>,
    after: DeskModel<P, D, S>,
) -> bool {
    &&& after.platform == before.platform
    &&& after.services == before.services
    &&& after.shutdown == before.shutdown
    &&& exists|outcome: Result<SessionDisconnectResult, PlatformError>| #[trigger]
        disconnects(before.state, before.dispatcher, outcome, after.state, after.dispatcher)
            && reply == answered(id, "session disconnect unavailable"@, outcome)
            && diagnosis_logged(
            before.logs,
            outcome is Ok,
            "session.disconnect"@,
            "Peer session disconnect requested."@,
            "session.disconnect.failed"@,
            "Peer session disconnect failed."@,
            after.logs,
        )
}

/// What a request does and what it is answered.
pub open spec fn handled<P: PlatformAdapter, D: SessionDispatcher, S: SessionServices<D::Sink>>(
    before: DeskModel<P, D, S>,
    request: IpcRequest,
    reply: Seq<char>,
    after: DeskModel<P, D, S>,
) -> bool {
    &&& match request {
        IpcRequest::DaemonStatus(request) => status_handled(before, request.id@, reply, after),
        IpcRequest::PermissionsProbe(request) => probe_handled(before, request.id@, reply, after),
        IpcRequest::DiagnosticsScreenTopology(request) => topology_handled(
            before,
            request.id@,
            reply,
            after,
        ),
        IpcRequest::DiagnosticsKeyboardLayout(request) => layout_handled(
            before,
            request.id@,
            reply,
            after,
        ),
        IpcRequest::DaemonLogsTail(request) => logs_tail_handled(
            before,
            request.id@,
            request.params.limit,
            reply,
            after,
        ),
        IpcRequest::DaemonShutdown(request) => shutdown_handled(before, request.id@, reply, after),
        IpcRequest::InputReleaseAll(request) => release_handled(before, request.id@, reply, after),
        IpcRequest::SessionConnect(request) => connect_handled(
            before,
            request.id@,
            request.params,
            reply,
            after,
        ),
        IpcRequest::SessionDiscoveryCandidates(request) => candidates_handled(
            before,
            request.id@,
            reply,
            after,
        ),
        IpcRequest::SessionDisconnect(request) => disconnect_handled(
            before,
            request.id@,
            reply,
            after,
        ),
    }
}

/// What a request line does and what it is answered. A line that is no request changes nothing.
pub open spec fn line_handled<
    P: PlatformAdapter,
    D: SessionDispatcher,
    S: SessionServices<D::Sink>,
>(
    before: DeskModel<P, D, S>,
    line: Seq<char>,
    reply: Seq<char>,
    after: DeskModel<P, D, S>,
) -> bool {
    exists|parsed: Result<IpcRequest, JsonRpcFailure>| #[trigger]
        crate::rpc::is_request(parsed, crate::rpc::read_line(line)) && match parsed {
            Ok(request) => handled(before, request, reply, after),
            Err(failure) => reply == failure_line(failure@) && after == before,
        }
}

/// What requests act on.
pub open spec fn desk<P: PlatformAdapter, D, S>(
    state: RuntimeInputState,
    platform: P,
    dispatcher: D,
    logs: Option<DaemonLogBuffer>,
    shutdown: Option<bool>,
    services: S,
) -> DeskModel<P, D, S> {
    DeskModel {
        state: state@,
        platform,
        dispatcher,
        logs,
        shutdown,
        services,
    }
}

/// Carry out `daemon.status`.
fn answer_status<P: PlatformAdapter, D: SessionDispatcher, S: SessionServices<D::Sink>>(
    state: &mut RuntimeInputState,
    platform: &mut P,
    dispatcher: &mut D,
    logs: &mut Option<DaemonLogBuffer>,
    shutdown_requested: &mut Option<bool>,
    services: &mut S,
    id: &str,
) -> (line: Result<String, DaemonIpcError>)
    ensures
        line is Ok,
        status_handled(
            desk(
                *old(state),
                *old(platform),
                *old(dispatcher),
                *old(logs),
                *old(shutdown_requested),
                *old(services),
            ),
            id@,
            line->Ok_0@,
            desk(
                *final(state),
                *final(platform),
                *final(dispatcher),
                *final(logs),
                *final(shutdown_requested),
                *final(services),
            ),
        ),
{
    let ghost before = desk(*state, *platform, *dispatcher, *logs, *shutdown_requested, *services);
    record_daemon_event(
        logs,
        DaemonLogLevel::Info,
        "daemon.status",
        "Daemon status requested.",
    );
    let outcome = build_daemon_status_with_peer_sessions(
        state,
        platform,
        dispatcher.peer_sessions(),
        services,
    );
    let ghost told = outcome;
    assert(exists|answer: Result<PlatformCapabilities, PlatformError>|
        P::answers(
            *old(platform),
            PlatformCall::ProbeCapabilities { capabilities: answer },
            *platform,
        ) && #[trigger] crate::status::status_told(
            old(state)@.mode,
            answer,
            old(dispatcher).sessions(),
            *old(services),
            told,
            *services,
        ));
    let line = match outcome {
        Ok(status) => encode_success(id, status),
        Err(error) => encode_platform_error(
            id,
            "daemon status unavailable",
            error,
        ),
    };
    let ghost after = desk(*state, *platform, *dispatcher, *logs, *shutdown_requested, *services);
    assert(line->Ok_0@ == answered(id@, "daemon status unavailable"@, told));
    assert(status_handled(before, id@, line->Ok_0@, after)) by {
        let answer = choose|answer: Result<PlatformCapabilities, PlatformError>|
            P::answers(
                before.platform,
                PlatformCall::ProbeCapabilities { capabilities: answer },
                after.platform,
            ) && #[trigger] crate::status::status_told(
                before.state.mode,
                answer,
                before.dispatcher.sessions(),
                before.services,
                told,
                after.services,
            );
        assert(crate::status::status_told(
            before.state.mode,
            answer,
            before.dispatcher.sessions(),
            before.services,
            told,
            after.services,
        ));
    }
    line
}

/// Carry out `permissions.probe`.
fn answer_probe<P: PlatformAdapter, D: SessionDispatcher, S: SessionServices<D::Sink>>(
    state: &mut RuntimeInputState,
    platform: &mut P,
    dispatcher: &mut D,
    logs: &mut Option<DaemonLogBuffer>,
    shutdown_requested: &mut Option<bool>,
    services: &mut S,
    id: &str,
) -> (line: Result<String, DaemonIpcError>)
    ensures
        line is Ok,
        probe_handled(
            desk(
                *old(state),
                *old(platform),
                *old(dispatcher),
                *old(logs),
                *old(shutdown_requested),
                *old(services),
            ),
            id@,
            line->Ok_0@,
            desk(
                *final(state),
                *final(platform),
                *final(dispatcher),
                *final(logs),
                *final(shutdown_requested),
                *final(services),
            ),
        ),
{
    let ghost before = desk(*state, *platform, *dispatcher, *logs, *shutdown_requested, *services);
    let outcome = build_permissions_probe(platform);
    let ghost told = outcome;
    let ghost answer = choose|answer: Result<PlatformCapabilities, PlatformError>|
        P::answers(
            *old(platform),
            PlatformCall::ProbeCapabilities { capabilities: answer },
            *platform,
        ) && crate::status::probe_outcome(answer, told, *platform);
    let ghost mut regained: Result<(), PlatformError> = Ok(());
    let ghost mut noted = *logs;
    let line = match outcome {
        Ok(probe) => {
            if probe.issues.len() > 0 {
                let recovered = recover_runtime_state_after_interrupt_and_dispatch(
                    state,
                    dispatcher,
                    logs,
                    RuntimeRecoveryInterrupt::PermissionLost,
                );
                proof {
                    regained = recovered;
                    noted = *logs;
                }
                match recovered {
                    Ok(_) => {
                        record_daemon_event(
                            logs,
                            DaemonLogLevel::Info,
                            "permissions.probe",
                            "Permissions probe requested.",
                        );
                        encode_success(id, probe)
                    },
                    Err(error) => encode_platform_error(
                        id,
                        "permission recovery unavailable",
                        error,
                    ),
                }
            } else {
                record_daemon_event(
                    logs,
                    DaemonLogLevel::Info,
                    "permissions.probe",
                    "Permissions probe requested.",
                );
                encode_success(id, probe)
            }
        },
        Err(error) => {
            record_daemon_event(
                logs,
                DaemonLogLevel::Warn,
                "permissions.probe.failed",
                "Permissions probe failed.",
            );
            encode_platform_error(id, "permissions probe unavailable", error)
        },
    };
    let ghost after = desk(*state, *platform, *dispatcher, *logs, *shutdown_requested, *services);
    assert(crate::status::probe_outcome(answer, told, after.platform));
    assert(told is Ok && told->Ok_0.issues@.len() > 0 ==> crate::recovery::interrupt_recovers(
        before.state,
        before.dispatcher,
        before.logs,
        RuntimeRecoveryInterrupt::PermissionLost,
        regained,
        after.state,
        after.dispatcher,
        noted,
    ));
    assert(probe_answered(before, id@, told, line->Ok_0@, after));
    line
}

/// Carry out `diagnostics.screenTopology`.
fn answer_topology<P: PlatformAdapter, D: SessionDispatcher, S: SessionServices<D::Sink>>(
    state: &mut RuntimeInputState,
    platform: &mut P,
    dispatcher: &mut D,
    logs: &mut Option<DaemonLogBuffer>,
    shutdown_requested: &mut Option<bool>,
    services: &mut S,
    id: &str,
) -> (line: Result<String, DaemonIpcError>)
    ensures
        line is Ok,
        topology_handled(
            desk(
                *old(state),
                *old(platform),
                *old(dispatcher),
                *old(logs),
                *old(shutdown_requested),
                *old(services),
            ),
            id@,
            line->Ok_0@,
            desk(
                *final(state),
                *final(platform),
                *final(dispatcher),
                *final(logs),
                *final(shutdown_requested),
                *final(services),
            ),
        ),
{
    let outcome = build_diagnostics_screen_topology(platform);
    let ghost told = outcome;
    assert(exists|answer: Result<DesktopGeometry, PlatformError>|
        P::answers(
            *old(platform),
            PlatformCall::ReadDesktopGeometry { geometry: answer },
            *platform,
        ) && #[trigger] crate::status::topology_outcome(answer, told));
    match outcome {
        Ok(topology) => {
            record_daemon_event(
                logs,
                DaemonLogLevel::Info,
                "diagnostics.screenTopology",
                "Screen topology diagnostics requested.",
            );
            encode_success(id, topology)
        },
        Err(error) => {
            record_daemon_event(
                logs,
                DaemonLogLevel::Warn,
                "diagnostics.screenTopology.failed",
                "Screen topology diagnostics failed.",
            );
            encode_platform_error(
                id,
                "screen topology unavailable",
                error,
            )
        },
    }
}

/// Carry out `diagnostics.keyboardLayout`.
fn answer_layout<P: PlatformAdapter, D: SessionDispatcher, S: SessionServices<D::Sink>>(
    state: &mut RuntimeInputState,
    platform: &mut P,
    dispatcher: &mut D,
    logs: &mut Option<DaemonLogBuffer>,
    shutdown_requested: &mut Option<bool>,
    services: &mut S,
    id: &str,
) -> (line: Result<String, DaemonIpcError>)
    ensures
        line is Ok,
        layout_handled(
            desk(
                *old(state),
                *old(platform),
                *old(dispatcher),
                *old(logs),
                *old(shutdown_requested),
                *old(services),
            ),
            id@,
            line->Ok_0@,
            desk(
                *final(state),
                *final(platform),
                *final(dispatcher),
                *final(logs),
                *final(shutdown_requested),
                *final(services),
            ),
        ),
{
    let outcome = build_diagnostics_keyboard_layout(platform);
    let ghost told = outcome;
    assert(exists|answer: Result<KeyboardLayoutSnapshot, PlatformError>|
        P::answers(
            *old(platform),
            PlatformCall::ReadKeyboardLayout { layout: answer },
            *platform,
        ) && #[trigger] crate::status::layout_outcome(answer, told));
    match outcome {
        Ok(keyboard_layout) => {
            record_daemon_event(
                logs,
                DaemonLogLevel::Info,
                "diagnostics.keyboardLayout",
                "Keyboard layout diagnostics requested.",
            );
            encode_success(id, keyboard_layout)
        },
        Err(error) => {
            record_daemon_event(
                logs,
                DaemonLogLevel::Warn,
                "diagnostics.keyboardLayout.failed",
                "Keyboard layout diagnostics failed.",
            );
            encode_platform_error(
                id,
                "keyboard layout unavailable",
                error,
            )
        },
    }
}

/// Carry out `daemon.logs.tail`.
fn answer_logs_tail<P: PlatformAdapter, D: SessionDispatcher, S: SessionServices<D::Sink>>(
    state: &mut RuntimeInputState,
    platform: &mut P,
    dispatcher: &mut D,
    logs: &mut Option<DaemonLogBuffer>,
    shutdown_requested: &mut Option<bool>,
    services: &mut S,
    id: &str,
    limit: Option<usize>,
) -> (line: Result<String, DaemonIpcError>)
    ensures
        line is Ok,
        logs_tail_handled(
            desk(
                *old(state),
                *old(platform),
                *old(dispatcher),
                *old(logs),
                *old(shutdown_requested),
                *old(services),
            ),
            id@,
            limit,
            line->Ok_0@,
            desk(
                *final(state),
                *final(platform),
                *final(dispatcher),
                *final(logs),
                *final(shutdown_requested),
                *final(services),
            ),
        ),
{
    record_daemon_event(
        logs,
        DaemonLogLevel::Info,
        "daemon.logs.tail",
        "Daemon logs tail requested.",
    );
    let entries = daemon_log_tail(logs, limit);
    encode_success(id, DaemonLogsTail { entries })
}

/// Carry out `daemon.shutdown`.
fn answer_shutdown<P: PlatformAdapter, D: SessionDispatcher, S: SessionServices<D::Sink>>(
    state: &mut RuntimeInputState,
    platform: &mut P,
    dispatcher: &mut D,
    logs: &mut Option<DaemonLogBuffer>,
    shutdown_requested: &mut Option<bool>,
    services: &mut S,
    id: &str,
) -> (line: Result<String, DaemonIpcError>)
    ensures
        line is Ok,
        shutdown_handled(
            desk(
                *old(state),
                *old(platform),
                *old(dispatcher),
                *old(logs),
                *old(shutdown_requested),
                *old(services),
            ),
            id@,
            line->Ok_0@,
            desk(
                *final(state),
                *final(platform),
                *final(dispatcher),
                *final(logs),
                *final(shutdown_requested),
                *final(services),
            ),
        ),
{
    let ghost before = desk(*state, *platform, *dispatcher, *logs, *shutdown_requested, *services);
    if shutdown_requested.is_none() {
        record_daemon_event(
            logs,
            DaemonLogLevel::Error,
            "daemon.shutdown.failed",
            "Daemon shutdown failed.",
        );
        return encode_platform_error(
            id,
            "daemon shutdown unavailable",
            PlatformError::new("shutdown control flag is unavailable"),
        );
    }
    let outcome = shutdown_daemon(state, dispatcher);
    let ghost told = outcome;
    assert(shuts_down(old(state)@, *old(dispatcher), told, state@, *dispatcher));
    let line = match outcome {
        Ok(result) => {
            *shutdown_requested = Some(true);
            record_daemon_event(
                logs,
                DaemonLogLevel::Warn,
                "daemon.shutdown",
                "Daemon shutdown requested.",
            );
            encode_success(id, result)
        },
        Err(error) => {
            record_daemon_event(
                logs,
                DaemonLogLevel::Error,
                "daemon.shutdown.failed",
                "Daemon shutdown failed.",
            );
            encode_platform_error(
                id,
                "daemon shutdown unavailable",
                error,
            )
        },
    };
    let ghost after = desk(*state, *platform, *dispatcher, *logs, *shutdown_requested, *services);
    assert(shuts_down(before.state, before.dispatcher, told, after.state, after.dispatcher));
    assert(line->Ok_0@ == answered(id@, "daemon shutdown unavailable"@, told));
    line
}

/// Carry out `input.releaseAll`.
fn answer_release<P: PlatformAdapter, D: SessionDispatcher, S: SessionServices<D::Sink>>(
    state: &mut RuntimeInputState,
    platform: &mut P,
    dispatcher: &mut D,
    logs: &mut Option<DaemonLogBuffer>,
    shutdown_requested: &mut Option<bool>,
    services: &mut S,
    id: &str,
) -> (line: Result<String, DaemonIpcError>)
    ensures
        line is Ok,
        release_handled(
            desk(
                *old(state),
                *old(platform),
                *old(dispatcher),
                *old(logs),
                *old(shutdown_requested),
                *old(services),
            ),
            id@,
            line->Ok_0@,
            desk(
                *final(state),
                *final(platform),
                *final(dispatcher),
                *final(logs),
                *final(shutdown_requested),
                *final(services),
            ),
        ),
{
    let ghost before = desk(*state, *platform, *dispatcher, *logs, *shutdown_requested, *services);
    let outcome = recover_local_control_and_release_inputs(state, dispatcher);
    let ghost told = outcome;
    assert(releases(old(state)@, *old(dispatcher), told, state@, *dispatcher));
    let line = match outcome {
        Ok(result) => {
            record_daemon_event(
                logs,
                DaemonLogLevel::Warn,
                "input.releaseAll",
                "Input release requested.",
            );
            encode_success(id, result)
        },
        Err(error) => {
            record_daemon_event(
                logs,
                DaemonLogLevel::Error,
                "input.releaseAll.failed",
                "Input release failed.",
            );
            encode_platform_error(id, "input release unavailable", error)
        },
    };
    let ghost after = desk(*state, *platform, *dispatcher, *logs, *shutdown_requested, *services);
    assert(releases(before.state, before.dispatcher, told, after.state, after.dispatcher));
    assert(line->Ok_0@ == answered(id@, "input release unavailable"@, told));
    line
}

/// Carry out `session.connect`.
fn answer_connect<P: PlatformAdapter, D: SessionDispatcher, S: SessionServices<D::Sink>>(
    state: &mut RuntimeInputState,
    platform: &mut P,
    dispatcher: &mut D,
    logs: &mut Option<DaemonLogBuffer>,
    shutdown_requested: &mut Option<bool>,
    services: &mut S,
    id: &str,
    params: &SessionConnectParams,
) -> (line: Result<String, DaemonIpcError>)
    ensures
        line is Ok,
        connect_handled(
            desk(
                *old(state),
                *old(platform),
                *old(dispatcher),
                *old(logs),
                *old(shutdown_requested),
                *old(services),
            ),
            id@,
            *params,
            line->Ok_0@,
            desk(
                *final(state),
                *final(platform),
                *final(dispatcher),
                *final(logs),
                *final(shutdown_requested),
                *final(services),
            ),
        ),
{
    let ghost before = desk(*state, *platform, *dispatcher, *logs, *shutdown_requested, *services);
    let sessions = dispatcher.peer_sessions_mut();
    let outcome = connect_peer_session(params, sessions, services);
    let ghost told = outcome;
    let ghost opened = *sessions;
    assert(crate::services::connects(
        old(dispatcher).sessions(),
        *old(services),
        *params,
        told,
        opened,
        *services,
    ));
    let line = match outcome {
        Ok(result) => {
            record_daemon_event(
                logs,
                DaemonLogLevel::Info,
                "session.connect",
                "Peer session connect requested.",
            );
            encode_success(id, result)
        },
        Err(error) => {
            record_daemon_event(
                logs,
                DaemonLogLevel::Warn,
                "session.connect.failed",
                "Peer session connect failed.",
            );
            encode_platform_error(
                id,
                "session connect unavailable",
                error,
            )
        },
    };
    let ghost after = desk(*state, *platform, *dispatcher, *logs, *shutdown_requested, *services);
    assert(crate::services::connects(
        before.dispatcher.sessions(),
        before.services,
        *params,
        told,
        opened,
        after.services,
    ));
    assert(line->Ok_0@ == answered(id@, "session connect unavailable"@, told));
    line
}

/// Carry out `session.discoveryCandidates`.
fn answer_candidates<P: PlatformAdapter, D: SessionDispatcher, S: SessionServices<D::Sink>>(
    state: &mut RuntimeInputState,
    platform: &mut P,
    dispatcher: &mut D,
    logs: &mut Option<DaemonLogBuffer>,
    shutdown_requested: &mut Option<bool>,
    services: &mut S,
    id: &str,
) -> (line: Result<String, DaemonIpcError>)
    ensures
        line is Ok,
        candidates_handled(
            desk(
                *old(state),
                *old(platform),
                *old(dispatcher),
                *old(logs),
                *old(shutdown_requested),
                *old(services),
            ),
            id@,
            line->Ok_0@,
            desk(
                *final(state),
                *final(platform),
                *final(dispatcher),
                *final(logs),
                *final(shutdown_requested),
                *final(services),
            ),
        ),
{
    record_daemon_event(
        logs,
        DaemonLogLevel::Info,
        "session.discoveryCandidates",
        "Peer session discovery candidates requested.",
    );
    encode_success(
        id,
        build_session_discovery_candidates_result(&Vec::new()),
    )
}

/// Carry out `session.disconnect`.
fn answer_disconnect<P: PlatformAdapter, D: SessionDispatcher, S: SessionServices<D::Sink>>(
    state: &mut RuntimeInputState,
    platform: &mut P,
    dispatcher: &mut D,
    logs: &mut Option<DaemonLogBuffer>,
    shutdown_requested: &mut Option<bool>,
    services: &mut S,
    id: &str,
) -> (line: Result<String, DaemonIpcError>)
    ensures
        line is Ok,
        disconnect_handled(
            desk(
                *old(state),
                *old(platform),
                *old(dispatcher),
                *old(logs),
                *old(shutdown_requested),
                *old(services),
            ),
            id@,
            line->Ok_0@,
            desk(
                *final(state),
                *final(platform),
                *final(dispatcher),
                *final(logs),
                *final(shutdown_requested),
                *final(services),
            ),
        ),
{
    let ghost before = desk(*state, *platform, *dispatcher, *logs, *shutdown_requested, *services);
    let outcome = disconnect_peer_session(state, dispatcher);
    let ghost told = outcome;
    assert(disconnects(old(state)@, *old(dispatcher), told, state@, *dispatcher));
    let line = match outcome {
        Ok(result) => {
            record_daemon_event(
                logs,
                DaemonLogLevel::Info,
                "session.disconnect",
                "Peer session disconnect requested.",
            );
            encode_success(id, result)
        },
        Err(error) => {
            record_daemon_event(
                logs,
                DaemonLogLevel::Warn,
                "session.disconnect.failed",
                "Peer session disconnect failed.",
            );
            encode_platform_error(
                id,
                "session disconnect unavailable",
                error,
            )
        },
    };
    let ghost after = desk(*state, *platform, *dispatcher, *logs, *shutdown_requested, *services);
    assert(disconnects(before.state, before.dispatcher, told, after.state, after.dispatcher));
    assert(line->Ok_0@ == answered(id@, "session disconnect unavailable"@, told));
    line
}

/// Carry out a request and answer it.
pub fn handle_ipc_request<P: PlatformAdapter, D: SessionDispatcher, S: SessionServices<D::Sink>>(
    state: &mut RuntimeInputState,
    platform: &mut P,
    dispatcher: &mut D,
    logs: &mut Option<DaemonLogBuffer>,
    shutdown_requested: &mut Option<bool>,
    services: &mut S,
    request: IpcRequest,
) -> (line: Result<String, DaemonIpcError>)
    ensures
        line is Ok,
        handled(
            desk(
                *old(state),
                *old(platform),
                *old(dispatcher),
                *old(logs),
                *old(shutdown_requested),
                *old(services),
            ),
            request,
            line->Ok_0@,
            desk(
                *final(state),
                *final(platform),
                *final(dispatcher),
                *final(logs),
                *final(shutdown_requested),
                *final(services),
            ),
        ),
{
    match request {
        IpcRequest::DaemonStatus(request) => answer_status(
            state,
            platform,
            dispatcher,
            logs,
            shutdown_requested,
            services,
            request.id.as_str(),
        ),
        IpcRequest::PermissionsProbe(request) => answer_probe(
            state,
            platform,
            dispatcher,
            logs,
            shutdown_requested,
            services,
            request.id.as_str(),
        ),
        IpcRequest::DiagnosticsScreenTopology(request) => answer_topology(
            state,
            platform,
            dispatcher,
            logs,
            shutdown_requested,
            services,
            request.id.as_str(),
        ),
        IpcRequest::DiagnosticsKeyboardLayout(request) => answer_layout(
            state,
            platform,
            dispatcher,
            logs,
            shutdown_requested,
            services,
            request.id.as_str(),
        ),
        IpcRequest::DaemonLogsTail(request) => answer_logs_tail(
            state,
            platform,
            dispatcher,
            logs,
            shutdown_requested,
            services,
            request.id.as_str(),
            request.params.limit,
        ),
        IpcRequest::DaemonShutdown(request) => answer_shutdown(
            state,
            platform,
            dispatcher,
            logs,
            shutdown_requested,
            services,
            request.id.as_str(),
        ),
        IpcRequest::InputReleaseAll(request) => answer_release(
            state,
            platform,
            dispatcher,
            logs,
            shutdown_requested,
            services,
            request.id.as_str(),
        ),
        IpcRequest::SessionConnect(request) => answer_connect(
            state,
            platform,
            dispatcher,
            logs,
            shutdown_requested,
            services,
            request.id.as_str(),
            &request.params,
        ),
        IpcRequest::SessionDiscoveryCandidates(request) => answer_candidates(
            state,
            platform,
            dispatcher,
            logs,
            shutdown_requested,
            services,
            request.id.as_str(),
        ),
        IpcRequest::SessionDisconnect(request) => answer_disconnect(
            state,
            platform,
            dispatcher,
            logs,
            shutdown_requested,
            services,
            request.id.as_str(),
        ),
    }
}

/// Carry out one request line and answer it.
pub fn handle_ipc_request_line_with_peer_sessions<
    P: PlatformAdapter,
    D: SessionDispatcher,
    S: SessionServices<D::Sink>,
>(
    state: &mut RuntimeInputState,
    platform: &mut P,
    dispatcher: &mut D,
    line: &str,
    logs: &mut Option<DaemonLogBuffer>,
    shutdown_requested: &mut Option<bool>,
    services: &mut S,
) -> (reply: Result<String, DaemonIpcError>)
    ensures
        reply is Ok,
        line_handled(
            desk(
                *old(state),
                *old(platform),
                *old(dispatcher),
                *old(logs),
                *old(shutdown_requested),
                *old(services),
            ),
            line@,
            reply->Ok_0@,
            desk(
                *final(state),
                *final(platform),
                *final(dispatcher),
                *final(logs),
                *final(shutdown_requested),
                *final(services),
            ),
        ),
{
    let parsed = parse_request_line(line);
    let ghost read = parsed;
    assert(crate::rpc::is_request(read, crate::rpc::read_line(line@)));
    match parsed {
        Ok(request) => handle_ipc_request(
            state,
            platform,
            dispatcher,
            logs,
            shutdown_requested,
            services,
            request,
        ),
        Err(failure) => encode_response(&failure),
    }
}

/// Carry out one request line and answer it, where nothing is logged and the daemon cannot be told to
/// end.
pub fn handle_ipc_request_line<P: PlatformAdapter, D: SessionDispatcher>(
    state: &mut RuntimeInputState,
    platform: &mut P,
    dispatcher: &mut D,
    line: &str,
) -> (reply: Result<String, DaemonIpcError>)
    ensures
        reply is Ok,
        exists|later: NoSessionServices| #[trigger]
            line_handled(
                desk(*old(state), *old(platform), *old(dispatcher), None, None, NoSessionServices),
                line@,
                reply->Ok_0@,
                desk(
                    *final(state),
                    *final(platform),
                    *final(dispatcher),
                    None,
                    None,
                    later,
                ),
            ),
{
    let mut logs: Option<DaemonLogBuffer> = None;
    let mut shutdown_requested: Option<bool> = None;
    let mut services = NoSessionServices;
    let reply = handle_ipc_request_line_with_peer_sessions(
        state,
        platform,
        dispatcher,
        line,
        &mut logs,
        &mut shutdown_requested,
        &mut services,
    );
    proof {
        let before = desk(
            *old(state),
            *old(platform),
            *old(dispatcher),
            None::<DaemonLogBuffer>,
            None::<bool>,
            NoSessionServices,
        );
        let after = desk(
            *state,
            *platform,
            *dispatcher,
            logs,
            shutdown_requested,
            services,
        );
        lemma_flags_stay_away(before, line@, reply->Ok_0@, after);
    }
    reply
}

/// Where there is no log, none appears; where the daemon cannot be told to end, it never can.
proof fn lemma_flags_stay_away<
    P: PlatformAdapter,
    D: SessionDispatcher,
    S: SessionServices<D::Sink>,
>(
    before: DeskModel<P, D, S>,
    line: Seq<char>,
    reply: Seq<char>,
    after: DeskModel<P, D, S>,
)
    requires
        line_handled(before, line, reply, after),
        before.logs is None,
        before.shutdown is None,
    ensures
        after.logs is None,
        after.shutdown is None,
{
}

/// The daemon: what requests act on, and a server for them.
pub struct DaemonIpcServer<P, D, S> {
    pub state: RuntimeInputState,
    pub platform: P,
    pub dispatcher: D,
    pub logs: Option<DaemonLogBuffer>,
    pub shutdown_requested: Option<bool>,
    pub services: S,
}

impl<P, D, S> DaemonIpcServer<P, D, S> {
    /// A daemon with its own log.
    pub fn from_shared_state_dispatcher_and_peer_sessions(
        state: RuntimeInputState,
        platform: P,
        dispatcher: D,
        services: S,
    ) -> (result: Self)
        ensures
            result.state == state,
            result.platform == platform,
            result.dispatcher == dispatcher,
            result.services == services,
            result.shutdown_requested == Some(false),
            result.logs is Some,
            result.logs->Some_0@ == (crate::logs::LogBufferModel {
                entries: Seq::empty(),
                next_sequence: 1,
                capacity: DEFAULT_DAEMON_LOG_CAPACITY as nat,
            }),
    {
        Self::from_shared_state_dispatcher_peer_sessions_and_logs(
            state,
            platform,
            dispatcher,
            services,
            DaemonLogBuffer::new(DEFAULT_DAEMON_LOG_CAPACITY),
        )
    }

    /// A daemon with a log that is there already.
    pub fn from_shared_state_dispatcher_peer_sessions_and_logs(
        state: RuntimeInputState,
        platform: P,
        dispatcher: D,
        services: S,
        logs: DaemonLogBuffer,
    ) -> (result: Self)
        ensures
            result == (DaemonIpcServer {
                state,
                platform,
                dispatcher,
                logs: Some(logs),
                shutdown_requested: Some(false),
                services,
            }),
    {
        DaemonIpcServer {
            state,
            platform,
            dispatcher,
            logs: Some(logs),
            shutdown_requested: Some(false),
            services,
        }
    }

    /// Whether the daemon was told to end.
    pub fn shutdown_requested(&self) -> (result: bool)
        ensures
            result == (self.shutdown_requested == Some(true)),
    {
        match self.shutdown_requested {
            Some(requested) => requested,
            None => false,
        }
    }
}

impl<P: PlatformAdapter, D: CoreActionDispatcher, W, C> DaemonIpcServer<
    P,
    DetachedSessions<D, W, C>,
    NoSessionServices,
> {
    /// A daemon that opens no sessions.
    pub fn from_shared_state_and_dispatcher(
        state: RuntimeInputState,
        platform: P,
        dispatcher: D,
        clock: C,
    ) -> (result: Self)
        ensures
            result.state == state,
            result.platform == platform,
            result.dispatcher.dispatcher == dispatcher,
            result.dispatcher.sessions.active_session is None,
            result.dispatcher.sessions.auth_config is None,
            result.dispatcher.sessions.clock == clock,
            result.shutdown_requested == Some(false),
            result.logs is Some,
            result.logs->Some_0@.entries.len() == 0,
    {
        DaemonIpcServer::from_shared_state_dispatcher_and_peer_sessions(
            state,
            platform,
            DetachedSessions::new(dispatcher, ManagedPeerSessionTransport::new(clock)),
            NoSessionServices,
        )
    }
}

impl<P: PlatformAdapter + Clone, W, C> DaemonIpcServer<
    P,
    DetachedSessions<LocalPlatformCoreActionDispatcher<P, NoopCoreActionDispatcher>, W, C>,
    NoSessionServices,
> {
    /// A daemon that opens no sessions and releases input on its own platform.
    pub fn new(state: RuntimeInputState, platform: P, clock: C) -> (result: Self)
        ensures
            result.state == state,
            result.platform == platform,
            vstd::pervasive::cloned::<P>(platform, result.dispatcher.dispatcher.platform),
            result.dispatcher.sessions.active_session is None,
            result.dispatcher.sessions.auth_config is None,
            result.shutdown_requested == Some(false),
            result.logs is Some,
            result.logs->Some_0@.entries.len() == 0,
    {
        let dispatcher = LocalPlatformCoreActionDispatcher::new(
            platform.clone(),
            NoopCoreActionDispatcher,
        );
        DaemonIpcServer::from_shared_state_and_dispatcher(state, platform, dispatcher, clock)
    }
}

/// What a daemon's requests act on.
pub open spec fn server_desk<P: PlatformAdapter, D, S>(server: DaemonIpcServer<P, D, S>) -> DeskModel<
    P,
    D,
    S,
> {
    desk(
        server.state,
        server.platform,
        server.dispatcher,
        server.logs,
        server.shutdown_requested,
        server.services,
    )
}

impl<P: PlatformAdapter, D: SessionDispatcher, S: SessionServices<D::Sink>> LocalIpcServer
    for DaemonIpcServer<P, D, S> {
    open spec fn answers(
        before: Self,
        request_line: Seq<char>,
        answer: Result<String, IpcTransportError>,
        after: Self,
    ) -> bool {
        &&& answer is Ok
        &&& line_handled(server_desk(before), request_line, answer->Ok_0@, server_desk(after))
    }

    fn handle_request_line(&mut self, request_line: &str) -> (answer: Result<
        String,
        IpcTransportError,
    >) {
        match handle_ipc_request_line_with_peer_sessions(
            &mut self.state,
            &mut self.platform,
            &mut self.dispatcher,
            request_line,
            &mut self.logs,
            &mut self.shutdown_requested,
            &mut self.services,
        ) {
            Ok(reply) => Ok(reply),
            Err(error) => Err(IpcTransportError::request_failed(error.message().as_str())),
        }
    }
}

/// Where the daemon serves its control channel, and for how many requests.
#[derive(Debug, PartialEq, Eq)]
pub struct DaemonIpcRunConfig {
    pub endpoint: IpcEndpoint,
    pub max_requests: Option<usize>,
}

impl DaemonIpcRunConfig {
    /// Serve until the daemon is told to end.
    pub fn serve_forever(endpoint: IpcEndpoint) -> (result: Self)
        ensures
            result == (DaemonIpcRunConfig { endpoint, max_requests: None }),
    {
        DaemonIpcRunConfig { endpoint, max_requests: None }
    }

    /// Serve so many requests.
    pub fn serve_requests(endpoint: IpcEndpoint, max_requests: usize) -> (result: Self)
        ensures
            result == (DaemonIpcRunConfig { endpoint, max_requests: Some(max_requests) }),
    {
        DaemonIpcRunConfig { endpoint, max_requests: Some(max_requests) }
    }

    pub fn endpoint(&self) -> (result: &IpcEndpoint)
        ensures
            *result == self.endpoint,
    {
        &self.endpoint
    }

    /// Whether so many requests are enough.
    pub open spec fn is_enough(&self, handled_requests: usize) -> bool {
        self.max_requests matches Some(max_requests) && handled_requests >= max_requests
    }
}

/// What a serving loop does next.
#[derive(Debug, PartialEq, Eq)]
pub enum ServeAction {
    ServeOnce,
    Finish(Result<(), IpcTransportError>),
}

/// Begin to serve.
pub fn begin_daemon_ipc(config: &DaemonIpcRunConfig) -> (action: ServeAction)
    ensures
        if config.is_enough(0) {
            action matches ServeAction::Finish(Ok(_))
        } else {
            action == ServeAction::ServeOnce
        },
{
    match config.max_requests {
        Some(max_requests) => if max_requests == 0 {
            ServeAction::Finish(Ok(()))
        } else {
            ServeAction::ServeOnce
        },
        None => ServeAction::ServeOnce,
    }
}

/// Go on serving after a request: count it, and end where serving failed, the daemon was told to end,
/// or the requests are enough.
pub fn serve_daemon_ipc(
    config: &DaemonIpcRunConfig,
    handled_requests: &mut usize,
    served: Result<(), IpcTransportError>,
    shutdown_requested: bool,
) -> (action: ServeAction)
    ensures
        match served {
            Err(error) => {
                &&& action == ServeAction::Finish(Err(error))
                &&& *final(handled_requests) == *old(handled_requests)
            },
            Ok(_) => {
                &&& *final(handled_requests) == (if *old(handled_requests) == usize::MAX {
                    usize::MAX as int
                } else {
                    *old(handled_requests) + 1
                })
                &&& if shutdown_requested || config.is_enough(*final(handled_requests)) {
                    action matches ServeAction::Finish(Ok(_))
                } else {
                    action == ServeAction::ServeOnce
                }
            },
        },
{
    match served {
        Err(error) => return ServeAction::Finish(Err(error)),
        Ok(_) => {},
    }
    if *handled_requests < usize::MAX {
        *handled_requests = *handled_requests + 1;
    }
    if shutdown_requested {
        return ServeAction::Finish(Ok(()));
    }
    match config.max_requests {
        Some(max_requests) => if *handled_requests >= max_requests {
            ServeAction::Finish(Ok(()))
        } else {
            ServeAction::ServeOnce
        },
        None => ServeAction::ServeOnce,
    }
}

/// A line that is no request is answered with its failure and changes nothing.
pub proof fn bad_lines_change_nothing<
    P: PlatformAdapter,
    D: SessionDispatcher,
    S: SessionServices<D::Sink>,
>(
    before: DeskModel<P, D, S>,
    line: Seq<char>,
    reply: Seq<char>,
    after: DeskModel<P, D, S>,
)
    requires
        line_handled(before, line, reply, after),
        crate::rpc::read_line(line) is Err,
    ensures
        after == before,
        reply == failure_line(crate::rpc::read_line(line)->Err_0),
{
}

/// Whether a request only asks.
pub open spec fn only_asks(request: IpcRequest) -> bool {
    request is DaemonStatus || request is DiagnosticsScreenTopology
        || request is DiagnosticsKeyboardLayout || request is DaemonLogsTail
        || request is SessionDiscoveryCandidates
}

/// A request that only asks leaves control, input, the session and the daemon's end alone.
pub proof fn questions_change_nothing<
    P: PlatformAdapter,
    D: SessionDispatcher,
    S: SessionServices<D::Sink>,
>(
    before: DeskModel<P, D, S>,
    request: IpcRequest,
    reply: Seq<char>,
    after: DeskModel<P, D, S>,
)
    requires
        handled(before, request, reply, after),
        only_asks(request),
    ensures
        after.state == before.state,
        after.dispatcher == before.dispatcher,
        after.shutdown == before.shutdown,
{
}

/// Only `daemon.shutdown` tells the daemon to end, and only where control was taken back first.
pub proof fn only_shutdown_ends_the_daemon<
    P: PlatformAdapter,
    D: SessionDispatcher,
    S: SessionServices<D::Sink>,
>(
    before: DeskModel<P, D, S>,
    request: IpcRequest,
    reply: Seq<char>,
    after: DeskModel<P, D, S>,
)
    requires
        handled(before, request, reply, after),
        after.shutdown != before.shutdown,
    ensures
        request is DaemonShutdown,
        after.shutdown == Some(true),
        after.state.mode == crate::runtime::ControlMode::Local,
        after.dispatcher.sessions().active_session is None,
{
    let outcome = choose|outcome: Result<DaemonShutdownResult, PlatformError>|
        #![trigger shuts_down(
            before.state,
            before.dispatcher,
            outcome,
            after.state,
            after.dispatcher,
        )]
        shuts_down(before.state, before.dispatcher, outcome, after.state, after.dispatcher)
            && outcome is Ok;
    let left = choose|left: Result<Option<ManagedPeerSessionSnapshot>, PlatformError>|
        #![trigger leaves(before.state, before.dispatcher, left, after.state, after.dispatcher)]
        leaves(before.state, before.dispatcher, left, after.state, after.dispatcher) && left is Ok;
    left_session_is_gone(before.state, before.dispatcher, left, after.state, after.dispatcher);
}

/// Whether a request takes control back.
pub open spec fn takes_control_back(request: IpcRequest) -> bool {
    request is InputReleaseAll || request is SessionDisconnect
}

/// However such a request is answered, control is local afterwards.
pub proof fn control_comes_back<
    P: PlatformAdapter,
    D: SessionDispatcher,
    S: SessionServices<D::Sink>,
>(
    before: DeskModel<P, D, S>,
    request: IpcRequest,
    reply: Seq<char>,
    after: DeskModel<P, D, S>,
)
    requires
        handled(before, request, reply, after),
        takes_control_back(request),
    ensures
        after.state == crate::runtime::recovered(before.state),
        after.state.mode == crate::runtime::ControlMode::Local,
{
}

/// Where a diagnosis was noted, the log holds nothing but texts of the daemon's own.
proof fn lemma_diagnosis_text(
    before: Option<DaemonLogBuffer>,
    worked: bool,
    event: Seq<char>,
    message: Seq<char>,
    failed_event: Seq<char>,
    failed_message: Seq<char>,
    after: Option<DaemonLogBuffer>,
)
    requires
        diagnosis_logged(before, worked, event, message, failed_event, failed_message, after),
        crate::logs::is_request_text(event, message),
        crate::logs::is_request_text(failed_event, failed_message),
        crate::logs::tells_own_texts(before),
    ensures
        crate::logs::tells_own_texts(after),
{
    if worked {
        crate::logs::lemma_own_text_logged(
            before,
            DaemonLogLevel::Info,
            event,
            message,
            after,
        );
    } else {
        crate::logs::lemma_own_text_logged(
            before,
            DaemonLogLevel::Warn,
            failed_event,
            failed_message,
            after,
        );
    }
}

/// Where permissions were probed, the log holds nothing but texts of the daemon's own.
proof fn lemma_probe_text<P: PlatformAdapter, D: SessionDispatcher, S>(
    before: DeskModel<P, D, S>,
    id: Seq<char>,
    outcome: Result<PermissionsProbe, PlatformError>,
    reply: Seq<char>,
    after: DeskModel<P, D, S>,
)
    requires
        probe_answered(before, id, outcome, reply, after),
        crate::logs::tells_own_texts(before.logs),
    ensures
        crate::logs::tells_own_texts(after.logs),
{
    match outcome {
        Err(_) => crate::logs::lemma_own_text_logged(
            before.logs,
            DaemonLogLevel::Warn,
            "permissions.probe.failed"@,
            "Permissions probe failed."@,
            after.logs,
        ),
        Ok(probe) => if probe.issues@.len() == 0 {
            crate::logs::lemma_own_text_logged(
                before.logs,
                DaemonLogLevel::Info,
                "permissions.probe"@,
                "Permissions probe requested."@,
                after.logs,
            );
        } else {
            let interrupt = RuntimeRecoveryInterrupt::PermissionLost;
            let (recovered, noted) = choose|
                recovered: Result<(), PlatformError>,
                noted: Option<DaemonLogBuffer>,
            | #[trigger]
                crate::recovery::interrupt_recovers(
                    before.state,
                    before.dispatcher,
                    before.logs,
                    interrupt,
                    recovered,
                    after.state,
                    after.dispatcher,
                    noted,
                ) && match recovered {
                    Err(_) => after.logs == noted,
                    Ok(_) => crate::logs::logged(
                        noted,
                        DaemonLogLevel::Info,
                        "permissions.probe"@,
                        "Permissions probe requested."@,
                        after.logs,
                    ),
                };
            crate::logs::lemma_own_text_logged(
                before.logs,
                DaemonLogLevel::Warn,
                interrupt.success_event(),
                interrupt.success_text(),
                noted,
            );
            if recovered is Ok {
                crate::logs::lemma_own_text_logged(
                    noted,
                    DaemonLogLevel::Info,
                    "permissions.probe"@,
                    "Permissions probe requested."@,
                    after.logs,
                );
            }
        },
    }
}

/// Where a request was carried out, the log holds nothing but texts of the daemon's own.
proof fn lemma_request_text<P: PlatformAdapter, D: SessionDispatcher, S: SessionServices<D::Sink>>(
    before: DeskModel<P, D, S>,
    request: IpcRequest,
    reply: Seq<char>,
    after: DeskModel<P, D, S>,
)
    requires
        handled(before, request, reply, after),
        crate::logs::tells_own_texts(before.logs),
    ensures
        crate::logs::tells_own_texts(after.logs),
{
    match request {
        IpcRequest::DaemonStatus(_) => crate::logs::lemma_own_text_logged(
            before.logs,
            DaemonLogLevel::Info,
            "daemon.status"@,
            "Daemon status requested."@,
            after.logs,
        ),
        IpcRequest::PermissionsProbe(request) => {
            let (answer, outcome) = choose|
                answer: Result<PlatformCapabilities, PlatformError>,
                outcome: Result<PermissionsProbe, PlatformError>,
            |
                P::answers(
                    before.platform,
                    PlatformCall::ProbeCapabilities { capabilities: answer },
                    after.platform,
                ) && #[trigger] crate::status::probe_outcome(answer, outcome, after.platform)
                    && probe_answered(before, request.id@, outcome, reply, after);
            lemma_probe_text(before, request.id@, outcome, reply, after);
        },
        IpcRequest::DiagnosticsScreenTopology(_) => {
            let (answer, outcome) = choose|
                answer: Result<DesktopGeometry, PlatformError>,
                outcome: Result<DiagnosticsScreenTopology, PlatformError>,
            | #[trigger]
                crate::status::topology_outcome(answer, outcome) && diagnosis_logged(
                    before.logs,
                    outcome is Ok,
                    "diagnostics.screenTopology"@,
                    "Screen topology diagnostics requested."@,
                    "diagnostics.screenTopology.failed"@,
                    "Screen topology diagnostics failed."@,
                    after.logs,
                );
            lemma_diagnosis_text(
                before.logs,
                outcome is Ok,
                "diagnostics.screenTopology"@,
                "Screen topology diagnostics requested."@,
                "diagnostics.screenTopology.failed"@,
                "Screen topology diagnostics failed."@,
                after.logs,
            );
        },
        IpcRequest::DiagnosticsKeyboardLayout(_) => {
            let (answer, outcome) = choose|
                answer: Result<KeyboardLayoutSnapshot, PlatformError>,
                outcome: Result<DiagnosticsKeyboardLayout, PlatformError>,
            | #[trigger]
                crate::status::layout_outcome(answer, outcome) && diagnosis_logged(
                    before.logs,
                    outcome is Ok,
                    "diagnostics.keyboardLayout"@,
                    "Keyboard layout diagnostics requested."@,
                    "diagnostics.keyboardLayout.failed"@,
                    "Keyboard layout diagnostics failed."@,
                    after.logs,
                );
            lemma_diagnosis_text(
                before.logs,
                outcome is Ok,
                "diagnostics.keyboardLayout"@,
                "Keyboard layout diagnostics requested."@,
                "diagnostics.keyboardLayout.failed"@,
                "Keyboard layout diagnostics failed."@,
                after.logs,
            );
        },
        IpcRequest::DaemonLogsTail(_) => crate::logs::lemma_own_text_logged(
            before.logs,
            DaemonLogLevel::Info,
            "daemon.logs.tail"@,
            "Daemon logs tail requested."@,
            after.logs,
        ),
        IpcRequest::DaemonShutdown(_) => if crate::logs::logged(
            before.logs,
            DaemonLogLevel::Warn,
            "daemon.shutdown"@,
            "Daemon shutdown requested."@,
            after.logs,
        ) {
            crate::logs::lemma_own_text_logged(
                before.logs,
                DaemonLogLevel::Warn,
                "daemon.shutdown"@,
                "Daemon shutdown requested."@,
                after.logs,
            );
        } else {
            crate::logs::lemma_own_text_logged(
                before.logs,
                DaemonLogLevel::Error,
                "daemon.shutdown.failed"@,
                "Daemon shutdown failed."@,
                after.logs,
            );
        },
        IpcRequest::InputReleaseAll(_) => if crate::logs::logged(
            before.logs,
            DaemonLogLevel::Warn,
            "input.releaseAll"@,
            "Input release requested."@,
            after.logs,
        ) {
            crate::logs::lemma_own_text_logged(
                before.logs,
                DaemonLogLevel::Warn,
                "input.releaseAll"@,
                "Input release requested."@,
                after.logs,
            );
        } else {
            crate::logs::lemma_own_text_logged(
                before.logs,
                DaemonLogLevel::Error,
                "input.releaseAll.failed"@,
                "Input release failed."@,
                after.logs,
            );
        },
        IpcRequest::SessionConnect(_) => {
            let worked = diagnosis_logged(
                before.logs,
                true,
                "session.connect"@,
                "Peer session connect requested."@,
                "session.connect.failed"@,
                "Peer session connect failed."@,
                after.logs,
            );
            lemma_diagnosis_text(
                before.logs,
                worked,
                "session.connect"@,
                "Peer session connect requested."@,
                "session.connect.failed"@,
                "Peer session connect failed."@,
                after.logs,
            );
        },
        IpcRequest::SessionDiscoveryCandidates(_) => crate::logs::lemma_own_text_logged(
            before.logs,
            DaemonLogLevel::Info,
            "session.discoveryCandidates"@,
            "Peer session discovery candidates requested."@,
            after.logs,
        ),
        IpcRequest::SessionDisconnect(_) => {
            let worked = diagnosis_logged(
                before.logs,
                true,
                "session.disconnect"@,
                "Peer session disconnect requested."@,
                "session.disconnect.failed"@,
                "Peer session disconnect failed."@,
                after.logs,
            );
            lemma_diagnosis_text(
                before.logs,
                worked,
                "session.disconnect"@,
                "Peer session disconnect requested."@,
                "session.disconnect.failed"@,
                "Peer session disconnect failed."@,
                after.logs,
            );
        },
    }
}

/// The log never tells a value that a user or a peer supplied: whatever line comes, every event in the
/// log is one of the daemon's own fixed texts.
pub proof fn log_tells_own_texts_only<
    P: PlatformAdapter,
    D: SessionDispatcher,
    S: SessionServices<D::Sink>,
>(
    before: DeskModel<P, D, S>,
    line: Seq<char>,
    reply: Seq<char>,
    after: DeskModel<P, D, S>,
)
    requires
        line_handled(before, line, reply, after),
        crate::logs::tells_own_texts(before.logs),
    ensures
        crate::logs::tells_own_texts(after.logs),
{
    let parsed = choose|parsed: Result<IpcRequest, JsonRpcFailure>| #[trigger]
        crate::rpc::is_request(parsed, crate::rpc::read_line(line)) && match parsed {
            Ok(request) => handled(before, request, reply, after),
            Err(_) => after == before,
        };
    match parsed {
        Err(_) => {},
        Ok(request) => lemma_request_text(before, request, reply, after),
    }
}

/// Whether a line tells the asker a result: one object with the version, the asker's id and the result,
/// written on a line of its own.
pub open spec fn tells_result(
    line: Seq<char>,
    id: Seq<char>,
    result: crate::json::JsonModel,
) -> bool {
    exists|whole: crate::json::JsonModel|
        line == #[trigger] crate::json::json_text(whole).push('\n') && crate::snapshot::says(
            whole,
            3,
            "jsonrpc"@,
            crate::json::JsonModel::Text("2.0"@),
        ) && crate::snapshot::says(whole, 3, "id"@, crate::json::JsonModel::Text(id))
            && crate::snapshot::says(whole, 3, "result"@, result)
}

/// Whether a line tells the asker that the daemon could not do what was asked, and why.
pub open spec fn tells_error(line: Seq<char>, id: Seq<char>, message: Seq<char>) -> bool {
    exists|whole: crate::json::JsonModel, error: crate::json::JsonModel|
        line == #[trigger] crate::json::json_text(whole).push('\n') && crate::snapshot::says(
            whole,
            3,
            "jsonrpc"@,
            crate::json::JsonModel::Text("2.0"@),
        ) && crate::snapshot::says(whole, 3, "id"@, crate::json::JsonModel::Text(id))
            && #[trigger] crate::snapshot::says(whole, 3, "error"@, error)
            && crate::snapshot::says(
            error,
            2,
            "code"@,
            crate::json::JsonModel::Negative((-32000) as i64),
        ) && crate::snapshot::says(
            error,
            2,
            "message"@,
            crate::json::JsonModel::Text(message),
        )
}

proof fn lemma_result_told(id: Seq<char>, result: crate::json::JsonModel)
    ensures
        tells_result(success_line(id, result), id, result),
{
    let whole = crate::rpc::success_json(id, result);
    let members = whole->Object_0;
    assert(members[0] == ("jsonrpc"@, crate::json::JsonModel::Text("2.0"@)));
    assert(members[1] == ("id"@, crate::json::JsonModel::Text(id)));
    assert(members[2] == ("result"@, result));
    assert(members.contains(members[0]));
    assert(members.contains(members[1]));
    assert(members.contains(members[2]));
    assert(success_line(id, result) == crate::json::json_text(whole).push('\n'));
}

proof fn lemma_error_told(id: Seq<char>, message: Seq<char>, error: Seq<char>)
    ensures
        tells_error(error_line(id, message, error), id, message + ": "@ + error),
{
    let failure = crate::rpc::FailureModel {
        id: Some(id),
        code: JSONRPC_DAEMON_ERROR,
        message: message + ": "@ + error,
    };
    let whole = crate::rpc::failure_json(failure);
    let members = whole->Object_0;
    let inner = members[2].1;
    assert(members[0] == ("jsonrpc"@, crate::json::JsonModel::Text("2.0"@)));
    assert(members[1] == ("id"@, crate::json::JsonModel::Text(id)));
    assert(members[2] == ("error"@, inner));
    assert(members.contains(members[0]));
    assert(members.contains(members[1]));
    assert(members.contains(members[2]));
    let parts = inner->Object_0;
    assert(parts[0] == ("code"@, crate::json::JsonModel::Negative((-32000) as i64)));
    assert(parts[1] == ("message"@, crate::json::JsonModel::Text(failure.message)));
    assert(parts.contains(parts[0]));
    assert(parts.contains(parts[1]));
    assert(error_line(id, message, error) == crate::json::json_text(whole).push('\n'));
    assert(crate::snapshot::says(whole, 3, "error"@, inner));
}

/// A request to let everything go brings control home. The asker hears that it was let go where it
/// was, and why not where it was not; the log says which.
pub proof fn a_release_brings_control_home<
    P: PlatformAdapter,
    D: SessionDispatcher,
    S: SessionServices<D::Sink>,
>(
    state: &mut RuntimeInputState,
    platform: &mut P,
    dispatcher: &mut D,
    logs: &mut Option<DaemonLogBuffer>,
    shutdown: &mut Option<bool>,
    services: &mut S,
    request: crate::rpc::JsonRpcRequest<crate::snapshot::InputReleaseAllParams>,
    line: Result<String, DaemonIpcError>,
)
    requires
        call_ensures(
            handle_ipc_request::<P, D, S>,
            (
                state,
                platform,
                dispatcher,
                logs,
                shutdown,
                services,
                IpcRequest::InputReleaseAll(request),
            ),
            line,
        ),
    ensures
        line is Ok,
        final(state)@.mode is Local,
        final(state)@.pending_peer_id is None,
        final(state)@.session_id is None,
        *final(platform) == *old(platform),
        *final(shutdown) == *old(shutdown),
        *final(services) == *old(services),
        exists|actions: Seq<crate::runtime::CoreAction>, sent: Result<(), PlatformError>|
            crate::recovery::gives_control_up(old(state)@, actions) && #[trigger] D::dispatches(
                *old(dispatcher),
                actions,
                sent,
                *final(dispatcher),
            ) && match sent {
                Ok(_) => {
                    &&& tells_result(
                        line->Ok_0@,
                        request.id@,
                        InputReleaseAllResult {
                            released: true,
                            mode: ControlModeSnapshot::Local,
                        }.json(),
                    )
                    &&& crate::logs::is_noted(
                        *old(logs),
                        DaemonLogLevel::Warn,
                        "input.releaseAll"@,
                        "Input release requested."@,
                        *final(logs),
                    )
                },
                Err(error) => {
                    &&& tells_error(
                        line->Ok_0@,
                        request.id@,
                        "input release unavailable"@ + ": "@ + error@,
                    )
                    &&& crate::logs::is_noted(
                        *old(logs),
                        DaemonLogLevel::Error,
                        "input.releaseAll.failed"@,
                        "Input release failed."@,
                        *final(logs),
                    )
                },
            },
{
    let outcome = choose|outcome: Result<InputReleaseAllResult, PlatformError>| #[trigger]
        releases(
            old(state)@,
            *old(dispatcher),
            outcome,
            final(state)@,
            *final(dispatcher),
        ) && line->Ok_0@ == answered(request.id@, "input release unavailable"@, outcome) && (
        if outcome is Ok {
            crate::logs::logged(
                *old(logs),
                DaemonLogLevel::Warn,
                "input.releaseAll"@,
                "Input release requested."@,
                *final(logs),
            )
        } else {
            crate::logs::logged(
                *old(logs),
                DaemonLogLevel::Error,
                "input.releaseAll.failed"@,
                "Input release failed."@,
                *final(logs),
            )
        });
    crate::recovery::recovery_gives_control_up(old(state)@);
    let actions = crate::runtime::recovery_actions(old(state)@);
    match outcome {
        Ok(result) => {
            lemma_result_told(request.id@, result.json());
            assert(D::dispatches(
                *old(dispatcher),
                actions,
                Ok::<(), PlatformError>(()),
                *final(dispatcher),
            ));
        },
        Err(error) => {
            lemma_error_told(request.id@, "input release unavailable"@, error@);
            assert(D::dispatches(
                *old(dispatcher),
                actions,
                Err::<(), PlatformError>(error),
                *final(dispatcher),
            ));
        },
    }
}

/// Whether a session is left: control comes home first, what the peer held is let go, and only where
/// that worked is the session gone. What is known of the session that was left stays known.
pub open spec fn session_is_left<D: SessionDispatcher>(
    state: crate::runtime::RuntimeModel,
    dispatcher: D,
    sent: Result<(), PlatformError>,
    told: D,
    next_state: crate::runtime::RuntimeModel,
    next: D,
) -> bool {
    &&& next_state.mode is Local
    &&& next_state.pending_peer_id is None
    &&& next_state.session_id is None
    &&& exists|actions: Seq<crate::runtime::CoreAction>|
        crate::recovery::gives_control_up(state, actions) && #[trigger] D::dispatches(
            dispatcher,
            actions,
            sent,
            told,
        )
    &&& sent is Err ==> next == told
    &&& sent is Ok ==> next.sessions().active_session is None
    &&& sent is Ok ==> next.sessions().reconnect_backoff == told.sessions().reconnect_backoff
}

/// A shutdown that works brings control home, leaves the session and asks the daemon to end. One that
/// does not work leaves the daemon running, and so does one that cannot be asked for.
pub proof fn a_shutdown_leaves_nothing_behind<
    P: PlatformAdapter,
    D: SessionDispatcher,
    S: SessionServices<D::Sink>,
>(
    state: &mut RuntimeInputState,
    platform: &mut P,
    dispatcher: &mut D,
    logs: &mut Option<DaemonLogBuffer>,
    shutdown: &mut Option<bool>,
    services: &mut S,
    request: crate::rpc::JsonRpcRequest<crate::snapshot::DaemonShutdownParams>,
    line: Result<String, DaemonIpcError>,
)
    requires
        call_ensures(
            handle_ipc_request::<P, D, S>,
            (
                state,
                platform,
                dispatcher,
                logs,
                shutdown,
                services,
                IpcRequest::DaemonShutdown(request),
            ),
            line,
        ),
    ensures
        line is Ok,
        *final(platform) == *old(platform),
        *final(services) == *old(services),
        *old(shutdown) is None ==> {
            &&& *final(shutdown) is None
            &&& final(state)@ == old(state)@
            &&& *final(dispatcher) == *old(dispatcher)
            &&& tells_error(
                line->Ok_0@,
                request.id@,
                "daemon shutdown unavailable"@ + ": "@ + "shutdown control flag is unavailable"@,
            )
            &&& crate::logs::is_noted(
                *old(logs),
                DaemonLogLevel::Error,
                "daemon.shutdown.failed"@,
                "Daemon shutdown failed."@,
                *final(logs),
            )
        },
        *old(shutdown) is Some ==> exists|sent: Result<(), PlatformError>, told: D| #[trigger]
            session_is_left(
                old(state)@,
                *old(dispatcher),
                sent,
                told,
                final(state)@,
                *final(dispatcher),
            ) && match sent {
                Ok(_) => {
                    &&& *final(shutdown) == Some(true)
                    &&& tells_result(
                        line->Ok_0@,
                        request.id@,
                        DaemonShutdownResult {
                            requested: true,
                            released_inputs: true,
                            disconnected_peer_session: told.sessions().active_session is Some
                                || old(dispatcher).sessions().active_session is Some,
                            mode: ControlModeSnapshot::Local,
                        }.json(),
                    )
                    &&& crate::logs::is_noted(
                        *old(logs),
                        DaemonLogLevel::Warn,
                        "daemon.shutdown"@,
                        "Daemon shutdown requested."@,
                        *final(logs),
                    )
                },
                Err(error) => {
                    &&& *final(shutdown) == *old(shutdown)
                    &&& tells_error(
                        line->Ok_0@,
                        request.id@,
                        "daemon shutdown unavailable"@ + ": "@ + error@,
                    )
                    &&& crate::logs::is_noted(
                        *old(logs),
                        DaemonLogLevel::Error,
                        "daemon.shutdown.failed"@,
                        "Daemon shutdown failed."@,
                        *final(logs),
                    )
                },
            },
{
    if *old(shutdown) is None {
        lemma_error_told(
            request.id@,
            "daemon shutdown unavailable"@,
            "shutdown control flag is unavailable"@,
        );
    } else {
        let outcome = choose|outcome: Result<DaemonShutdownResult, PlatformError>| #[trigger]
            shuts_down(
                old(state)@,
                *old(dispatcher),
                outcome,
                final(state)@,
                *final(dispatcher),
            ) && line->Ok_0@ == answered(request.id@, "daemon shutdown unavailable"@, outcome)
                && match outcome {
                Ok(_) => {
                    &&& *final(shutdown) == Some(true)
                    &&& crate::logs::logged(
                        *old(logs),
                        DaemonLogLevel::Warn,
                        "daemon.shutdown"@,
                        "Daemon shutdown requested."@,
                        *final(logs),
                    )
                },
                Err(_) => {
                    &&& *final(shutdown) == *old(shutdown)
                    &&& crate::logs::logged(
                        *old(logs),
                        DaemonLogLevel::Error,
                        "daemon.shutdown.failed"@,
                        "Daemon shutdown failed."@,
                        *final(logs),
                    )
                },
            };
        let left = choose|left: Result<Option<ManagedPeerSessionSnapshot>, PlatformError>|
            #[trigger]
            leaves(
                old(state)@,
                *old(dispatcher),
                left,
                final(state)@,
                *final(dispatcher),
            ) && match left {
                Err(error) => outcome == Err::<DaemonShutdownResult, PlatformError>(error),
                Ok(left) => outcome == Ok::<DaemonShutdownResult, PlatformError>(
                    DaemonShutdownResult {
                        requested: true,
                        released_inputs: true,
                        disconnected_peer_session: left is Some,
                        mode: ControlModeSnapshot::Local,
                    },
                ),
            };
        lemma_session_is_left(old(state)@, *old(dispatcher), left, final(state)@, *final(dispatcher));
        match outcome {
            Ok(result) => lemma_result_told(request.id@, result.json()),
            Err(error) => lemma_error_told(request.id@, "daemon shutdown unavailable"@, error@),
        }
    }
}

proof fn lemma_session_is_left<D: SessionDispatcher>(
    state: crate::runtime::RuntimeModel,
    dispatcher: D,
    outcome: Result<Option<ManagedPeerSessionSnapshot>, PlatformError>,
    next_state: crate::runtime::RuntimeModel,
    next: D,
)
    requires
        leaves(state, dispatcher, outcome, next_state, next),
    ensures
        exists|sent: Result<(), PlatformError>, told: D| #[trigger]
            session_is_left(state, dispatcher, sent, told, next_state, next) && (outcome is Ok
                <==> sent is Ok) && (sent matches Err(error) ==> outcome == Err::<
                Option<ManagedPeerSessionSnapshot>,
                PlatformError,
            >(error)) && (outcome matches Ok(left) ==> is_left(
                left,
                session_left(
                    told.sessions().active_session,
                    dispatcher.sessions().active_session,
                ),
            )),
{
    crate::recovery::recovery_gives_control_up(state);
    let (sent, told) = choose|sent: Result<(), PlatformError>, told: D| #[trigger]
        D::dispatches(dispatcher, crate::runtime::recovery_actions(state), sent, told)
            && match sent {
            Err(error) => {
                &&& outcome == Err::<Option<ManagedPeerSessionSnapshot>, PlatformError>(error)
                &&& next == told
            },
            Ok(_) => {
                &&& next == told.with_sessions(without_session(told.sessions()))
                &&& outcome is Ok
                &&& is_left(
                    outcome->Ok_0,
                    session_left(
                        told.sessions().active_session,
                        dispatcher.sessions().active_session,
                    ),
                )
            },
        };
    told.sessions_are_those_given(without_session(told.sessions()));
    assert(session_is_left(state, dispatcher, sent, told, next_state, next));
}

/// Whether an asker hears an outcome: the result of what was asked, or why there is none.
pub open spec fn is_told_to_asker<T: ToJson>(
    line: Seq<char>,
    id: Seq<char>,
    message: Seq<char>,
    outcome: Result<T, PlatformError>,
) -> bool {
    &&& outcome matches Ok(result) ==> tells_result(line, id, result.json())
    &&& outcome matches Err(error) ==> tells_error(line, id, message + ": "@ + error@)
}

proof fn lemma_told_to_asker<T: ToJson>(
    id: Seq<char>,
    message: Seq<char>,
    outcome: Result<T, PlatformError>,
)
    ensures
        is_told_to_asker(answered(id, message, outcome), id, message, outcome),
{
    match outcome {
        Ok(result) => lemma_result_told(id, result.json()),
        Err(error) => lemma_error_told(id, message, error@),
    }
}

/// Whether a result names the session that was left: the one that was open when it was dropped, else
/// the one that was open before.
pub open spec fn names_the_left_session<W>(
    dropped: Option<TcpPeerSessionTransport<W>>,
    known: Option<TcpPeerSessionTransport<W>>,
    result: SessionDisconnectResult,
) -> bool {
    &&& result.disconnected <==> (dropped is Some || known is Some)
    &&& result.session is Some <==> (dropped is Some || known is Some)
    &&& result.session matches Some(status) ==> {
        let session = if dropped is Some {
            dropped->Some_0
        } else {
            known->Some_0
        };
        &&& status.peer_id@ == session.peer_id.value@
        &&& status.local_device_id@ == session.local_device_id.value@
        &&& status.address@ == crate::address::spell_socket(session.address@)
        &&& !status.connected
    }
}

/// A session that is disconnected is left, and the asker hears which one it was. Where it could not be
/// left, the asker hears why.
pub proof fn a_disconnected_session_is_named<
    P: PlatformAdapter,
    D: SessionDispatcher,
    S: SessionServices<D::Sink>,
>(
    state: &mut RuntimeInputState,
    platform: &mut P,
    dispatcher: &mut D,
    logs: &mut Option<DaemonLogBuffer>,
    shutdown: &mut Option<bool>,
    services: &mut S,
    request: crate::rpc::JsonRpcRequest<crate::snapshot::SessionDisconnectParams>,
    line: Result<String, DaemonIpcError>,
)
    requires
        call_ensures(
            handle_ipc_request::<P, D, S>,
            (
                state,
                platform,
                dispatcher,
                logs,
                shutdown,
                services,
                IpcRequest::SessionDisconnect(request),
            ),
            line,
        ),
    ensures
        line is Ok,
        *final(platform) == *old(platform),
        *final(shutdown) == *old(shutdown),
        *final(services) == *old(services),
        exists|sent: Result<(), PlatformError>, told: D| #[trigger]
            session_is_left(
                old(state)@,
                *old(dispatcher),
                sent,
                told,
                final(state)@,
                *final(dispatcher),
            ) && match sent {
                Ok(_) => {
                    &&& exists|result: SessionDisconnectResult|
                        tells_result(line->Ok_0@, request.id@, #[trigger] result.json())
                            && result.mode is Local && names_the_left_session(
                            told.sessions().active_session,
                            old(dispatcher).sessions().active_session,
                            result,
                        )
                    &&& crate::logs::is_noted(
                    *old(logs),
                    DaemonLogLevel::Info,
                    "session.disconnect"@,
                    "Peer session disconnect requested."@,
                    *final(logs),
                )
                },
                Err(error) => {
                    &&& tells_error(
                        line->Ok_0@,
                        request.id@,
                        "session disconnect unavailable"@ + ": "@ + error@,
                    )
                    &&& crate::logs::is_noted(
                    *old(logs),
                    DaemonLogLevel::Warn,
                    "session.disconnect.failed"@,
                    "Peer session disconnect failed."@,
                    *final(logs),
                )
                },
            },
{
    let outcome = choose|outcome: Result<SessionDisconnectResult, PlatformError>| #[trigger]
        disconnects(
            old(state)@,
            *old(dispatcher),
            outcome,
            final(state)@,
            *final(dispatcher),
        ) && line->Ok_0@ == answered(request.id@, "session disconnect unavailable"@, outcome)
            && diagnosis_logged(
            *old(logs),
            outcome is Ok,
            "session.disconnect"@,
            "Peer session disconnect requested."@,
            "session.disconnect.failed"@,
            "Peer session disconnect failed."@,
            *final(logs),
        );
    let left = choose|left: Result<Option<ManagedPeerSessionSnapshot>, PlatformError>| #[trigger]
        leaves(
            old(state)@,
            *old(dispatcher),
            left,
            final(state)@,
            *final(dispatcher),
        ) && match left {
            Err(error) => outcome == Err::<SessionDisconnectResult, PlatformError>(error),
            Ok(left) => {
                &&& outcome is Ok
                &&& outcome->Ok_0.mode == ControlModeSnapshot::Local
                &&& outcome->Ok_0.disconnected == (left is Some)
                &&& match (outcome->Ok_0.session, left) {
                    (Some(status), Some(left)) => crate::services::is_status(
                        status,
                        left.peer_id@,
                        left.local_device_id@,
                        left.address,
                        false,
                    ),
                    (None, None) => true,
                    _ => false,
                }
            },
        };
    lemma_session_is_left(old(state)@, *old(dispatcher), left, final(state)@, *final(dispatcher));
    match outcome {
        Ok(result) => {
            lemma_result_told(request.id@, result.json());
            assert(tells_result(line->Ok_0@, request.id@, result.json()));
        },
        Err(error) => lemma_error_told(request.id@, "session disconnect unavailable"@, error@),
    }
}

/// A session that is connected on request is the one that was asked for, and only the sessions and what
/// they are opened with have changed. Where there is one already, nothing changes.
pub proof fn a_connected_session_is_the_one_asked_for<
    P: PlatformAdapter,
    D: SessionDispatcher,
    S: SessionServices<D::Sink>,
>(
    state: &mut RuntimeInputState,
    platform: &mut P,
    dispatcher: &mut D,
    logs: &mut Option<DaemonLogBuffer>,
    shutdown: &mut Option<bool>,
    services: &mut S,
    request: crate::rpc::JsonRpcRequest<SessionConnectParams>,
    line: Result<String, DaemonIpcError>,
)
    requires
        call_ensures(
            handle_ipc_request::<P, D, S>,
            (
                state,
                platform,
                dispatcher,
                logs,
                shutdown,
                services,
                IpcRequest::SessionConnect(request),
            ),
            line,
        ),
    ensures
        line is Ok,
        *final(platform) == *old(platform),
        *final(shutdown) == *old(shutdown),
        final(state)@ == old(state)@,
        old(dispatcher).sessions().active_session is Some ==> {
            &&& final(dispatcher).sessions() == old(dispatcher).sessions()
            &&& *final(services) == *old(services)
            &&& exists|error: Seq<char>| #[trigger]
                tells_error(
                    line->Ok_0@,
                    request.id@,
                    "session connect unavailable"@ + ": "@ + error,
                )
        },
        exists|outcome: Result<SessionConnectResult, PlatformError>| {
            &&& #[trigger] is_told_to_asker(
                line->Ok_0@,
                request.id@,
                "session connect unavailable"@,
                outcome,
            )
            &&& outcome matches Ok(result) ==> {
                &&& final(dispatcher).sessions().active_session is Some
                &&& final(dispatcher).sessions().active_session->Some_0.peer_id@
                    == crate::text::trim(request.params.peer_id@)
                &&& final(dispatcher).sessions().active_session->Some_0.local_device_id@
                    == crate::text::trim(request.params.local_device_id@)
                &&& crate::address::read_socket(crate::text::trim(request.params.address@)) == Some(
                    final(dispatcher).sessions().active_session->Some_0.address@,
                )
                &&& result.connected
                &&& result.session.connected
                &&& result.session.peer_id@ == crate::text::trim(request.params.peer_id@)
                &&& result.session.local_device_id@ == crate::text::trim(
                    request.params.local_device_id@,
                )
                &&& result.session.address@ == crate::address::spell_socket(
                    final(dispatcher).sessions().active_session->Some_0.address@,
                )
                &&& crate::logs::is_noted(
                    *old(logs),
                    DaemonLogLevel::Info,
                    "session.connect"@,
                    "Peer session connect requested."@,
                    *final(logs),
                )
            }
            &&& outcome is Err ==> crate::logs::is_noted(
                    *old(logs),
                    DaemonLogLevel::Warn,
                    "session.connect.failed"@,
                    "Peer session connect failed."@,
                    *final(logs),
                )
        },
{
    let (outcome, sessions) = choose|
        outcome: Result<SessionConnectResult, PlatformError>,
        sessions: ManagedPeerSessionTransport<D::Sink, D::Clock>,
    | #[trigger]
        crate::services::connects(
            old(dispatcher).sessions(),
            *old(services),
            request.params,
            outcome,
            sessions,
            *final(services),
        ) && *final(dispatcher) == old(dispatcher).with_sessions(sessions) && line->Ok_0@
            == answered(request.id@, "session connect unavailable"@, outcome) && diagnosis_logged(
            *old(logs),
            outcome is Ok,
            "session.connect"@,
            "Peer session connect requested."@,
            "session.connect.failed"@,
            "Peer session connect failed."@,
            *final(logs),
        );
    (*old(dispatcher)).sessions_are_those_given(sessions);
    lemma_told_to_asker(request.id@, "session connect unavailable"@, outcome);
    if outcome is Ok {
        crate::services::opened_session_is_the_one_asked_for(
            old(dispatcher).sessions(),
            *old(services),
            request.params,
            outcome,
            sessions,
            *final(services),
        );
    } else {
        lemma_error_told(request.id@, "session connect unavailable"@, outcome->Err_0@);
    }
    assert(is_told_to_asker(
        line->Ok_0@,
        request.id@,
        "session connect unavailable"@,
        outcome,
    ));
}

/// A status tells the mode of the daemon, what the platform grants and which session is open, and
/// changes none of it.
pub proof fn a_status_tells_the_asker_how_things_are<
    P: PlatformAdapter,
    D: SessionDispatcher,
    S: SessionServices<D::Sink>,
>(
    state: &mut RuntimeInputState,
    platform: &mut P,
    dispatcher: &mut D,
    logs: &mut Option<DaemonLogBuffer>,
    shutdown: &mut Option<bool>,
    services: &mut S,
    request: crate::rpc::JsonRpcRequest<crate::snapshot::DaemonStatusParams>,
    line: Result<String, DaemonIpcError>,
)
    requires
        call_ensures(
            handle_ipc_request::<P, D, S>,
            (
                state,
                platform,
                dispatcher,
                logs,
                shutdown,
                services,
                IpcRequest::DaemonStatus(request),
            ),
            line,
        ),
    ensures
        line is Ok,
        final(state)@ == old(state)@,
        *final(dispatcher) == *old(dispatcher),
        *final(shutdown) == *old(shutdown),
        crate::logs::is_noted(
                    *old(logs),
                    DaemonLogLevel::Info,
                    "daemon.status"@,
                    "Daemon status requested."@,
                    *final(logs),
                ),
        exists|
            answer: Result<PlatformCapabilities, PlatformError>,
            outcome: Result<DaemonStatus, PlatformError>,
        | {
            &&& #[trigger] is_told_to_asker(
                line->Ok_0@,
                request.id@,
                "daemon status unavailable"@,
                outcome,
            )
            &&& #[trigger] P::answers(
                *old(platform),
                PlatformCall::ProbeCapabilities { capabilities: answer },
                *final(platform),
            )
            &&& outcome is Ok ==> answer is Ok
            &&& answer is Ok && old(dispatcher).sessions().active_session is None ==> outcome is Ok
            &&& answer matches Err(error) ==> outcome == Err::<DaemonStatus, PlatformError>(error)
            &&& outcome matches Ok(status) ==> {
                &&& status.mode is Local <==> old(state)@.mode is Local
                &&& status.mode is EnteringRemote <==> old(state)@.mode is EnteringRemote
                &&& status.mode is Remote <==> old(state)@.mode is Remote
                &&& status.mode is LeavingRemote <==> old(state)@.mode is LeavingRemote
                &&& status.mode is Suspended <==> old(state)@.mode is Suspended
                &&& status.capabilities.can_capture_pointer == answer->Ok_0.can_capture_pointer
                &&& status.capabilities.can_capture_keyboard == answer->Ok_0.can_capture_keyboard
                &&& status.capabilities.can_inject_pointer == answer->Ok_0.can_inject_pointer
                &&& status.capabilities.can_inject_keyboard == answer->Ok_0.can_inject_keyboard
                &&& status.peers@.len() == (
                if old(dispatcher).sessions().active_session is Some {
                    1nat
                } else {
                    0
                })
            }
        },
{
    let (answer, outcome) = choose|
        answer: Result<PlatformCapabilities, PlatformError>,
        outcome: Result<DaemonStatus, PlatformError>,
    |
        P::answers(
            *old(platform),
            PlatformCall::ProbeCapabilities { capabilities: answer },
            *final(platform),
        )
            && #[trigger] crate::status::status_told(
            old(state)@.mode,
            answer,
            old(dispatcher).sessions(),
            *old(services),
            outcome,
            *final(services),
        ) && line->Ok_0@ == answered(request.id@, "daemon status unavailable"@, outcome);
    lemma_told_to_asker(request.id@, "daemon status unavailable"@, outcome);
    if outcome is Ok && answer is Ok {
        crate::status::a_status_tells_how_things_are(
            old(state)@.mode,
            answer->Ok_0,
            old(dispatcher).sessions(),
            *old(services),
            outcome->Ok_0,
            *final(services),
        );
    }
    assert(is_told_to_asker(line->Ok_0@, request.id@, "daemon status unavailable"@, outcome));
}

/// Whether an asker hears what the platform grants, and an issue for each thing that it does not.
pub open spec fn tells_grants(
    line: Seq<char>,
    id: Seq<char>,
    granted: PlatformCapabilities,
) -> bool {
    exists|probe: PermissionsProbe| {
        &&& tells_result(line, id, #[trigger] probe.json())
        &&& probe.capabilities.can_capture_pointer == granted.can_capture_pointer
        &&& probe.capabilities.can_capture_keyboard == granted.can_capture_keyboard
        &&& probe.capabilities.can_inject_pointer == granted.can_inject_pointer
        &&& probe.capabilities.can_inject_keyboard == granted.can_inject_keyboard
        &&& crate::status::names_issue(probe.issues@, "capture_pointer_unavailable"@)
            <==> !granted.can_capture_pointer
        &&& crate::status::names_issue(probe.issues@, "capture_keyboard_unavailable"@)
            <==> !granted.can_capture_keyboard
        &&& crate::status::names_issue(probe.issues@, "inject_pointer_unavailable"@)
            <==> !granted.can_inject_pointer
        &&& crate::status::names_issue(probe.issues@, "inject_keyboard_unavailable"@)
            <==> !granted.can_inject_keyboard
    }
}

/// The probe tells what the platform grants. Where anything is missing, control comes home before the
/// asker hears of it; where nothing is, control stays where it is.
pub proof fn a_probe_with_issues_brings_control_home<
    P: PlatformAdapter,
    D: SessionDispatcher,
    S: SessionServices<D::Sink>,
>(
    state: &mut RuntimeInputState,
    platform: &mut P,
    dispatcher: &mut D,
    logs: &mut Option<DaemonLogBuffer>,
    shutdown: &mut Option<bool>,
    services: &mut S,
    request: crate::rpc::JsonRpcRequest<crate::snapshot::PermissionsProbeParams>,
    line: Result<String, DaemonIpcError>,
)
    requires
        call_ensures(
            handle_ipc_request::<P, D, S>,
            (
                state,
                platform,
                dispatcher,
                logs,
                shutdown,
                services,
                IpcRequest::PermissionsProbe(request),
            ),
            line,
        ),
    ensures
        line is Ok,
        *final(shutdown) == *old(shutdown),
        *final(services) == *old(services),
        exists|answer: Result<PlatformCapabilities, PlatformError>| {
            &&& #[trigger] P::answers(
                *old(platform),
                PlatformCall::ProbeCapabilities { capabilities: answer },
                *final(platform),
            )
            &&& answer matches Err(error) ==> {
                &&& tells_error(
                    line->Ok_0@,
                    request.id@,
                    "permissions probe unavailable"@ + ": "@ + error@,
                )
                &&& final(state)@ == old(state)@
                &&& *final(dispatcher) == *old(dispatcher)
                &&& crate::logs::is_noted(
                    *old(logs),
                    DaemonLogLevel::Warn,
                    "permissions.probe.failed"@,
                    "Permissions probe failed."@,
                    *final(logs),
                )
            }
            &&& answer matches Ok(granted) ==> {
                if granted.can_capture_pointer && granted.can_capture_keyboard
                    && granted.can_inject_pointer && granted.can_inject_keyboard {
                    &&& final(state)@ == old(state)@
                    &&& *final(dispatcher) == *old(dispatcher)
                    &&& tells_grants(line->Ok_0@, request.id@, granted)
                    &&& crate::logs::is_noted(
                    *old(logs),
                    DaemonLogLevel::Info,
                    "permissions.probe"@,
                    "Permissions probe requested."@,
                    *final(logs),
                )
                } else {
                    &&& final(state)@.mode is Local
                    &&& final(state)@.pending_peer_id is None
                    &&& exists|
                        actions: Seq<crate::runtime::CoreAction>,
                        sent: Result<(), PlatformError>,
                    | {
                        &&& crate::recovery::gives_control_up(old(state)@, actions)
                        &&& #[trigger] D::dispatches(
                            *old(dispatcher),
                            actions,
                            sent,
                            *final(dispatcher),
                        )
                        &&& sent is Ok ==> tells_grants(line->Ok_0@, request.id@, granted)
                        &&& sent matches Err(error) ==> tells_error(
                            line->Ok_0@,
                            request.id@,
                            "permission recovery unavailable"@ + ": "@ + error@,
                        )
                    }
                }
            }
        },
{
    let (answer, outcome) = choose|
        answer: Result<PlatformCapabilities, PlatformError>,
        outcome: Result<PermissionsProbe, PlatformError>,
    |
        P::answers(
            *old(platform),
            PlatformCall::ProbeCapabilities { capabilities: answer },
            *final(platform),
        )
            && #[trigger] crate::status::probe_outcome(answer, outcome, *final(platform))
            && probe_answered(
            desk(
                *old(state),
                *old(platform),
                *old(dispatcher),
                *old(logs),
                *old(shutdown),
                *old(services),
            ),
            request.id@,
            outcome,
            line->Ok_0@,
            desk(
                *final(state),
                *final(platform),
                *final(dispatcher),
                *final(logs),
                *final(shutdown),
                *final(services),
            ),
        );
    match answer {
        Err(error) => lemma_error_told(request.id@, "permissions probe unavailable"@, error@),
        Ok(granted) => {
            let probe = outcome->Ok_0;
            crate::status::a_probe_names_what_is_missing(granted, probe, *final(platform));
            lemma_result_told(request.id@, probe.json());
            assert(crate::status::issue_models(probe.issues@).len() == probe.issues@.len());
            if probe.issues@.len() == 0 {
                assert(tells_grants(line->Ok_0@, request.id@, granted));
            } else {
                crate::recovery::recovery_gives_control_up(old(state)@);
                let (recovered, noted) = choose|
                    recovered: Result<(), PlatformError>,
                    noted: Option<DaemonLogBuffer>,
                | #[trigger]
                    crate::recovery::interrupt_recovers(
                        old(state)@,
                        *old(dispatcher),
                        *old(logs),
                        RuntimeRecoveryInterrupt::PermissionLost,
                        recovered,
                        final(state)@,
                        *final(dispatcher),
                        noted,
                    ) && match recovered {
                        Err(error) => {
                            &&& *final(logs) == noted
                            &&& line->Ok_0@ == error_line(
                                request.id@,
                                "permission recovery unavailable"@,
                                error@,
                            )
                        },
                        Ok(_) => {
                            &&& crate::logs::logged(
                                noted,
                                DaemonLogLevel::Info,
                                "permissions.probe"@,
                                "Permissions probe requested."@,
                                *final(logs),
                            )
                            &&& line->Ok_0@ == success_line(request.id@, probe.json())
                        },
                    };
                match recovered {
                    Ok(_) => {
                        assert(tells_grants(line->Ok_0@, request.id@, granted));
                    },
                    Err(error) => lemma_error_told(
                        request.id@,
                        "permission recovery unavailable"@,
                        error@,
                    ),
                }
            }
        },
    }
}

/// The screens are told to the asker as the platform tells them, and nothing else changes.
pub proof fn the_asker_hears_how_the_screens_lie<
    P: PlatformAdapter,
    D: SessionDispatcher,
    S: SessionServices<D::Sink>,
>(
    state: &mut RuntimeInputState,
    platform: &mut P,
    dispatcher: &mut D,
    logs: &mut Option<DaemonLogBuffer>,
    shutdown: &mut Option<bool>,
    services: &mut S,
    request: crate::rpc::JsonRpcRequest<crate::snapshot::DiagnosticsScreenTopologyParams>,
    line: Result<String, DaemonIpcError>,
)
    requires
        call_ensures(
            handle_ipc_request::<P, D, S>,
            (
                state,
                platform,
                dispatcher,
                logs,
                shutdown,
                services,
                IpcRequest::DiagnosticsScreenTopology(request),
            ),
            line,
        ),
    ensures
        line is Ok,
        final(state)@ == old(state)@,
        *final(dispatcher) == *old(dispatcher),
        *final(shutdown) == *old(shutdown),
        *final(services) == *old(services),
        exists|
            answer: Result<DesktopGeometry, PlatformError>,
            outcome: Result<DiagnosticsScreenTopology, PlatformError>,
        | {
            &&& #[trigger] P::answers(
                *old(platform),
                PlatformCall::ReadDesktopGeometry { geometry: answer },
                *final(platform),
            )
            &&& #[trigger] is_told_to_asker(
                line->Ok_0@,
                request.id@,
                "screen topology unavailable"@,
                outcome,
            )
            &&& answer is Ok <==> outcome is Ok
            &&& answer matches Err(error) ==> {
                &&& outcome == Err::<DiagnosticsScreenTopology, PlatformError>(error)
                &&& crate::logs::is_noted(
                    *old(logs),
                    DaemonLogLevel::Warn,
                    "diagnostics.screenTopology.failed"@,
                    "Screen topology diagnostics failed."@,
                    *final(logs),
                )
            }
            &&& answer matches Ok(known) ==> {
                let told = outcome->Ok_0;
                &&& told.pointer_position.x == known.pointer_position.x
                &&& told.pointer_position.y == known.pointer_position.y
                &&& told.virtual_screen_bounds.x == known.virtual_screen_bounds.origin.x
                &&& told.virtual_screen_bounds.y == known.virtual_screen_bounds.origin.y
                &&& told.virtual_screen_bounds.width == known.virtual_screen_bounds.size.width
                &&& told.virtual_screen_bounds.height == known.virtual_screen_bounds.size.height
                &&& told.monitors@.len() == known.monitors@.len()
                &&& crate::logs::is_noted(
                    *old(logs),
                    DaemonLogLevel::Info,
                    "diagnostics.screenTopology"@,
                    "Screen topology diagnostics requested."@,
                    *final(logs),
                )
            }
        },
{
    let (answer, outcome) = choose|
        answer: Result<DesktopGeometry, PlatformError>,
        outcome: Result<DiagnosticsScreenTopology, PlatformError>,
    |
        P::answers(
            *old(platform),
            PlatformCall::ReadDesktopGeometry { geometry: answer },
            *final(platform),
        )
            && #[trigger] crate::status::topology_outcome(answer, outcome) && diagnosis_logged(
            *old(logs),
            outcome is Ok,
            "diagnostics.screenTopology"@,
            "Screen topology diagnostics requested."@,
            "diagnostics.screenTopology.failed"@,
            "Screen topology diagnostics failed."@,
            *final(logs),
        ) && line->Ok_0@ == answered(request.id@, "screen topology unavailable"@, outcome);
    lemma_told_to_asker(request.id@, "screen topology unavailable"@, outcome);
    assert(is_told_to_asker(line->Ok_0@, request.id@, "screen topology unavailable"@, outcome));
}

/// The keyboard is told to the asker as the platform tells it, and nothing else changes.
pub proof fn the_asker_hears_of_the_keyboard<
    P: PlatformAdapter,
    D: SessionDispatcher,
    S: SessionServices<D::Sink>,
>(
    state: &mut RuntimeInputState,
    platform: &mut P,
    dispatcher: &mut D,
    logs: &mut Option<DaemonLogBuffer>,
    shutdown: &mut Option<bool>,
    services: &mut S,
    request: crate::rpc::JsonRpcRequest<crate::snapshot::DiagnosticsKeyboardLayoutParams>,
    line: Result<String, DaemonIpcError>,
)
    requires
        call_ensures(
            handle_ipc_request::<P, D, S>,
            (
                state,
                platform,
                dispatcher,
                logs,
                shutdown,
                services,
                IpcRequest::DiagnosticsKeyboardLayout(request),
            ),
            line,
        ),
    ensures
        line is Ok,
        final(state)@ == old(state)@,
        *final(dispatcher) == *old(dispatcher),
        *final(shutdown) == *old(shutdown),
        *final(services) == *old(services),
        exists|
            answer: Result<KeyboardLayoutSnapshot, PlatformError>,
            outcome: Result<DiagnosticsKeyboardLayout, PlatformError>,
        | {
            &&& #[trigger] P::answers(
                *old(platform),
                PlatformCall::ReadKeyboardLayout { layout: answer },
                *final(platform),
            )
            &&& #[trigger] is_told_to_asker(
                line->Ok_0@,
                request.id@,
                "keyboard layout unavailable"@,
                outcome,
            )
            &&& answer is Ok <==> outcome is Ok
            &&& answer matches Err(error) ==> {
                &&& outcome == Err::<DiagnosticsKeyboardLayout, PlatformError>(error)
                &&& crate::logs::is_noted(
                    *old(logs),
                    DaemonLogLevel::Warn,
                    "diagnostics.keyboardLayout.failed"@,
                    "Keyboard layout diagnostics failed."@,
                    *final(logs),
                )
            }
            &&& answer matches Ok(known) ==> {
                let told = outcome->Ok_0;
                &&& told.source@ == known.source@
                &&& told.layout_id@ == known.layout_id@
                &&& told.language_id@ == known.language_id@
                &&& told.layout_name == known.layout_name
                &&& crate::logs::is_noted(
                    *old(logs),
                    DaemonLogLevel::Info,
                    "diagnostics.keyboardLayout"@,
                    "Keyboard layout diagnostics requested."@,
                    *final(logs),
                )
            }
        },
{
    let (answer, outcome) = choose|
        answer: Result<KeyboardLayoutSnapshot, PlatformError>,
        outcome: Result<DiagnosticsKeyboardLayout, PlatformError>,
    |
        P::answers(
            *old(platform),
            PlatformCall::ReadKeyboardLayout { layout: answer },
            *final(platform),
        )
            && #[trigger] crate::status::layout_outcome(answer, outcome) && diagnosis_logged(
            *old(logs),
            outcome is Ok,
            "diagnostics.keyboardLayout"@,
            "Keyboard layout diagnostics requested."@,
            "diagnostics.keyboardLayout.failed"@,
            "Keyboard layout diagnostics failed."@,
            *final(logs),
        ) && line->Ok_0@ == answered(request.id@, "keyboard layout unavailable"@, outcome);
    lemma_told_to_asker(request.id@, "keyboard layout unavailable"@, outcome);
    assert(is_told_to_asker(line->Ok_0@, request.id@, "keyboard layout unavailable"@, outcome));
}

/// The asker hears the newest events of the log, the asking itself last, and as many of them as were
/// asked for. Nothing but the log changes.
pub proof fn the_asker_hears_the_newest_events<
    P: PlatformAdapter,
    D: SessionDispatcher,
    S: SessionServices<D::Sink>,
>(
    state: &mut RuntimeInputState,
    platform: &mut P,
    dispatcher: &mut D,
    logs: &mut Option<DaemonLogBuffer>,
    shutdown: &mut Option<bool>,
    services: &mut S,
    request: crate::rpc::JsonRpcRequest<crate::snapshot::DaemonLogsTailParams>,
    line: Result<String, DaemonIpcError>,
)
    requires
        call_ensures(
            handle_ipc_request::<P, D, S>,
            (
                state,
                platform,
                dispatcher,
                logs,
                shutdown,
                services,
                IpcRequest::DaemonLogsTail(request),
            ),
            line,
        ),
    ensures
        line is Ok,
        final(state)@ == old(state)@,
        *final(platform) == *old(platform),
        *final(dispatcher) == *old(dispatcher),
        *final(shutdown) == *old(shutdown),
        *final(services) == *old(services),
        crate::logs::is_noted(
                    *old(logs),
                    DaemonLogLevel::Info,
                    "daemon.logs.tail"@,
                    "Daemon logs tail requested."@,
                    *final(logs),
                ),
        exists|tail: DaemonLogsTail| {
            &&& tells_result(line->Ok_0@, request.id@, #[trigger] tail.json())
            &&& *old(logs) is None ==> tail.entries@.len() == 0
            &&& request.params.limit matches Some(limit) ==> tail.entries@.len() <= limit
            &&& request.params.limit is None ==> tail.entries@.len() <= 25
            &&& *old(logs) is Some && old(logs)->Some_0@.capacity > 0 && old(logs)->Some_0@.wf()
                && request.params.limit != Some(0usize) ==> {
                &&& tail.entries@.len() > 0
                &&& tail.entries@.last().level is Info
                &&& tail.entries@.last().event@ == "daemon.logs.tail"@
                &&& tail.entries@.last().message@ == "Daemon logs tail requested."@
            }
        },
{
    let tail = choose|tail: DaemonLogsTail|
        crate::logs::entry_models(tail.entries@) == crate::logs::log_tail(
            *final(logs),
            request.params.limit,
        ) && line->Ok_0@ == success_line(request.id@, #[trigger] tail.json());
    lemma_result_told(request.id@, tail.json());
    let models = crate::logs::entry_models(tail.entries@);
    assert(models.len() == tail.entries@.len());
    if models.len() > 0 {
        assert(models.last() == crate::logs::entry_model(tail.entries@.last()));
    }
    assert(tells_result(line->Ok_0@, request.id@, tail.json()));
}

/// The daemon has found no peers of its own, and says so; nothing but the log changes.
pub proof fn the_daemon_offers_no_peers_of_its_own<
    P: PlatformAdapter,
    D: SessionDispatcher,
    S: SessionServices<D::Sink>,
>(
    state: &mut RuntimeInputState,
    platform: &mut P,
    dispatcher: &mut D,
    logs: &mut Option<DaemonLogBuffer>,
    shutdown: &mut Option<bool>,
    services: &mut S,
    request: crate::rpc::JsonRpcRequest<crate::snapshot::SessionDiscoveryCandidatesParams>,
    line: Result<String, DaemonIpcError>,
)
    requires
        call_ensures(
            handle_ipc_request::<P, D, S>,
            (
                state,
                platform,
                dispatcher,
                logs,
                shutdown,
                services,
                IpcRequest::SessionDiscoveryCandidates(request),
            ),
            line,
        ),
    ensures
        line is Ok,
        final(state)@ == old(state)@,
        *final(platform) == *old(platform),
        *final(dispatcher) == *old(dispatcher),
        *final(shutdown) == *old(shutdown),
        *final(services) == *old(services),
        crate::logs::is_noted(
                    *old(logs),
                    DaemonLogLevel::Info,
                    "session.discoveryCandidates"@,
                    "Peer session discovery candidates requested."@,
                    *final(logs),
                ),
        exists|result: SessionDiscoveryCandidatesResult|
            result.candidates@.len() == 0 && tells_result(
                line->Ok_0@,
                request.id@,
                #[trigger] result.json(),
            ),
{
    let result = choose|result: SessionDiscoveryCandidatesResult|
        result.candidates@.len() == 0 && line->Ok_0@ == success_line(
            request.id@,
            #[trigger] result.json(),
        );
    lemma_result_told(request.id@, result.json());
    assert(tells_result(line->Ok_0@, request.id@, result.json()));
}

/// A request that arrives written on a line does what the request itself would do, and is answered as
/// the request itself would be.
pub proof fn a_written_request_is_carried_out<
    P: PlatformAdapter,
    D: SessionDispatcher,
    S: SessionServices<D::Sink>,
>(
    state: &mut RuntimeInputState,
    platform: &mut P,
    dispatcher: &mut D,
    logs: &mut Option<DaemonLogBuffer>,
    shutdown: &mut Option<bool>,
    services: &mut S,
    request: IpcRequest,
    written: String,
    line: &str,
    reply: Result<String, DaemonIpcError>,
)
    requires
        request.wf(),
        call_ensures(
            crate::rpc::to_json_line::<IpcRequest>,
            (&request,),
            Ok::<String, IpcCodecError>(written),
        ),
        line@ == written@,
        call_ensures(
            handle_ipc_request_line_with_peer_sessions::<P, D, S>,
            (state, platform, dispatcher, line, logs, shutdown, services),
            reply,
        ),
    ensures
        reply is Ok,
        exists|same: IpcRequest|
            same@ == request@ && #[trigger] handled(
                desk(
                    *old(state),
                    *old(platform),
                    *old(dispatcher),
                    *old(logs),
                    *old(shutdown),
                    *old(services),
                ),
                same,
                reply->Ok_0@,
                desk(
                    *final(state),
                    *final(platform),
                    *final(dispatcher),
                    *final(logs),
                    *final(shutdown),
                    *final(services),
                ),
            ),
{
    crate::rpc::written_request_reads_back(request);
}

/// A line that is no JSON changes nothing, and its sender is told so under no id.
pub proof fn a_line_without_sense_changes_nothing<
    P: PlatformAdapter,
    D: SessionDispatcher,
    S: SessionServices<D::Sink>,
>(
    state: &mut RuntimeInputState,
    platform: &mut P,
    dispatcher: &mut D,
    logs: &mut Option<DaemonLogBuffer>,
    shutdown: &mut Option<bool>,
    services: &mut S,
    line: &str,
    reply: Result<String, DaemonIpcError>,
)
    requires
        call_ensures(
            handle_ipc_request_line_with_peer_sessions::<P, D, S>,
            (state, platform, dispatcher, line, logs, shutdown, services),
            reply,
        ),
        crate::json::json_parsed(line@) is Err,
    ensures
        reply is Ok,
        final(state)@ == old(state)@,
        *final(platform) == *old(platform),
        *final(dispatcher) == *old(dispatcher),
        *final(logs) == *old(logs),
        *final(shutdown) == *old(shutdown),
        *final(services) == *old(services),
        exists|whole: crate::json::JsonModel, error: crate::json::JsonModel| {
            &&& reply->Ok_0@ == #[trigger] crate::json::json_text(whole).push('\n')
            &&& crate::snapshot::says(whole, 3, "id"@, crate::json::JsonModel::Null)
            &&& #[trigger] crate::snapshot::says(whole, 3, "error"@, error)
            &&& crate::snapshot::says(
                error,
                2,
                "code"@,
                crate::json::JsonModel::Negative((-32700) as i64),
            )
        },
{
    let failure = crate::rpc::read_line(line@)->Err_0;
    let whole = crate::rpc::failure_json(failure);
    let members = whole->Object_0;
    let inner = members[2].1;
    assert(members[1] == ("id"@, crate::json::JsonModel::Null));
    assert(members[2] == ("error"@, inner));
    assert(members.contains(members[1]));
    assert(members.contains(members[2]));
    let parts = inner->Object_0;
    assert(parts[0] == ("code"@, crate::json::JsonModel::Negative((-32700) as i64)));
    assert(parts.contains(parts[0]));
    assert(reply->Ok_0@ == crate::json::json_text(whole).push('\n'));
    assert(crate::snapshot::says(whole, 3, "error"@, inner));
}

/// A daemon serves so many requests as it was told to and no more. It ends earlier where it is asked to
/// shut down, and where serving fails it ends with that failure.
pub proof fn a_daemon_serves_as_long_as_it_was_told(
    endpoint: IpcEndpoint,
    max_requests: usize,
    bounded: DaemonIpcRunConfig,
    unbounded: DaemonIpcRunConfig,
    first: ServeAction,
    count: &mut usize,
    served: Result<(), IpcTransportError>,
    shutdown_requested: bool,
    next: ServeAction,
    endless: &mut usize,
    further: ServeAction,
)
    requires
        call_ensures(DaemonIpcRunConfig::serve_requests, (endpoint, max_requests), bounded),
        call_ensures(DaemonIpcRunConfig::serve_forever, (endpoint,), unbounded),
        call_ensures(begin_daemon_ipc, (&bounded,), first),
        call_ensures(serve_daemon_ipc, (&bounded, count, served, shutdown_requested), next),
        call_ensures(serve_daemon_ipc, (&unbounded, endless, served, shutdown_requested), further),
        *old(count) < usize::MAX,
    ensures
        bounded.endpoint == endpoint,
        unbounded.endpoint == endpoint,
        first is ServeOnce <==> max_requests > 0,
        served is Ok ==> *final(count) == *old(count) + 1,
        served is Err ==> *final(count) == *old(count),
        served matches Err(error) ==> next == ServeAction::Finish(
            Err::<(), IpcTransportError>(error),
        ) && further == ServeAction::Finish(Err::<(), IpcTransportError>(error)),
        served is Ok ==> (next is ServeOnce <==> !shutdown_requested && *final(count)
            < max_requests),
        served is Ok && !(next is ServeOnce) ==> next->Finish_0 is Ok,
        served is Ok ==> (further is ServeOnce <==> !shutdown_requested),
{
}

/// A daemon is told to end where it was asked to, and at no other time; a new one is not.
pub proof fn a_new_daemon_is_not_ending<P, D, S>(
    state: RuntimeInputState,
    platform: P,
    dispatcher: D,
    services: S,
    server: DaemonIpcServer<P, D, S>,
    ending: bool,
    other: DaemonIpcServer<P, D, S>,
    other_ending: bool,
)
    requires
        call_ensures(
            DaemonIpcServer::<P, D, S>::from_shared_state_dispatcher_and_peer_sessions,
            (state, platform, dispatcher, services),
            server,
        ),
        call_ensures(DaemonIpcServer::<P, D, S>::shutdown_requested, (&server,), ending),
        call_ensures(DaemonIpcServer::<P, D, S>::shutdown_requested, (&other,), other_ending),
    ensures
        !ending,
        server.state == state,
        server.platform == platform,
        server.dispatcher == dispatcher,
        server.services == services,
        server.logs is Some,
        server.logs->Some_0@.entries.len() == 0,
        server.logs->Some_0@.capacity == 64,
        other_ending <==> other.shutdown_requested == Some(true),
{
}

/// However it is asked for, leaving the session brings control home: what is held is let go here and
/// there, the peer's session is ended, and none is kept where that worked.
pub proof fn leaving_the_session_brings_control_home<D: SessionDispatcher>(
    state: &mut RuntimeInputState,
    dispatcher: &mut D,
    result: Result<DaemonShutdownResult, PlatformError>,
    other_state: &mut RuntimeInputState,
    other: &mut D,
    left: Result<SessionDisconnectResult, PlatformError>,
)
    requires
        call_ensures(shutdown_daemon::<D>, (state, dispatcher), result),
        call_ensures(disconnect_peer_session::<D>, (other_state, other), left),
    ensures
        final(state)@.mode is Local && final(state)@.session_id is None,
        final(other_state)@.mode is Local && final(other_state)@.session_id is None,
        result is Ok ==> final(dispatcher).sessions().active_session is None
            && result->Ok_0.requested && result->Ok_0.released_inputs
            && result->Ok_0.mode is Local,
        left is Ok ==> final(other).sessions().active_session is None && left->Ok_0.mode is Local
            && (left->Ok_0.disconnected <==> left->Ok_0.session is Some),
        left is Ok && left->Ok_0.session is Some ==> !left->Ok_0.session->Some_0.connected,
        left is Ok && old(other).sessions().active_session is Some ==> left->Ok_0.disconnected,
        exists|sent: Result<(), PlatformError>, told: D| #[trigger]
            session_is_left(
                old(state)@,
                *old(dispatcher),
                sent,
                told,
                final(state)@,
                *final(dispatcher),
            ) && (sent is Ok <==> result is Ok),
        exists|sent: Result<(), PlatformError>, told: D| #[trigger]
            session_is_left(
                old(other_state)@,
                *old(other),
                sent,
                told,
                final(other_state)@,
                *final(other),
            ) && (sent is Ok <==> left is Ok),
{
    let first = choose|outcome: Result<Option<ManagedPeerSessionSnapshot>, PlatformError>| #[trigger]
        leaves(old(state)@, *old(dispatcher), outcome, final(state)@, *final(dispatcher))
            && match outcome {
            Err(error) => result == Err::<DaemonShutdownResult, PlatformError>(error),
            Ok(left) => result == Ok::<DaemonShutdownResult, PlatformError>(
                DaemonShutdownResult {
                    requested: true,
                    released_inputs: true,
                    disconnected_peer_session: left is Some,
                    mode: ControlModeSnapshot::Local,
                },
            ),
        };
    lemma_session_is_left(old(state)@, *old(dispatcher), first, final(state)@, *final(dispatcher));
    let second = choose|
        outcome: Result<Option<ManagedPeerSessionSnapshot>, PlatformError>,
    | #[trigger]
        leaves(old(other_state)@, *old(other), outcome, final(other_state)@, *final(other))
            && match outcome {
            Err(error) => left == Err::<SessionDisconnectResult, PlatformError>(error),
            Ok(gone) => {
                &&& left is Ok
                &&& left->Ok_0.mode == ControlModeSnapshot::Local
                &&& left->Ok_0.disconnected == (gone is Some)
                &&& match (left->Ok_0.session, gone) {
                    (Some(status), Some(gone)) => crate::services::is_status(
                        status,
                        gone.peer_id@,
                        gone.local_device_id@,
                        gone.address,
                        false,
                    ),
                    (None, None) => true,
                    _ => false,
                }
            },
        };
    lemma_session_is_left(old(other_state)@, *old(other), second, final(other_state)@, *final(other));
}

} // verus!
