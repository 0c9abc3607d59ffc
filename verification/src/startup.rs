//! How the daemon starts, serves and ends: what it does next, given what came of the last step.

use vstd::prelude::*;

use crate::address::SocketAddress;
use crate::cli::ServeOptions;
use crate::endpoint::{
    format_daemon_ipc_error, IpcEndpoint, IpcEndpointError, IpcEndpointKind, IpcTransportError,
};
use crate::platform::PlatformError;
use crate::runtime::{clone_bindings, DeviceId, PeerId, ScreenEdgeBinding};
use crate::server::DaemonIpcRunConfig;
use crate::store::{IdentityStoreError, StoredLocalIdentity};

verus! {

/// The name of an identity that was given none.
pub const DEFAULT_DAEMON_DISPLAY_NAME: &'static str = "Akraz Daemon";

/// How far the daemon has come.
#[derive(Debug, Clone, Copy, PartialEq, Eq, Structural)]
pub enum DaemonRunStage {
    Endpoint,
    Identity,
    Session,
    Listener,
    Capture,
    Serving,
    StoppingCapture,
    StoppingListener,
    Abandoning,
    Done,
}

/// What came of a step.
pub enum DaemonRunEvent {
    Endpoint(Result<IpcEndpoint, IpcEndpointError>),
    Identity(Result<StoredLocalIdentity, IdentityStoreError>),
    Session(Result<(), PlatformError>),
    Listener(Result<(), PlatformError>),
    Capture(Result<(), PlatformError>),
    Served(Result<(), IpcTransportError>),
    CaptureStopped(bool),
    ListenerStopped(bool),
}

/// What to do next.
pub enum DaemonRunAction {
    ResolveEndpoint,
    LoadIdentity { path: String, display_name: String },
    OpenSession { peer_id: PeerId, local_device_id: DeviceId, address: SocketAddress },
    StartListener { address: SocketAddress },
    StartCapture { edge_bindings: Vec<ScreenEdgeBinding> },
    Serve { config: DaemonIpcRunConfig },
    StopCapture,
    StopListener,
    Exit { success: bool },
}

/// A daemon that starts, serves or ends.
pub struct DaemonRun {
    pub options: ServeOptions,
    pub stage: DaemonRunStage,
    pub endpoint: Option<IpcEndpoint>,
    pub local_device_id: Option<DeviceId>,
    pub listening: bool,
    pub capturing: bool,
    pub failed: bool,
}

/// Whether an event is what a stage waits for.
pub open spec fn run_awaits(stage: DaemonRunStage, event: DaemonRunEvent) -> bool {
    match stage {
        DaemonRunStage::Endpoint => event is Endpoint,
        DaemonRunStage::Identity => event is Identity,
        DaemonRunStage::Session => event is Session,
        DaemonRunStage::Listener => event is Listener,
        DaemonRunStage::Capture => event is Capture,
        DaemonRunStage::Serving => event is Served,
        DaemonRunStage::StoppingCapture => event is CaptureStopped,
        DaemonRunStage::StoppingListener | DaemonRunStage::Abandoning => event is ListenerStopped,
        DaemonRunStage::Done => false,
    }
}

/// Whether two states differ in nothing but the stage.
pub open spec fn run_kept(a: DaemonRun, b: DaemonRun) -> bool {
    &&& a.options == b.options
    &&& a.endpoint == b.endpoint
    &&& a.local_device_id == b.local_device_id
    &&& a.listening == b.listening
    &&& a.capturing == b.capturing
    &&& a.failed == b.failed
}

/// Whether the daemon ends at once, having said why.
pub open spec fn gives_up(
    before: DaemonRun,
    message: Seq<char>,
    said: Option<String>,
    action: DaemonRunAction,
    after: DaemonRun,
) -> bool {
    &&& run_kept(before, after)
    &&& after.stage is Done
    &&& crate::rpc::optional_view(said) == Some(message)
    &&& action == (DaemonRunAction::Exit { success: false })
}

/// Whether the daemon goes on to serve.
pub open spec fn begins_to_serve(
    known: DaemonRun,
    said: Option<String>,
    action: DaemonRunAction,
    after: DaemonRun,
) -> bool {
    &&& run_kept(known, after)
    &&& after.stage is Serving
    &&& known.endpoint is Some
    &&& crate::rpc::optional_view(said) == Some(
        "akraz-daemon listening at "@ + known.endpoint->Some_0.address@,
    )
    &&& action is Serve
    &&& action->config.endpoint.kind == known.endpoint->Some_0.kind
    &&& action->config.endpoint.address@ == known.endpoint->Some_0.address@
    &&& action->config.max_requests == (if known.options.once {
        Some(1usize)
    } else {
        None
    })
}

/// Whether the daemon goes on to capture input, where it is told to, or to serve.
pub open spec fn goes_on_to_capture(
    known: DaemonRun,
    said: Option<String>,
    action: DaemonRunAction,
    after: DaemonRun,
) -> bool {
    if known.options.capture_input {
        &&& run_kept(known, after)
        &&& after.stage is Capture
        &&& said is None
        &&& action is StartCapture
        &&& action->edge_bindings@ == known.options.edge_bindings@
    } else {
        begins_to_serve(known, said, action, after)
    }
}

/// Whether the daemon goes on to listen for peers, where it is told to, or to what follows.
pub open spec fn goes_on_to_listen(
    known: DaemonRun,
    said: Option<String>,
    action: DaemonRunAction,
    after: DaemonRun,
) -> bool {
    match known.options.peer_listen {
        Some(address) => {
            &&& run_kept(known, after)
            &&& after.stage is Listener
            &&& said is None
            &&& action == (DaemonRunAction::StartListener { address })
        },
        None => goes_on_to_capture(known, said, action, after),
    }
}

/// What is said where a session has no identity to be opened with.
pub open spec fn no_identity_text() -> Seq<char> {
    "failed to configure daemon recovery dispatcher: peer session transport requires --local-device-id or --identity-store"@
}

/// Whether the daemon goes on to open its session, where it is told to, or to what follows.
pub open spec fn goes_on_to_session(
    known: DaemonRun,
    said: Option<String>,
    action: DaemonRunAction,
    after: DaemonRun,
) -> bool {
    match known.options.peer_session {
        Some(session) => match known.local_device_id {
            Some(local_device_id) => {
                &&& run_kept(known, after)
                &&& after.stage is Session
                &&& said is None
                &&& action == (DaemonRunAction::OpenSession {
                    peer_id: session.peer_id,
                    local_device_id,
                    address: session.address,
                })
            },
            None => gives_up(known, no_identity_text(), said, action, after),
        },
        None => goes_on_to_listen(known, said, action, after),
    }
}

/// A run with what is known by now.
pub open spec fn with_device(run: DaemonRun, id: DeviceId) -> DaemonRun {
    DaemonRun { local_device_id: Some(id), ..run }
}

/// Whether the daemon goes on to find out its device id: the one it was given, else that of its
/// identity store, else none.
pub open spec fn goes_on_to_identity(
    known: DaemonRun,
    said: Option<String>,
    action: DaemonRunAction,
    after: DaemonRun,
) -> bool {
    match known.options.local_device_id {
        Some(id) => goes_on_to_session(with_device(known, id), said, action, after),
        None => match known.options.identity_store {
            Some(path) => {
                &&& run_kept(known, after)
                &&& after.stage is Identity
                &&& said is None
                &&& action is LoadIdentity
                &&& action->path@ == path@
                &&& action->display_name@ == match known.options.identity_display_name {
                    Some(name) => name@,
                    None => DEFAULT_DAEMON_DISPLAY_NAME@,
                }
            },
            None => goes_on_to_session(known, said, action, after),
        },
    }
}

/// Whether the daemon begins: with the endpoint that it was given, or with finding one.
pub open spec fn run_begins(
    fresh: DaemonRun,
    said: Option<String>,
    action: DaemonRunAction,
    after: DaemonRun,
) -> bool {
    match fresh.options.endpoint {
        Some(endpoint) => exists|known: DaemonRun|
            run_kept(known, DaemonRun { endpoint: known.endpoint, ..fresh })
                && known.endpoint is Some && known.endpoint->Some_0.kind == endpoint.kind
                && known.endpoint->Some_0.address@ == endpoint.address@
                && #[trigger] goes_on_to_identity(known, said, action, after),
        None => {
            &&& run_kept(fresh, after)
            &&& after.stage is Endpoint
            &&& said is None
            &&& action is ResolveEndpoint
        },
    }
}

/// Whether the daemon stops what it started: input capture first, then the listener. It was a success
/// where nothing failed.
pub open spec fn stops(
    known: DaemonRun,
    said: Option<Seq<char>>,
    told: Option<String>,
    action: DaemonRunAction,
    after: DaemonRun,
) -> bool {
    &&& run_kept(known, after)
    &&& crate::rpc::optional_view(told) == said
    &&& if known.capturing && !(known.stage is StoppingCapture) {
        &&& after.stage is StoppingCapture
        &&& action is StopCapture
    } else if known.listening {
        &&& after.stage is StoppingListener
        &&& action is StopListener
    } else {
        &&& after.stage is Done
        &&& action == (DaemonRunAction::Exit { success: !known.failed })
    }
}

/// What the daemon does when a step is over.
pub open spec fn run_step(
    before: DaemonRun,
    event: DaemonRunEvent,
    said: Option<String>,
    action: DaemonRunAction,
    after: DaemonRun,
) -> bool {
    match event {
        DaemonRunEvent::Endpoint(Ok(endpoint)) => goes_on_to_identity(
            DaemonRun { endpoint: Some(endpoint), ..before },
            said,
            action,
            after,
        ),
        DaemonRunEvent::Endpoint(Err(error)) => gives_up(
            before,
            "failed to resolve daemon IPC endpoint: "@ + error.text(),
            said,
            action,
            after,
        ),
        DaemonRunEvent::Identity(Ok(stored)) => exists|id: DeviceId|
            id@ == stored.identity.device_id@ && #[trigger] goes_on_to_session(
                with_device(before, id),
                said,
                action,
                after,
            ),
        DaemonRunEvent::Identity(Err(error)) => gives_up(
            before,
            "failed to resolve daemon identity: failed to load identity store "@ + (
            match before.options.identity_store {
                Some(path) => path@,
                None => Seq::empty(),
            }) + ": "@ + error.text(),
            said,
            action,
            after,
        ),
        DaemonRunEvent::Session(Ok(_)) => goes_on_to_listen(before, said, action, after),
        DaemonRunEvent::Session(Err(error)) => gives_up(
            before,
            "failed to configure daemon recovery dispatcher: "@ + error@,
            said,
            action,
            after,
        ),
        DaemonRunEvent::Listener(Ok(_)) => goes_on_to_capture(
            DaemonRun { listening: true, ..before },
            said,
            action,
            after,
        ),
        DaemonRunEvent::Listener(Err(error)) => gives_up(
            before,
            "failed to start peer session listener: "@ + error@,
            said,
            action,
            after,
        ),
        DaemonRunEvent::Capture(Ok(_)) => begins_to_serve(
            DaemonRun { capturing: true, ..before },
            said,
            action,
            after,
        ),
        DaemonRunEvent::Capture(Err(error)) => if before.listening {
            &&& run_kept(before, after)
            &&& after.stage is Abandoning
            &&& crate::rpc::optional_view(said) == Some(
                "failed to start daemon input capture: "@ + error@,
            )
            &&& action is StopListener
        } else {
            gives_up(before, "failed to start daemon input capture: "@ + error@, said, action, after)
        },
        DaemonRunEvent::Served(Ok(_)) => stops(before, None, said, action, after),
        DaemonRunEvent::Served(Err(error)) => stops(
            DaemonRun { failed: true, ..before },
            Some(crate::endpoint::daemon_ipc_error_text(error)),
            said,
            action,
            after,
        ),
        DaemonRunEvent::CaptureStopped(stopped) => stops(
            DaemonRun { failed: before.failed || !stopped, ..before },
            None,
            said,
            action,
            after,
        ),
        DaemonRunEvent::ListenerStopped(stopped) => if before.stage is Abandoning {
            &&& run_kept(before, after)
            &&& after.stage is Done
            &&& crate::rpc::optional_view(said) == (if stopped {
                None
            } else {
                Some("failed to stop peer session listener after startup error"@)
            })
            &&& action == (DaemonRunAction::Exit { success: false })
        } else {
            &&& run_kept(DaemonRun { failed: before.failed || !stopped, ..before }, after)
            &&& after.stage is Done
            &&& said is None
            &&& action == (DaemonRunAction::Exit { success: !after.failed })
        },
    }
}

/// What is said on the error stream, if anything, and what is done next.
pub type RunStep = (Option<String>, DaemonRunAction);

/// A daemon with these options that has done nothing yet.
pub open spec fn fresh_run(options: ServeOptions) -> DaemonRun {
    DaemonRun {
        options,
        stage: DaemonRunStage::Endpoint,
        endpoint: None,
        local_device_id: None,
        listening: false,
        capturing: false,
        failed: false,
    }
}

impl DaemonRun {
    /// Whether the daemon knows where it serves once it is past finding that out.
    pub open spec fn wf(&self) -> bool {
        self.stage is Endpoint || self.endpoint is Some
    }

    /// Begin.
    pub fn begin(options: ServeOptions) -> (result: (DaemonRun, RunStep))
        ensures
            result.0.wf(),
            run_begins(fresh_run(options), result.1.0, result.1.1, result.0),
    {
        let mut run = DaemonRun {
            options,
            stage: DaemonRunStage::Endpoint,
            endpoint: None,
            local_device_id: None,
            listening: false,
            capturing: false,
            failed: false,
        };
        let given = match &run.options.endpoint {
            Some(endpoint) => Some(
                IpcEndpoint { kind: endpoint.kind, address: endpoint.address.clone() },
            ),
            None => None,
        };
        match given {
            Some(endpoint) => {
                run.endpoint = Some(endpoint);
                let ghost known = run;
                let step = run.to_identity();
                proof {
                    assert(goes_on_to_identity(known, step.0, step.1, run));
                }
                (run, step)
            },
            None => (run, (None, DaemonRunAction::ResolveEndpoint)),
        }
    }

    /// End at once, and say why.
    fn give_up(&mut self, message: String) -> (result: RunStep)
        ensures
            gives_up(*old(self), message@, result.0, result.1, *final(self)),
            old(self).wf() && !(old(self).stage is Endpoint) ==> final(self).wf(),
    {
        self.stage = DaemonRunStage::Done;
        (Some(message), DaemonRunAction::Exit { success: false })
    }

    /// Go on to serve.
    fn to_serving(&mut self) -> (result: RunStep)
        requires
            old(self).endpoint is Some,
        ensures
            begins_to_serve(*old(self), result.0, result.1, *final(self)),
    {
        self.stage = DaemonRunStage::Serving;
        let endpoint = match &self.endpoint {
            Some(endpoint) => IpcEndpoint {
                kind: endpoint.kind,
                address: endpoint.address.clone(),
            },
            None => IpcEndpoint { kind: IpcEndpointKind::Manual, address: String::new() },
        };
        let message = "akraz-daemon listening at ".to_owned().concat(endpoint.address.as_str());
        let config = if self.options.once {
            DaemonIpcRunConfig::serve_requests(endpoint, 1)
        } else {
            DaemonIpcRunConfig::serve_forever(endpoint)
        };
        (Some(message), DaemonRunAction::Serve { config })
    }

    /// Go on to capture input, or to what follows.
    fn to_capture(&mut self) -> (result: RunStep)
        requires
            old(self).endpoint is Some,
        ensures
            goes_on_to_capture(*old(self), result.0, result.1, *final(self)),
    {
        if self.options.capture_input {
            self.stage = DaemonRunStage::Capture;
            let edge_bindings = clone_bindings(&self.options.edge_bindings);
            (None, DaemonRunAction::StartCapture { edge_bindings })
        } else {
            self.to_serving()
        }
    }

    /// Go on to listen, or to what follows.
    fn to_listener(&mut self) -> (result: RunStep)
        requires
            old(self).endpoint is Some,
        ensures
            goes_on_to_listen(*old(self), result.0, result.1, *final(self)),
    {
        match self.options.peer_listen {
            Some(address) => {
                self.stage = DaemonRunStage::Listener;
                (None, DaemonRunAction::StartListener { address })
            },
            None => self.to_capture(),
        }
    }

    /// Go on to open a session, or to what follows.
    fn to_session(&mut self) -> (result: RunStep)
        requires
            old(self).endpoint is Some,
        ensures
            goes_on_to_session(*old(self), result.0, result.1, *final(self)),
    {
        let action = match (&self.options.peer_session, &self.local_device_id) {
            (Some(session), Some(id)) => Some(
                Some(
                    DaemonRunAction::OpenSession {
                        peer_id: session.peer_id.clone(),
                        local_device_id: id.clone(),
                        address: session.address,
                    },
                ),
            ),
            (Some(_), None) => Some(None),
            (None, _) => None,
        };
        match action {
            Some(Some(action)) => {
                self.stage = DaemonRunStage::Session;
                (None, action)
            },
            Some(None) => {
                let message =
                    "failed to configure daemon recovery dispatcher: peer session transport requires --local-device-id or --identity-store".to_owned();
                self.give_up(message)
            },
            None => self.to_listener(),
        }
    }

    /// Go on to find out the device id.
    fn to_identity(&mut self) -> (result: RunStep)
        requires
            old(self).endpoint is Some,
        ensures
            goes_on_to_identity(*old(self), result.0, result.1, *final(self)),
    {
        let given = match &self.options.local_device_id {
            Some(id) => Some(id.clone()),
            None => None,
        };
        match given {
            Some(id) => {
                self.local_device_id = Some(id);
                return self.to_session();
            },
            None => {},
        }
        let action = match &self.options.identity_store {
            Some(path) => Some(
                DaemonRunAction::LoadIdentity {
                    path: path.clone(),
                    display_name: match &self.options.identity_display_name {
                        Some(name) => name.clone(),
                        None => DEFAULT_DAEMON_DISPLAY_NAME.to_owned(),
                    },
                },
            ),
            None => None,
        };
        match action {
            Some(action) => {
                self.stage = DaemonRunStage::Identity;
                (None, action)
            },
            None => self.to_session(),
        }
    }

    /// Stop what was started.
    fn to_stop(&mut self, message: Option<String>) -> (result: RunStep)
        ensures
            stops(
                *old(self),
                crate::rpc::optional_view(message),
                result.0,
                result.1,
                *final(self),
            ),
    {
        let stopping: bool = match self.stage {
            DaemonRunStage::StoppingCapture => true,
            _ => false,
        };
        if self.capturing && !stopping {
            self.stage = DaemonRunStage::StoppingCapture;
            (message, DaemonRunAction::StopCapture)
        } else if self.listening {
            self.stage = DaemonRunStage::StoppingListener;
            (message, DaemonRunAction::StopListener)
        } else {
            self.stage = DaemonRunStage::Done;
            (message, DaemonRunAction::Exit { success: !self.failed })
        }
    }

    /// Go on after a step: say what has to be said, and what to do next.
    pub fn run_daemon(&mut self, event: DaemonRunEvent) -> (result: RunStep)
        requires
            old(self).wf(),
            run_awaits(old(self).stage, event),
        ensures
            final(self).wf() || final(self).stage is Done,
            run_step(*old(self), event, result.0, result.1, *final(self)),
    {
        match event {
            DaemonRunEvent::Endpoint(Ok(endpoint)) => {
                self.endpoint = Some(endpoint);
                self.to_identity()
            },
            DaemonRunEvent::Endpoint(Err(error)) => {
                let message = "failed to resolve daemon IPC endpoint: ".to_owned().concat(
                    error.message().as_str(),
                );
                self.give_up(message)
            },
            DaemonRunEvent::Identity(Ok(stored)) => {
                let id = DeviceId::new(stored.identity.device_id());
                let ghost known = with_device(*self, id);
                self.local_device_id = Some(id);
                let step = self.to_session();
                proof {
                    assert(goes_on_to_session(known, step.0, step.1, *self));
                }
                step
            },
            DaemonRunEvent::Identity(Err(error)) => {
                let path = match &self.options.identity_store {
                    Some(path) => path.clone(),
                    None => {
                        let none = String::new();
                        proof {
                            assert(none@ =~= Seq::empty());
                        }
                        none
                    },
                };
                let message =
                    "failed to resolve daemon identity: failed to load identity store ".to_owned().concat(
                    path.as_str(),
                ).concat(": ").concat(error.message().as_str());
                self.give_up(message)
            },
            DaemonRunEvent::Session(Ok(_)) => self.to_listener(),
            DaemonRunEvent::Session(Err(error)) => {
                let message = "failed to configure daemon recovery dispatcher: ".to_owned().concat(
                    error.message(),
                );
                self.give_up(message)
            },
            DaemonRunEvent::Listener(Ok(_)) => {
                self.listening = true;
                self.to_capture()
            },
            DaemonRunEvent::Listener(Err(error)) => {
                let message = "failed to start peer session listener: ".to_owned().concat(
                    error.message(),
                );
                self.give_up(message)
            },
            DaemonRunEvent::Capture(Ok(_)) => {
                self.capturing = true;
                self.to_serving()
            },
            DaemonRunEvent::Capture(Err(error)) => {
                let message = "failed to start daemon input capture: ".to_owned().concat(
                    error.message(),
                );
                if self.listening {
                    self.stage = DaemonRunStage::Abandoning;
                    (Some(message), DaemonRunAction::StopListener)
                } else {
                    self.give_up(message)
                }
            },
            DaemonRunEvent::Served(Ok(_)) => self.to_stop(None),
            DaemonRunEvent::Served(Err(error)) => {
                self.failed = true;
                let message = format_daemon_ipc_error(&error);
                self.to_stop(Some(message))
            },
            DaemonRunEvent::CaptureStopped(stopped) => {
                self.failed = self.failed || !stopped;
                self.to_stop(None)
            },
            DaemonRunEvent::ListenerStopped(stopped) => {
                let abandoning: bool = match self.stage {
                    DaemonRunStage::Abandoning => true,
                    _ => false,
                };
                self.stage = DaemonRunStage::Done;
                if abandoning {
                    let message = if stopped {
                        None
                    } else {
                        Some("failed to stop peer session listener after startup error".to_owned())
                    };
                    (message, DaemonRunAction::Exit { success: false })
                } else {
                    self.failed = self.failed || !stopped;
                    (None, DaemonRunAction::Exit { success: !self.failed })
                }
            },
        }
    }
}

/// The daemon never ends while something that it started still runs, and it ends well only where
/// nothing failed.
pub proof fn workers_are_stopped_before_the_end(
    before: DaemonRun,
    event: DaemonRunEvent,
    said: Option<String>,
    action: DaemonRunAction,
    after: DaemonRun,
)
    requires
        run_awaits(before.stage, event),
        run_step(before, event, said, action, after),
        action is Exit,
    ensures
        before.stage is Serving ==> !before.capturing && !before.listening,
        before.stage is Capture || before.stage is StoppingCapture ==> !before.listening,
        action->success ==> !after.failed,
        action->success ==> before.stage is Serving || before.stage is StoppingCapture
            || before.stage is StoppingListener,
{
}

/// What happened to a listener for peers.
pub enum PeerListenerEvent {
    Started,
    Idle,
    Waited,
    SessionEnded(Result<(), PlatformError>),
    Released(Result<(), PlatformError>),
    AcceptFailed(String),
}

/// What a listener for peers does next.
pub enum PeerListenerAction {
    Accept,
    Wait,
    ReleaseAll,
    Finish(Result<(), PlatformError>),
}

/// How long a listener waits where no peer calls, in milliseconds.
pub const PEER_LISTENER_IDLE_POLL_MILLIS: u64 = 25;

/// Go on listening for peers: one session after the other, until told to stop. After a session that
/// failed, all input is released before the next one.
pub fn run_peer_session_listener(running: bool, event: PeerListenerEvent) -> (result: (
    Option<String>,
    PeerListenerAction,
))
    ensures
        match event {
            PeerListenerEvent::Started
            | PeerListenerEvent::Waited
            | PeerListenerEvent::SessionEnded(Ok(_))
            | PeerListenerEvent::Released(Ok(_)) => result.0 is None && (if running {
                result.1 is Accept
            } else {
                result.1 matches PeerListenerAction::Finish(Ok(_))
            }),
            PeerListenerEvent::Idle => result.0 is None && result.1 is Wait,
            PeerListenerEvent::SessionEnded(Err(error)) => {
                &&& crate::rpc::optional_view(result.0) == Some(
                    "peer session ended with error: "@ + error@,
                )
                &&& result.1 is ReleaseAll
            },
            PeerListenerEvent::Released(Err(error)) => result.0 is None && result.1
                == PeerListenerAction::Finish(Err(error)),
            PeerListenerEvent::AcceptFailed(cause) => {
                &&& result.0 is None
                &&& result.1 is Finish
                &&& result.1->Finish_0 is Err
                &&& result.1->Finish_0->Err_0@ == "failed to accept peer session: "@ + cause@
            },
        },
{
    match event {
        PeerListenerEvent::Started
        | PeerListenerEvent::Waited
        | PeerListenerEvent::SessionEnded(Ok(_))
        | PeerListenerEvent::Released(Ok(_)) => {
            if running {
                (None, PeerListenerAction::Accept)
            } else {
                (None, PeerListenerAction::Finish(Ok(())))
            }
        },
        PeerListenerEvent::Idle => (None, PeerListenerAction::Wait),
        PeerListenerEvent::SessionEnded(Err(error)) => {
            let message = "peer session ended with error: ".to_owned().concat(error.message());
            (Some(message), PeerListenerAction::ReleaseAll)
        },
        PeerListenerEvent::Released(Err(error)) => (None, PeerListenerAction::Finish(Err(error))),
        PeerListenerEvent::AcceptFailed(cause) => {
            let message = "failed to accept peer session: ".to_owned().concat(cause.as_str());
            (None, PeerListenerAction::Finish(Err(PlatformError::from_message(message))))
        },
    }
}

/// Whether what a daemon has started by now fits how far it has come.
pub open spec fn has_started_what_it_should(run: DaemonRun) -> bool {
    &&& run.stage is Endpoint || run.stage is Identity || run.stage is Session
        || run.stage is Listener ==> !run.listening && !run.capturing && !run.failed
    &&& run.stage is Listener ==> run.options.peer_listen is Some
    &&& run.stage is Capture ==> run.options.capture_input && !run.capturing && !run.failed && (
    run.listening <==> run.options.peer_listen is Some)
    &&& run.stage is Serving ==> !run.failed && (run.listening <==> run.options.peer_listen is Some)
        && (run.capturing <==> run.options.capture_input)
}

/// A daemon starts with nothing started.
pub proof fn a_daemon_begins_with_nothing_started(
    options: ServeOptions,
    said: Option<String>,
    action: DaemonRunAction,
    after: DaemonRun,
)
    requires
        run_begins(fresh_run(options), said, action, after),
    ensures
        has_started_what_it_should(after),
        after.options == options,
        options.endpoint is None ==> action is ResolveEndpoint,
        options.endpoint matches Some(endpoint) ==> after.endpoint is Some
            && after.endpoint->Some_0.address@ == endpoint.address@,
{
}

/// A daemon does what its options say and no more: it opens the session that they name, with the device
/// that they name or that its identity names, listens where they say, captures with the bindings that
/// they give, and serves where it was found to serve, once where they say so. It serves when all that
/// it was told to start has been started, and ends badly where any of it failed.
pub proof fn a_daemon_does_what_it_was_told(
    before: DaemonRun,
    event: DaemonRunEvent,
    said: Option<String>,
    action: DaemonRunAction,
    after: DaemonRun,
)
    requires
        has_started_what_it_should(before),
        run_awaits(before.stage, event),
        run_step(before, event, said, action, after),
    ensures
        has_started_what_it_should(after),
        after.options == before.options,
        action matches DaemonRunAction::OpenSession { peer_id, local_device_id, address } ==> {
            &&& before.options.peer_session is Some
            &&& peer_id == before.options.peer_session->Some_0.peer_id
            &&& address == before.options.peer_session->Some_0.address
            &&& before.options.local_device_id is Some && event is Endpoint ==> local_device_id
                == before.options.local_device_id->Some_0
            &&& event matches DaemonRunEvent::Identity(Ok(stored)) ==> local_device_id@
                == stored.identity.device_id@
        },
        action matches DaemonRunAction::StartListener { address } ==> before.options.peer_listen
            == Some(address),
        action matches DaemonRunAction::StartCapture { edge_bindings }
            ==> before.options.capture_input && edge_bindings@ == before.options.edge_bindings@,
        action matches DaemonRunAction::LoadIdentity { path, display_name } ==> {
            &&& before.options.identity_store is Some
            &&& path@ == before.options.identity_store->Some_0@
            &&& before.options.identity_display_name matches Some(name) ==> display_name@ == name@
            &&& before.options.identity_display_name is None ==> display_name@ == "Akraz Daemon"@
        },
        action matches DaemonRunAction::Serve { config } ==> {
            &&& after.endpoint is Some
            &&& config.endpoint.address@ == after.endpoint->Some_0.address@
            &&& config.max_requests is Some <==> before.options.once
            &&& before.options.once ==> config.max_requests == Some(1usize)
        },
        before.options.peer_session is None ==> !(action is OpenSession),
        event is Endpoint && event->Endpoint_0 is Err || event is Identity && event->Identity_0 is Err
            || event is Session && event->Session_0 is Err || event is Listener
            && event->Listener_0 is Err ==> action == (DaemonRunAction::Exit { success: false }),
        event is Served && before.capturing ==> action is StopCapture,
        event is Served && !before.capturing && before.listening ==> action is StopListener,
        event is CaptureStopped && before.listening ==> action is StopListener,
        event is Served && event->Served_0 is Err ==> after.failed,
        event is CaptureStopped && !event->CaptureStopped_0 ==> after.failed,
        before.failed ==> after.failed,
        action == (DaemonRunAction::Exit { success: true }) ==> !before.failed,
        event == DaemonRunEvent::ListenerStopped(false) && action is Exit ==> !action->success,
{
}

/// A listener takes one peer after the other while it is told to run; after a session that failed
/// everything is released first, and only a failure to release or to accept ends it badly.
pub proof fn a_listener_releases_after_a_failure(
    running: bool,
    event: PeerListenerEvent,
    result: (Option<String>, PeerListenerAction),
)
    requires
        call_ensures(run_peer_session_listener, (running, event), result),
    ensures
        event is SessionEnded && event->SessionEnded_0 is Err <==> result.1 is ReleaseAll,
        result.1 is Wait <==> event is Idle,
        result.1 is Accept ==> running,
        !running && !(event is Idle) && !(event is SessionEnded && event->SessionEnded_0 is Err)
            ==> result.1 is Finish,
        result.1 is Finish && result.1->Finish_0 is Err <==> event is AcceptFailed || (
        event is Released && event->Released_0 is Err),
{
}

/// Each step of a daemon does what its options say and no more: it opens the session, listens, captures
/// and serves as it was told, and never ends while something that it started still runs.
pub proof fn each_step_of_a_daemon_is_as_it_was_told(
    run: &mut DaemonRun,
    event: DaemonRunEvent,
    step: RunStep,
)
    requires
        has_started_what_it_should(*old(run)),
        run_awaits(old(run).stage, event),
        call_ensures(DaemonRun::run_daemon, (run, event), step),
    ensures
        has_started_what_it_should(*final(run)),
        final(run).options == old(run).options,
        step.1 is OpenSession ==> old(run).options.peer_session is Some && step.1->peer_id
            == old(run).options.peer_session->Some_0.peer_id && step.1->OpenSession_address
            == old(run).options.peer_session->Some_0.address,
        step.1 is StartListener ==> old(run).options.peer_listen == Some(
            step.1->StartListener_address,
        ),
        step.1 is StartCapture ==> old(run).options.capture_input && step.1->edge_bindings@
            == old(run).options.edge_bindings@,
        step.1 is Serve ==> final(run).endpoint is Some && step.1->config.endpoint.address@
            == final(run).endpoint->Some_0.address@ && (step.1->config.max_requests is Some
            <==> old(run).options.once),
        step.1 is Exit && old(run).stage is Serving ==> !old(run).capturing && !old(run).listening,
        step.1 is Exit && step.1->success ==> !final(run).failed,
{
    a_daemon_does_what_it_was_told(*old(run), event, step.0, step.1, *final(run));
    if step.1 is Exit {
        workers_are_stopped_before_the_end(*old(run), event, step.0, step.1, *final(run));
    }
}

/// A daemon begins with nothing started and with the options that it was given; it looks for an endpoint
/// just where none was named.
pub proof fn a_daemon_begins_with_its_options(options: ServeOptions, begun: (DaemonRun, RunStep))
    requires
        call_ensures(DaemonRun::begin, (options,), begun),
    ensures
        has_started_what_it_should(begun.0),
        begun.0.options == options,
        options.endpoint is None ==> begun.1.1 is ResolveEndpoint,
        options.endpoint is Some ==> begun.0.endpoint is Some && begun.0.endpoint->Some_0.address@
            == options.endpoint->Some_0.address@,
{
    a_daemon_begins_with_nothing_started(options, begun.1.0, begun.1.1, begun.0);
}

} // verus!
