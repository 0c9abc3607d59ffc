//! How a session is opened on request: what is asked of the machine, and what comes of it.

use vstd::prelude::*;

use crate::address::{parse_socket_address, SocketAddress};
use crate::identity::{Ed25519PublicKey, TrustedPeer};
use crate::managed::{
    ManagedPeerSessionSnapshot, ManagedPeerSessionTransport, MonotonicClock, PeerFrameSink,
    SessionConnect, SessionConnectAction, SessionConnectEvent,
};
use crate::platform::PlatformError;
use crate::runtime::{DeviceId, PeerId};
use crate::session::PeerSessionPrelude;
use crate::snapshot::{SessionConnectParams, SessionConnectResult, SessionStatus};
use crate::store::{IdentityStoreError, StoredLocalIdentity};
use crate::text::trimmed;

verus! {

/// What sessions need of the machine: the files that identities are kept in, and the network.
pub trait SessionServices<W>: Sized {
    /// What loading the device's own identity may give, and what it leaves behind.
    open spec fn gives_identity(
        before: Self,
        store: Seq<char>,
        display_name: Seq<char>,
        identity: Result<StoredLocalIdentity, IdentityStoreError>,
        after: Self,
    ) -> bool {
        true
    }

    /// What loading a paired peer may give, and what it leaves behind.
    open spec fn gives_peer(
        before: Self,
        store: Seq<char>,
        peer_id: Seq<char>,
        peer: Result<TrustedPeer<Ed25519PublicKey>, String>,
        after: Self,
    ) -> bool {
        true
    }

    /// What opening a connection may give, and what it leaves behind.
    open spec fn opens(
        before: Self,
        address: SocketAddress,
        prelude: PeerSessionPrelude,
        sink: Result<W, PlatformError>,
        after: Self,
    ) -> bool {
        true
    }

    fn load_identity(&mut self, store: &str, display_name: &str) -> (identity: Result<
        StoredLocalIdentity,
        IdentityStoreError,
    >)
        ensures
            Self::gives_identity(*old(self), store@, display_name@, identity, *final(self)),
    ;

    fn load_trusted_peer(&mut self, store: &str, peer_id: &str) -> (peer: Result<
        TrustedPeer<Ed25519PublicKey>,
        String,
    >)
        ensures
            Self::gives_peer(*old(self), store@, peer_id@, peer, *final(self)),
    ;

    fn open_session(&mut self, address: SocketAddress, prelude: PeerSessionPrelude) -> (sink:
        Result<W, PlatformError>)
        ensures
            Self::opens(*old(self), address, prelude, sink, *final(self)),
    ;
}

/// A machine without identities and without a network.
#[derive(Debug, Clone, Copy, PartialEq, Eq)]
pub struct NoSessionServices;

impl<W> SessionServices<W> for NoSessionServices {
    open spec fn gives_identity(
        before: Self,
        store: Seq<char>,
        display_name: Seq<char>,
        identity: Result<StoredLocalIdentity, IdentityStoreError>,
        after: Self,
    ) -> bool {
        identity is Err
    }

    open spec fn gives_peer(
        before: Self,
        store: Seq<char>,
        peer_id: Seq<char>,
        peer: Result<TrustedPeer<Ed25519PublicKey>, String>,
        after: Self,
    ) -> bool {
        peer is Err
    }

    open spec fn opens(
        before: Self,
        address: SocketAddress,
        prelude: PeerSessionPrelude,
        sink: Result<W, PlatformError>,
        after: Self,
    ) -> bool {
        sink is Err
    }

    fn load_identity(&mut self, store: &str, display_name: &str) -> (identity: Result<
        StoredLocalIdentity,
        IdentityStoreError,
    >) {
        Err(
            IdentityStoreError::ReadIdentityFile {
                path: store.to_owned(),
                cause: "no identity store is available".to_owned(),
            },
        )
    }

    fn load_trusted_peer(&mut self, store: &str, peer_id: &str) -> (peer: Result<
        TrustedPeer<Ed25519PublicKey>,
        String,
    >) {
        Err("no identity store is available".to_owned())
    }

    fn open_session(&mut self, address: SocketAddress, prelude: PeerSessionPrelude) -> (sink:
        Result<W, PlatformError>) {
        Err(PlatformError::new("no network is available"))
    }
}

/// How many steps an attempt can still take.
pub open spec fn steps_left(stage: crate::managed::SessionConnectStage) -> nat {
    match stage {
        crate::managed::SessionConnectStage::Begin => 4,
        crate::managed::SessionConnectStage::Identity => 3,
        crate::managed::SessionConnectStage::Peer => 2,
        crate::managed::SessionConnectStage::Open => 1,
        crate::managed::SessionConnectStage::Done => 0,
    }
}

/// What an attempt does from an event on, in at most so many steps: each step's action is carried out
/// and its answer is the next event.
pub open spec fn connect_run<W, C: MonotonicClock, S: SessionServices<W>>(
    steps: nat,
    before: ManagedPeerSessionTransport<W, C>,
    attempt: SessionConnect,
    event: SessionConnectEvent<W>,
    services: S,
    result: Result<(), PlatformError>,
    after: ManagedPeerSessionTransport<W, C>,
    later: S,
) -> bool
    decreases steps,
{
    steps > 0 && exists|
        now: u64,
        action: SessionConnectAction,
        manager: ManagedPeerSessionTransport<W, C>,
        next: SessionConnect,
    |
        before.clock.tells(now) && #[trigger] crate::managed::connect_step(
            before,
            attempt,
            event,
            now,
            action,
            manager,
            next,
        ) && match action {
            SessionConnectAction::Finish { result: finished } => {
                &&& result == finished
                &&& after == manager
                &&& later == services
            },
            SessionConnectAction::LoadIdentity => exists|
                identity: Result<StoredLocalIdentity, IdentityStoreError>,
                then: S,
            | #[trigger]
                S::gives_identity(
                    services,
                    before.auth_config->Some_0.identity_store@,
                    before.auth_config->Some_0.identity_display_name@,
                    identity,
                    then,
                ) && connect_run(
                    (steps - 1) as nat,
                    manager,
                    next,
                    SessionConnectEvent::Identity { identity },
                    then,
                    result,
                    after,
                    later,
                ),
            SessionConnectAction::LoadPeer => exists|
                peer: Result<TrustedPeer<Ed25519PublicKey>, String>,
                then: S,
            | #[trigger]
                S::gives_peer(
                    services,
                    before.auth_config->Some_0.identity_store@,
                    attempt.peer_id@,
                    peer,
                    then,
                ) && connect_run(
                    (steps - 1) as nat,
                    manager,
                    next,
                    SessionConnectEvent::Peer { peer },
                    then,
                    result,
                    after,
                    later,
                ),
            SessionConnectAction::Open { prelude } => exists|sink: Result<W, PlatformError>, then: S|
             #[trigger]
                S::opens(services, attempt.address, prelude, sink, then) && connect_run(
                    (steps - 1) as nat,
                    manager,
                    next,
                    SessionConnectEvent::Opened { sink },
                    then,
                    result,
                    after,
                    later,
                ),
        }
}

/// Carry out an attempt from an event on.
fn drive_connect<W: PeerFrameSink, C: MonotonicClock, S: SessionServices<W>>(
    manager: &mut ManagedPeerSessionTransport<W, C>,
    attempt: &mut SessionConnect,
    event: SessionConnectEvent<W>,
    services: &mut S,
    steps: u32,
) -> (result: Result<(), PlatformError>)
    requires
        old(attempt).wf(*old(manager)),
        crate::managed::connect_awaits(old(attempt).stage, event),
        steps == steps_left(old(attempt).stage),
    ensures
        connect_run(
            steps as nat,
            *old(manager),
            *old(attempt),
            event,
            *old(services),
            result,
            *final(manager),
            *final(services),
        ),
    decreases steps,
{
    let ghost before = *manager;
    let ghost asked = event;
    let ghost first = *attempt;
    let ghost unasked = *services;
    let action = manager.connect_session(attempt, event);
    let ghost step = action;
    let ghost between = *manager;
    let ghost next = *attempt;
    assert(exists|now: u64|
        before.clock.tells(now) && #[trigger] crate::managed::connect_step(
            before,
            first,
            asked,
            now,
            step,
            between,
            next,
        ));
    match action {
        SessionConnectAction::Finish { result } => result,
        SessionConnectAction::LoadIdentity => {
            let (store, name) = match &manager.auth_config {
                Some(config) => (
                    config.identity_store.clone(),
                    config.identity_display_name.clone(),
                ),
                None => (String::new(), String::new()),
            };
            let identity = services.load_identity(store.as_str(), name.as_str());
            assert(S::gives_identity(
                unasked,
                before.auth_config->Some_0.identity_store@,
                before.auth_config->Some_0.identity_display_name@,
                identity,
                *services,
            ));
            drive_connect(
                manager,
                attempt,
                SessionConnectEvent::Identity { identity },
                services,
                steps - 1,
            )
        },
        SessionConnectAction::LoadPeer => {
            let store = match &manager.auth_config {
                Some(config) => config.identity_store.clone(),
                None => String::new(),
            };
            let peer = services.load_trusted_peer(store.as_str(), attempt.peer_id.as_str());
            assert(S::gives_peer(
                unasked,
                before.auth_config->Some_0.identity_store@,
                first.peer_id@,
                peer,
                *services,
            ));
            drive_connect(manager, attempt, SessionConnectEvent::Peer { peer }, services, steps - 1)
        },
        SessionConnectAction::Open { prelude } => {
            let ghost sent = prelude;
            let sink = services.open_session(attempt.address, prelude);
            assert(S::opens(unasked, first.address, sent, sink, *services));
            drive_connect(
                manager,
                attempt,
                SessionConnectEvent::Opened { sink },
                services,
                steps - 1,
            )
        },
    }
}

/// A field of a request without the space around it, or what is said where nothing is left.
pub open spec fn required_value(field: Seq<char>, value: Seq<char>) -> Result<
    Seq<char>,
    Seq<char>,
> {
    let value = crate::text::trim(value);
    if value.len() == 0 {
        Err("session connect field "@ + field + " must not be empty"@)
    } else {
        Ok(value)
    }
}

/// A field of a request without the space around it.
pub fn require_non_empty_session_value<'a>(field: &'static str, value: &'a str) -> (result: Result<
    &'a str,
    PlatformError,
>)
    ensures
        match result {
            Ok(value_left) => required_value(field@, value@) == Ok::<Seq<char>, Seq<char>>(
                value_left@,
            ),
            Err(error) => required_value(field@, value@) == Err::<Seq<char>, Seq<char>>(error@),
        },
{
    let value = trimmed(value);
    if value.is_empty() {
        Err(
            PlatformError::from_message(
                "session connect field ".to_owned().concat(field).concat(" must not be empty"),
            ),
        )
    } else {
        Ok(value)
    }
}

/// The peer of a request.
pub fn parse_non_empty_peer_id(value: &str) -> (result: Result<PeerId, PlatformError>)
    ensures
        match result {
            Ok(peer_id) => required_value("peerId"@, value@) == Ok::<Seq<char>, Seq<char>>(
                peer_id@,
            ),
            Err(error) => required_value("peerId"@, value@) == Err::<Seq<char>, Seq<char>>(error@),
        },
{
    match require_non_empty_session_value("peerId", value) {
        Ok(value) => Ok(PeerId::new(value)),
        Err(error) => Err(error),
    }
}

/// The device that a request speaks for.
pub fn parse_non_empty_device_id(value: &str) -> (result: Result<DeviceId, PlatformError>)
    ensures
        match result {
            Ok(device_id) => required_value("localDeviceId"@, value@) == Ok::<
                Seq<char>,
                Seq<char>,
            >(device_id@),
            Err(error) => required_value("localDeviceId"@, value@) == Err::<Seq<char>, Seq<char>>(
                error@,
            ),
        },
{
    match require_non_empty_session_value("localDeviceId", value) {
        Ok(value) => Ok(DeviceId::new(value)),
        Err(error) => Err(error),
    }
}

/// The address of a request, or what is wrong with it.
pub open spec fn read_address(value: Seq<char>) -> Result<
    crate::address::SocketModel,
    Seq<char>,
> {
    match required_value("address"@, value) {
        Err(message) => Err(message),
        Ok(value) => match crate::address::read_socket(value) {
            Some(address) => Ok(address),
            None => Err("invalid peer session address: invalid socket address syntax"@),
        },
    }
}

/// The address of a request.
pub fn parse_peer_session_address(value: &str) -> (result: Result<SocketAddress, PlatformError>)
    ensures
        match result {
            Ok(address) => read_address(value@) == Ok::<crate::address::SocketModel, Seq<char>>(
                address@,
            ),
            Err(error) => read_address(value@) == Err::<crate::address::SocketModel, Seq<char>>(
                error@,
            ),
        },
{
    match require_non_empty_session_value("address", value) {
        Ok(value) => match parse_socket_address(value) {
            Some(address) => Ok(address),
            None => Err(
                PlatformError::new("invalid peer session address: invalid socket address syntax"),
            ),
        },
        Err(error) => Err(error),
    }
}

/// Whether a status tells what is known of a session.
pub open spec fn is_status(
    status: SessionStatus,
    peer_id: Seq<char>,
    local_device_id: Seq<char>,
    address: SocketAddress,
    connected: bool,
) -> bool {
    &&& status.peer_id@ == peer_id
    &&& status.local_device_id@ == local_device_id
    &&& status.address@ == crate::address::spell_socket(address@)
    &&& status.connected == connected
}

/// Tell what is known of a session.
pub fn session_status_from_snapshot(snapshot: &ManagedPeerSessionSnapshot, connected: bool) -> (result:
    SessionStatus)
    ensures
        is_status(
            result,
            snapshot.peer_id@,
            snapshot.local_device_id@,
            snapshot.address,
            connected,
        ),
{
    SessionStatus {
        peer_id: snapshot.peer_id.as_str().to_owned(),
        local_device_id: snapshot.local_device_id.as_str().to_owned(),
        address: snapshot.address.text(),
        connected,
    }
}

/// What is wrong with the fields of a request. The peer is looked at first, then the device, then
/// the address.
pub open spec fn params_refusal(params: SessionConnectParams) -> Option<Seq<char>> {
    match required_value("peerId"@, params.peer_id@) {
        Err(message) => Some(message),
        Ok(_) => match required_value("localDeviceId"@, params.local_device_id@) {
            Err(message) => Some(message),
            Ok(_) => match read_address(params.address@) {
                Err(message) => Some(message),
                Ok(_) => None,
            },
        },
    }
}

/// Whether an attempt is the one that a request asks for.
pub open spec fn is_attempt(attempt: SessionConnect, params: SessionConnectParams) -> bool {
    &&& attempt.stage is Begin
    &&& attempt.local is None
    &&& attempt.peer_id@ == crate::text::trim(params.peer_id@)
    &&& attempt.local_device_id@ == crate::text::trim(params.local_device_id@)
    &&& read_address(params.address@) == Ok::<crate::address::SocketModel, Seq<char>>(
        attempt.address@,
    )
}

/// What is answered after an attempt: the session that it opened, or why there is none.
pub open spec fn connect_answer<W, C>(
    finished: Result<(), PlatformError>,
    after: ManagedPeerSessionTransport<W, C>,
    result: Result<SessionConnectResult, PlatformError>,
) -> bool {
    match finished {
        Err(error) => result == Err::<SessionConnectResult, PlatformError>(error),
        Ok(_) => match after.active_session {
            Some(session) => {
                &&& result is Ok
                &&& result->Ok_0.connected
                &&& is_status(
                    result->Ok_0.session,
                    session.peer_id@,
                    session.local_device_id@,
                    session.address,
                    true,
                )
            },
            None => result is Err && result->Err_0@ == "managed peer session was not attached"@,
        },
    }
}

/// What a request for a session does. While there is a session, and where the fields are no good, it
/// is refused and nothing else happens.
pub open spec fn connects<W, C: MonotonicClock, S: SessionServices<W>>(
    before: ManagedPeerSessionTransport<W, C>,
    services: S,
    params: SessionConnectParams,
    result: Result<SessionConnectResult, PlatformError>,
    after: ManagedPeerSessionTransport<W, C>,
    later: S,
) -> bool {
    if before.active_session is Some {
        &&& result is Err
        &&& result->Err_0@ == crate::managed::already_active()
        &&& after == before
        &&& later == services
    } else {
        match params_refusal(params) {
            Some(message) => {
                &&& result is Err
                &&& result->Err_0@ == message
                &&& after == before
                &&& later == services
            },
            None => exists|attempt: SessionConnect, finished: Result<(), PlatformError>|
                is_attempt(attempt, params) && #[trigger] connect_run(
                    4,
                    before,
                    attempt,
                    SessionConnectEvent::<W>::Begin,
                    services,
                    finished,
                    after,
                    later,
                ) && connect_answer(finished, after, result),
        }
    }
}

/// Open a session on request.
pub fn connect_peer_session<W: PeerFrameSink, C: MonotonicClock, S: SessionServices<W>>(
    params: &SessionConnectParams,
    peer_sessions: &mut ManagedPeerSessionTransport<W, C>,
    services: &mut S,
) -> (result: Result<SessionConnectResult, PlatformError>)
    ensures
        connects(
            *old(peer_sessions),
            *old(services),
            *params,
            result,
            *final(peer_sessions),
            *final(services),
        ),
{
    if peer_sessions.is_connected() {
        return Err(PlatformError::new("managed peer session already has an active peer"));
    }
    let peer_id = match parse_non_empty_peer_id(params.peer_id.as_str()) {
        Ok(peer_id) => peer_id,
        Err(error) => return Err(error),
    };
    let local_device_id = match parse_non_empty_device_id(params.local_device_id.as_str()) {
        Ok(local_device_id) => local_device_id,
        Err(error) => return Err(error),
    };
    let address = match parse_peer_session_address(params.address.as_str()) {
        Ok(address) => address,
        Err(error) => return Err(error),
    };
    let mut attempt = SessionConnect::new(peer_id, local_device_id, address);
    let ghost first = attempt;
    assert(is_attempt(first, *params));
    let ghost before = *peer_sessions;
    let ghost unasked = *services;
    let finished = drive_connect(
        peer_sessions,
        &mut attempt,
        SessionConnectEvent::Begin,
        services,
        4,
    );
    let ghost outcome = finished;
    assert(connect_run(
        4,
        before,
        first,
        SessionConnectEvent::<W>::Begin,
        unasked,
        outcome,
        *peer_sessions,
        *services,
    ));
    match finished {
        Ok(_) => {},
        Err(error) => return Err(error),
    }
    match peer_sessions.active_session() {
        Some(snapshot) => Ok(
            SessionConnectResult {
                connected: true,
                session: session_status_from_snapshot(&snapshot, true),
            },
        ),
        None => Err(PlatformError::new("managed peer session was not attached")),
    }
}

/// A request that is answered with a session opened the one that it asked for.
pub proof fn opened_session_is_the_one_asked_for<W, C: MonotonicClock, S: SessionServices<W>>(
    before: ManagedPeerSessionTransport<W, C>,
    services: S,
    params: SessionConnectParams,
    result: Result<SessionConnectResult, PlatformError>,
    after: ManagedPeerSessionTransport<W, C>,
    later: S,
)
    requires
        connects(before, services, params, result, after, later),
        result is Ok,
    ensures
        before.active_session is None,
        after.active_session is Some,
        after.active_session->Some_0.peer_id@ == crate::text::trim(params.peer_id@),
        after.active_session->Some_0.local_device_id@ == crate::text::trim(params.local_device_id@),
        read_address(params.address@) == Ok::<crate::address::SocketModel, Seq<char>>(
            after.active_session->Some_0.address@,
        ),
        after.reconnect_backoff.consecutive_failures == 0,
        after.reconnect_backoff.next_allowed_at is None,
{
    let (attempt, finished) = choose|attempt: SessionConnect, finished: Result<(), PlatformError>|
        is_attempt(attempt, params) && #[trigger] connect_run(
            4,
            before,
            attempt,
            SessionConnectEvent::<W>::Begin,
            services,
            finished,
            after,
            later,
        ) && connect_answer(finished, after, result);
    lemma_opened(
        4,
        before,
        attempt,
        SessionConnectEvent::<W>::Begin,
        services,
        finished,
        after,
        later,
    );
}

/// An attempt that succeeds leaves the session that it was for, and nothing to wait out.
proof fn lemma_opened<W, C: MonotonicClock, S: SessionServices<W>>(
    steps: nat,
    before: ManagedPeerSessionTransport<W, C>,
    attempt: SessionConnect,
    event: SessionConnectEvent<W>,
    services: S,
    result: Result<(), PlatformError>,
    after: ManagedPeerSessionTransport<W, C>,
    later: S,
)
    requires
        connect_run(steps, before, attempt, event, services, result, after, later),
        result is Ok,
    ensures
        after.active_session is Some,
        after.active_session->Some_0.peer_id == attempt.peer_id,
        after.active_session->Some_0.local_device_id == attempt.local_device_id,
        after.active_session->Some_0.address == attempt.address,
        after.reconnect_backoff.consecutive_failures == 0,
        after.reconnect_backoff.next_allowed_at is None,
    decreases steps,
{
    let (now, action, manager, next) = choose|
        now: u64,
        action: SessionConnectAction,
        manager: ManagedPeerSessionTransport<W, C>,
        next: SessionConnect,
    |
        before.clock.tells(now) && #[trigger] crate::managed::connect_step(
            before,
            attempt,
            event,
            now,
            action,
            manager,
            next,
        ) && match action {
            SessionConnectAction::Finish { result: finished } => {
                &&& result == finished
                &&& after == manager
                &&& later == services
            },
            SessionConnectAction::LoadIdentity => exists|
                identity: Result<StoredLocalIdentity, IdentityStoreError>,
                then: S,
            | #[trigger]
                S::gives_identity(
                    services,
                    before.auth_config->Some_0.identity_store@,
                    before.auth_config->Some_0.identity_display_name@,
                    identity,
                    then,
                ) && connect_run(
                    (steps - 1) as nat,
                    manager,
                    next,
                    SessionConnectEvent::Identity { identity },
                    then,
                    result,
                    after,
                    later,
                ),
            SessionConnectAction::LoadPeer => exists|
                peer: Result<TrustedPeer<Ed25519PublicKey>, String>,
                then: S,
            | #[trigger]
                S::gives_peer(
                    services,
                    before.auth_config->Some_0.identity_store@,
                    attempt.peer_id@,
                    peer,
                    then,
                ) && connect_run(
                    (steps - 1) as nat,
                    manager,
                    next,
                    SessionConnectEvent::Peer { peer },
                    then,
                    result,
                    after,
                    later,
                ),
            SessionConnectAction::Open { prelude } => exists|sink: Result<W, PlatformError>, then: S|
             #[trigger]
                S::opens(services, attempt.address, prelude, sink, then) && connect_run(
                    (steps - 1) as nat,
                    manager,
                    next,
                    SessionConnectEvent::Opened { sink },
                    then,
                    result,
                    after,
                    later,
                ),
        };
    match action {
        SessionConnectAction::Finish { .. } => {},
        SessionConnectAction::LoadIdentity => {
            let (identity, then) = choose|
                identity: Result<StoredLocalIdentity, IdentityStoreError>,
                then: S,
            | #[trigger]
                S::gives_identity(
                    services,
                    before.auth_config->Some_0.identity_store@,
                    before.auth_config->Some_0.identity_display_name@,
                    identity,
                    then,
                ) && connect_run(
                    (steps - 1) as nat,
                    manager,
                    next,
                    SessionConnectEvent::Identity { identity },
                    then,
                    result,
                    after,
                    later,
                );
            lemma_opened(
                (steps - 1) as nat,
                manager,
                next,
                SessionConnectEvent::Identity { identity },
                then,
                result,
                after,
                later,
            );
        },
        SessionConnectAction::LoadPeer => {
            let (peer, then) = choose|
                peer: Result<TrustedPeer<Ed25519PublicKey>, String>,
                then: S,
            | #[trigger]
                S::gives_peer(
                    services,
                    before.auth_config->Some_0.identity_store@,
                    attempt.peer_id@,
                    peer,
                    then,
                ) && connect_run(
                    (steps - 1) as nat,
                    manager,
                    next,
                    SessionConnectEvent::Peer { peer },
                    then,
                    result,
                    after,
                    later,
                );
            lemma_opened(
                (steps - 1) as nat,
                manager,
                next,
                SessionConnectEvent::Peer { peer },
                then,
                result,
                after,
                later,
            );
        },
        SessionConnectAction::Open { prelude } => {
            let (sink, then) = choose|sink: Result<W, PlatformError>, then: S| #[trigger]
                S::opens(services, attempt.address, prelude, sink, then) && connect_run(
                    (steps - 1) as nat,
                    manager,
                    next,
                    SessionConnectEvent::Opened { sink },
                    then,
                    result,
                    after,
                    later,
                );
            lemma_opened(
                (steps - 1) as nat,
                manager,
                next,
                SessionConnectEvent::Opened { sink },
                then,
                result,
                after,
                later,
            );
        },
    }
}

/// A field of a request is taken without the space around it, and one that holds nothing else is
/// refused under its name.
pub proof fn fields_are_taken_without_space(
    value: &str,
    peer: Result<PeerId, PlatformError>,
    device: Result<DeviceId, PlatformError>,
    field: &'static str,
    taken: Result<&'static str, PlatformError>,
    other: &'static str,
)
    requires
        call_ensures(parse_non_empty_peer_id, (value,), peer),
        call_ensures(parse_non_empty_device_id, (value,), device),
        call_ensures(require_non_empty_session_value, (field, other), taken),
    ensures
        peer is Ok <==> crate::text::trim(value@).len() > 0,
        peer matches Ok(id) ==> id.value@ == crate::text::trim(value@),
        peer matches Err(error) ==> error@ == "session connect field "@ + "peerId"@
            + " must not be empty"@,
        device is Ok <==> crate::text::trim(value@).len() > 0,
        device matches Ok(id) ==> id.value@ == crate::text::trim(value@),
        device matches Err(error) ==> error@ == "session connect field "@ + "localDeviceId"@
            + " must not be empty"@,
        taken is Ok <==> crate::text::trim(other@).len() > 0,
        taken matches Ok(text) ==> text@ == crate::text::trim(other@),
        taken matches Err(error) ==> error@ == "session connect field "@ + field@
            + " must not be empty"@,
{
}

/// An address is taken where the text without the space around it is one, and nowhere else.
pub proof fn an_address_is_taken_where_it_is_one(
    value: &str,
    taken: Result<SocketAddress, PlatformError>,
)
    requires
        call_ensures(parse_peer_session_address, (value,), taken),
    ensures
        taken matches Ok(address) ==> crate::address::read_socket(crate::text::trim(value@))
            == Some(address@),
        taken is Err ==> crate::text::trim(value@).len() == 0 || crate::address::read_socket(
            crate::text::trim(value@),
        ) is None,
        crate::text::trim(value@).len() == 0 ==> taken is Err,
{
}

/// The status of a session tells whose it is, where it leads and whether it is open.
pub proof fn a_status_tells_of_its_session(
    snapshot: ManagedPeerSessionSnapshot,
    connected: bool,
    status: SessionStatus,
)
    requires
        call_ensures(session_status_from_snapshot, (&snapshot, connected), status),
    ensures
        status.peer_id@ == snapshot.peer_id.value@,
        status.local_device_id@ == snapshot.local_device_id.value@,
        status.address@ == crate::address::spell_socket(snapshot.address@),
        status.connected == connected,
{
}

/// While there is a session, another one is refused, and nothing changes. A request with a field that
/// is no good is refused for the first such field, and nothing changes either.
pub proof fn a_session_is_asked_for_with_good_fields<
    W: PeerFrameSink,
    C: MonotonicClock,
    S: SessionServices<W>,
>(
    params: SessionConnectParams,
    sessions: &mut ManagedPeerSessionTransport<W, C>,
    services: &mut S,
    result: Result<SessionConnectResult, PlatformError>,
)
    requires
        call_ensures(connect_peer_session::<W, C, S>, (&params, sessions, services), result),
    ensures
        old(sessions).active_session is Some || crate::text::trim(params.peer_id@).len() == 0
            || crate::text::trim(params.local_device_id@).len() == 0 || crate::text::trim(
            params.address@,
        ).len() == 0 || crate::address::read_socket(crate::text::trim(params.address@)) is None
            ==> {
            &&& result is Err
            &&& *final(sessions) == *old(sessions)
            &&& *final(services) == *old(services)
        },
        old(sessions).active_session is None && crate::text::trim(params.peer_id@).len() == 0 ==> (
        result matches Err(error) && error@ == "session connect field "@ + "peerId"@
            + " must not be empty"@),
        result matches Ok(told) ==> {
            &&& final(sessions).active_session is Some
            &&& final(sessions).active_session->Some_0.peer_id.value@ == crate::text::trim(
                params.peer_id@,
            )
            &&& final(sessions).active_session->Some_0.local_device_id.value@ == crate::text::trim(
                params.local_device_id@,
            )
            &&& crate::address::read_socket(crate::text::trim(params.address@)) == Some(
                final(sessions).active_session->Some_0.address@,
            )
            &&& told.connected
            &&& told.session.connected
            &&& told.session.peer_id@ == crate::text::trim(params.peer_id@)
            &&& told.session.local_device_id@ == crate::text::trim(params.local_device_id@)
        },
{
    if result is Ok {
        opened_session_is_the_one_asked_for(
            *old(sessions),
            *old(services),
            params,
            result,
            *final(sessions),
            *final(services),
        );
    }
}

} // verus!
