//! The one session that the daemon keeps open, and how soon it may try again after a failure.

use vstd::prelude::*;

use crate::address::SocketAddress;
use crate::identity::{Ed25519IdentityKey, Ed25519PublicKey, LocalIdentity, TrustedPeer};
use crate::platform::PlatformError;
use crate::runtime::{DeviceId, PeerId};
use crate::session::{
    connect_authenticated, validate_transport_command_peer, PeerSessionPrelude, PeerSessionSender,
};
use crate::store::{IdentityStoreError, StoredLocalIdentity};
use crate::text::{decimal_text, same};
use crate::transport::{DaemonPeerTransport, DaemonTransportCommand};
use crate::wire::PeerTransportSessionFrame;

verus! {

/// Nanoseconds in a millisecond.
pub const NANOS_PER_MILLI: u64 = 1_000_000;

/// Nanoseconds to wait after a first failure.
pub const DEFAULT_PEER_SESSION_RECONNECT_BACKOFF_INITIAL: u64 = 250_000_000;

/// Nanoseconds to wait at most.
pub const DEFAULT_PEER_SESSION_RECONNECT_BACKOFF_MAX: u64 = 5_000_000_000;

/// How soon a session may be tried again. Times are in nanoseconds of a clock that never goes back.
#[derive(Debug, Clone, Copy, PartialEq, Eq, Structural)]
pub struct PeerSessionReconnectBackoff {
    pub consecutive_failures: u32,
    pub next_allowed_at: Option<u64>,
    pub initial_delay: u64,
    pub max_delay: u64,
}

impl Default for PeerSessionReconnectBackoff {
    fn default() -> (result: Self)
        ensures
            result.consecutive_failures == 0,
            result.next_allowed_at is None,
            result.initial_delay == DEFAULT_PEER_SESSION_RECONNECT_BACKOFF_INITIAL,
            result.max_delay == DEFAULT_PEER_SESSION_RECONNECT_BACKOFF_MAX,
    {
        PeerSessionReconnectBackoff {
            consecutive_failures: 0,
            next_allowed_at: None,
            initial_delay: DEFAULT_PEER_SESSION_RECONNECT_BACKOFF_INITIAL,
            max_delay: DEFAULT_PEER_SESSION_RECONNECT_BACKOFF_MAX,
        }
    }
}

/// A number doubled so many times.
pub open spec fn doubled(n: nat, times: nat) -> nat
    decreases times,
{
    if times == 0 {
        n
    } else {
        2 * doubled(n, (times - 1) as nat)
    }
}

/// A number doubled more often is no smaller.
proof fn lemma_doubled_grows(n: nat, fewer: nat, more: nat)
    requires
        fewer <= more,
    ensures
        doubled(n, fewer) <= doubled(n, more),
    decreases more,
{
    if fewer < more {
        lemma_doubled_grows(n, fewer, (more - 1) as nat);
    }
}

impl PeerSessionReconnectBackoff {
    /// How long to wait after so many failures in a row: the first delay, doubled for every failure
    /// after the first, but never more than the longest.
    pub open spec fn delay(self, failure_count: nat) -> nat {
        if failure_count == 0 {
            0
        } else {
            let grown = doubled(self.initial_delay as nat, (failure_count - 1) as nat);
            if grown < self.max_delay {
                grown
            } else {
                self.max_delay as nat
            }
        }
    }

    pub fn delay_for_failure(&self, failure_count: u32) -> (result: u64)
        ensures
            result == self.delay(failure_count as nat),
    {
        if failure_count == 0 {
            return 0;
        }
        let mut delay: u64 = if self.initial_delay < self.max_delay {
            self.initial_delay
        } else {
            self.max_delay
        };
        let mut doublings: u32 = 0;
        while doublings < failure_count - 1
            invariant
                failure_count > 0,
                doublings <= failure_count - 1,
                delay == self.delay((doublings + 1) as nat),
                delay <= self.max_delay,
            decreases failure_count - 1 - doublings,
        {
            let ghost grown = doubled(self.initial_delay as nat, doublings as nat);
            proof {
                lemma_doubled_grows(
                    self.initial_delay as nat,
                    doublings as nat,
                    (doublings + 1) as nat,
                );
                lemma_doubled_grows(
                    self.initial_delay as nat,
                    (doublings + 1) as nat,
                    (failure_count - 1) as nat,
                );
                assert(doubled(self.initial_delay as nat, (doublings + 1) as nat) == 2 * grown);
            }
            if delay >= self.max_delay {
                return self.max_delay;
            }
            match delay.checked_mul(2) {
                Some(next) => {
                    if next >= self.max_delay {
                        return self.max_delay;
                    }
                    delay = next;
                },
                None => {
                    return self.max_delay;
                },
            }
            doublings = doublings + 1;
        }
        delay
    }

    /// How long to wait from a time on, where there is anything left to wait.
    pub open spec fn wait(self, now: u64) -> Option<u64> {
        match self.next_allowed_at {
            Some(deadline) => if deadline > now {
                Some((deadline - now) as u64)
            } else {
                None
            },
            None => None,
        }
    }

    pub fn retry_after(&self, now: u64) -> (result: Option<u64>)
        ensures
            result == self.wait(now),
    {
        match self.next_allowed_at {
            Some(deadline) => if deadline > now {
                Some(deadline - now)
            } else {
                None
            },
            None => None,
        }
    }

    /// The state after one more failure.
    pub open spec fn failed_at(self, now: u64) -> Self {
        let failures = if self.consecutive_failures == u32::MAX {
            u32::MAX
        } else {
            (self.consecutive_failures + 1) as u32
        };
        let until = now + self.delay(failures as nat);
        PeerSessionReconnectBackoff {
            consecutive_failures: failures,
            next_allowed_at: Some(
                if until <= u64::MAX {
                    until as u64
                } else {
                    now
                },
            ),
            ..self
        }
    }

    /// Take note of a failure and say how long to wait.
    pub fn record_failure(&mut self, now: u64) -> (delay: u64)
        ensures
            *final(self) == old(self).failed_at(now),
            delay == old(self).delay(final(self).consecutive_failures as nat),
    {
        if self.consecutive_failures < u32::MAX {
            self.consecutive_failures = self.consecutive_failures + 1;
        }
        let delay: u64 = self.delay_for_failure(self.consecutive_failures);
        self.next_allowed_at = Some(
            match now.checked_add(delay) {
                Some(until) => until,
                None => now,
            },
        );
        delay
    }

    /// The state after a success.
    pub open spec fn cleared(self) -> Self {
        PeerSessionReconnectBackoff { consecutive_failures: 0, next_allowed_at: None, ..self }
    }

    /// Take note of a success.
    pub fn reset(&mut self)
        ensures
            *final(self) == old(self).cleared(),
    {
        self.consecutive_failures = 0;
        self.next_allowed_at = None;
    }
}

/// The longer failures go on, the longer the wait, up to the longest; and a success makes the next
/// wait the shortest again.
pub proof fn backoff_grows_and_resets(backoff: PeerSessionReconnectBackoff, fewer: nat, more: nat)
    requires
        fewer <= more,
    ensures
        backoff.delay(fewer) <= backoff.delay(more),
        backoff.delay(more) <= backoff.max_delay,
        backoff.cleared().failed_at(0).consecutive_failures == 1,
        forall|now: u64| #[trigger] backoff.cleared().wait(now) is None,
{
    if fewer > 0 {
        lemma_doubled_grows(
            backoff.initial_delay as nat,
            (fewer - 1) as nat,
            (more - 1) as nat,
        );
    }
}

/// A clock that never goes back, in nanoseconds.
pub trait MonotonicClock: Sized {
    /// Whether the clock may tell a time.
    open spec fn tells(&self, now: u64) -> bool {
        true
    }

    fn now(&self) -> (result: u64)
        ensures
            self.tells(result),
    ;
}

/// A clock that stands still until it is set.
#[derive(Debug, Clone, Copy, PartialEq, Eq)]
pub struct FixedClock {
    pub time: u64,
}

impl MonotonicClock for FixedClock {
    open spec fn tells(&self, now: u64) -> bool {
        now == self.time
    }

    fn now(&self) -> (result: u64) {
        self.time
    }
}

/// Where the frames of a session go.
pub trait PeerFrameSink: Sized {
    /// What writing one frame does: which results it may have and what it leaves behind.
    open spec fn writes(
        before: Self,
        frame: PeerTransportSessionFrame,
        result: Result<(), PlatformError>,
        after: Self,
    ) -> bool {
        true
    }

    fn write_frame(&mut self, frame: PeerTransportSessionFrame) -> (result: Result<
        (),
        PlatformError,
    >)
        ensures
            Self::writes(*old(self), frame, result, *final(self)),
    ;
}

/// A sink that keeps its frames.
#[derive(Debug)]
pub struct KeptFrames {
    pub frames: Vec<PeerTransportSessionFrame>,
}

impl PeerFrameSink for KeptFrames {
    open spec fn writes(
        before: Self,
        frame: PeerTransportSessionFrame,
        result: Result<(), PlatformError>,
        after: Self,
    ) -> bool {
        result is Ok && after.frames@ == before.frames@.push(frame)
    }

    fn write_frame(&mut self, frame: PeerTransportSessionFrame) -> (result: Result<
        (),
        PlatformError,
    >) {
        self.frames.push(frame);
        Ok(())
    }
}

/// An open session with a peer. It beats until a heartbeat cannot be sent.
#[derive(Debug)]
pub struct TcpPeerSessionTransport<W> {
    pub peer_id: PeerId,
    pub local_device_id: DeviceId,
    pub address: SocketAddress,
    pub sender: PeerSessionSender,
    pub sink: W,
    pub beats: bool,
}

impl<W> TcpPeerSessionTransport<W> {
    /// A session whose handshake was sent.
    pub fn new(peer_id: PeerId, local_device_id: DeviceId, address: SocketAddress, sink: W) -> (result:
        Self)
        ensures
            result == (TcpPeerSessionTransport {
                peer_id,
                local_device_id,
                address,
                sender: PeerSessionSender { next_sequence: 0 },
                sink,
                beats: true,
            }),
    {
        TcpPeerSessionTransport {
            peer_id,
            local_device_id,
            address,
            sender: PeerSessionSender::new(),
            sink,
            beats: true,
        }
    }

    pub fn peer_id(&self) -> (result: &PeerId)
        ensures
            *result == self.peer_id,
    {
        &self.peer_id
    }

    pub fn local_device_id(&self) -> (result: &DeviceId)
        ensures
            *result == self.local_device_id,
    {
        &self.local_device_id
    }

    pub fn address(&self) -> (result: SocketAddress)
        ensures
            result == self.address,
    {
        self.address
    }

    /// Whether two states belong to the same session.
    pub open spec fn same_session(self, other: Self) -> bool {
        &&& self.peer_id == other.peer_id
        &&& self.local_device_id == other.local_device_id
        &&& self.address == other.address
    }
}

impl<W: PeerFrameSink> TcpPeerSessionTransport<W> {
    /// What a heartbeat does: it is written under the next number.
    pub open spec fn heartbeat_sent(
        before: Self,
        result: Result<(), PlatformError>,
        after: Self,
    ) -> bool {
        &&& after.same_session(before)
        &&& if before.sender.next_sequence == u64::MAX {
            &&& after.sender == before.sender
            &&& after.sink == before.sink
            &&& result matches Err(error) && error@
                == "peer session sequence number overflowed before frame write"@
        } else {
            &&& after.sender.next_sequence == before.sender.next_sequence + 1
            &&& W::writes(
                before.sink,
                PeerTransportSessionFrame::Heartbeat { sequence: before.sender.next_sequence },
                result,
                after.sink,
            )
        }
    }

    /// Say that this side is still there.
    pub fn send_heartbeat(&mut self) -> (result: Result<(), PlatformError>)
        ensures
            Self::heartbeat_sent(*old(self), result, *final(self)),
            final(self).beats == old(self).beats,
    {
        match self.sender.heartbeat_frame() {
            Ok(frame) => self.sink.write_frame(frame),
            Err(error) => Err(error),
        }
    }

    /// Beat once, unless a heartbeat of this session could not be sent before. What is said of the first
    /// that cannot be sent is handed out.
    pub fn beat(&mut self) -> (result: Option<String>)
        ensures
            if !old(self).beats {
                result is None && *final(self) == *old(self)
            } else {
                exists|sent: Result<(), PlatformError>| #[trigger]
                    Self::heartbeat_sent(*old(self), sent, *final(self)) && match sent {
                        Ok(_) => result is None && final(self).beats,
                        Err(error) => {
                            &&& !final(self).beats
                            &&& result is Some
                            &&& result->Some_0@ == "peer session heartbeat stopped for "@
                                + old(self).peer_id@ + " at "@ + crate::address::spell_socket(
                                old(self).address@,
                            ) + ": "@ + error@
                        },
                    }
            },
    {
        if !self.beats {
            return None;
        }
        let sent = self.send_heartbeat();
        let ghost outcome = sent;
        assert(Self::heartbeat_sent(*old(self), outcome, *self));
        match sent {
            Ok(done) => {
                assert(done == ());
                None
            },
            Err(error) => {
                self.beats = false;
                assert(Self::heartbeat_sent(*old(self), outcome, *self));
                Some(
                    "peer session heartbeat stopped for ".to_owned().concat(
                        self.peer_id.as_str(),
                    ).concat(" at ").concat(self.address.text().as_str()).concat(": ").concat(
                        error.message(),
                    ),
                )
            },
        }
    }
}

/// Whether a frame carries a command under a number.
pub open spec fn is_command_frame(
    frame: PeerTransportSessionFrame,
    number: u64,
    sent: crate::wire::CommandModel,
) -> bool {
    frame matches PeerTransportSessionFrame::Command { sequence, command } && sequence == number
        && command@ == crate::wire::spell_command(sent)
}

impl<W: PeerFrameSink> DaemonPeerTransport for TcpPeerSessionTransport<W> {
    /// A command that would start a session with another peer is refused; every other command is
    /// written under the next number.
    open spec fn sends(
        before: Self,
        command: DaemonTransportCommand,
        result: Result<(), PlatformError>,
        after: Self,
    ) -> bool {
        let other_peer = command matches DaemonTransportCommand::StartRemoteSession { peer_id, .. }
            && peer_id@ != before.peer_id@;
        &&& after.same_session(before)
        &&& after.beats == before.beats
        &&& if other_peer {
            &&& after.sender == before.sender
            &&& after.sink == before.sink
            &&& result matches Err(error) && error@ == "peer transport configured for "@
                + before.peer_id@ + ", got start command for "@
                + command->StartRemoteSession_peer_id@
        } else if before.sender.next_sequence == u64::MAX {
            &&& after.sender == before.sender
            &&& after.sink == before.sink
            &&& result matches Err(error) && error@
                == "peer session sequence number overflowed before frame write"@
        } else {
            &&& after.sender.next_sequence == before.sender.next_sequence + 1
            &&& exists|frame: PeerTransportSessionFrame|
                is_command_frame(frame, before.sender.next_sequence, command@)
                    && #[trigger] W::writes(before.sink, frame, result, after.sink)
        }
    }

    fn dispatch_transport_command(&mut self, command: DaemonTransportCommand) -> (result: Result<
        (),
        PlatformError,
    >) {
        match validate_transport_command_peer(&self.peer_id, &command) {
            Ok(()) => {},
            Err(error) => {
                return Err(error);
            },
        }
        match self.sender.command_frame(&command) {
            Ok(frame) => {
                let ghost sent = frame;
                let result = self.sink.write_frame(frame);
                proof {
                    assert(is_command_frame(sent, old(self).sender.next_sequence, command@));
                    assert(W::writes(old(self).sink, sent, result, self.sink));
                }
                result
            },
            Err(error) => Err(error),
        }
    }
}

/// Where the identity is kept that sessions are opened with.
#[derive(Debug, PartialEq, Eq)]
pub struct ManagedPeerSessionAuthConfig {
    pub identity_store: String,
    pub identity_display_name: String,
}

/// What is known of an open session.
#[derive(Debug, PartialEq, Eq)]
pub struct ManagedPeerSessionSnapshot {
    pub peer_id: PeerId,
    pub local_device_id: DeviceId,
    pub address: SocketAddress,
}

/// Whether facts are those of a session.
pub open spec fn is_snapshot<W>(
    snapshot: ManagedPeerSessionSnapshot,
    session: TcpPeerSessionTransport<W>,
) -> bool {
    &&& snapshot.peer_id == session.peer_id
    &&& snapshot.local_device_id == session.local_device_id
    &&& snapshot.address == session.address
}

impl ManagedPeerSessionSnapshot {
    pub fn from_session<W>(session: &TcpPeerSessionTransport<W>) -> (result: Self)
        ensures
            is_snapshot(result, *session),
    {
        ManagedPeerSessionSnapshot {
            peer_id: session.peer_id.clone(),
            local_device_id: session.local_device_id.clone(),
            address: session.address,
        }
    }
}

/// The session that the daemon keeps, if there is one. There is never more than one.
#[derive(Debug)]
pub struct ManagedPeerSessionTransport<W, C> {
    pub active_session: Option<TcpPeerSessionTransport<W>>,
    pub reconnect_backoff: PeerSessionReconnectBackoff,
    pub auth_config: Option<ManagedPeerSessionAuthConfig>,
    pub clock: C,
}

/// What is said where a session is open already.
pub open spec fn already_active() -> Seq<char> {
    "managed peer session already has an active peer"@
}

/// What is said of a failure that has to be waited out.
pub open spec fn retry_text(reason: Seq<char>, delay: nat) -> Seq<char> {
    reason + "; retry peer session connect after "@ + crate::text::decimal(
        delay / NANOS_PER_MILLI as nat,
    ) + "ms"@
}

impl<W, C> ManagedPeerSessionTransport<W, C> {
    /// No session, and nothing to open one with.
    pub fn new(clock: C) -> (result: Self)
        ensures
            result.active_session is None,
            result.reconnect_backoff.consecutive_failures == 0,
            result.reconnect_backoff.next_allowed_at is None,
            result.auth_config is None,
            result.clock == clock,
    {
        ManagedPeerSessionTransport {
            active_session: None,
            reconnect_backoff: PeerSessionReconnectBackoff::default(),
            auth_config: None,
            clock,
        }
    }

    /// No session, and an identity to open one with.
    pub fn with_identity_store(identity_store: &str, identity_display_name: &str, clock: C) -> (result:
        Self)
        ensures
            result.active_session is None,
            result.reconnect_backoff.consecutive_failures == 0,
            result.reconnect_backoff.next_allowed_at is None,
            result.auth_config is Some,
            result.auth_config->Some_0.identity_store@ == identity_store@,
            result.auth_config->Some_0.identity_display_name@ == identity_display_name@,
            result.clock == clock,
    {
        ManagedPeerSessionTransport {
            active_session: None,
            reconnect_backoff: PeerSessionReconnectBackoff::default(),
            auth_config: Some(
                ManagedPeerSessionAuthConfig {
                    identity_store: identity_store.to_owned(),
                    identity_display_name: identity_display_name.to_owned(),
                },
            ),
            clock,
        }
    }

    pub fn is_connected(&self) -> (result: bool)
        ensures
            result == (self.active_session is Some),
    {
        self.active_session.is_some()
    }

    /// What is known of the open session, if there is one.
    pub fn active_session(&self) -> (result: Option<ManagedPeerSessionSnapshot>)
        ensures
            match self.active_session {
                Some(session) => result is Some && is_snapshot(result->Some_0, session),
                None => result is None,
            },
    {
        match &self.active_session {
            Some(session) => Some(ManagedPeerSessionSnapshot::from_session(session)),
            None => None,
        }
    }

    /// Keep a session, unless there is one already.
    pub fn attach_session(&mut self, session: TcpPeerSessionTransport<W>) -> (result: Result<
        (),
        PlatformError,
    >)
        ensures
            final(self).reconnect_backoff == old(self).reconnect_backoff,
            final(self).auth_config == old(self).auth_config,
            final(self).clock == old(self).clock,
            if old(self).active_session is Some {
                &&& final(self).active_session == old(self).active_session
                &&& result matches Err(error) && error@ == already_active()
            } else {
                &&& final(self).active_session == Some(session)
                &&& result is Ok
            },
    {
        if self.active_session.is_some() {
            return Err(PlatformError::new("managed peer session already has an active peer"));
        }
        self.active_session = Some(session);
        Ok(())
    }

    /// Drop the session, if there is one, and say which it was.
    pub fn disconnect_session(&mut self) -> (result: Option<ManagedPeerSessionSnapshot>)
        ensures
            final(self).active_session is None,
            final(self).reconnect_backoff == old(self).reconnect_backoff,
            final(self).auth_config == old(self).auth_config,
            final(self).clock == old(self).clock,
            match old(self).active_session {
                Some(session) => result is Some && is_snapshot(result->Some_0, session),
                None => result is None,
            },
    {
        match self.active_session.take() {
            Some(session) => Some(ManagedPeerSessionSnapshot::from_session(&session)),
            None => None,
        }
    }

    /// Whether a session may be tried at a time.
    pub fn ensure_connect_backoff_allows(&self, now: u64) -> (result: Result<(), PlatformError>)
        ensures
            match self.reconnect_backoff.wait(now) {
                Some(wait) => result matches Err(error) && error@
                    == "peer session reconnect backoff active for "@ + crate::text::decimal(
                    (wait / NANOS_PER_MILLI) as nat,
                ) + "ms"@,
                None => result is Ok,
            },
    {
        match self.reconnect_backoff.retry_after(now) {
            Some(wait) => Err(
                PlatformError::from_message(
                    "peer session reconnect backoff active for ".to_owned().concat(
                        decimal_text(wait / NANOS_PER_MILLI).as_str(),
                    ).concat("ms"),
                ),
            ),
            None => Ok(()),
        }
    }

    /// Take note of a failure and add to its words how long to wait.
    pub fn record_session_failure(&mut self, now: u64, error: PlatformError) -> (result:
        PlatformError)
        ensures
            final(self).active_session == old(self).active_session,
            final(self).auth_config == old(self).auth_config,
            final(self).clock == old(self).clock,
            final(self).reconnect_backoff == old(self).reconnect_backoff.failed_at(now),
            result@ == retry_text(
                error@,
                old(self).reconnect_backoff.delay(
                    final(self).reconnect_backoff.consecutive_failures as nat,
                ),
            ),
    {
        let delay: u64 = self.reconnect_backoff.record_failure(now);
        PlatformError::from_message(
            error.message.concat("; retry peer session connect after ").concat(
                decimal_text(delay / NANOS_PER_MILLI).as_str(),
            ).concat("ms"),
        )
    }

    /// The name of a paired peer, where there is a store to look it up in.
    pub fn trusted_peer_display_name(
        &self,
        peer_id: &PeerId,
        loaded: Result<TrustedPeer<Ed25519PublicKey>, String>,
    ) -> (result: Result<Option<String>, PlatformError>)
        ensures
            match self.auth_config {
                None => result == Ok::<Option<String>, PlatformError>(None),
                Some(config) => match loaded {
                    Ok(peer) => result is Ok && result->Ok_0 is Some && result->Ok_0->Some_0@
                        == peer.identity.display_name@,
                    Err(cause) => result matches Err(error) && error@ == unloaded_peer(
                        peer_id@,
                        config.identity_store@,
                        cause@,
                    ),
                },
            },
    {
        match &self.auth_config {
            None => Ok(None),
            Some(config) => match check_trusted_peer(config, peer_id, loaded) {
                Ok(peer) => Ok(Some(peer.identity.display_name().to_owned())),
                Err(error) => Err(error),
            },
        }
    }
}

/// What is said of a peer that could not be loaded.
pub open spec fn unloaded_peer(peer_id: Seq<char>, store: Seq<char>, cause: Seq<char>) -> Seq<char> {
    "failed to load trusted peer "@ + peer_id + " from "@ + store + ": "@ + cause
}

/// The paired peer that a store gave.
pub fn check_trusted_peer(
    config: &ManagedPeerSessionAuthConfig,
    peer_id: &PeerId,
    loaded: Result<TrustedPeer<Ed25519PublicKey>, String>,
) -> (result: Result<TrustedPeer<Ed25519PublicKey>, PlatformError>)
    ensures
        match loaded {
            Ok(peer) => result == Ok::<TrustedPeer<Ed25519PublicKey>, PlatformError>(peer),
            Err(cause) => result matches Err(error) && error@ == unloaded_peer(
                peer_id@,
                config.identity_store@,
                cause@,
            ),
        },
{
    match loaded {
        Ok(peer) => Ok(peer),
        Err(cause) => Err(
            PlatformError::from_message(
                "failed to load trusted peer ".to_owned().concat(peer_id.as_str()).concat(
                    " from ",
                ).concat(config.identity_store.as_str()).concat(": ").concat(cause.as_str()),
            ),
        ),
    }
}

/// The identity that a store gave, which must be the one that was asked for.
pub fn check_session_identity(
    config: &ManagedPeerSessionAuthConfig,
    local_device_id: &DeviceId,
    loaded: Result<StoredLocalIdentity, IdentityStoreError>,
) -> (result: Result<LocalIdentity<Ed25519IdentityKey>, PlatformError>)
    ensures
        match loaded {
            Err(cause) => result matches Err(error) && error@ == "failed to load identity store "@
                + config.identity_store@ + ": "@ + cause.text(),
            Ok(stored) => if stored.identity.device_id@ != local_device_id@ {
                result matches Err(error) && error@ == "session local device id "@
                    + local_device_id@ + " does not match identity store device id "@
                    + stored.identity.device_id@
            } else {
                result == Ok::<LocalIdentity<Ed25519IdentityKey>, PlatformError>(
                    LocalIdentity { identity: stored.identity, secret_key: stored.secret_key },
                )
            },
        },
{
    match loaded {
        Err(cause) => Err(
            PlatformError::from_message(
                "failed to load identity store ".to_owned().concat(
                    config.identity_store.as_str(),
                ).concat(": ").concat(cause.message().as_str()),
            ),
        ),
        Ok(stored) => if same(stored.identity.device_id(), local_device_id.as_str()) {
            Ok(stored.into_local_identity())
        } else {
            Err(
                PlatformError::from_message(
                    "session local device id ".to_owned().concat(local_device_id.as_str()).concat(
                        " does not match identity store device id ",
                    ).concat(stored.identity.device_id()),
                ),
            )
        },
    }
}

impl<W: PeerFrameSink, C: MonotonicClock> DaemonPeerTransport for ManagedPeerSessionTransport<
    W,
    C,
> {
    /// Without a session nothing happens. A command that stops the session also drops it; so does
    /// every failure, which then has to be waited out.
    open spec fn sends(
        before: Self,
        command: DaemonTransportCommand,
        result: Result<(), PlatformError>,
        after: Self,
    ) -> bool {
        &&& after.auth_config == before.auth_config
        &&& after.clock == before.clock
        &&& match before.active_session {
            None => {
                &&& result is Ok
                &&& after.active_session is None
                &&& after.reconnect_backoff == before.reconnect_backoff
            },
            Some(session) => exists|
                sent: Result<(), PlatformError>,
                next: TcpPeerSessionTransport<W>,
            | #[trigger]
                TcpPeerSessionTransport::<W>::sends(session, command, sent, next) && match sent {
                    Ok(_) => {
                        &&& result is Ok
                        &&& after.reconnect_backoff == before.reconnect_backoff
                        &&& after.active_session == (if command is StopRemoteSession {
                            None
                        } else {
                            Some(next)
                        })
                    },
                    Err(reason) => {
                        &&& after.active_session is None
                        &&& result is Err
                        &&& exists|now: u64|
                            before.clock.tells(now) && after.reconnect_backoff
                                == #[trigger] before.reconnect_backoff.failed_at(now)
                        &&& result->Err_0@ == retry_text(
                            reason@,
                            before.reconnect_backoff.delay(
                                after.reconnect_backoff.consecutive_failures as nat,
                            ),
                        )
                    },
                },
        }
    }

    fn dispatch_transport_command(&mut self, command: DaemonTransportCommand) -> (result: Result<
        (),
        PlatformError,
    >) {
        let should_disconnect: bool = match &command {
            DaemonTransportCommand::StopRemoteSession { .. } => true,
            _ => false,
        };
        let ghost asked = command;
        match self.active_session.take() {
            None => Ok(()),
            Some(session) => {
                let ghost before = session;
                let mut session = session;
                let sent = session.dispatch_transport_command(command);
                let ghost outcome = sent;
                assert(TcpPeerSessionTransport::<W>::sends(before, asked, outcome, session));
                match sent {
                    Ok(()) => {
                        if !should_disconnect {
                            self.active_session = Some(session);
                        }
                        Ok(())
                    },
                    Err(error) => {
                        let now: u64 = self.clock.now();
                        Err(self.record_session_failure(now, error))
                    },
                }
            },
        }
    }
}

/// After a command fails, no session is open, and opening one is refused until the wait is over.
pub proof fn failed_dispatch_detaches_and_backs_off<W: PeerFrameSink, C: MonotonicClock>(
    before: ManagedPeerSessionTransport<W, C>,
    command: DaemonTransportCommand,
    result: Result<(), PlatformError>,
    after: ManagedPeerSessionTransport<W, C>,
)
    requires
        ManagedPeerSessionTransport::<W, C>::sends(before, command, result, after),
        result is Err,
    ensures
        before.active_session is Some,
        after.active_session is None,
        after.reconnect_backoff.consecutive_failures > 0,
        after.reconnect_backoff.next_allowed_at is Some,
{
}

/// How far an attempt to open a session has come.
#[derive(Debug, Clone, Copy, PartialEq, Eq, Structural)]
pub enum SessionConnectStage {
    Begin,
    Identity,
    Peer,
    Open,
    Done,
}

/// An attempt to open a session with a paired peer.
pub struct SessionConnect {
    pub peer_id: PeerId,
    pub local_device_id: DeviceId,
    pub address: SocketAddress,
    pub stage: SessionConnectStage,
    pub local: Option<LocalIdentity<Ed25519IdentityKey>>,
}

/// What was found out for an attempt.
pub enum SessionConnectEvent<W> {
    Begin,
    Identity { identity: Result<StoredLocalIdentity, IdentityStoreError> },
    Peer { peer: Result<TrustedPeer<Ed25519PublicKey>, String> },
    Opened { sink: Result<W, PlatformError> },
}

/// What an attempt wants done next.
pub enum SessionConnectAction {
    LoadIdentity,
    LoadPeer,
    Open { prelude: PeerSessionPrelude },
    Finish { result: Result<(), PlatformError> },
}

/// Whether an event is what a stage waits for.
pub open spec fn connect_awaits<W>(
    stage: SessionConnectStage,
    event: SessionConnectEvent<W>,
) -> bool {
    match stage {
        SessionConnectStage::Begin => event is Begin,
        SessionConnectStage::Identity => event is Identity,
        SessionConnectStage::Peer => event is Peer,
        SessionConnectStage::Open => event is Opened,
        SessionConnectStage::Done => false,
    }
}

/// Whether an attempt is over with an error in these words.
pub open spec fn connect_fails(
    action: SessionConnectAction,
    after: SessionConnect,
    message: Seq<char>,
) -> bool {
    &&& after.stage is Done
    &&& action is Finish
    &&& action->result is Err
    &&& action->result->Err_0@ == message
}

/// Whether a manager is as it was.
pub open spec fn manager_kept<W, C>(
    before: ManagedPeerSessionTransport<W, C>,
    after: ManagedPeerSessionTransport<W, C>,
) -> bool {
    &&& after.active_session == before.active_session
    &&& after.reconnect_backoff == before.reconnect_backoff
    &&& after.auth_config == before.auth_config
    &&& after.clock == before.clock
}

/// Whether a failure was taken note of, and an attempt is over because of it.
pub open spec fn connect_backs_off<W, C>(
    before: ManagedPeerSessionTransport<W, C>,
    now: u64,
    reason: Seq<char>,
    action: SessionConnectAction,
    after: ManagedPeerSessionTransport<W, C>,
    attempt: SessionConnect,
) -> bool {
    &&& after.active_session == before.active_session
    &&& after.auth_config == before.auth_config
    &&& after.clock == before.clock
    &&& after.reconnect_backoff == before.reconnect_backoff.failed_at(now)
    &&& connect_fails(
        action,
        attempt,
        retry_text(
            reason,
            before.reconnect_backoff.delay(after.reconnect_backoff.consecutive_failures as nat),
        ),
    )
}

/// The words for opening a session that is open, or that has to wait, or that has no identity.
pub open spec fn connect_refusal<W, C>(
    manager: ManagedPeerSessionTransport<W, C>,
    now: u64,
) -> Option<Seq<char>> {
    if manager.active_session is Some {
        Some(already_active())
    } else if manager.reconnect_backoff.wait(now) is Some {
        Some(
            "peer session reconnect backoff active for "@ + crate::text::decimal(
                (manager.reconnect_backoff.wait(now)->Some_0 / NANOS_PER_MILLI) as nat,
            ) + "ms"@,
        )
    } else if manager.auth_config is None {
        Some("managed peer session requires identity store before session.connect"@)
    } else {
        None
    }
}

/// What an attempt does on an event.
pub open spec fn connect_step<W, C>(
    before: ManagedPeerSessionTransport<W, C>,
    attempt: SessionConnect,
    event: SessionConnectEvent<W>,
    now: u64,
    action: SessionConnectAction,
    after: ManagedPeerSessionTransport<W, C>,
    later: SessionConnect,
) -> bool {
    &&& later.peer_id == attempt.peer_id
    &&& later.local_device_id == attempt.local_device_id
    &&& later.address == attempt.address
    &&& match event {
        SessionConnectEvent::Begin => {
            &&& manager_kept(before, after)
            &&& match connect_refusal(before, now) {
                Some(message) => connect_fails(action, later, message),
                None => action is LoadIdentity && later.stage is Identity,
            }
        },
        SessionConnectEvent::Identity { identity } => {
            &&& manager_kept(before, after)
            &&& match identity {
                Err(cause) => connect_fails(
                    action,
                    later,
                    "failed to load identity store "@ + before.auth_config->Some_0.identity_store@
                        + ": "@ + cause.text(),
                ),
                Ok(stored) => if stored.identity.device_id@ != attempt.local_device_id@ {
                    connect_fails(
                        action,
                        later,
                        "session local device id "@ + attempt.local_device_id@
                            + " does not match identity store device id "@
                            + stored.identity.device_id@,
                    )
                } else {
                    &&& action is LoadPeer
                    &&& later.stage is Peer
                    &&& later.local == Some(
                        LocalIdentity { identity: stored.identity, secret_key: stored.secret_key },
                    )
                },
            }
        },
        SessionConnectEvent::Peer { peer } => match peer {
            Err(cause) => manager_kept(before, after) && connect_fails(
                action,
                later,
                unloaded_peer(
                    attempt.peer_id@,
                    before.auth_config->Some_0.identity_store@,
                    cause@,
                ),
            ),
            Ok(peer) => exists|
                nonce: [u8; 32],
                made: Result<PeerSessionPrelude, PlatformError>,
            | #[trigger]
                crate::session::prelude_made(
                    attempt.peer_id@,
                    attempt.local->Some_0,
                    peer,
                    nonce,
                    made,
                ) && match made {
                    Ok(prelude) => {
                        &&& manager_kept(before, after)
                        &&& action == (SessionConnectAction::Open { prelude })
                        &&& later.stage is Open
                    },
                    Err(reason) => connect_backs_off(before, now, reason@, action, after, later),
                },
        },
        SessionConnectEvent::Opened { sink } => match sink {
            Err(reason) => connect_backs_off(before, now, reason@, action, after, later),
            Ok(sink) => {
                &&& after.auth_config == before.auth_config
                &&& after.clock == before.clock
                &&& if before.active_session is Some {
                    &&& after.active_session == before.active_session
                    &&& after.reconnect_backoff == before.reconnect_backoff
                    &&& connect_fails(action, later, already_active())
                } else {
                    &&& after.reconnect_backoff == before.reconnect_backoff.cleared()
                    &&& after.active_session is Some
                    &&& after.active_session->Some_0 == (TcpPeerSessionTransport {
                        peer_id: attempt.peer_id,
                        local_device_id: attempt.local_device_id,
                        address: attempt.address,
                        sender: PeerSessionSender { next_sequence: 0 },
                        sink,
                        beats: true,
                    })
                    &&& later.stage is Done
                    &&& action is Finish
                    &&& action->result is Ok
                }
            },
        },
    }
}

impl SessionConnect {
    /// An attempt that waits to begin.
    pub fn new(peer_id: PeerId, local_device_id: DeviceId, address: SocketAddress) -> (result: Self)
        ensures
            result.peer_id == peer_id,
            result.local_device_id == local_device_id,
            result.address == address,
            result.stage is Begin,
            result.local is None,
    {
        SessionConnect {
            peer_id,
            local_device_id,
            address,
            stage: SessionConnectStage::Begin,
            local: None,
        }
    }

    /// Whether an attempt and its manager know what the stage needs.
    pub open spec fn wf<W, C>(&self, manager: ManagedPeerSessionTransport<W, C>) -> bool {
        &&& self.stage is Identity || self.stage is Peer ==> manager.auth_config is Some
        &&& self.stage is Peer ==> self.local is Some
    }

    /// End with an error.
    fn fail(&mut self, error: PlatformError) -> (action: SessionConnectAction)
        ensures
            final(self).peer_id == old(self).peer_id,
            final(self).local_device_id == old(self).local_device_id,
            final(self).address == old(self).address,
            connect_fails(action, *final(self), error@),
    {
        self.stage = SessionConnectStage::Done;
        SessionConnectAction::Finish { result: Err(error) }
    }
}

impl<W: PeerFrameSink, C: MonotonicClock> ManagedPeerSessionTransport<W, C> {
    /// Open a session with a paired peer, at a known time: take what was found out and say what to do
    /// next.
    pub fn connect_session_at(
        &mut self,
        attempt: &mut SessionConnect,
        event: SessionConnectEvent<W>,
        now: u64,
    ) -> (action: SessionConnectAction)
        requires
            old(attempt).wf(*old(self)),
            connect_awaits(old(attempt).stage, event),
        ensures
            final(attempt).wf(*final(self)),
            connect_step(*old(self), *old(attempt), event, now, action, *final(self), *final(attempt)),
    {
        match event {
            SessionConnectEvent::Begin => {
                if self.is_connected() {
                    return attempt.fail(
                        PlatformError::new("managed peer session already has an active peer"),
                    );
                }
                match self.ensure_connect_backoff_allows(now) {
                    Ok(()) => {},
                    Err(error) => {
                        return attempt.fail(error);
                    },
                }
                if self.auth_config.is_none() {
                    return attempt.fail(
                        PlatformError::new(
                            "managed peer session requires identity store before session.connect",
                        ),
                    );
                }
                attempt.stage = SessionConnectStage::Identity;
                SessionConnectAction::LoadIdentity
            },
            SessionConnectEvent::Identity { identity } => {
                let checked = match &self.auth_config {
                    Some(config) => check_session_identity(
                        config,
                        &attempt.local_device_id,
                        identity,
                    ),
                    None => vstd::pervasive::unreached(),
                };
                match checked {
                    Ok(local) => {
                        attempt.local = Some(local);
                        attempt.stage = SessionConnectStage::Peer;
                        SessionConnectAction::LoadPeer
                    },
                    Err(error) => attempt.fail(error),
                }
            },
            SessionConnectEvent::Peer { peer } => {
                let checked = match &self.auth_config {
                    Some(config) => check_trusted_peer(config, &attempt.peer_id, peer),
                    None => vstd::pervasive::unreached(),
                };
                let trusted = match checked {
                    Ok(trusted) => trusted,
                    Err(error) => {
                        return attempt.fail(error);
                    },
                };
                let made = match &attempt.local {
                    Some(local) => connect_authenticated(&attempt.peer_id, local, &trusted),
                    None => vstd::pervasive::unreached(),
                };
                let ghost outcome = made;
                assert(exists|nonce: [u8; 32]| #[trigger]
                    crate::session::prelude_made(
                        old(attempt).peer_id@,
                        old(attempt).local->Some_0,
                        trusted,
                        nonce,
                        outcome,
                    ));
                match made {
                    Ok(prelude) => {
                        attempt.stage = SessionConnectStage::Open;
                        SessionConnectAction::Open { prelude }
                    },
                    Err(error) => {
                        let error = self.record_session_failure(now, error);
                        attempt.fail(error)
                    },
                }
            },
            SessionConnectEvent::Opened { sink } => match sink {
                Err(error) => {
                    let error = self.record_session_failure(now, error);
                    attempt.fail(error)
                },
                Ok(sink) => {
                    let session = TcpPeerSessionTransport::new(
                        attempt.peer_id.clone(),
                        attempt.local_device_id.clone(),
                        attempt.address,
                        sink,
                    );
                    match self.attach_session(session) {
                        Ok(()) => {
                            self.reconnect_backoff.reset();
                            attempt.stage = SessionConnectStage::Done;
                            SessionConnectAction::Finish { result: Ok(()) }
                        },
                        Err(error) => attempt.fail(error),
                    }
                },
            },
        }
    }

    /// Open a session with a paired peer: take what was found out and say what to do next.
    pub fn connect_session(
        &mut self,
        attempt: &mut SessionConnect,
        event: SessionConnectEvent<W>,
    ) -> (action: SessionConnectAction)
        requires
            old(attempt).wf(*old(self)),
            connect_awaits(old(attempt).stage, event),
        ensures
            final(attempt).wf(*final(self)),
            exists|now: u64|
                old(self).clock.tells(now) && #[trigger] connect_step(
                    *old(self),
                    *old(attempt),
                    event,
                    now,
                    action,
                    *final(self),
                    *final(attempt),
                ),
    {
        let now: u64 = self.clock.now();
        self.connect_session_at(attempt, event, now)
    }
}

/// An open session is never replaced: while there is one, every attempt to open another is refused
/// and leaves it alone.
pub proof fn open_session_is_never_replaced<W, C>(
    before: ManagedPeerSessionTransport<W, C>,
    attempt: SessionConnect,
    event: SessionConnectEvent<W>,
    now: u64,
    action: SessionConnectAction,
    after: ManagedPeerSessionTransport<W, C>,
    later: SessionConnect,
)
    requires
        connect_step(before, attempt, event, now, action, after, later),
        before.active_session is Some,
    ensures
        after.active_session == before.active_session,
        event is Begin || event is Opened ==> action is Finish && action->result is Err,
{
}

/// Until a wait is over nothing is loaded and no connection is opened.
pub proof fn backoff_is_waited_out<W, C>(
    before: ManagedPeerSessionTransport<W, C>,
    attempt: SessionConnect,
    now: u64,
    action: SessionConnectAction,
    after: ManagedPeerSessionTransport<W, C>,
    later: SessionConnect,
)
    requires
        connect_step(
            before,
            attempt,
            SessionConnectEvent::<W>::Begin,
            now,
            action,
            after,
            later,
        ),
        before.reconnect_backoff.next_allowed_at matches Some(deadline) && now < deadline,
    ensures
        action is Finish,
        action->result is Err,
        manager_kept(before, after),
{
}

/// What is said of a connection that could not be opened.
pub fn connect_failure(peer_id: &PeerId, address: &SocketAddress, cause: &str) -> (result:
    PlatformError)
    ensures
        result@ == "failed to connect peer session "@ + peer_id@ + " at "@
            + crate::address::spell_socket(address@) + ": "@ + cause@,
{
    PlatformError::from_message(
        "failed to connect peer session ".to_owned().concat(peer_id.as_str()).concat(
            " at ",
        ).concat(address.text().as_str()).concat(": ").concat(cause),
    )
}

/// Each failure after the first doubles the wait until it is the longest; the first one waits for the
/// first delay, and without a failure there is none.
pub proof fn each_failure_doubles_the_wait(backoff: PeerSessionReconnectBackoff, failures: nat)
    requires
        failures > 0,
    ensures
        backoff.delay(0) == 0,
        backoff.initial_delay <= backoff.max_delay ==> backoff.delay(1) == backoff.initial_delay,
        backoff.initial_delay > backoff.max_delay ==> backoff.delay(1) == backoff.max_delay,
        2 * backoff.delay(failures) <= backoff.max_delay ==> backoff.delay(failures + 1) == 2
            * backoff.delay(failures),
        2 * backoff.delay(failures) > backoff.max_delay ==> backoff.delay(failures + 1)
            == backoff.max_delay,
{
    assert(doubled(backoff.initial_delay as nat, failures) == 2 * doubled(
        backoff.initial_delay as nat,
        (failures - 1) as nat,
    ));
}

/// A new connection waits for a quarter of a second after its first failure and never for more than five
/// seconds.
pub proof fn waits_begin_short_and_stay_bounded(backoff: PeerSessionReconnectBackoff, failures: nat)
    requires
        call_ensures(<PeerSessionReconnectBackoff as core::default::Default>::default, (), backoff),
    ensures
        backoff.delay(1) == 250_000_000,
        backoff.delay(failures) <= 5_000_000_000,
        backoff.wait(0) is None,
        backoff.consecutive_failures == 0,
{
}

/// A failure counts one more and has to be waited out from when it happened, for as long as is said;
/// until then the wait gets shorter as time goes by, and then it is over. A success ends it at once.
pub proof fn a_failure_is_waited_out(
    backoff: &mut PeerSessionReconnectBackoff,
    now: u64,
    delay: u64,
    later: u64,
    wait: Option<u64>,
)
    requires
        call_ensures(PeerSessionReconnectBackoff::record_failure, (backoff, now), delay),
        call_ensures(PeerSessionReconnectBackoff::retry_after, (final(backoff), later), wait),
        now + delay <= u64::MAX,
        old(backoff).consecutive_failures < u32::MAX,
        now <= later,
    ensures
        final(backoff).consecutive_failures == old(backoff).consecutive_failures + 1,
        delay == old(backoff).delay((old(backoff).consecutive_failures + 1) as nat),
        wait is Some <==> later < now + delay,
        wait matches Some(left) ==> later + left == now + delay,
        final(backoff).initial_delay == old(backoff).initial_delay,
        final(backoff).max_delay == old(backoff).max_delay,
        final(backoff).cleared().wait(later) is None,
        final(backoff).cleared().consecutive_failures == 0,
{
}

/// A session sends a command under the next number, and the peer reads it as the command that it was,
/// forwarded input as it was forwarded. It starts no session with another peer.
pub proof fn a_session_sends_commands_as_they_are<W: PeerFrameSink>(
    before: TcpPeerSessionTransport<W>,
    command: DaemonTransportCommand,
    result: Result<(), PlatformError>,
    after: TcpPeerSessionTransport<W>,
)
    requires
        TcpPeerSessionTransport::<W>::sends(before, command, result, after),
    ensures
        after.peer_id == before.peer_id,
        after.local_device_id == before.local_device_id,
        after.address == before.address,
        command is StartRemoteSession && command->StartRemoteSession_peer_id.value@
            != before.peer_id.value@ ==> result is Err && after.sink == before.sink && after.sender
            == before.sender,
        result is Ok ==> {
            &&& command is StartRemoteSession ==> command->StartRemoteSession_peer_id.value@
                == before.peer_id.value@
            &&& after.sender.next_sequence == before.sender.next_sequence + 1
            &&& exists|frame: PeerTransportSessionFrame| #[trigger]
                W::writes(before.sink, frame, result, after.sink) && frame is Command
                    && frame->Command_sequence == before.sender.next_sequence
                    && crate::wire::read_command(frame->command@) == Ok::<
                    crate::wire::CommandModel,
                    Seq<char>,
                >(command@) && (command is ForwardInput ==> crate::session::sent_event(
                    crate::session::SessionRead::Frame { frame },
                ) == Some(command->event))
        },
{
    crate::wire::spelled_command_reads_back(command@);
    if result is Ok {
        let frame = choose|frame: PeerTransportSessionFrame|
            is_command_frame(frame, before.sender.next_sequence, command@)
                && #[trigger] W::writes(before.sink, frame, result, after.sink);
        assert(W::writes(before.sink, frame, result, after.sink));
        assert(frame->command@ == crate::wire::spell_command(command@));
    }
}

/// A heartbeat is a frame of its own under the next number; after one that could not be sent, none is
/// sent any more, and that is said once.
pub proof fn heartbeats_stop_after_a_failure<W: PeerFrameSink>(
    session: &mut TcpPeerSessionTransport<W>,
    said: Option<String>,
)
    requires
        call_ensures(TcpPeerSessionTransport::<W>::beat, (session,), said),
    ensures
        !old(session).beats ==> said is None && *final(session) == *old(session),
        old(session).beats ==> (said is Some <==> !final(session).beats),
        final(session).beats ==> exists|sent: Result<(), PlatformError>| #[trigger]
            W::writes(
                old(session).sink,
                PeerTransportSessionFrame::Heartbeat {
                    sequence: old(session).sender.next_sequence,
                },
                sent,
                final(session).sink,
            ) && sent is Ok && final(session).sender.next_sequence
                == old(session).sender.next_sequence + 1,
        final(session).peer_id == old(session).peer_id,
{
}

/// The session that is kept is the one that sends: with none nothing is sent, a stop lets it go, every
/// other command keeps it open with the same peer at the same address.
pub proof fn the_kept_session_stays_the_same<W: PeerFrameSink, C: MonotonicClock>(
    before: ManagedPeerSessionTransport<W, C>,
    command: DaemonTransportCommand,
    result: Result<(), PlatformError>,
    after: ManagedPeerSessionTransport<W, C>,
)
    requires
        ManagedPeerSessionTransport::<W, C>::sends(before, command, result, after),
    ensures
        before.active_session is None ==> result is Ok && after.active_session is None
            && after.reconnect_backoff == before.reconnect_backoff,
        before.active_session is Some && result is Ok ==> {
            &&& after.active_session is None <==> command is StopRemoteSession
            &&& after.reconnect_backoff == before.reconnect_backoff
            &&& after.active_session matches Some(session) ==> {
                &&& session.peer_id == before.active_session->Some_0.peer_id
                &&& session.local_device_id == before.active_session->Some_0.local_device_id
                &&& session.address == before.active_session->Some_0.address
                &&& session.sender.next_sequence
                    == before.active_session->Some_0.sender.next_sequence + 1
            }
        },
        result is Err ==> after.active_session is None && exists|now: u64|
            before.clock.tells(now) && after.reconnect_backoff
                == #[trigger] before.reconnect_backoff.failed_at(now),
{
}

/// A session is attached where none is, and is then the one that is told of; letting it go tells of it
/// once more and leaves none.
pub proof fn attached_sessions_are_told_of<W, C>(
    manager: &mut ManagedPeerSessionTransport<W, C>,
    session: TcpPeerSessionTransport<W>,
    attached: Result<(), PlatformError>,
    told: Option<ManagedPeerSessionSnapshot>,
    later: &mut ManagedPeerSessionTransport<W, C>,
    left: Option<ManagedPeerSessionSnapshot>,
)
    requires
        call_ensures(
            ManagedPeerSessionTransport::<W, C>::attach_session,
            (manager, session),
            attached,
        ),
        call_ensures(
            ManagedPeerSessionTransport::<W, C>::active_session,
            (final(manager),),
            told,
        ),
        *old(later) == *final(manager),
        call_ensures(ManagedPeerSessionTransport::<W, C>::disconnect_session, (later,), left),
    ensures
        attached is Ok <==> old(manager).active_session is None,
        told is Some && left is Some,
        attached is Ok ==> told->Some_0.peer_id == session.peer_id
            && told->Some_0.local_device_id == session.local_device_id && told->Some_0.address
            == session.address,
        attached is Err ==> final(manager).active_session == old(manager).active_session
            && told->Some_0.peer_id == old(manager).active_session->Some_0.peer_id,
        left->Some_0.peer_id == told->Some_0.peer_id,
        left->Some_0.local_device_id == told->Some_0.local_device_id,
        left->Some_0.address == told->Some_0.address,
        final(later).active_session is None,
{
}

/// An attempt that succeeds has opened a session with the peer, for the device and at the address that
/// were asked for, from the first number, and forgets earlier failures; one that fails opens none.
pub proof fn an_attempt_opens_what_was_asked_for<W, C>(
    before: ManagedPeerSessionTransport<W, C>,
    attempt: SessionConnect,
    event: SessionConnectEvent<W>,
    now: u64,
    action: SessionConnectAction,
    after: ManagedPeerSessionTransport<W, C>,
    later: SessionConnect,
)
    requires
        connect_step(before, attempt, event, now, action, after, later),
    ensures
        later.peer_id == attempt.peer_id,
        later.local_device_id == attempt.local_device_id,
        later.address == attempt.address,
        action is Finish <==> later.stage is Done,
        action is Finish && action->result is Ok <==> event is Opened && event->sink is Ok
            && before.active_session is None,
        action is Finish && action->result is Ok ==> {
            &&& after.active_session is Some
            &&& after.active_session->Some_0.peer_id == attempt.peer_id
            &&& after.active_session->Some_0.local_device_id == attempt.local_device_id
            &&& after.active_session->Some_0.address == attempt.address
            &&& after.active_session->Some_0.sink == event->sink->Ok_0
            &&& after.active_session->Some_0.sender.next_sequence == 0
            &&& after.active_session->Some_0.beats
            &&& after.reconnect_backoff.consecutive_failures == 0
            &&& after.reconnect_backoff.next_allowed_at is None
        },
        !(action is Finish && action->result is Ok) ==> after.active_session
            == before.active_session,
        event is Opened && event->sink is Err ==> after.reconnect_backoff
            == before.reconnect_backoff.failed_at(now),
        action is LoadPeer ==> event is Identity && event->identity is Ok
            && event->identity->Ok_0.identity.device_id@ == attempt.local_device_id.value@
            && later.local is Some && later.local->Some_0.identity
            == event->identity->Ok_0.identity && later.local->Some_0.secret_key
            == event->identity->Ok_0.secret_key,
        action matches SessionConnectAction::Open { prelude } ==> event is Peer && event->peer is Ok
            && event->peer->Ok_0.identity.peer_id@ == attempt.peer_id.value@
            && prelude.hello is Hello && prelude.hello->peer_id@ == attempt.peer_id.value@
            && prelude.hello->device_id@ == attempt.local->Some_0.identity.device_id@
            && prelude.hello->nonce is Some,
        event is Begin ==> (action is LoadIdentity <==> before.active_session is None && (
        before.reconnect_backoff.next_allowed_at matches Some(deadline) ==> deadline <= now)
            && before.auth_config is Some),
{
}

/// An identity is taken where it is that of the device that was asked for; a peer is taken as it was
/// loaded.
pub proof fn identities_are_taken_for_their_device(
    config: &ManagedPeerSessionAuthConfig,
    local_device_id: &DeviceId,
    loaded: Result<StoredLocalIdentity, IdentityStoreError>,
    result: Result<LocalIdentity<Ed25519IdentityKey>, PlatformError>,
)
    requires
        call_ensures(check_session_identity, (config, local_device_id, loaded), result),
    ensures
        result is Ok <==> loaded is Ok && loaded->Ok_0.identity.device_id@
            == local_device_id.value@,
        result is Ok ==> result->Ok_0.identity == loaded->Ok_0.identity
            && result->Ok_0.secret_key == loaded->Ok_0.secret_key,
{
}

/// A command that is handed to a session is written to the peer as the command that it is, under the
/// next number, and forwarded input as it is forwarded.
pub proof fn a_dispatched_command_reaches_the_peer<W: PeerFrameSink>(
    session: &mut TcpPeerSessionTransport<W>,
    command: DaemonTransportCommand,
    result: Result<(), PlatformError>,
)
    requires
        call_ensures(
            <TcpPeerSessionTransport<W> as DaemonPeerTransport>::dispatch_transport_command,
            (session, command),
            result,
        ),
        result is Ok,
    ensures
        final(session).peer_id == old(session).peer_id,
        final(session).sender.next_sequence == old(session).sender.next_sequence + 1,
        exists|frame: PeerTransportSessionFrame| #[trigger]
            W::writes(old(session).sink, frame, result, final(session).sink) && frame is Command
                && frame->Command_sequence == old(session).sender.next_sequence
                && crate::wire::read_command(frame->command@) == Ok::<
                crate::wire::CommandModel,
                Seq<char>,
            >(command@) && (command is ForwardInput ==> crate::session::sent_event(
                crate::session::SessionRead::Frame { frame },
            ) == Some(command->event)),
{
    a_session_sends_commands_as_they_are(*old(session), command, result, *final(session));
}

/// What is handed to the kept session is sent by it; a stop lets the session go, a failure does too and
/// has to be waited out, and every other command keeps it open with the same peer.
pub proof fn a_command_goes_to_the_kept_session<W: PeerFrameSink, C: MonotonicClock>(
    manager: &mut ManagedPeerSessionTransport<W, C>,
    command: DaemonTransportCommand,
    result: Result<(), PlatformError>,
)
    requires
        call_ensures(
            <ManagedPeerSessionTransport<
                W,
                C,
            > as DaemonPeerTransport>::dispatch_transport_command,
            (manager, command),
            result,
        ),
    ensures
        old(manager).active_session is None ==> result is Ok
            && final(manager).active_session is None,
        old(manager).active_session is Some && result is Ok ==> (
        final(manager).active_session is None <==> command is StopRemoteSession),
        old(manager).active_session is Some && final(manager).active_session is Some ==> result is Ok
            && final(manager).active_session->Some_0.peer_id
            == old(manager).active_session->Some_0.peer_id
            && final(manager).active_session->Some_0.address
            == old(manager).active_session->Some_0.address,
        result is Err ==> final(manager).active_session is None
            && final(manager).reconnect_backoff.consecutive_failures > 0
            && final(manager).reconnect_backoff.next_allowed_at is Some,
{
    the_kept_session_stays_the_same(*old(manager), command, result, *final(manager));
    if result is Err {
        failed_dispatch_detaches_and_backs_off(*old(manager), command, result, *final(manager));
    }
}

/// The wait after so many failures is told as it is: none at first, then the first delay, doubled by each
/// failure, and never more than the longest.
pub proof fn the_wait_after_a_failure_is_told(
    backoff: &PeerSessionReconnectBackoff,
    failures: u32,
    shorter: u64,
    longer: u64,
)
    requires
        failures < u32::MAX,
        call_ensures(PeerSessionReconnectBackoff::delay_for_failure, (backoff, failures), shorter),
        call_ensures(
            PeerSessionReconnectBackoff::delay_for_failure,
            (backoff, (failures + 1) as u32),
            longer,
        ),
    ensures
        failures == 0 ==> shorter == 0,
        failures == 0 && backoff.initial_delay <= backoff.max_delay ==> longer
            == backoff.initial_delay,
        failures > 0 && 2 * shorter <= backoff.max_delay ==> longer == 2 * shorter,
        failures > 0 && 2 * shorter > backoff.max_delay ==> longer == backoff.max_delay,
        shorter <= longer <= backoff.max_delay,
{
    each_failure_doubles_the_wait(*backoff, (failures + 1) as nat);
    backoff_grows_and_resets(*backoff, failures as nat, (failures + 1) as nat);
    if failures > 0 {
        each_failure_doubles_the_wait(*backoff, failures as nat);
    }
}

/// After a failure no session may be opened until the wait is over, and then again; after a success at
/// once.
pub proof fn a_failure_holds_the_next_attempt_off<W, C>(
    manager: &mut ManagedPeerSessionTransport<W, C>,
    now: u64,
    error: PlatformError,
    told: PlatformError,
    later: u64,
    allowed: Result<(), PlatformError>,
    connected: bool,
)
    requires
        call_ensures(
            ManagedPeerSessionTransport::<W, C>::record_session_failure,
            (manager, now, error),
            told,
        ),
        call_ensures(
            ManagedPeerSessionTransport::<W, C>::ensure_connect_backoff_allows,
            (final(manager), later),
            allowed,
        ),
        call_ensures(
            ManagedPeerSessionTransport::<W, C>::is_connected,
            (final(manager),),
            connected,
        ),
    ensures
        error@.is_prefix_of(told@),
        final(manager).active_session == old(manager).active_session,
        final(manager).auth_config == old(manager).auth_config,
        connected <==> final(manager).active_session is Some,
        final(manager).reconnect_backoff.next_allowed_at is Some,
        allowed is Ok <==> later >= final(manager).reconnect_backoff.next_allowed_at->Some_0,
        final(manager).reconnect_backoff.next_allowed_at->Some_0 >= now,
        old(manager).reconnect_backoff.consecutive_failures < u32::MAX
            ==> final(manager).reconnect_backoff.consecutive_failures
            == old(manager).reconnect_backoff.consecutive_failures + 1,
{
}

/// A success makes the next attempt possible at once and leaves the delays as they are.
pub proof fn a_success_ends_the_wait(
    backoff: &mut PeerSessionReconnectBackoff,
    done: (),
    now: u64,
    wait: Option<u64>,
)
    requires
        call_ensures(PeerSessionReconnectBackoff::reset, (backoff,), done),
        call_ensures(PeerSessionReconnectBackoff::retry_after, (final(backoff), now), wait),
    ensures
        wait is None,
        final(backoff).consecutive_failures == 0,
        final(backoff).initial_delay == old(backoff).initial_delay,
        final(backoff).max_delay == old(backoff).max_delay,
{
}

/// An attempt that succeeds has opened a session with the peer that was asked for, at the address that
/// was asked for and with the connection that was opened; an open session is never replaced.
pub proof fn an_attempt_connects_the_peer_it_is_for<W: PeerFrameSink, C: MonotonicClock>(
    manager: &mut ManagedPeerSessionTransport<W, C>,
    attempt: &mut SessionConnect,
    event: SessionConnectEvent<W>,
    action: SessionConnectAction,
)
    requires
        call_ensures(
            ManagedPeerSessionTransport::<W, C>::connect_session,
            (manager, attempt, event),
            action,
        ),
    ensures
        final(attempt).peer_id == old(attempt).peer_id,
        final(attempt).address == old(attempt).address,
        old(manager).active_session is Some ==> final(manager).active_session
            == old(manager).active_session,
        action is Finish && action->result is Ok <==> event is Opened && event->sink is Ok
            && old(manager).active_session is None,
        action is Finish && action->result is Ok ==> {
            &&& final(manager).active_session is Some
            &&& final(manager).active_session->Some_0.peer_id == old(attempt).peer_id
            &&& final(manager).active_session->Some_0.local_device_id == old(attempt).local_device_id
            &&& final(manager).active_session->Some_0.address == old(attempt).address
            &&& final(manager).active_session->Some_0.sink == event->sink->Ok_0
            &&& final(manager).active_session->Some_0.sender.next_sequence == 0
            &&& final(manager).reconnect_backoff.consecutive_failures == 0
        },
{
    let now = choose|now: u64|
        old(manager).clock.tells(now) && #[trigger] connect_step(
            *old(manager),
            *old(attempt),
            event,
            now,
            action,
            *final(manager),
            *final(attempt),
        );
    an_attempt_opens_what_was_asked_for(
        *old(manager),
        *old(attempt),
        event,
        now,
        action,
        *final(manager),
        *final(attempt),
    );
    if old(manager).active_session is Some {
        open_session_is_never_replaced(
            *old(manager),
            *old(attempt),
            event,
            now,
            action,
            *final(manager),
            *final(attempt),
        );
    }
}

/// A paired peer is taken as it was loaded, and goes by the name that it was paired under.
pub proof fn a_loaded_peer_is_the_one_that_was_paired<W, C>(
    manager: &ManagedPeerSessionTransport<W, C>,
    config: &ManagedPeerSessionAuthConfig,
    peer_id: &PeerId,
    loaded: Result<TrustedPeer<Ed25519PublicKey>, String>,
    peer: Result<TrustedPeer<Ed25519PublicKey>, PlatformError>,
    name: Result<Option<String>, PlatformError>,
)
    requires
        call_ensures(check_trusted_peer, (config, peer_id, loaded), peer),
        call_ensures(
            ManagedPeerSessionTransport::<W, C>::trusted_peer_display_name,
            (manager, peer_id, loaded),
            name,
        ),
    ensures
        peer is Ok <==> loaded is Ok,
        peer is Ok ==> peer->Ok_0 == loaded->Ok_0,
        manager.auth_config is None ==> name is Ok && name->Ok_0 is None,
        manager.auth_config is Some ==> (name is Ok <==> loaded is Ok),
        manager.auth_config is Some && name is Ok ==> name->Ok_0 is Some && name->Ok_0->Some_0@
            == loaded->Ok_0.identity.display_name@,
{
}

} // verus!
