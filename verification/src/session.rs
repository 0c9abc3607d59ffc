//! Sessions with a peer: how they are opened, what is executed while they last, and how they end.

use std::collections::VecDeque;

use vstd::prelude::*;

use crate::crypto::random_nonce;
use crate::identity::{
    AuthProof, Ed25519PublicKey, ErrorText, IdentityPublicKey, IdentitySecretKey, LocalIdentity,
    TrustedPeer,
};
use crate::platform::{PlatformAdapter, PlatformCall, PlatformError};
use crate::protocol::{
    peer_session_capabilities, AuthTranscript, CapabilityFlags, PeerRole, ProtocolVersion,
};
use crate::runtime::{
    clone_crossing, clone_session_id, DeviceId, EdgeCrossing, InjectedInputEvent, PeerId, SessionId,
};
use crate::text::{decimal_text, same};
use crate::transport::DaemonTransportCommand;
use crate::wire::{
    protocol_version_from_wire, PeerTransportCommandPayload, PeerTransportProtocolVersion,
    PeerTransportSessionFrame, SessionReady,
};

verus! {

/// What reading one frame gave.
#[allow(inconsistent_fields)]
#[derive(Debug, PartialEq, Eq)]
pub enum SessionRead {
    Failed { cause: String },
    Undecodable { cause: String },
    Closed,
    Frame { frame: PeerTransportSessionFrame },
}

/// Where the frames of a session come from.
pub trait PeerFrameSource: Sized {
    /// Whether reading once may give this, and may leave that behind.
    open spec fn gives(before: Self, read: SessionRead, after: Self) -> bool {
        true
    }

    fn next_frame(&mut self) -> (read: SessionRead)
        ensures
            Self::gives(*old(self), read, *final(self)),
    ;
}

/// Whether reads, one after the other, may lead from one state of a source to another.
pub open spec fn given<R: PeerFrameSource>(before: R, reads: Seq<SessionRead>, after: R) -> bool
    decreases reads.len(),
{
    if reads.len() == 0 {
        after == before
    } else {
        exists|mid: R| #[trigger]
            R::gives(before, reads[0], mid) && given(mid, reads.drop_first(), after)
    }
}

/// Reads may be followed by one more.
proof fn lemma_one_more_read<R: PeerFrameSource>(
    before: R,
    reads: Seq<SessionRead>,
    mid: R,
    read: SessionRead,
    after: R,
)
    requires
        given(before, reads, mid),
        R::gives(mid, read, after),
    ensures
        given(before, reads.push(read), after),
{
    assert(seq![read].drop_first() =~= Seq::<SessionRead>::empty());
    assert(R::gives(mid, seq![read][0], after));
    assert(given(after, seq![read].drop_first(), after));
    assert(given(mid, seq![read], after));
    lemma_given_on(before, reads, mid, seq![read], after);
    assert(reads + seq![read] =~= reads.push(read));
}

/// Reads may be followed by further reads.
proof fn lemma_given_on<R: PeerFrameSource>(
    before: R,
    first: Seq<SessionRead>,
    mid: R,
    rest: Seq<SessionRead>,
    after: R,
)
    requires
        given(before, first, mid),
        given(mid, rest, after),
    ensures
        given(before, first + rest, after),
    decreases first.len(),
{
    if first.len() == 0 {
        assert(first + rest =~= rest);
    } else {
        let next = choose|next: R| #[trigger]
            R::gives(before, first[0], next) && given(next, first.drop_first(), mid);
        lemma_given_on(next, first.drop_first(), mid, rest, after);
        assert(R::gives(before, (first + rest)[0], next));
        assert((first + rest).drop_first() =~= first.drop_first() + rest);
    }
}

/// Frames that wait in memory.
#[derive(Debug)]
pub struct QueuedFrames {
    reads: VecDeque<SessionRead>,
}

impl QueuedFrames {
    /// The reads that wait.
    pub closed spec fn unread(&self) -> Seq<SessionRead> {
        self.reads@
    }

    /// A source without frames.
    pub fn new() -> (result: Self)
        ensures
            result.unread() == Seq::<SessionRead>::empty(),
    {
        QueuedFrames { reads: VecDeque::new() }
    }

    /// Add a read behind those that wait.
    pub fn push(&mut self, read: SessionRead)
        ensures
            final(self).unread() == old(self).unread().push(read),
    {
        self.reads.push_back(read);
    }
}

impl PeerFrameSource for QueuedFrames {
    /// The read that has waited longest is given first. A queue that has nothing left is closed.
    open spec fn gives(before: Self, read: SessionRead, after: Self) -> bool {
        if before.unread().len() == 0 {
            read == SessionRead::Closed && after.unread() == before.unread()
        } else {
            read == before.unread()[0] && after.unread() == before.unread().drop_first()
        }
    }

    fn next_frame(&mut self) -> (read: SessionRead) {
        match self.reads.pop_front() {
            Some(read) => {
                proof {
                    assert(self.reads@ =~= old(self).reads@.drop_first());
                }
                read
            },
            None => SessionRead::Closed,
        }
    }
}

/// What was queued is read in the order in which it was queued, each read once, and what was not
/// read still waits. Whoever reads on finds the queue closed.
pub proof fn queued_frames_are_read_in_order(
    before: QueuedFrames,
    reads: Seq<SessionRead>,
    after: QueuedFrames,
)
    requires
        given(before, reads, after),
    ensures
        reads.len() <= before.unread().len() ==> {
            &&& reads == before.unread().take(reads.len() as int)
            &&& after.unread() == before.unread().skip(reads.len() as int)
        },
        reads.len() > before.unread().len() ==> {
            &&& reads.take(before.unread().len() as int) == before.unread()
            &&& forall|i: int|
                before.unread().len() <= i < reads.len() ==> reads[i] == SessionRead::Closed
            &&& after.unread() == Seq::<SessionRead>::empty()
        },
    decreases reads.len(),
{
    let waiting = before.unread();
    if reads.len() == 0 {
        assert(reads =~= waiting.take(0));
        assert(after.unread() =~= waiting.skip(0));
    } else {
        let later = reads.drop_first();
        let mid = choose|mid: QueuedFrames| #[trigger]
            QueuedFrames::gives(before, reads[0], mid) && given(mid, later, after);
        queued_frames_are_read_in_order(mid, later, after);
        if reads.len() <= waiting.len() {
            assert(waiting.drop_first().take(later.len() as int) =~= waiting.take(
                reads.len() as int,
            ).drop_first());
            assert(reads =~= seq![reads[0]] + later);
            assert(reads =~= waiting.take(reads.len() as int));
            assert(after.unread() =~= waiting.skip(reads.len() as int));
        } else {
            if waiting.len() > 0 {
                assert(waiting =~= seq![reads[0]] + mid.unread());
                assert(later.take(mid.unread().len() as int) == mid.unread());
            }
            assert forall|i: int| 0 <= i < waiting.len() implies reads[i] == waiting[i] by {
                if i > 0 {
                    assert(later[i - 1] == later.take(mid.unread().len() as int)[i - 1]);
                }
            }
            assert(reads.take(waiting.len() as int) =~= waiting);
            assert forall|i: int| waiting.len() <= i < reads.len() implies reads[i]
                == SessionRead::Closed by {
                if i > 0 {
                    assert(reads[i] == later[i - 1]);
                }
            }
        }
    }
}

/// Whether a result is what a model says, an error in its words.
pub open spec fn told<T>(model: Result<T, Seq<char>>, result: Result<T, PlatformError>) -> bool {
    match result {
        Ok(value) => model == Ok::<T, Seq<char>>(value),
        Err(error) => model == Err::<T, Seq<char>>(error@),
    }
}

/// The frame that a read gave, nothing where the session is closed, or what went wrong.
pub open spec fn optional_frame(read: SessionRead) -> Result<
    Option<PeerTransportSessionFrame>,
    Seq<char>,
> {
    match read {
        SessionRead::Failed { cause } => Err("failed to read peer session frame: "@ + cause@),
        SessionRead::Undecodable { cause } => Err(
            "failed to decode peer session frame: "@ + cause@,
        ),
        SessionRead::Closed => Ok(None),
        SessionRead::Frame { frame } => Ok(Some(frame)),
    }
}

/// The frame that a read gave, or what went wrong.
pub open spec fn needed_frame(read: SessionRead) -> Result<PeerTransportSessionFrame, Seq<char>> {
    match optional_frame(read) {
        Ok(Some(frame)) => Ok(frame),
        Ok(None) => Err("peer session closed before the next frame was received"@),
        Err(reason) => Err(reason),
    }
}

/// Take the next frame of a source, unless the session is closed.
pub fn read_optional_peer_transport_session_frame<R: PeerFrameSource>(reader: &mut R) -> (result:
    Result<Option<PeerTransportSessionFrame>, PlatformError>)
    ensures
        exists|read: SessionRead| #[trigger]
            R::gives(*old(reader), read, *final(reader)) && told(optional_frame(read), result),
{
    let next = reader.next_frame();
    assert(R::gives(*old(reader), next, *reader));
    match next {
        SessionRead::Failed { cause } => Err(
            PlatformError::from_message(
                "failed to read peer session frame: ".to_owned().concat(cause.as_str()),
            ),
        ),
        SessionRead::Undecodable { cause } => Err(
            PlatformError::from_message(
                "failed to decode peer session frame: ".to_owned().concat(cause.as_str()),
            ),
        ),
        SessionRead::Closed => Ok(None),
        SessionRead::Frame { frame } => Ok(Some(frame)),
    }
}

/// Take the next frame of a source.
pub fn read_peer_transport_session_frame<R: PeerFrameSource>(reader: &mut R) -> (result: Result<
    PeerTransportSessionFrame,
    PlatformError,
>)
    ensures
        exists|read: SessionRead| #[trigger]
            R::gives(*old(reader), read, *final(reader)) && told(needed_frame(read), result),
{
    match read_optional_peer_transport_session_frame(reader) {
        Ok(Some(frame)) => Ok(frame),
        Ok(None) => Err(
            PlatformError::new("peer session closed before the next frame was received"),
        ),
        Err(error) => Err(error),
    }
}

/// What a peer says of itself when it opens a session.
#[derive(Debug, PartialEq, Eq)]
pub struct PeerTransportSessionHello {
    pub protocol: ProtocolVersion,
    pub device_id: DeviceId,
    pub peer_id: PeerId,
    pub nonce: Option<[u8; 32]>,
    pub capabilities: CapabilityFlags,
}

/// What a hello says.
pub struct HelloModel {
    pub protocol: ProtocolVersion,
    pub device_id: Seq<char>,
    pub peer_id: Seq<char>,
    pub nonce: Option<[u8; 32]>,
    pub capabilities: CapabilityFlags,
}

impl View for PeerTransportSessionHello {
    type V = HelloModel;

    open spec fn view(&self) -> HelloModel {
        HelloModel {
            protocol: self.protocol,
            device_id: self.device_id@,
            peer_id: self.peer_id@,
            nonce: self.nonce,
            capabilities: self.capabilities,
        }
    }
}

/// The hello that a read gave, or why there is none.
pub open spec fn read_hello(read: SessionRead) -> Result<HelloModel, Seq<char>> {
    match needed_frame(read) {
        Err(reason) => Err(reason),
        Ok(PeerTransportSessionFrame::Hello { protocol, device_id, peer_id, nonce, capabilities })
            => match crate::protocol::negotiated(
            ProtocolVersion { major: protocol.major, minor: protocol.minor },
        ) {
            None => Err(crate::wire::unsupported_protocol(protocol)),
            Some(version) => Ok(
                HelloModel {
                    protocol: version,
                    device_id: device_id@,
                    peer_id: peer_id@,
                    nonce,
                    capabilities,
                },
            ),
        },
        Ok(PeerTransportSessionFrame::Command { .. }) => Err(
            "peer session expected hello frame before command frames"@,
        ),
        Ok(PeerTransportSessionFrame::AuthProof { .. }) => Err(
            "peer session expected hello frame before auth proof frames"@,
        ),
        Ok(PeerTransportSessionFrame::SessionReady { .. }) => Err(
            "peer session expected hello frame before session ready frames"@,
        ),
        Ok(PeerTransportSessionFrame::Heartbeat { .. }) => Err(
            "peer session expected hello frame before heartbeat frames"@,
        ),
    }
}

pub fn read_peer_transport_session_hello<R: PeerFrameSource>(reader: &mut R) -> (result: Result<
    PeerTransportSessionHello,
    PlatformError,
>)
    ensures
        exists|read: SessionRead| #[trigger]
            R::gives(*old(reader), read, *final(reader)) && read_hello(read) == (match result {
                Ok(hello) => Ok::<HelloModel, Seq<char>>(hello@),
                Err(error) => Err::<HelloModel, Seq<char>>(error@),
            }),
{
    match read_peer_transport_session_frame(reader) {
        Err(error) => Err(error),
        Ok(PeerTransportSessionFrame::Hello { protocol, device_id, peer_id, nonce, capabilities })
            => match protocol_version_from_wire(protocol) {
            Err(error) => Err(error),
            Ok(version) => Ok(
                PeerTransportSessionHello {
                    protocol: version,
                    device_id: DeviceId::new(device_id.as_str()),
                    peer_id: PeerId::new(peer_id.as_str()),
                    nonce,
                    capabilities,
                },
            ),
        },
        Ok(PeerTransportSessionFrame::Command { .. }) => Err(
            PlatformError::new("peer session expected hello frame before command frames"),
        ),
        Ok(PeerTransportSessionFrame::AuthProof { .. }) => Err(
            PlatformError::new("peer session expected hello frame before auth proof frames"),
        ),
        Ok(PeerTransportSessionFrame::SessionReady { .. }) => Err(
            PlatformError::new("peer session expected hello frame before session ready frames"),
        ),
        Ok(PeerTransportSessionFrame::Heartbeat { .. }) => Err(
            PlatformError::new("peer session expected hello frame before heartbeat frames"),
        ),
    }
}

/// The proof that a read gave, or why there is none.
pub open spec fn read_proof(read: SessionRead) -> Result<AuthProof, Seq<char>> {
    match needed_frame(read) {
        Err(reason) => Err(reason),
        Ok(PeerTransportSessionFrame::AuthProof { proof }) => Ok(proof),
        Ok(PeerTransportSessionFrame::Hello { .. }) => Err(
            "peer session received duplicate hello frame before auth proof"@,
        ),
        Ok(PeerTransportSessionFrame::SessionReady { .. }) => Err(
            "peer session expected auth proof frame before session ready frames"@,
        ),
        Ok(PeerTransportSessionFrame::Command { .. }) => Err(
            "peer session expected auth proof frame before command frames"@,
        ),
        Ok(PeerTransportSessionFrame::Heartbeat { .. }) => Err(
            "peer session expected auth proof frame before heartbeat frames"@,
        ),
    }
}

pub fn read_peer_transport_session_auth_proof<R: PeerFrameSource>(reader: &mut R) -> (result: Result<
    AuthProof,
    PlatformError,
>)
    ensures
        exists|read: SessionRead| #[trigger]
            R::gives(*old(reader), read, *final(reader)) && told(read_proof(read), result),
{
    match read_peer_transport_session_frame(reader) {
        Err(error) => Err(error),
        Ok(PeerTransportSessionFrame::AuthProof { proof }) => Ok(proof),
        Ok(PeerTransportSessionFrame::Hello { .. }) => Err(
            PlatformError::new("peer session received duplicate hello frame before auth proof"),
        ),
        Ok(PeerTransportSessionFrame::SessionReady { .. }) => Err(
            PlatformError::new(
                "peer session expected auth proof frame before session ready frames",
            ),
        ),
        Ok(PeerTransportSessionFrame::Command { .. }) => Err(
            PlatformError::new("peer session expected auth proof frame before command frames"),
        ),
        Ok(PeerTransportSessionFrame::Heartbeat { .. }) => Err(
            PlatformError::new("peer session expected auth proof frame before heartbeat frames"),
        ),
    }
}

/// The end of the handshake that a read gave, or why there is none.
pub open spec fn read_ready(read: SessionRead) -> Result<SessionReady, Seq<char>> {
    match needed_frame(read) {
        Err(reason) => Err(reason),
        Ok(PeerTransportSessionFrame::SessionReady { ready }) => Ok(ready),
        Ok(PeerTransportSessionFrame::Hello { .. }) => Err(
            "peer session received duplicate hello frame before session ready"@,
        ),
        Ok(PeerTransportSessionFrame::AuthProof { .. }) => Err(
            "peer session received duplicate auth proof frame before session ready"@,
        ),
        Ok(PeerTransportSessionFrame::Command { .. }) => Err(
            "peer session expected session ready frame before command frames"@,
        ),
        Ok(PeerTransportSessionFrame::Heartbeat { .. }) => Err(
            "peer session expected session ready frame before heartbeat frames"@,
        ),
    }
}

pub fn read_peer_transport_session_ready<R: PeerFrameSource>(reader: &mut R) -> (result: Result<
    SessionReady,
    PlatformError,
>)
    ensures
        exists|read: SessionRead| #[trigger]
            R::gives(*old(reader), read, *final(reader)) && told(read_ready(read), result),
{
    match read_peer_transport_session_frame(reader) {
        Err(error) => Err(error),
        Ok(PeerTransportSessionFrame::SessionReady { ready }) => Ok(ready),
        Ok(PeerTransportSessionFrame::Hello { .. }) => Err(
            PlatformError::new("peer session received duplicate hello frame before session ready"),
        ),
        Ok(PeerTransportSessionFrame::AuthProof { .. }) => Err(
            PlatformError::new(
                "peer session received duplicate auth proof frame before session ready",
            ),
        ),
        Ok(PeerTransportSessionFrame::Command { .. }) => Err(
            PlatformError::new("peer session expected session ready frame before command frames"),
        ),
        Ok(PeerTransportSessionFrame::Heartbeat { .. }) => Err(
            PlatformError::new("peer session expected session ready frame before heartbeat frames"),
        ),
    }
}

/// The sequence number that the next frame must carry.
#[derive(Debug, Clone, Copy, PartialEq, Eq, Structural)]
pub struct PeerTransportSessionSequence {
    pub expected: u64,
}

/// The sequence number expected after one was received, or what is wrong with that one.
pub open spec fn accepted(expected: u64, received: u64) -> Result<u64, Seq<char>> {
    if received != expected {
        Err(
            "peer session sequence mismatch: expected "@ + crate::text::decimal(expected as nat)
                + ", received "@ + crate::text::decimal(received as nat),
        )
    } else if expected == u64::MAX {
        Err("peer session sequence number overflowed after frame read"@)
    } else {
        Ok((expected + 1) as u64)
    }
}

impl PeerTransportSessionSequence {
    pub fn new() -> (result: Self)
        ensures
            result.expected == 0,
    {
        PeerTransportSessionSequence { expected: 0 }
    }

    /// Take note of a received sequence number, which must be the expected one.
    pub fn accept(&mut self, received: u64) -> (result: Result<(), PlatformError>)
        ensures
            match result {
                Ok(()) => accepted(old(self).expected, received) == Ok::<u64, Seq<char>>(
                    final(self).expected,
                ),
                Err(error) => final(self).expected == old(self).expected && accepted(
                    old(self).expected,
                    received,
                ) == Err::<u64, Seq<char>>(error@),
            },
    {
        if received != self.expected {
            return Err(
                PlatformError::from_message(
                    "peer session sequence mismatch: expected ".to_owned().concat(
                        decimal_text(self.expected).as_str(),
                    ).concat(", received ").concat(decimal_text(received).as_str()),
                ),
            );
        }
        match self.expected.checked_add(1) {
            Some(next) => {
                self.expected = next;
                Ok(())
            },
            None => Err(
                PlatformError::new("peer session sequence number overflowed after frame read"),
            ),
        }
    }
}

/// What executing a command came to.
#[derive(Debug, PartialEq, Eq)]
pub enum PeerTransportCommandExecution {
    RemoteSessionStarted { peer_id: PeerId, crossing: Option<EdgeCrossing> },
    InputForwarded { event: InjectedInputEvent },
    InputsReleased,
    RemoteSessionStopped { session_id: Option<SessionId> },
}

/// What executing a command came to.
pub enum ExecutionModel {
    RemoteSessionStarted { peer_id: Seq<char>, crossing: Option<crate::wire::CrossingModel> },
    InputForwarded { event: InjectedInputEvent },
    InputsReleased,
    RemoteSessionStopped { session_id: Option<Seq<char>> },
}

impl View for PeerTransportCommandExecution {
    type V = ExecutionModel;

    open spec fn view(&self) -> ExecutionModel {
        match self {
            PeerTransportCommandExecution::RemoteSessionStarted { peer_id, crossing } => {
                ExecutionModel::RemoteSessionStarted {
                    peer_id: peer_id@,
                    crossing: match crossing {
                        Some(crossing) => Some(crossing@),
                        None => None,
                    },
                }
            },
            PeerTransportCommandExecution::InputForwarded { event } => {
                ExecutionModel::InputForwarded { event: *event }
            },
            PeerTransportCommandExecution::InputsReleased => ExecutionModel::InputsReleased,
            PeerTransportCommandExecution::RemoteSessionStopped { session_id } => {
                ExecutionModel::RemoteSessionStopped {
                    session_id: match session_id {
                        Some(session_id) => Some(session_id@),
                        None => None,
                    },
                }
            },
        }
    }
}

/// What a command comes to where the platform does what it is asked.
pub open spec fn outcome_of(command: crate::wire::CommandModel) -> ExecutionModel {
    match command {
        crate::wire::CommandModel::StartRemoteSession { peer_id, crossing } => {
            ExecutionModel::RemoteSessionStarted { peer_id, crossing }
        },
        crate::wire::CommandModel::ForwardInput { event } => ExecutionModel::InputForwarded {
            event,
        },
        crate::wire::CommandModel::ReleaseAllInputs => ExecutionModel::InputsReleased,
        crate::wire::CommandModel::StopRemoteSession { session_id } => {
            ExecutionModel::RemoteSessionStopped { session_id }
        },
    }
}

/// Whether the platform was called once more.
pub open spec fn one_more(
    before: Seq<PlatformCall>,
    after: Seq<PlatformCall>,
) -> bool {
    after.len() == before.len() + 1 && after.drop_last() == before
}

/// Whether the platform was asked once more to release everything, and answered so.
pub open spec fn releases(
    before: Seq<PlatformCall>,
    answer: Result<(), PlatformError>,
    after: Seq<PlatformCall>,
) -> bool {
    &&& one_more(before, after)
    &&& after.last() == (PlatformCall::ReleaseAll { released: answer })
}

/// The answer to the last call, which asked to release everything.
pub open spec fn last_release(calls: Seq<PlatformCall>) -> Result<
    (),
    PlatformError,
> {
    calls.last()->released
}

/// What executing a command does: forwarded input is injected, a release is passed on, and the other
/// commands leave the platform alone.
pub open spec fn command_runs(
    before: Seq<PlatformCall>,
    command: crate::wire::CommandModel,
    result: Result<ExecutionModel, Seq<char>>,
    after: Seq<PlatformCall>,
) -> bool {
    match command {
        crate::wire::CommandModel::ForwardInput { event } => {
            &&& one_more(before, after)
            &&& after.last() is InjectInput
            &&& after.last()->event == event
            &&& match after.last()->injected {
                Ok(_) => result == Ok::<ExecutionModel, Seq<char>>(outcome_of(command)),
                Err(error) => result == Err::<ExecutionModel, Seq<char>>(error@),
            }
        },
        crate::wire::CommandModel::ReleaseAllInputs => {
            &&& releases(before, last_release(after), after)
            &&& match last_release(after) {
                Ok(_) => result == Ok::<ExecutionModel, Seq<char>>(outcome_of(command)),
                Err(error) => result == Err::<ExecutionModel, Seq<char>>(error@),
            }
        },
        _ => after == before && result == Ok::<ExecutionModel, Seq<char>>(outcome_of(command)),
    }
}

/// What an executed command came to, or the platform's error in words.
pub open spec fn outcome_model(result: Result<PeerTransportCommandExecution, PlatformError>) -> Result<
    ExecutionModel,
    Seq<char>,
> {
    match result {
        Ok(outcome) => Ok(outcome@),
        Err(error) => Err(error@),
    }
}

/// Execute one command.
pub fn execute_peer_transport_command<P: PlatformAdapter>(
    platform: &mut P,
    command: &DaemonTransportCommand,
) -> (result: Result<PeerTransportCommandExecution, PlatformError>)
    ensures
        exists|calls: Seq<PlatformCall>| #[trigger]
            crate::platform::carried(*old(platform), calls, *final(platform)) && command_runs(
                Seq::empty(),
                command@,
                outcome_model(result),
                calls,
            ),
{
    assert(crate::platform::carried(*platform, Seq::<PlatformCall>::empty(), *platform));
    match command {
        DaemonTransportCommand::StartRemoteSession { peer_id, crossing } => Ok(
            PeerTransportCommandExecution::RemoteSessionStarted {
                peer_id: peer_id.clone(),
                crossing: clone_crossing(crossing),
            },
        ),
        DaemonTransportCommand::ForwardInput { event } => {
            let answer = platform.inject_input(*event);
            proof {
                let call = PlatformCall::InjectInput { event: *event, injected: answer };
                crate::platform::lemma_one_call(*old(platform), call, *platform);
                assert(seq![call].drop_last() =~= Seq::<PlatformCall>::empty());
            }
            match answer {
                Ok(()) => Ok(PeerTransportCommandExecution::InputForwarded { event: *event }),
                Err(error) => Err(error),
            }
        },
        DaemonTransportCommand::ReleaseAllInputs => {
            let answer = platform.release_all();
            proof {
                let call = PlatformCall::ReleaseAll { released: answer };
                crate::platform::lemma_one_call(*old(platform), call, *platform);
                assert(seq![call].drop_last() =~= Seq::<PlatformCall>::empty());
            }
            match answer {
                Ok(()) => Ok(PeerTransportCommandExecution::InputsReleased),
                Err(error) => Err(error),
            }
        },
        DaemonTransportCommand::StopRemoteSession { session_id } => Ok(
            PeerTransportCommandExecution::RemoteSessionStopped {
                session_id: clone_session_id(session_id),
            },
        ),
    }
}

/// Whether inputs may be held on this computer after a command, and may have been before it.
pub open spec fn guard_after(guarded: bool, command: crate::wire::CommandModel) -> bool {
    match command {
        crate::wire::CommandModel::StartRemoteSession { .. } => true,
        crate::wire::CommandModel::ForwardInput { .. } => true,
        crate::wire::CommandModel::ReleaseAllInputs => false,
        crate::wire::CommandModel::StopRemoteSession { .. } => guarded,
    }
}

/// Note that inputs may be held, or that they no longer are.
pub fn update_peer_transport_release_guard(
    needs_release_on_close: &mut bool,
    command: &DaemonTransportCommand,
)
    ensures
        *final(needs_release_on_close) == guard_after(*old(needs_release_on_close), command@),
{
    match command {
        DaemonTransportCommand::StartRemoteSession { .. } => {
            *needs_release_on_close = true;
        },
        DaemonTransportCommand::ForwardInput { .. } => {
            *needs_release_on_close = true;
        },
        DaemonTransportCommand::ReleaseAllInputs => {
            *needs_release_on_close = false;
        },
        DaemonTransportCommand::StopRemoteSession { .. } => {},
    }
}

/// What an error comes to: where inputs may be held they are released, and where that fails too the
/// error says so.
pub open spec fn error_ends(
    guarded: bool,
    reason: Seq<char>,
    before: Seq<PlatformCall>,
    message: Seq<char>,
    after: Seq<PlatformCall>,
) -> bool {
    if guarded {
        &&& releases(before, last_release(after), after)
        &&& match last_release(after) {
            Ok(_) => message == reason,
            Err(error) => message == reason
                + "; additionally failed to release peer session inputs: "@ + error@,
        }
    } else {
        after == before && message == reason
    }
}

/// Release inputs that may be held, because of an error.
pub fn release_peer_transport_inputs_after_error<P: PlatformAdapter>(
    platform: &mut P,
    needs_release_on_close: bool,
    error: PlatformError,
) -> (result: PlatformError)
    ensures
        exists|calls: Seq<PlatformCall>| #[trigger]
            crate::platform::carried(*old(platform), calls, *final(platform)) && error_ends(
                needs_release_on_close,
                error@,
                Seq::empty(),
                result@,
                calls,
            ),
{
    if !needs_release_on_close {
        assert(crate::platform::carried(*platform, Seq::<PlatformCall>::empty(), *platform));
        return error;
    }
    let answer = platform.release_all();
    proof {
        let call = PlatformCall::ReleaseAll { released: answer };
        crate::platform::lemma_one_call(*old(platform), call, *platform);
        assert(seq![call].drop_last() =~= Seq::<PlatformCall>::empty());
    }
    match answer {
        Ok(()) => error,
        Err(release_error) => PlatformError::from_message(
            error.message.concat("; additionally failed to release peer session inputs: ").concat(
                release_error.message(),
            ),
        ),
    }
}

/// A command that runs after other calls were made adds its own call to them.
proof fn lemma_command_runs_on<P: PlatformAdapter>(
    start: P,
    before: Seq<PlatformCall>,
    at: P,
    command: crate::wire::CommandModel,
    ran: Result<ExecutionModel, Seq<char>>,
    end: P,
) -> (after: Seq<PlatformCall>)
    requires
        crate::platform::carried(start, before, at),
        exists|calls: Seq<PlatformCall>| #[trigger]
            crate::platform::carried(at, calls, end) && command_runs(
                Seq::empty(),
                command,
                ran,
                calls,
            ),
    ensures
        crate::platform::carried(start, after, end),
        command_runs(before, command, ran, after),
{
    let calls = choose|calls: Seq<PlatformCall>| #[trigger]
        crate::platform::carried(at, calls, end) && command_runs(
            Seq::empty(),
            command,
            ran,
            calls,
        );
    crate::platform::lemma_carried_on(start, before, at, calls, end);
    if calls.len() == 0 {
        assert(before + calls =~= before);
    } else {
        assert((before + calls).drop_last() =~= before);
        assert((before + calls).last() == calls.last());
    }
    before + calls
}

/// An error that ends a session after other calls were made adds its own call to them.
proof fn lemma_error_ends_on<P: PlatformAdapter>(
    start: P,
    before: Seq<PlatformCall>,
    at: P,
    guarded: bool,
    reason: Seq<char>,
    message: Seq<char>,
    end: P,
) -> (after: Seq<PlatformCall>)
    requires
        crate::platform::carried(start, before, at),
        exists|calls: Seq<PlatformCall>| #[trigger]
            crate::platform::carried(at, calls, end) && error_ends(
                guarded,
                reason,
                Seq::empty(),
                message,
                calls,
            ),
    ensures
        crate::platform::carried(start, after, end),
        error_ends(guarded, reason, before, message, after),
{
    let calls = choose|calls: Seq<PlatformCall>| #[trigger]
        crate::platform::carried(at, calls, end) && error_ends(
            guarded,
            reason,
            Seq::empty(),
            message,
            calls,
        );
    crate::platform::lemma_carried_on(start, before, at, calls, end);
    if calls.len() == 0 {
        assert(before + calls =~= before);
    } else {
        assert((before + calls).drop_last() =~= before);
        assert((before + calls).last() == calls.last());
    }
    before + calls
}

/// A session and what was executed while it lasted.
#[derive(Debug, PartialEq, Eq)]
pub struct PeerTransportSessionExecution {
    pub hello: PeerTransportSessionHello,
    pub outcomes: Vec<PeerTransportCommandExecution>,
}

/// How far a session has come.
pub struct SessionModel {
    pub outcomes: Seq<ExecutionModel>,
    pub guarded: bool,
    pub expected: u64,
}

/// What a read means to a session that is open.
pub enum FrameVerdict {
    Run { command: crate::wire::CommandModel },
    Beat,
    Close,
    Fail { reason: Seq<char> },
}

/// What a read means to a session that is open and expects a sequence number. Frames of the handshake
/// have no place any more.
pub open spec fn frame_verdict(expected: u64, read: SessionRead) -> FrameVerdict {
    match optional_frame(read) {
        Err(reason) => FrameVerdict::Fail { reason },
        Ok(None) => FrameVerdict::Close,
        Ok(Some(PeerTransportSessionFrame::Command { sequence, command })) => match accepted(
            expected,
            sequence,
        ) {
            Err(reason) => FrameVerdict::Fail { reason },
            Ok(_) => match crate::wire::read_command(command@) {
                Err(reason) => FrameVerdict::Fail { reason },
                Ok(command) => FrameVerdict::Run { command },
            },
        },
        Ok(Some(PeerTransportSessionFrame::Hello { .. })) => FrameVerdict::Fail {
            reason: "peer session received duplicate hello frame after session start"@,
        },
        Ok(Some(PeerTransportSessionFrame::AuthProof { .. })) => FrameVerdict::Fail {
            reason: "peer session received duplicate auth proof frame after session start"@,
        },
        Ok(Some(PeerTransportSessionFrame::SessionReady { .. })) => FrameVerdict::Fail {
            reason: "peer session received duplicate session ready frame after session start"@,
        },
        Ok(Some(PeerTransportSessionFrame::Heartbeat { sequence })) => match accepted(
            expected,
            sequence,
        ) {
            Err(reason) => FrameVerdict::Fail { reason },
            Ok(_) => FrameVerdict::Beat,
        },
    }
}

/// What the rest of a session comes to: every command is executed in turn, until the peer closes the
/// session or something goes wrong. However it ends, inputs that may be held are released, and nothing
/// is read after the frame that ended it.
pub open spec fn session_run(
    state: SessionModel,
    reads: Seq<SessionRead>,
    before: Seq<PlatformCall>,
    result: Result<Seq<ExecutionModel>, Seq<char>>,
    after: Seq<PlatformCall>,
) -> bool
    decreases reads.len(),
{
    &&& reads.len() > 0
    &&& match frame_verdict(state.expected, reads[0]) {
        FrameVerdict::Fail { reason } => {
            &&& reads.len() == 1
            &&& result is Err
            &&& error_ends(state.guarded, reason, before, result->Err_0, after)
        },
        FrameVerdict::Close => {
            &&& reads.len() == 1
            &&& if state.guarded {
                &&& releases(before, last_release(after), after)
                &&& match last_release(after) {
                    Ok(_) => result == Ok::<Seq<ExecutionModel>, Seq<char>>(
                        state.outcomes.push(ExecutionModel::InputsReleased),
                    ),
                    Err(error) => result == Err::<Seq<ExecutionModel>, Seq<char>>(error@),
                }
            } else {
                after == before && result == Ok::<Seq<ExecutionModel>, Seq<char>>(state.outcomes)
            }
        },
        FrameVerdict::Beat => session_run(
            SessionModel { expected: (state.expected + 1) as u64, ..state },
            reads.drop_first(),
            before,
            result,
            after,
        ),
        FrameVerdict::Run { command } => exists|
            ran: Result<ExecutionModel, Seq<char>>,
            mid: Seq<PlatformCall>,
        | #[trigger]
            command_runs(before, command, ran, mid) && match ran {
                Ok(outcome) => session_run(
                    SessionModel {
                        outcomes: state.outcomes.push(outcome),
                        guarded: guard_after(state.guarded, command),
                        expected: (state.expected + 1) as u64,
                    },
                    reads.drop_first(),
                    mid,
                    result,
                    after,
                ),
                Err(reason) => {
                    &&& reads.len() == 1
                    &&& result is Err
                    &&& error_ends(state.guarded, reason, mid, result->Err_0, after)
                },
            },
    }
}

/// The outcomes of a session.
pub open spec fn outcome_views(outcomes: Seq<PeerTransportCommandExecution>) -> Seq<ExecutionModel> {
    outcomes.map_values(|outcome: PeerTransportCommandExecution| outcome@)
}

/// What a session came to.
pub open spec fn session_outcome(result: Result<PeerTransportSessionExecution, PlatformError>) -> Result<
    Seq<ExecutionModel>,
    Seq<char>,
> {
    match result {
        Ok(execution) => Ok(outcome_views(execution.outcomes@)),
        Err(error) => Err(error@),
    }
}

/// A session that has just been opened.
pub open spec fn fresh_session() -> SessionModel {
    SessionModel { outcomes: Seq::empty(), guarded: false, expected: 0 }
}

/// Execute the commands of an open session until the peer closes it.
pub fn execute_peer_transport_session_frames_until_closed<R: PeerFrameSource, P: PlatformAdapter>(
    reader: &mut R,
    platform: &mut P,
    hello: PeerTransportSessionHello,
) -> (result: Result<PeerTransportSessionExecution, PlatformError>)
    ensures
        exists|reads: Seq<SessionRead>, calls: Seq<PlatformCall>| #[trigger]
            given(*old(reader), reads, *final(reader)) && #[trigger] crate::platform::carried(
                *old(platform),
                calls,
                *final(platform),
            ) && session_run(
                fresh_session(),
                reads,
                Seq::empty(),
                session_outcome(result),
                calls,
            ),
        result matches Ok(execution) ==> execution.hello == hello,
{
    let mut outcomes: Vec<PeerTransportCommandExecution> = Vec::new();
    let mut needs_release_on_close: bool = false;
    let mut sequence = PeerTransportSessionSequence::new();
    let ghost mut calls: Seq<PlatformCall> = Seq::empty();
    let ghost start = *platform;
    let ghost mut taken: Seq<SessionRead> = Seq::empty();
    let ghost source = *reader;
    proof {
        assert(outcome_views(outcomes@) =~= Seq::empty());
        assert(crate::platform::carried(start, calls, *platform));
        assert(given(source, taken, *reader));
        assert forall|rest: Seq<SessionRead>| #[trigger] (taken + rest) == rest by {
            assert(taken + rest =~= rest);
        }
    }
    loop
        invariant
            start == *old(platform),
            source == *old(reader),
            given(source, taken, *reader),
            crate::platform::carried(start, calls, *platform),
            forall|
                rest: Seq<SessionRead>,
                result: Result<Seq<ExecutionModel>, Seq<char>>,
                after: Seq<PlatformCall>,
            | #[trigger]
                session_run(
                    SessionModel {
                        outcomes: outcome_views(outcomes@),
                        guarded: needs_release_on_close,
                        expected: sequence.expected,
                    },
                    rest,
                    calls,
                    result,
                    after,
                ) ==> session_run(fresh_session(), taken + rest, Seq::empty(), result, after),
        decreases u64::MAX - sequence.expected,
    {
        let ghost state = SessionModel {
            outcomes: outcome_views(outcomes@),
            guarded: needs_release_on_close,
            expected: sequence.expected,
        };
        let ghost before = calls;
        let ghost at = *platform;
        let ghost here = *reader;
        let ghost earlier_reads = taken;
        let frame = read_optional_peer_transport_session_frame(reader);
        let ghost read = choose|read: SessionRead| #[trigger]
            R::gives(here, read, *reader) && told(optional_frame(read), frame);
        proof {
            lemma_one_more_read(source, taken, here, read, *reader);
            taken = taken.push(read);
            assert(earlier_reads + seq![read] =~= taken);
        }
        match frame {
            Err(error) => {
                let ghost reason = error@;
                let error = release_peer_transport_inputs_after_error(
                    platform,
                    needs_release_on_close,
                    error,
                );
                proof {
                    let after = lemma_error_ends_on(
                        start,
                        calls,
                        at,
                        needs_release_on_close,
                        reason,
                        error@,
                        *platform,
                    );
                    assert(session_run(
                        state,
                        seq![read],
                        before,
                        Err::<Seq<ExecutionModel>, Seq<char>>(error@),
                        after,
                    ));
                }
                return Err(error);
            },
            Ok(Some(PeerTransportSessionFrame::Command { sequence: received, command: payload })) => {
                if let Err(error) = sequence.accept(received) {
                    let ghost reason = error@;
                    let error = release_peer_transport_inputs_after_error(
                        platform,
                        needs_release_on_close,
                        error,
                    );
                    proof {
                        let after = lemma_error_ends_on(
                            start,
                            calls,
                            at,
                            needs_release_on_close,
                            reason,
                            error@,
                            *platform,
                        );
                        assert(session_run(
                            state,
                            seq![read],
                            before,
                            Err::<Seq<ExecutionModel>, Seq<char>>(error@),
                            after,
                        ));
                    }
                    return Err(error);
                }
                let command = match payload.into_command() {
                    Ok(command) => command,
                    Err(error) => {
                        let ghost reason = error@;
                        let error = release_peer_transport_inputs_after_error(
                            platform,
                            needs_release_on_close,
                            error,
                        );
                        proof {
                            let after = lemma_error_ends_on(
                                start,
                                calls,
                                at,
                                needs_release_on_close,
                                reason,
                                error@,
                                *platform,
                            );
                            assert(session_run(
                                state,
                                seq![read],
                                before,
                                Err::<Seq<ExecutionModel>, Seq<char>>(error@),
                                after,
                            ));
                        }
                        return Err(error);
                    },
                };
                let ran = execute_peer_transport_command(platform, &command);
                let ghost ended = *platform;
                proof {
                    calls = lemma_command_runs_on(
                        start,
                        before,
                        at,
                        command@,
                        outcome_model(ran),
                        ended,
                    );
                }
                let ghost mid = calls;
                match ran {
                    Ok(outcome) => {
                        update_peer_transport_release_guard(&mut needs_release_on_close, &command);
                        let ghost earlier = outcomes@;
                        outcomes.push(outcome);
                        proof {
                            assert(outcome_views(outcomes@) =~= outcome_views(earlier).push(
                                outcome@,
                            ));
                            let next = SessionModel {
                                outcomes: outcome_views(outcomes@),
                                guarded: needs_release_on_close,
                                expected: sequence.expected,
                            };
                            assert forall|
                                rest: Seq<SessionRead>,
                                result: Result<Seq<ExecutionModel>, Seq<char>>,
                                after: Seq<PlatformCall>,
                            | #[trigger]
                                session_run(
                                    next,
                                    rest,
                                    mid,
                                    result,
                                    after,
                                ) implies session_run(
                                fresh_session(),
                                taken + rest,
                                Seq::empty(),
                                result,
                                after,
                            ) by {
                                let reads = seq![read] + rest;
                                assert(reads.drop_first() =~= rest);
                                assert(session_run(state, reads, before, result, after));
                                assert(earlier_reads + reads =~= taken + rest);
                            }
                        }
                    },
                    Err(error) => {
                        let ghost reason = error@;
                        let error = release_peer_transport_inputs_after_error(
                            platform,
                            needs_release_on_close,
                            error,
                        );
                        proof {
                            let after = lemma_error_ends_on(
                                start,
                                calls,
                                ended,
                                needs_release_on_close,
                                reason,
                                error@,
                                *platform,
                            );
                            assert(session_run(
                                state,
                                seq![read],
                                before,
                                Err::<Seq<ExecutionModel>, Seq<char>>(error@),
                                after,
                            ));
                        }
                        return Err(error);
                    },
                }
            },
            Ok(Some(PeerTransportSessionFrame::Hello { .. })) => {
                let error = release_peer_transport_inputs_after_error(
                    platform,
                    needs_release_on_close,
                    PlatformError::new(
                        "peer session received duplicate hello frame after session start",
                    ),
                );
                proof {
                    let after = lemma_error_ends_on(
                        start,
                        calls,
                        at,
                        needs_release_on_close,
                        "peer session received duplicate hello frame after session start"@,
                        error@,
                        *platform,
                    );
                    assert(session_run(
                        state,
                        seq![read],
                        before,
                        Err::<Seq<ExecutionModel>, Seq<char>>(error@),
                        after,
                    ));
                }
                return Err(error);
            },
            Ok(Some(PeerTransportSessionFrame::AuthProof { .. })) => {
                let error = release_peer_transport_inputs_after_error(
                    platform,
                    needs_release_on_close,
                    PlatformError::new(
                        "peer session received duplicate auth proof frame after session start",
                    ),
                );
                proof {
                    let after = lemma_error_ends_on(
                        start,
                        calls,
                        at,
                        needs_release_on_close,
                        "peer session received duplicate auth proof frame after session start"@,
                        error@,
                        *platform,
                    );
                    assert(session_run(
                        state,
                        seq![read],
                        before,
                        Err::<Seq<ExecutionModel>, Seq<char>>(error@),
                        after,
                    ));
                }
                return Err(error);
            },
            Ok(Some(PeerTransportSessionFrame::SessionReady { .. })) => {
                let error = release_peer_transport_inputs_after_error(
                    platform,
                    needs_release_on_close,
                    PlatformError::new(
                        "peer session received duplicate session ready frame after session start",
                    ),
                );
                proof {
                    let after = lemma_error_ends_on(
                        start,
                        calls,
                        at,
                        needs_release_on_close,
                        "peer session received duplicate session ready frame after session start"@,
                        error@,
                        *platform,
                    );
                    assert(session_run(
                        state,
                        seq![read],
                        before,
                        Err::<Seq<ExecutionModel>, Seq<char>>(error@),
                        after,
                    ));
                }
                return Err(error);
            },
            Ok(Some(PeerTransportSessionFrame::Heartbeat { sequence: received })) => {
                if let Err(error) = sequence.accept(received) {
                    let ghost reason = error@;
                    let error = release_peer_transport_inputs_after_error(
                        platform,
                        needs_release_on_close,
                        error,
                    );
                    proof {
                        let after = lemma_error_ends_on(
                            start,
                            calls,
                            at,
                            needs_release_on_close,
                            reason,
                            error@,
                            *platform,
                        );
                        assert(session_run(
                            state,
                            seq![read],
                            before,
                            Err::<Seq<ExecutionModel>, Seq<char>>(error@),
                            after,
                        ));
                    }
                    return Err(error);
                }
                proof {
                    let next = SessionModel { expected: sequence.expected, ..state };
                    assert forall|
                        rest: Seq<SessionRead>,
                        result: Result<Seq<ExecutionModel>, Seq<char>>,
                        after: Seq<PlatformCall>,
                    | #[trigger]
                        session_run(
                            next,
                            rest,
                            before,
                            result,
                            after,
                        ) implies session_run(
                        fresh_session(),
                        taken + rest,
                        Seq::empty(),
                        result,
                        after,
                    ) by {
                        let reads = seq![read] + rest;
                        assert(reads.drop_first() =~= rest);
                        assert(session_run(state, reads, before, result, after));
                        assert(earlier_reads + reads =~= taken + rest);
                    }
                }
            },
            Ok(None) => {
                if needs_release_on_close {
                    let answer = platform.release_all();
                    proof {
                        let call = PlatformCall::ReleaseAll { released: answer };
                        crate::platform::lemma_one_call(at, call, *platform);
                        crate::platform::lemma_carried_on(
                            start,
                            before,
                            at,
                            seq![call],
                            *platform,
                        );
                        calls = before + seq![call];
                        assert(calls.drop_last() =~= before);
                        assert(calls.last() == call);
                    }
                    match answer {
                        Ok(()) => {
                            let ghost earlier = outcomes@;
                            outcomes.push(PeerTransportCommandExecution::InputsReleased);
                            proof {
                                assert(outcome_views(outcomes@) =~= outcome_views(earlier).push(
                                    ExecutionModel::InputsReleased,
                                ));
                            }
                        },
                        Err(error) => {
                            proof {
                                assert(session_run(
                                    state,
                                    seq![read],
                                    before,
                                    Err::<Seq<ExecutionModel>, Seq<char>>(error@),
                                    calls,
                                ));
                            }
                            return Err(error);
                        },
                    }
                }
                proof {
                    assert(session_run(
                        state,
                        seq![read],
                        before,
                        Ok::<Seq<ExecutionModel>, Seq<char>>(outcome_views(outcomes@)),
                        calls,
                    ));
                }
                return Ok(PeerTransportSessionExecution { hello, outcomes });
            },
        }
    }
}

/// Whether input that was injected is still held: everything was not asked to be released since.
pub open spec fn input_held(calls: Seq<PlatformCall>) -> bool
    decreases calls.len(),
{
    if calls.len() == 0 {
        false
    } else {
        match calls.last() {
            PlatformCall::ReleaseAll { .. } => false,
            PlatformCall::InjectInput { injected: Ok(_), .. } => true,
            _ => input_held(calls.drop_last()),
        }
    }
}

/// A session never ends with input still held: whatever was injected while it lasted, the platform
/// was asked afterwards to release everything, whether the peer closed the session, a frame was bad
/// or the platform itself failed.
pub proof fn session_never_ends_with_input_held(
    state: SessionModel,
    reads: Seq<SessionRead>,
    before: Seq<PlatformCall>,
    result: Result<Seq<ExecutionModel>, Seq<char>>,
    after: Seq<PlatformCall>,
)
    requires
        session_run(state, reads, before, result, after),
        input_held(before) ==> state.guarded,
    ensures
        !input_held(after),
    decreases reads.len(),
{
    match frame_verdict(state.expected, reads[0]) {
        FrameVerdict::Fail { .. } => {},
        FrameVerdict::Close => {},
        FrameVerdict::Beat => {
            session_never_ends_with_input_held(
                SessionModel { expected: (state.expected + 1) as u64, ..state },
                reads.drop_first(),
                before,
                result,
                after,
            );
        },
        FrameVerdict::Run { command } => {
            let (ran, mid) = choose|
                ran: Result<ExecutionModel, Seq<char>>,
                mid: Seq<PlatformCall>,
            | #[trigger]
                command_runs(before, command, ran, mid) && match ran {
                    Ok(outcome) => session_run(
                        SessionModel {
                            outcomes: state.outcomes.push(outcome),
                            guarded: guard_after(state.guarded, command),
                            expected: (state.expected + 1) as u64,
                        },
                        reads.drop_first(),
                        mid,
                        result,
                        after,
                    ),
                    Err(reason) => {
                        &&& reads.len() == 1
                        &&& result is Err
                        &&& error_ends(state.guarded, reason, mid, result->Err_0, after)
                    },
                };
            match ran {
                Ok(outcome) => {
                    session_never_ends_with_input_held(
                        SessionModel {
                            outcomes: state.outcomes.push(outcome),
                            guarded: guard_after(state.guarded, command),
                            expected: (state.expected + 1) as u64,
                        },
                        reads.drop_first(),
                        mid,
                        result,
                        after,
                    );
                },
                Err(_) => {},
            }
        },
    }
}

/// Thirty-two zero bytes, which stand for what a secure channel would add.
pub open spec fn no_bytes() -> Seq<u8> {
    Seq::new(32, |i: int| 0u8)
}

/// Whether a transcript is that of a session opened without a secure channel.
pub open spec fn is_pre_tls_transcript(
    transcript: AuthTranscript,
    local_device_id: Seq<char>,
    remote_device_id: Seq<char>,
    local_nonce: Seq<u8>,
    local_capabilities: CapabilityFlags,
    remote_capabilities: CapabilityFlags,
) -> bool {
    &&& transcript.local_device_id@ == local_device_id
    &&& transcript.remote_device_id@ == remote_device_id
    &&& transcript.local_nonce@ == local_nonce
    &&& transcript.remote_nonce@ == no_bytes()
    &&& transcript.protocol == crate::protocol::current_version()
    &&& transcript.local_capabilities == local_capabilities
    &&& transcript.remote_capabilities == remote_capabilities
    &&& transcript.role == PeerRole::Initiator
    &&& transcript.tls_exporter@ == no_bytes()
}

/// The transcript of the side that opens a session.
pub fn build_pre_tls_initiator_auth_transcript(
    local_device_id: &str,
    remote_device_id: &str,
    local_nonce: [u8; 32],
    local_capabilities: CapabilityFlags,
    remote_capabilities: CapabilityFlags,
) -> (result: AuthTranscript)
    ensures
        is_pre_tls_transcript(
            result,
            local_device_id@,
            remote_device_id@,
            local_nonce@,
            local_capabilities,
            remote_capabilities,
        ),
{
    let zeros: [u8; 32] = [0; 32];
    proof {
        assert(zeros@ =~= no_bytes());
    }
    AuthTranscript {
        local_device_id: local_device_id.to_owned(),
        remote_device_id: remote_device_id.to_owned(),
        local_nonce,
        remote_nonce: zeros,
        protocol: ProtocolVersion::current(),
        local_capabilities,
        remote_capabilities,
        role: PeerRole::Initiator,
        tls_exporter: zeros,
    }
}

/// Whether this is said of a proof that was refused.
pub open spec fn is_rejected_proof<V: IdentityPublicKey>(
    peer: TrustedPeer<V>,
    error: crate::identity::AuthProofVerifyError<V::Error>,
    message: Seq<char>,
) -> bool where V::Error: ErrorText {
    exists|reason: Seq<char>| #[trigger]
        error.says(reason) && message == "peer session auth proof rejected for "@
            + peer.identity.peer_id@ + " ("@ + peer.identity.fingerprint@ + "): "@ + reason
}

/// What the rest of a session comes to once its peer is known: a proof, the end of the handshake, and
/// then the commands. The platform is left alone until both were in order.
pub open spec fn handshake_run<V: IdentityPublicKey>(
    peer: TrustedPeer<V>,
    expected_role: PeerRole,
    transcript: AuthTranscript,
    reads: Seq<SessionRead>,
    before: Seq<PlatformCall>,
    result: Result<Seq<ExecutionModel>, Seq<char>>,
    after: Seq<PlatformCall>,
) -> bool where V::Error: ErrorText {
    &&& reads.len() > 0
    &&& match read_proof(reads[0]) {
        Err(reason) => {
            &&& reads.len() == 1
            &&& after == before
            &&& result == Err::<Seq<ExecutionModel>, Seq<char>>(reason)
        },
        Ok(proof) => exists|
            checked: Result<(), crate::identity::AuthProofVerifyError<V::Error>>,
        | #[trigger]
            crate::identity::proof_checked(
                peer.identity.peer_id@,
                peer.public_key,
                expected_role,
                transcript,
                proof,
                checked,
            ) && match checked {
                Err(error) => {
                    &&& reads.len() == 1
                    &&& after == before
                    &&& result is Err
                    &&& is_rejected_proof(peer, error, result->Err_0)
                },
                Ok(_) => {
                    &&& reads.len() > 1
                    &&& match read_ready(reads[1]) {
                        Err(reason) => {
                            &&& reads.len() == 2
                            &&& after == before
                            &&& result == Err::<Seq<ExecutionModel>, Seq<char>>(reason)
                        },
                        Ok(ready) => if ready.sequence_base != 0 {
                            &&& reads.len() == 2
                            &&& after == before
                            &&& result == Err::<Seq<ExecutionModel>, Seq<char>>(
                                "peer session sequence base "@ + crate::text::decimal(
                                    ready.sequence_base as nat,
                                ) + " is not supported yet"@,
                            )
                        } else {
                            session_run(fresh_session(), reads.skip(2), before, result, after)
                        },
                    }
                },
            },
    }
}

/// Run the rest of a session whose peer is known.
fn execute_proven_session<R: PeerFrameSource, P: PlatformAdapter, V: IdentityPublicKey>(
    reader: &mut R,
    platform: &mut P,
    hello: PeerTransportSessionHello,
    trusted_peer: &TrustedPeer<V>,
    expected_role: PeerRole,
    transcript: &AuthTranscript,
) -> (result: Result<PeerTransportSessionExecution, PlatformError>) where V::Error: ErrorText
    ensures
        exists|reads: Seq<SessionRead>, calls: Seq<PlatformCall>| #[trigger]
            given(*old(reader), reads, *final(reader)) && #[trigger] crate::platform::carried(
                *old(platform),
                calls,
                *final(platform),
            ) && handshake_run(
                *trusted_peer,
                expected_role,
                *transcript,
                reads,
                Seq::empty(),
                session_outcome(result),
                calls,
            ),
        result matches Ok(execution) ==> execution.hello == hello,
{
    let ghost none = Seq::<SessionRead>::empty();
    let ghost source = *reader;
    assert(given(source, none, source));
    assert(crate::platform::carried(*platform, Seq::<PlatformCall>::empty(), *platform));
    let proof_read = read_peer_transport_session_auth_proof(reader);
    let ghost first = choose|read: SessionRead| #[trigger]
        R::gives(source, read, *reader) && told(read_proof(read), proof_read);
    proof {
        lemma_one_more_read(source, none, source, first, *reader);
    }
    let ghost one = none.push(first);
    assert(given(*old(reader), one, *reader));
    let proof = match proof_read {
        Ok(proof) => proof,
        Err(error) => {
            return Err(error);
        },
    };
    let checked = trusted_peer.verify_auth_proof(expected_role, transcript, &proof);
    assert(crate::identity::proof_checked(
        trusted_peer.identity.peer_id@,
        trusted_peer.public_key,
        expected_role,
        *transcript,
        proof,
        checked,
    ));
    match checked {
        Ok(()) => {},
        Err(error) => {
            let reason = error.message();
            assert(error.says(reason@));
            return Err(
                PlatformError::from_message(
                    "peer session auth proof rejected for ".to_owned().concat(
                        trusted_peer.identity.peer_id(),
                    ).concat(" (").concat(trusted_peer.identity.fingerprint()).concat(
                        "): ",
                    ).concat(reason.as_str()),
                ),
            );
        },
    }
    let ghost proven = *reader;
    let ready_read = read_peer_transport_session_ready(reader);
    let ghost second = choose|read: SessionRead| #[trigger]
        R::gives(proven, read, *reader) && told(read_ready(read), ready_read);
    proof {
        lemma_one_more_read(source, one, proven, second, *reader);
    }
    let ghost two = one.push(second);
    assert(given(*old(reader), two, *reader));
    let ready = match ready_read {
        Ok(ready) => ready,
        Err(error) => {
            return Err(error);
        },
    };
    if ready.sequence_base != 0 {
        return Err(
            PlatformError::from_message(
                "peer session sequence base ".to_owned().concat(
                    decimal_text(ready.sequence_base).as_str(),
                ).concat(" is not supported yet"),
            ),
        );
    }
    let ghost opened = *reader;
    let result = execute_peer_transport_session_frames_until_closed(reader, platform, hello);
    proof {
        let (rest, calls) = choose|rest: Seq<SessionRead>, calls: Seq<PlatformCall>| #[trigger]
            given(opened, rest, *reader) && #[trigger] crate::platform::carried(
                *old(platform),
                calls,
                *platform,
            ) && session_run(
                fresh_session(),
                rest,
                Seq::empty(),
                session_outcome(result),
                calls,
            );
        lemma_given_on(source, two, opened, rest, *reader);
        let reads = two + rest;
        assert(reads.skip(2) =~= rest);
        assert(reads[0] == first && reads[1] == second);
    }
    result
}

/// Execute a session whose peer proves nothing, until the peer closes it.
pub fn execute_peer_transport_session_stream_until_closed<R: PeerFrameSource, P: PlatformAdapter>(
    reader: &mut R,
    platform: &mut P,
) -> (result: Result<PeerTransportSessionExecution, PlatformError>)
    ensures
        exists|reads: Seq<SessionRead>, calls: Seq<PlatformCall>| #[trigger]
            given(*old(reader), reads, *final(reader)) && #[trigger] crate::platform::carried(
                *old(platform),
                calls,
                *final(platform),
            ) && reads.len() > 0 && match read_hello(reads[0]) {
                Err(reason) => {
                    &&& reads.len() == 1
                    &&& calls == Seq::<PlatformCall>::empty()
                    &&& session_outcome(result) == Err::<Seq<ExecutionModel>, Seq<char>>(reason)
                },
                Ok(hello) => {
                    &&& session_run(
                        fresh_session(),
                        reads.drop_first(),
                        Seq::empty(),
                        session_outcome(result),
                        calls,
                    )
                    &&& result matches Ok(execution) ==> execution.hello@ == hello
                },
            },
{
    let ghost none = Seq::<SessionRead>::empty();
    let ghost source = *reader;
    assert(given(source, none, source));
    assert(crate::platform::carried(*platform, Seq::<PlatformCall>::empty(), *platform));
    let hello_read = read_peer_transport_session_hello(reader);
    let ghost first = choose|read: SessionRead| #[trigger]
        R::gives(source, read, *reader) && read_hello(read) == (match hello_read {
            Ok(hello) => Ok::<HelloModel, Seq<char>>(hello@),
            Err(error) => Err::<HelloModel, Seq<char>>(error@),
        });
    proof {
        lemma_one_more_read(source, none, source, first, *reader);
    }
    let ghost one = none.push(first);
    assert(given(*old(reader), one, *reader));
    let hello = match hello_read {
        Ok(hello) => hello,
        Err(error) => {
            return Err(error);
        },
    };
    let ghost opened = *reader;
    let result = execute_peer_transport_session_frames_until_closed(reader, platform, hello);
    proof {
        let (rest, calls) = choose|rest: Seq<SessionRead>, calls: Seq<PlatformCall>| #[trigger]
            given(opened, rest, *reader) && #[trigger] crate::platform::carried(
                *old(platform),
                calls,
                *platform,
            ) && session_run(
                fresh_session(),
                rest,
                Seq::empty(),
                session_outcome(result),
                calls,
            );
        lemma_given_on(source, one, opened, rest, *reader);
        assert((one + rest).drop_first() =~= rest);
        assert((one + rest)[0] == first);
    }
    result
}

/// Execute a session of a peer that is known beforehand, once the peer has proven who it is.
pub fn execute_authenticated_peer_transport_session_stream_until_closed<
    R: PeerFrameSource,
    P: PlatformAdapter,
    V: IdentityPublicKey,
>(
    reader: &mut R,
    platform: &mut P,
    trusted_peer: &TrustedPeer<V>,
    expected_role: PeerRole,
    transcript: &AuthTranscript,
) -> (result: Result<PeerTransportSessionExecution, PlatformError>) where V::Error: ErrorText
    ensures
        exists|reads: Seq<SessionRead>, calls: Seq<PlatformCall>| #[trigger]
            given(*old(reader), reads, *final(reader)) && #[trigger] crate::platform::carried(
                *old(platform),
                calls,
                *final(platform),
            ) && reads.len() > 0 && match read_hello(reads[0]) {
                Err(reason) => {
                    &&& reads.len() == 1
                    &&& calls == Seq::<PlatformCall>::empty()
                    &&& session_outcome(result) == Err::<Seq<ExecutionModel>, Seq<char>>(reason)
                },
                Ok(hello) => {
                    &&& handshake_run(
                        *trusted_peer,
                        expected_role,
                        *transcript,
                        reads.drop_first(),
                        Seq::empty(),
                        session_outcome(result),
                        calls,
                    )
                    &&& result matches Ok(execution) ==> execution.hello@ == hello
                },
            },
{
    let ghost none = Seq::<SessionRead>::empty();
    let ghost source = *reader;
    assert(given(source, none, source));
    assert(crate::platform::carried(*platform, Seq::<PlatformCall>::empty(), *platform));
    let hello_read = read_peer_transport_session_hello(reader);
    let ghost first = choose|read: SessionRead| #[trigger]
        R::gives(source, read, *reader) && read_hello(read) == (match hello_read {
            Ok(hello) => Ok::<HelloModel, Seq<char>>(hello@),
            Err(error) => Err::<HelloModel, Seq<char>>(error@),
        });
    proof {
        lemma_one_more_read(source, none, source, first, *reader);
    }
    let ghost one = none.push(first);
    assert(given(*old(reader), one, *reader));
    let hello = match hello_read {
        Ok(hello) => hello,
        Err(error) => {
            return Err(error);
        },
    };
    let ghost opened = *reader;
    let result = execute_proven_session(
        reader,
        platform,
        hello,
        trusted_peer,
        expected_role,
        transcript,
    );
    proof {
        let (rest, calls) = choose|rest: Seq<SessionRead>, calls: Seq<PlatformCall>| #[trigger]
            given(opened, rest, *reader) && #[trigger] crate::platform::carried(
                *old(platform),
                calls,
                *platform,
            ) && handshake_run(
                *trusted_peer,
                expected_role,
                *transcript,
                rest,
                Seq::empty(),
                session_outcome(result),
                calls,
            );
        lemma_given_on(source, one, opened, rest, *reader);
        assert((one + rest).drop_first() =~= rest);
        assert((one + rest)[0] == first);
    }
    result
}

/// What a paired session comes to once its peer was looked up.
pub open spec fn paired_run(
    hello: HelloModel,
    local_device_id: Seq<char>,
    looked_up: Result<TrustedPeer<Ed25519PublicKey>, PlatformError>,
    reads: Seq<SessionRead>,
    before: Seq<PlatformCall>,
    result: Result<Seq<ExecutionModel>, Seq<char>>,
    after: Seq<PlatformCall>,
) -> bool {
    match looked_up {
        Err(error) => {
            &&& reads.len() == 0
            &&& after == before
            &&& result == Err::<Seq<ExecutionModel>, Seq<char>>(error@)
        },
        Ok(peer) => match hello.nonce {
            None => {
                &&& reads.len() == 0
                &&& after == before
                &&& result == Err::<Seq<ExecutionModel>, Seq<char>>(
                    "peer session hello is missing authentication nonce"@,
                )
            },
            Some(nonce) => exists|transcript: AuthTranscript| #[trigger]
                is_pre_tls_transcript(
                    transcript,
                    hello.device_id,
                    local_device_id,
                    nonce@,
                    hello.capabilities,
                    crate::protocol::session_capabilities(),
                ) && handshake_run(
                    peer,
                    PeerRole::Initiator,
                    transcript,
                    reads,
                    before,
                    result,
                    after,
                ),
        },
    }
}

/// Execute a session of a paired peer, which its hello names and a lookup knows.
pub fn execute_paired_peer_transport_session_stream_until_closed<
    R: PeerFrameSource,
    P: PlatformAdapter,
    F: FnOnce(&DeviceId) -> Result<TrustedPeer<Ed25519PublicKey>, PlatformError>,
>(reader: &mut R, platform: &mut P, local_device_id: &DeviceId, trusted_peer_lookup: F) -> (result:
    Result<PeerTransportSessionExecution, PlatformError>)
    requires
        forall|device: &DeviceId| #[trigger] trusted_peer_lookup.requires((device,)),
    ensures
        exists|reads: Seq<SessionRead>, calls: Seq<PlatformCall>| #[trigger]
            given(*old(reader), reads, *final(reader)) && #[trigger] crate::platform::carried(
                *old(platform),
                calls,
                *final(platform),
            ) && reads.len() > 0 && match read_hello(reads[0]) {
                Err(reason) => {
                    &&& reads.len() == 1
                    &&& calls == Seq::<PlatformCall>::empty()
                    &&& session_outcome(result) == Err::<Seq<ExecutionModel>, Seq<char>>(reason)
                },
                Ok(hello) => {
                    &&& exists|
                        device: DeviceId,
                        looked_up: Result<TrustedPeer<Ed25519PublicKey>, PlatformError>,
                    |
                        device@ == hello.device_id && #[trigger] trusted_peer_lookup.ensures(
                            (&device,),
                            looked_up,
                        ) && paired_run(
                            hello,
                            local_device_id@,
                            looked_up,
                            reads.drop_first(),
                            Seq::empty(),
                            session_outcome(result),
                            calls,
                        )
                    &&& result matches Ok(execution) ==> execution.hello@ == hello
                },
            },
{
    let ghost none = Seq::<SessionRead>::empty();
    let ghost source = *reader;
    assert(given(source, none, source));
    assert(crate::platform::carried(*platform, Seq::<PlatformCall>::empty(), *platform));
    let hello_read = read_peer_transport_session_hello(reader);
    let ghost first = choose|read: SessionRead| #[trigger]
        R::gives(source, read, *reader) && read_hello(read) == (match hello_read {
            Ok(hello) => Ok::<HelloModel, Seq<char>>(hello@),
            Err(error) => Err::<HelloModel, Seq<char>>(error@),
        });
    proof {
        lemma_one_more_read(source, none, source, first, *reader);
    }
    let ghost one = none.push(first);
    assert(given(*old(reader), one, *reader));
    let hello = match hello_read {
        Ok(hello) => hello,
        Err(error) => {
            return Err(error);
        },
    };
    assert(one.drop_first() =~= none);
    let ghost device = hello.device_id;
    let ghost known = hello@;
    let looked_up = trusted_peer_lookup(&hello.device_id);
    let ghost found = looked_up;
    assert(trusted_peer_lookup.ensures((&device,), found));
    let trusted_peer = match looked_up {
        Ok(peer) => peer,
        Err(error) => {
            return Err(error);
        },
    };
    let nonce: [u8; 32] = match hello.nonce {
        Some(nonce) => nonce,
        None => {
            return Err(PlatformError::new("peer session hello is missing authentication nonce"));
        },
    };
    let transcript = build_pre_tls_initiator_auth_transcript(
        hello.device_id.as_str(),
        local_device_id.as_str(),
        nonce,
        hello.capabilities,
        peer_session_capabilities(),
    );
    assert(is_pre_tls_transcript(
        transcript,
        known.device_id,
        local_device_id@,
        known.nonce->Some_0@,
        known.capabilities,
        crate::protocol::session_capabilities(),
    ));
    let ghost opened = *reader;
    let result = execute_proven_session(
        reader,
        platform,
        hello,
        &trusted_peer,
        PeerRole::Initiator,
        &transcript,
    );
    proof {
        let (rest, calls) = choose|rest: Seq<SessionRead>, calls: Seq<PlatformCall>| #[trigger]
            given(opened, rest, *reader) && #[trigger] crate::platform::carried(
                *old(platform),
                calls,
                *platform,
            ) && handshake_run(
                trusted_peer,
                PeerRole::Initiator,
                transcript,
                rest,
                Seq::empty(),
                session_outcome(result),
                calls,
            );
        lemma_given_on(source, one, opened, rest, *reader);
        assert((one + rest).drop_first() =~= rest);
        assert((one + rest)[0] == first);
        assert(paired_run(
            known,
            local_device_id@,
            found,
            rest,
            Seq::empty(),
            session_outcome(result),
            calls,
        ));
    }
    result
}

/// The platform is left alone by a peer whose proof was refused, and by one that sends commands
/// before it has proven who it is.
pub proof fn unproven_peer_never_reaches_the_platform<V: IdentityPublicKey>(
    peer: TrustedPeer<V>,
    expected_role: PeerRole,
    transcript: AuthTranscript,
    reads: Seq<SessionRead>,
    before: Seq<PlatformCall>,
    result: Result<Seq<ExecutionModel>, Seq<char>>,
    after: Seq<PlatformCall>,
) where V::Error: ErrorText
    requires
        handshake_run(peer, expected_role, transcript, reads, before, result, after),
        read_proof(reads[0]) matches Ok(proof) ==> forall|
            checked: Result<(), crate::identity::AuthProofVerifyError<V::Error>>,
        | #[trigger]
            crate::identity::proof_checked(
                peer.identity.peer_id@,
                peer.public_key,
                expected_role,
                transcript,
                proof,
                checked,
            ) ==> checked is Err,
    ensures
        after == before,
        result is Err,
{
}

/// What a side that opens a session sends first.
#[derive(Debug, PartialEq, Eq)]
pub struct PeerSessionPrelude {
    pub local_device_id: DeviceId,
    pub hello: PeerTransportSessionFrame,
    pub proof: PeerTransportSessionFrame,
    pub ready: PeerTransportSessionFrame,
}

/// The hello of a side that opens a session.
pub open spec fn is_hello(
    frame: PeerTransportSessionFrame,
    device: Seq<char>,
    peer: Seq<char>,
    number: Option<[u8; 32]>,
) -> bool {
    match frame {
        PeerTransportSessionFrame::Hello { protocol, device_id, peer_id, nonce, capabilities } => {
            &&& protocol.major == crate::protocol::PROTOCOL_MAJOR
            &&& protocol.minor == crate::protocol::PROTOCOL_MINOR
            &&& device_id@ == device
            &&& peer_id@ == peer
            &&& nonce == number
            &&& capabilities == crate::protocol::session_capabilities()
        },
        _ => false,
    }
}

/// The hello of a side that opens a session.
pub fn session_hello(local_device_id: &str, peer_id: &str, nonce: Option<[u8; 32]>) -> (result:
    PeerTransportSessionFrame)
    ensures
        is_hello(result, local_device_id@, peer_id@, nonce),
{
    PeerTransportSessionFrame::Hello {
        protocol: PeerTransportProtocolVersion::current(),
        device_id: local_device_id.to_owned(),
        peer_id: peer_id.to_owned(),
        nonce,
        capabilities: peer_session_capabilities(),
    }
}

/// Whether frames open a session between two devices with a proof.
pub open spec fn is_prelude<S: IdentitySecretKey>(
    prelude: PeerSessionPrelude,
    peer_id: Seq<char>,
    local: LocalIdentity<S>,
    peer: TrustedPeer<Ed25519PublicKey>,
    nonce: [u8; 32],
) -> bool {
    &&& prelude.local_device_id@ == local.identity.device_id@
    &&& is_hello(prelude.hello, local.identity.device_id@, peer_id, Some(nonce))
    &&& prelude.proof matches PeerTransportSessionFrame::AuthProof { proof } && exists|
        transcript: AuthTranscript,
    | #[trigger]
        is_pre_tls_transcript(
            transcript,
            local.identity.device_id@,
            peer.identity.peer_id@,
            nonce@,
            crate::protocol::session_capabilities(),
            peer.identity.capabilities,
        ) && crate::identity::proof_made(
            local.identity.device_id@,
            local.secret_key,
            PeerRole::Initiator,
            transcript,
            Ok::<AuthProof, crate::identity::AuthProofSignError<S::Error>>(proof),
        )
    &&& prelude.ready matches PeerTransportSessionFrame::SessionReady { ready }
        && ready.session_id@ == local.identity.device_id@ + "->"@ + peer.identity.peer_id@
        && ready.sequence_base == 0 && ready.capabilities.bits
        == crate::protocol::session_capabilities().bits & peer.identity.capabilities.bits
}

/// What making the prelude of a session comes to: the peer must be the one that was asked for, and
/// the signer decides the rest.
pub open spec fn prelude_made<S: IdentitySecretKey>(
    peer_id: Seq<char>,
    local: LocalIdentity<S>,
    peer: TrustedPeer<Ed25519PublicKey>,
    nonce: [u8; 32],
    result: Result<PeerSessionPrelude, PlatformError>,
) -> bool where S::Error: ErrorText {
    if peer.identity.peer_id@ != peer_id {
        result matches Err(error) && error@ == "trusted peer id "@ + peer.identity.peer_id@
            + " does not match requested peer "@ + peer_id
    } else {
        match result {
            Ok(prelude) => is_prelude(prelude, peer_id, local, peer, nonce),
            Err(error) => exists|
                transcript: AuthTranscript,
                reason: crate::identity::AuthProofSignError<S::Error>,
            |
                is_pre_tls_transcript(
                    transcript,
                    local.identity.device_id@,
                    peer.identity.peer_id@,
                    nonce@,
                    crate::protocol::session_capabilities(),
                    peer.identity.capabilities,
                ) && #[trigger] crate::identity::proof_made(
                    local.identity.device_id@,
                    local.secret_key,
                    PeerRole::Initiator,
                    transcript,
                    Err::<AuthProof, crate::identity::AuthProofSignError<S::Error>>(reason),
                ) && exists|words: Seq<char>| #[trigger]
                    reason.says(words) && error@
                        == "failed to sign peer session auth proof for "@ + peer_id + ": "@
                        + words,
        }
    }
}

/// Make what opens a session with a proof, from a nonce.
pub fn build_session_prelude<S: IdentitySecretKey>(
    peer_id: &PeerId,
    local_identity: &LocalIdentity<S>,
    trusted_peer: &TrustedPeer<Ed25519PublicKey>,
    local_nonce: [u8; 32],
) -> (result: Result<PeerSessionPrelude, PlatformError>) where S::Error: ErrorText
    ensures
        prelude_made(peer_id@, *local_identity, *trusted_peer, local_nonce, result),
{
    if !same(trusted_peer.identity.peer_id(), peer_id.as_str()) {
        return Err(
            PlatformError::from_message(
                "trusted peer id ".to_owned().concat(trusted_peer.identity.peer_id()).concat(
                    " does not match requested peer ",
                ).concat(peer_id.as_str()),
            ),
        );
    }
    let device_id = local_identity.identity.device_id();
    let local_capabilities = peer_session_capabilities();
    let remote_capabilities = trusted_peer.identity.capabilities();
    let transcript = build_pre_tls_initiator_auth_transcript(
        device_id,
        trusted_peer.identity.peer_id(),
        local_nonce,
        local_capabilities,
        remote_capabilities,
    );
    let made = local_identity.sign_auth_proof(PeerRole::Initiator, &transcript);
    assert(crate::identity::proof_made(
        local_identity.identity.device_id@,
        local_identity.secret_key,
        PeerRole::Initiator,
        transcript,
        made,
    ));
    match made {
        Err(error) => Err(
            PlatformError::from_message(
                "failed to sign peer session auth proof for ".to_owned().concat(
                    peer_id.as_str(),
                ).concat(": ").concat(error.message().as_str()),
            ),
        ),
        Ok(proof) => Ok(
            PeerSessionPrelude {
                local_device_id: DeviceId::new(device_id),
                hello: session_hello(device_id, peer_id.as_str(), Some(local_nonce)),
                proof: PeerTransportSessionFrame::AuthProof { proof },
                ready: PeerTransportSessionFrame::SessionReady {
                    ready: SessionReady {
                        session_id: device_id.to_owned().concat("->").concat(
                            trusted_peer.identity.peer_id(),
                        ),
                        sequence_base: 0,
                        capabilities: local_capabilities.intersection(remote_capabilities),
                    },
                },
            },
        ),
    }
}

/// Make what opens a session with a proof, from a fresh nonce.
pub fn connect_authenticated<S: IdentitySecretKey>(
    peer_id: &PeerId,
    local_identity: &LocalIdentity<S>,
    trusted_peer: &TrustedPeer<Ed25519PublicKey>,
) -> (result: Result<PeerSessionPrelude, PlatformError>) where S::Error: ErrorText
    ensures
        exists|nonce: [u8; 32]| #[trigger]
            prelude_made(peer_id@, *local_identity, *trusted_peer, nonce, result),
{
    let nonce: [u8; 32] = random_nonce();
    build_session_prelude(peer_id, local_identity, trusted_peer, nonce)
}

/// A device that opens a session with the key that its peer trusts, and with what its peer can do, is
/// admitted: the peer's check of the proof does not fail.
pub proof fn proven_peer_is_admitted(
    prelude: PeerSessionPrelude,
    local: LocalIdentity<crate::identity::Ed25519IdentityKey>,
    remote: TrustedPeer<Ed25519PublicKey>,
    trusted: TrustedPeer<Ed25519PublicKey>,
    nonce: [u8; 32],
    transcript: AuthTranscript,
    checked: Result<(), crate::identity::AuthProofVerifyError<crate::identity::IdentityKeyError>>,
)
    requires
        is_prelude(prelude, remote.identity.peer_id@, local, remote, nonce),
        remote.identity.capabilities == crate::protocol::session_capabilities(),
        trusted.identity.peer_id@ == local.identity.device_id@,
        trusted.public_key@ == crate::crypto::ed25519_public_key(local.secret_key@),
        crate::crypto::ed25519_is_public_key(trusted.public_key@),
        is_pre_tls_transcript(
            transcript,
            prelude.hello->Hello_device_id@,
            remote.identity.peer_id@,
            nonce@,
            prelude.hello->Hello_capabilities,
            crate::protocol::session_capabilities(),
        ),
        crate::identity::proof_checked(
            trusted.identity.peer_id@,
            trusted.public_key,
            PeerRole::Initiator,
            transcript,
            prelude.proof->proof,
            checked,
        ),
    ensures
        checked is Ok,
{
    let proof = prelude.proof->proof;
    let signed = choose|signed: AuthTranscript| #[trigger]
        is_pre_tls_transcript(
            signed,
            local.identity.device_id@,
            remote.identity.peer_id@,
            nonce@,
            crate::protocol::session_capabilities(),
            remote.identity.capabilities,
        ) && crate::identity::proof_made(
            local.identity.device_id@,
            local.secret_key,
            PeerRole::Initiator,
            signed,
            Ok::<
                AuthProof,
                crate::identity::AuthProofSignError<crate::identity::IdentityKeyError>,
            >(proof),
        );
    assert(crate::protocol::canonical(signed) == crate::protocol::canonical(transcript));
}

/// The sequence numbers of the frames that a side sends.
#[derive(Debug, Clone, Copy, PartialEq, Eq, Structural)]
pub struct PeerSessionSender {
    pub next_sequence: u64,
}

impl PeerSessionSender {
    pub fn new() -> (result: Self)
        ensures
            result.next_sequence == 0,
    {
        PeerSessionSender { next_sequence: 0 }
    }

    /// The number of the next frame. The last number that fits is never given out.
    pub fn next_sequence(&mut self) -> (result: Result<u64, PlatformError>)
        ensures
            match result {
                Ok(sequence) => {
                    &&& sequence == old(self).next_sequence
                    &&& final(self).next_sequence == old(self).next_sequence + 1
                },
                Err(error) => {
                    &&& old(self).next_sequence == u64::MAX
                    &&& *final(self) == *old(self)
                    &&& error@ == "peer session sequence number overflowed before frame write"@
                },
            },
    {
        let sequence: u64 = self.next_sequence;
        match sequence.checked_add(1) {
            Some(next) => {
                self.next_sequence = next;
                Ok(sequence)
            },
            None => Err(
                PlatformError::new("peer session sequence number overflowed before frame write"),
            ),
        }
    }

    /// The frame that carries a command.
    pub fn command_frame(&mut self, command: &DaemonTransportCommand) -> (result: Result<
        PeerTransportSessionFrame,
        PlatformError,
    >)
        ensures
            match result {
                Ok(frame) => {
                    &&& frame matches PeerTransportSessionFrame::Command {
                        sequence,
                        command: payload,
                    } && sequence == old(self).next_sequence && payload@
                        == crate::wire::spell_command(command@)
                    &&& final(self).next_sequence == old(self).next_sequence + 1
                },
                Err(error) => {
                    &&& old(self).next_sequence == u64::MAX
                    &&& *final(self) == *old(self)
                    &&& error@ == "peer session sequence number overflowed before frame write"@
                },
            },
    {
        match self.next_sequence() {
            Ok(sequence) => Ok(
                PeerTransportSessionFrame::Command {
                    sequence,
                    command: PeerTransportCommandPayload::from_command(command),
                },
            ),
            Err(error) => Err(error),
        }
    }

    /// The frame that says that this side is still there.
    pub fn heartbeat_frame(&mut self) -> (result: Result<PeerTransportSessionFrame, PlatformError>)
        ensures
            match result {
                Ok(frame) => {
                    &&& frame == (PeerTransportSessionFrame::Heartbeat {
                        sequence: old(self).next_sequence,
                    })
                    &&& final(self).next_sequence == old(self).next_sequence + 1
                },
                Err(error) => {
                    &&& old(self).next_sequence == u64::MAX
                    &&& *final(self) == *old(self)
                    &&& error@ == "peer session sequence number overflowed before frame write"@
                },
            },
    {
        match self.next_sequence() {
            Ok(sequence) => Ok(PeerTransportSessionFrame::Heartbeat { sequence }),
            Err(error) => Err(error),
        }
    }
}

/// A frame that one side numbers is the one that the other side expects, as long as each side counted
/// the same frames; both then expect the same next number.
pub proof fn sender_and_receiver_stay_in_step(next_sequence: u64, expected: u64)
    requires
        next_sequence == expected,
        next_sequence < u64::MAX,
    ensures
        accepted(expected, next_sequence) == Ok::<u64, Seq<char>>((next_sequence + 1) as u64),
{
}

/// A session may only be started with the peer that a connection is for.
pub fn validate_transport_command_peer(
    configured_peer_id: &PeerId,
    command: &DaemonTransportCommand,
) -> (result: Result<(), PlatformError>)
    ensures
        match command {
            DaemonTransportCommand::StartRemoteSession { peer_id, .. } => if peer_id@
                != configured_peer_id@ {
                result matches Err(error) && error@ == "peer transport configured for "@
                    + configured_peer_id@ + ", got start command for "@ + peer_id@
            } else {
                result is Ok
            },
            _ => result is Ok,
        },
{
    match command {
        DaemonTransportCommand::StartRemoteSession { peer_id, .. } => if same(
            peer_id.as_str(),
            configured_peer_id.as_str(),
        ) {
            Ok(())
        } else {
            Err(
                PlatformError::from_message(
                    "peer transport configured for ".to_owned().concat(
                        configured_peer_id.as_str(),
                    ).concat(", got start command for ").concat(peer_id.as_str()),
                ),
            )
        },
        _ => Ok(()),
    }
}

/// A session and the commands that came over it.
#[derive(Debug, PartialEq, Eq)]
pub struct PeerTransportSession {
    pub hello: PeerTransportSessionHello,
    pub commands: Vec<DaemonTransportCommand>,
}

/// Whether these reads bring the next command of a session, or what went wrong in its place, and this
/// number is expected next. Heartbeats are counted and passed over.
pub open spec fn command_taken(
    reads: Seq<SessionRead>,
    expected: u64,
    command: Result<crate::wire::CommandModel, Seq<char>>,
    next: u64,
) -> bool
    decreases reads.len(),
{
    &&& reads.len() > 0
    &&& match needed_frame(reads[0]) {
        Ok(PeerTransportSessionFrame::Command { sequence, command: payload }) => {
            &&& reads.len() == 1
            &&& match accepted(expected, sequence) {
                Err(reason) => refused(command, reason) && next == expected,
                Ok(following) => {
                    &&& command == crate::wire::read_command(payload@)
                    &&& next == following
                },
            }
        },
        Ok(PeerTransportSessionFrame::Heartbeat { sequence }) => match accepted(
            expected,
            sequence,
        ) {
            Err(reason) => reads.len() == 1 && refused(command, reason) && next == expected,
            Ok(following) => command_taken(reads.drop_first(), following, command, next),
        },
        Ok(PeerTransportSessionFrame::Hello { .. }) => {
            &&& reads.len() == 1
            &&& refused(command, "peer session received duplicate hello frame after session start"@)
            &&& next == expected
        },
        Ok(PeerTransportSessionFrame::AuthProof { .. }) => {
            &&& reads.len() == 1
            &&& refused(command, "peer session received auth proof frame after session start"@)
            &&& next == expected
        },
        Ok(PeerTransportSessionFrame::SessionReady { .. }) => {
            &&& reads.len() == 1
            &&& refused(command, "peer session received session ready frame after session start"@)
            &&& next == expected
        },
        Err(reason) => reads.len() == 1 && refused(command, reason) && next == expected,
    }
}

/// Whether there is no command, for this reason.
pub open spec fn refused(
    command: Result<crate::wire::CommandModel, Seq<char>>,
    reason: Seq<char>,
) -> bool {
    command == Err::<crate::wire::CommandModel, Seq<char>>(reason)
}

/// What a command that was read asks for, or what went wrong, in words.
pub open spec fn command_model(result: Result<DaemonTransportCommand, PlatformError>) -> Result<
    crate::wire::CommandModel,
    Seq<char>,
> {
    match result {
        Ok(command) => Ok(command@),
        Err(error) => Err(error@),
    }
}

/// Read the next command of a session.
pub fn read_peer_transport_session_command_with_sequence<R: PeerFrameSource>(
    reader: &mut R,
    sequence: &mut PeerTransportSessionSequence,
) -> (result: Result<DaemonTransportCommand, PlatformError>)
    ensures
        exists|reads: Seq<SessionRead>| #[trigger]
            given(*old(reader), reads, *final(reader)) && command_taken(
                reads,
                old(sequence).expected,
                command_model(result),
                final(sequence).expected,
            ),
{
    let ghost source = *reader;
    let ghost mut taken: Seq<SessionRead> = Seq::empty();
    proof {
        assert(given(source, taken, source));
        assert forall|rest: Seq<SessionRead>| #[trigger] (taken + rest) == rest by {
            assert(taken + rest =~= rest);
        }
    }
    loop
        invariant
            source == *old(reader),
            given(source, taken, *reader),
            forall|
                rest: Seq<SessionRead>,
                command: Result<crate::wire::CommandModel, Seq<char>>,
                next: u64,
            | #[trigger]
                command_taken(rest, sequence.expected, command, next) ==> command_taken(
                    taken + rest,
                    old(sequence).expected,
                    command,
                    next,
                ),
        decreases u64::MAX - sequence.expected,
    {
        let ghost here = *reader;
        let ghost earlier = taken;
        let ghost expected = sequence.expected;
        let frame = read_peer_transport_session_frame(reader);
        let ghost read = choose|read: SessionRead| #[trigger]
            R::gives(here, read, *reader) && told(needed_frame(read), frame);
        proof {
            lemma_one_more_read(source, taken, here, read, *reader);
            taken = taken.push(read);
            assert(earlier + seq![read] =~= taken);
        }
        let found = match frame {
            Err(error) => Err(error),
            Ok(PeerTransportSessionFrame::Command { sequence: received, command }) => {
                match sequence.accept(received) {
                    Ok(()) => command.into_command(),
                    Err(error) => Err(error),
                }
            },
            Ok(PeerTransportSessionFrame::Hello { .. }) => Err(
                PlatformError::new(
                    "peer session received duplicate hello frame after session start",
                ),
            ),
            Ok(PeerTransportSessionFrame::AuthProof { .. }) => Err(
                PlatformError::new("peer session received auth proof frame after session start"),
            ),
            Ok(PeerTransportSessionFrame::SessionReady { .. }) => Err(
                PlatformError::new("peer session received session ready frame after session start"),
            ),
            Ok(PeerTransportSessionFrame::Heartbeat { sequence: received }) => {
                match sequence.accept(received) {
                    Ok(()) => {
                        proof {
                            assert forall|
                                rest: Seq<SessionRead>,
                                command: Result<crate::wire::CommandModel, Seq<char>>,
                                next: u64,
                            | #[trigger]
                                command_taken(
                                    rest,
                                    sequence.expected,
                                    command,
                                    next,
                                ) implies command_taken(
                                taken + rest,
                                old(sequence).expected,
                                command,
                                next,
                            ) by {
                                let reads = seq![read] + rest;
                                assert(reads.drop_first() =~= rest);
                                assert(command_taken(reads, expected, command, next));
                                assert(earlier + reads =~= taken + rest);
                            }
                        }
                        continue;
                    },
                    Err(error) => Err(error),
                }
            },
        };
        proof {
            assert(command_taken(
                seq![read],
                expected,
                command_model(found),
                sequence.expected,
            ));
        }
        return found;
    }
}

/// What reading the next so many commands of a session comes to, after others: all of them, or what
/// went wrong first. Nothing is read after that.
pub open spec fn commands_taken(
    commands: Seq<crate::wire::CommandModel>,
    reads: Seq<SessionRead>,
    expected: u64,
    count: nat,
    result: Result<Seq<crate::wire::CommandModel>, Seq<char>>,
) -> bool
    decreases count,
{
    if count == 0 {
        &&& reads.len() == 0
        &&& result == Ok::<Seq<crate::wire::CommandModel>, Seq<char>>(commands)
    } else {
        exists|
            length: int,
            first: Result<crate::wire::CommandModel, Seq<char>>,
            next: u64,
        |
            0 <= length <= reads.len() && #[trigger] command_taken(
                reads.take(length),
                expected,
                first,
                next,
            ) && match first {
                Err(reason) => {
                    &&& length == reads.len()
                    &&& result == Err::<Seq<crate::wire::CommandModel>, Seq<char>>(reason)
                },
                Ok(command) => commands_taken(
                    commands.push(command),
                    reads.skip(length),
                    next,
                    (count - 1) as nat,
                    result,
                ),
            }
    }
}

/// What commands ask for.
pub open spec fn command_views(commands: Seq<DaemonTransportCommand>) -> Seq<
    crate::wire::CommandModel,
> {
    commands.map_values(|command: DaemonTransportCommand| command@)
}

/// What a session that was read holds, or what went wrong, in words.
pub open spec fn session_commands(result: Result<PeerTransportSession, PlatformError>) -> Result<
    Seq<crate::wire::CommandModel>,
    Seq<char>,
> {
    match result {
        Ok(session) => Ok(command_views(session.commands@)),
        Err(error) => Err(error@),
    }
}

/// Read the hello and the next so many commands of a session.
pub fn read_peer_transport_session<R: PeerFrameSource>(reader: &mut R, max_commands: usize) -> (result:
    Result<PeerTransportSession, PlatformError>)
    ensures
        exists|reads: Seq<SessionRead>| #[trigger]
            given(*old(reader), reads, *final(reader)) && reads.len() > 0 && match read_hello(
                reads[0],
            ) {
                Err(reason) => {
                    &&& reads.len() == 1
                    &&& session_commands(result) == Err::<
                        Seq<crate::wire::CommandModel>,
                        Seq<char>,
                    >(reason)
                },
                Ok(hello) => {
                    &&& commands_taken(
                        Seq::empty(),
                        reads.drop_first(),
                        0,
                        max_commands as nat,
                        session_commands(result),
                    )
                    &&& result matches Ok(session) ==> session.hello@ == hello
                },
            },
{
    let ghost none = Seq::<SessionRead>::empty();
    let ghost source = *reader;
    assert(given(source, none, source));
    let hello_read = read_peer_transport_session_hello(reader);
    let ghost first = choose|read: SessionRead| #[trigger]
        R::gives(source, read, *reader) && read_hello(read) == (match hello_read {
            Ok(hello) => Ok::<HelloModel, Seq<char>>(hello@),
            Err(error) => Err::<HelloModel, Seq<char>>(error@),
        });
    proof {
        lemma_one_more_read(source, none, source, first, *reader);
    }
    let ghost mut reads = none.push(first);
    assert(given(*old(reader), reads, *reader));
    let hello = match hello_read {
        Ok(hello) => hello,
        Err(error) => {
            return Err(error);
        },
    };
    let mut commands: Vec<DaemonTransportCommand> = Vec::new();
    let mut sequence = PeerTransportSessionSequence::new();
    let mut left: usize = max_commands;
    proof {
        assert(command_views(commands@) =~= Seq::empty());
        assert forall|rest: Seq<SessionRead>| #[trigger] (reads.drop_first() + rest) == rest by {
            assert(reads.drop_first() + rest =~= rest);
        }
    }
    while left > 0
        invariant
            source == *old(reader),
            given(source, reads, *reader),
            reads.len() > 0,
            read_hello(reads[0]) == Ok::<HelloModel, Seq<char>>(hello@),
            forall|
                rest: Seq<SessionRead>,
                result: Result<Seq<crate::wire::CommandModel>, Seq<char>>,
            | #[trigger]
                commands_taken(
                    command_views(commands@),
                    rest,
                    sequence.expected,
                    left as nat,
                    result,
                ) ==> commands_taken(
                    Seq::empty(),
                    reads.drop_first() + rest,
                    0,
                    max_commands as nat,
                    result,
                ),
        decreases left,
    {
        let ghost here = *reader;
        let ghost expected = sequence.expected;
        let ghost earlier = commands@;
        let ghost earlier_reads = reads;
        let ghost count = left as nat;
        left = left - 1;
        let found = read_peer_transport_session_command_with_sequence(reader, &mut sequence);
        let ghost more = choose|more: Seq<SessionRead>| #[trigger]
            given(here, more, *reader) && command_taken(
                more,
                expected,
                command_model(found),
                sequence.expected,
            );
        proof {
            lemma_given_on(source, reads, here, more, *reader);
            reads = reads + more;
            assert(reads.drop_first() =~= earlier_reads.drop_first() + more);
            assert(more.take(more.len() as int) =~= more);
        }
        match found {
            Ok(command) => {
                commands.push(command);
                proof {
                    assert(command_views(commands@) =~= command_views(earlier).push(command@));
                    assert forall|
                        rest: Seq<SessionRead>,
                        result: Result<Seq<crate::wire::CommandModel>, Seq<char>>,
                    | #[trigger]
                        commands_taken(
                            command_views(commands@),
                            rest,
                            sequence.expected,
                            left as nat,
                            result,
                        ) implies commands_taken(
                        Seq::empty(),
                        reads.drop_first() + rest,
                        0,
                        max_commands as nat,
                        result,
                    ) by {
                        let both = more + rest;
                        assert(both.take(more.len() as int) =~= more);
                        assert(both.skip(more.len() as int) =~= rest);
                        assert(commands_taken(
                            command_views(earlier),
                            both,
                            expected,
                            count,
                            result,
                        ));
                        assert(earlier_reads.drop_first() + both =~= reads.drop_first() + rest);
                    }
                }
            },
            Err(error) => {
                proof {
                    assert(commands_taken(
                        command_views(earlier),
                        more,
                        expected,
                        count,
                        Err::<Seq<crate::wire::CommandModel>, Seq<char>>(error@),
                    ));
                }
                return Err(error);
            },
        }
    }
    proof {
        let none = Seq::<SessionRead>::empty();
        assert(commands_taken(
            command_views(commands@),
            none,
            sequence.expected,
            0,
            Ok::<Seq<crate::wire::CommandModel>, Seq<char>>(command_views(commands@)),
        ));
        assert(reads.drop_first() + none =~= reads.drop_first());
    }
    Ok(PeerTransportSession { hello, commands })
}

/// What reading and executing the next so many commands of a session comes to. Whatever goes wrong
/// first ends it, and nothing is read after that.
pub open spec fn bounded_run(
    outcomes: Seq<ExecutionModel>,
    reads: Seq<SessionRead>,
    expected: u64,
    count: nat,
    before: Seq<PlatformCall>,
    result: Result<Seq<ExecutionModel>, Seq<char>>,
    after: Seq<PlatformCall>,
) -> bool
    decreases count,
{
    if count == 0 {
        &&& reads.len() == 0
        &&& after == before
        &&& result == Ok::<Seq<ExecutionModel>, Seq<char>>(outcomes)
    } else {
        exists|
            length: int,
            first: Result<crate::wire::CommandModel, Seq<char>>,
            next: u64,
        |
            0 <= length <= reads.len() && #[trigger] command_taken(
                reads.take(length),
                expected,
                first,
                next,
            ) && match first {
                Err(reason) => {
                    &&& length == reads.len()
                    &&& after == before
                    &&& result == Err::<Seq<ExecutionModel>, Seq<char>>(reason)
                },
                Ok(command) => exists|
                    ran: Result<ExecutionModel, Seq<char>>,
                    mid: Seq<PlatformCall>,
                | #[trigger]
                    command_runs(before, command, ran, mid) && match ran {
                        Err(reason) => {
                            &&& length == reads.len()
                            &&& after == mid
                            &&& result == Err::<Seq<ExecutionModel>, Seq<char>>(reason)
                        },
                        Ok(outcome) => bounded_run(
                            outcomes.push(outcome),
                            reads.skip(length),
                            next,
                            (count - 1) as nat,
                            mid,
                            result,
                            after,
                        ),
                    },
            }
    }
}

/// Read the hello of a session, and read and execute its next so many commands.
pub fn execute_bounded_peer_transport_session<R: PeerFrameSource, P: PlatformAdapter>(
    reader: &mut R,
    max_commands: usize,
    platform: &mut P,
) -> (result: Result<PeerTransportSessionExecution, PlatformError>)
    ensures
        exists|reads: Seq<SessionRead>, calls: Seq<PlatformCall>| #[trigger]
            given(*old(reader), reads, *final(reader)) && #[trigger] crate::platform::carried(
                *old(platform),
                calls,
                *final(platform),
            ) && reads.len() > 0 && match read_hello(reads[0]) {
                Err(reason) => {
                    &&& reads.len() == 1
                    &&& calls == Seq::<PlatformCall>::empty()
                    &&& session_outcome(result) == Err::<Seq<ExecutionModel>, Seq<char>>(reason)
                },
                Ok(hello) => {
                    &&& bounded_run(
                        Seq::empty(),
                        reads.drop_first(),
                        0,
                        max_commands as nat,
                        Seq::empty(),
                        session_outcome(result),
                        calls,
                    )
                    &&& result matches Ok(execution) ==> execution.hello@ == hello
                },
            },
{
    let ghost none = Seq::<SessionRead>::empty();
    let ghost source = *reader;
    let ghost start = *platform;
    let ghost mut calls: Seq<PlatformCall> = Seq::empty();
    assert(given(source, none, source));
    assert(crate::platform::carried(start, calls, *platform));
    let hello_read = read_peer_transport_session_hello(reader);
    let ghost first = choose|read: SessionRead| #[trigger]
        R::gives(source, read, *reader) && read_hello(read) == (match hello_read {
            Ok(hello) => Ok::<HelloModel, Seq<char>>(hello@),
            Err(error) => Err::<HelloModel, Seq<char>>(error@),
        });
    proof {
        lemma_one_more_read(source, none, source, first, *reader);
    }
    let ghost mut reads = none.push(first);
    assert(given(*old(reader), reads, *reader));
    let hello = match hello_read {
        Ok(hello) => hello,
        Err(error) => {
            return Err(error);
        },
    };
    let mut outcomes: Vec<PeerTransportCommandExecution> = Vec::new();
    let mut sequence = PeerTransportSessionSequence::new();
    let mut left: usize = max_commands;
    proof {
        assert(outcome_views(outcomes@) =~= Seq::empty());
        assert forall|rest: Seq<SessionRead>| #[trigger] (reads.drop_first() + rest) == rest by {
            assert(reads.drop_first() + rest =~= rest);
        }
    }
    while left > 0
        invariant
            source == *old(reader),
            start == *old(platform),
            given(source, reads, *reader),
            crate::platform::carried(start, calls, *platform),
            reads.len() > 0,
            read_hello(reads[0]) == Ok::<HelloModel, Seq<char>>(hello@),
            forall|
                rest: Seq<SessionRead>,
                result: Result<Seq<ExecutionModel>, Seq<char>>,
                after: Seq<PlatformCall>,
            | #[trigger]
                bounded_run(
                    outcome_views(outcomes@),
                    rest,
                    sequence.expected,
                    left as nat,
                    calls,
                    result,
                    after,
                ) ==> bounded_run(
                    Seq::empty(),
                    reads.drop_first() + rest,
                    0,
                    max_commands as nat,
                    Seq::empty(),
                    result,
                    after,
                ),
        decreases left,
    {
        let ghost here = *reader;
        let ghost at = *platform;
        let ghost expected = sequence.expected;
        let ghost before = calls;
        let ghost earlier = outcomes@;
        let ghost earlier_reads = reads;
        let ghost count = left as nat;
        left = left - 1;
        let found = read_peer_transport_session_command_with_sequence(reader, &mut sequence);
        let ghost more = choose|more: Seq<SessionRead>| #[trigger]
            given(here, more, *reader) && command_taken(
                more,
                expected,
                command_model(found),
                sequence.expected,
            );
        proof {
            lemma_given_on(source, reads, here, more, *reader);
            reads = reads + more;
            assert(reads.drop_first() =~= earlier_reads.drop_first() + more);
            assert(more.take(more.len() as int) =~= more);
        }
        let command = match found {
            Ok(command) => command,
            Err(error) => {
                proof {
                    assert(bounded_run(
                        outcome_views(earlier),
                        more,
                        expected,
                        count,
                        before,
                        Err::<Seq<ExecutionModel>, Seq<char>>(error@),
                        before,
                    ));
                }
                return Err(error);
            },
        };
        let ran = execute_peer_transport_command(platform, &command);
        proof {
            calls = lemma_command_runs_on(
                start,
                before,
                at,
                command@,
                outcome_model(ran),
                *platform,
            );
        }
        let ghost mid = calls;
        match ran {
            Ok(outcome) => {
                outcomes.push(outcome);
                proof {
                    assert(outcome_views(outcomes@) =~= outcome_views(earlier).push(outcome@));
                    assert forall|
                        rest: Seq<SessionRead>,
                        result: Result<Seq<ExecutionModel>, Seq<char>>,
                        after: Seq<PlatformCall>,
                    | #[trigger]
                        bounded_run(
                            outcome_views(outcomes@),
                            rest,
                            sequence.expected,
                            left as nat,
                            mid,
                            result,
                            after,
                        ) implies bounded_run(
                        Seq::empty(),
                        reads.drop_first() + rest,
                        0,
                        max_commands as nat,
                        Seq::empty(),
                        result,
                        after,
                    ) by {
                        let both = more + rest;
                        assert(both.take(more.len() as int) =~= more);
                        assert(both.skip(more.len() as int) =~= rest);
                        assert(bounded_run(
                            outcome_views(earlier),
                            both,
                            expected,
                            count,
                            before,
                            result,
                            after,
                        ));
                        assert(earlier_reads.drop_first() + both =~= reads.drop_first() + rest);
                    }
                }
            },
            Err(error) => {
                proof {
                    assert(bounded_run(
                        outcome_views(earlier),
                        more,
                        expected,
                        count,
                        before,
                        Err::<Seq<ExecutionModel>, Seq<char>>(error@),
                        mid,
                    ));
                }
                return Err(error);
            },
        }
    }
    proof {
        let none = Seq::<SessionRead>::empty();
        assert(bounded_run(
            outcome_views(outcomes@),
            none,
            sequence.expected,
            0,
            calls,
            Ok::<Seq<ExecutionModel>, Seq<char>>(outcome_views(outcomes@)),
            calls,
        ));
        assert(reads.drop_first() + none =~= reads.drop_first());
    }
    Ok(PeerTransportSessionExecution { hello, outcomes })
}

/// What reading one message of a connection that carries a single command gave.
#[allow(inconsistent_fields)]
#[derive(Debug, PartialEq, Eq)]
pub enum CommandRead {
    Failed { cause: String },
    Undecodable { cause: String },
    Closed,
    Message { message: crate::wire::PeerTransportMessage },
}

/// The command of a connection that carries a single one.
pub fn read_peer_transport_command(read: CommandRead) -> (result: Result<
    DaemonTransportCommand,
    PlatformError,
>)
    ensures
        match read {
            CommandRead::Failed { cause } => result matches Err(error) && error@
                == "failed to read peer command: "@ + cause@,
            CommandRead::Undecodable { cause } => result matches Err(error) && error@
                == "failed to decode peer command: "@ + cause@,
            CommandRead::Closed => result matches Err(error) && error@
                == "peer transport connection closed before a command line was received"@,
            CommandRead::Message { message } => crate::wire::read_message(
                message.protocol,
                message.command@,
                result,
            ),
        },
{
    match read {
        CommandRead::Failed { cause } => Err(
            PlatformError::from_message(
                "failed to read peer command: ".to_owned().concat(cause.as_str()),
            ),
        ),
        CommandRead::Undecodable { cause } => Err(
            PlatformError::from_message(
                "failed to decode peer command: ".to_owned().concat(cause.as_str()),
            ),
        ),
        CommandRead::Closed => Err(
            PlatformError::new(
                "peer transport connection closed before a command line was received",
            ),
        ),
        CommandRead::Message { message } => message.into_command(),
    }
}

/// Executing a command asks the platform for just what the command says: forwarded input is injected
/// as it was forwarded, whatever it is, a release releases everything, and the other commands ask for
/// nothing. What is told of it is what was executed.
pub proof fn a_command_is_executed_as_it_was_sent<P: PlatformAdapter>(
    platform: &mut P,
    command: &DaemonTransportCommand,
    result: Result<PeerTransportCommandExecution, PlatformError>,
)
    requires
        call_ensures(execute_peer_transport_command::<P>, (platform, command), result),
    ensures
        match command {
            DaemonTransportCommand::ForwardInput { event } => exists|
                answer: Result<(), PlatformError>,
            | #[trigger]
                P::answers(
                    *old(platform),
                    PlatformCall::InjectInput { event: *event, injected: answer },
                    *final(platform),
                ) && match answer {
                    Ok(_) => result is Ok && result->Ok_0 is InputForwarded && result->Ok_0->event
                        == *event,
                    Err(error) => result is Err && result->Err_0@ == error@,
                },
            DaemonTransportCommand::ReleaseAllInputs => exists|
                answer: Result<(), PlatformError>,
            | #[trigger]
                P::answers(
                    *old(platform),
                    PlatformCall::ReleaseAll { released: answer },
                    *final(platform),
                ) && match answer {
                    Ok(_) => result is Ok && result->Ok_0 is InputsReleased,
                    Err(error) => result is Err && result->Err_0@ == error@,
                },
            DaemonTransportCommand::StartRemoteSession { peer_id, crossing } => {
                &&& *final(platform) == *old(platform)
                &&& result is Ok
                &&& result->Ok_0 is RemoteSessionStarted
                &&& result->Ok_0->peer_id.value@ == peer_id.value@
                &&& result->Ok_0->crossing is Some <==> crossing is Some
            },
            DaemonTransportCommand::StopRemoteSession { session_id } => {
                &&& *final(platform) == *old(platform)
                &&& result is Ok
                &&& result->Ok_0 is RemoteSessionStopped
                &&& result->Ok_0->session_id is Some <==> session_id is Some
                &&& session_id matches Some(session_id)
                    ==> result->Ok_0->session_id->Some_0.value@ == session_id.value@
            },
        },
{
    let calls = choose|calls: Seq<PlatformCall>| #[trigger]
        crate::platform::carried(*old(platform), calls, *final(platform)) && command_runs(
            Seq::empty(),
            command@,
            outcome_model(result),
            calls,
        );
    reveal_with_fuel(crate::platform::carried, 3);
    assert(crate::platform::carried(*old(platform), calls, *final(platform)));
    if calls.len() > 0 {
        assert(calls.drop_first() =~= Seq::<PlatformCall>::empty());
        assert(calls[0] == calls.last());
        match command {
            DaemonTransportCommand::ForwardInput { event } => {
                let answer = calls[0]->injected;
                assert(calls[0] == (PlatformCall::InjectInput { event: *event, injected: answer }));
            },
            DaemonTransportCommand::ReleaseAllInputs => {
                let answer = calls[0]->released;
                assert(calls[0] == (PlatformCall::ReleaseAll { released: answer }));
            },
            _ => {},
        }
    }
}

/// The input that a read forwards, where it forwards any.
pub open spec fn sent_event(read: SessionRead) -> Option<InjectedInputEvent> {
    match read {
        SessionRead::Frame { frame: PeerTransportSessionFrame::Command { command, .. } } => {
            match crate::wire::read_command(command@) {
                Ok(crate::wire::CommandModel::ForwardInput { event }) => Some(event),
                _ => None,
            }
        },
        _ => None,
    }
}

/// The input that reads forward, in order.
pub open spec fn sent_events(reads: Seq<SessionRead>) -> Seq<InjectedInputEvent>
    decreases reads.len(),
{
    if reads.len() == 0 {
        Seq::empty()
    } else {
        match sent_event(reads[0]) {
            Some(event) => seq![event] + sent_events(reads.drop_first()),
            None => sent_events(reads.drop_first()),
        }
    }
}

/// The input that outcomes tell of, in order.
pub open spec fn told_events(outcomes: Seq<ExecutionModel>) -> Seq<InjectedInputEvent>
    decreases outcomes.len(),
{
    if outcomes.len() == 0 {
        Seq::empty()
    } else {
        match outcomes.last() {
            ExecutionModel::InputForwarded { event } => told_events(outcomes.drop_last()).push(
                event,
            ),
            _ => told_events(outcomes.drop_last()),
        }
    }
}

/// One more call is one more event to act out, or none.
proof fn lemma_injected_by_push(calls: Seq<PlatformCall>, call: PlatformCall)
    ensures
        crate::platform::injected_by(calls.push(call)) == (match call {
            PlatformCall::InjectInput { event, .. } => crate::platform::injected_by(calls).push(
                event,
            ),
            _ => crate::platform::injected_by(calls),
        }),
    decreases calls.len(),
{
    reveal_with_fuel(crate::platform::injected_by, 2);
    let more = calls.push(call);
    if calls.len() == 0 {
        assert(more.drop_first() =~= Seq::<PlatformCall>::empty());
        assert(crate::platform::injected_by(more) =~= (match call {
            PlatformCall::InjectInput { event, .. } => crate::platform::injected_by(calls).push(
                event,
            ),
            _ => crate::platform::injected_by(calls),
        }));
    } else {
        lemma_injected_by_push(calls.drop_first(), call);
        assert(more.drop_first() =~= calls.drop_first().push(call));
        assert(crate::platform::injected_by(more) =~= (match call {
            PlatformCall::InjectInput { event, .. } => crate::platform::injected_by(calls).push(
                event,
            ),
            _ => crate::platform::injected_by(calls),
        }));
    }
}

/// What one more call adds to the events to act out.
proof fn lemma_one_more_call(before: Seq<PlatformCall>, after: Seq<PlatformCall>)
    requires
        one_more(before, after),
    ensures
        crate::platform::injected_by(after) == (match after.last() {
            PlatformCall::InjectInput { event, .. } => crate::platform::injected_by(before).push(
                event,
            ),
            _ => crate::platform::injected_by(before),
        }),
{
    assert(after =~= before.push(after.last()));
    lemma_injected_by_push(before, after.last());
}

/// The error that ends a session acts out nothing.
proof fn lemma_error_injects_nothing(
    guarded: bool,
    reason: Seq<char>,
    before: Seq<PlatformCall>,
    message: Seq<char>,
    after: Seq<PlatformCall>,
)
    requires
        error_ends(guarded, reason, before, message, after),
    ensures
        crate::platform::injected_by(after) == crate::platform::injected_by(before),
{
    if guarded {
        lemma_one_more_call(before, after);
    }
}

/// Over a whole session, the input that is acted out is the input that the peer forwarded, every event
/// in order and unchanged, and so is the input that the outcomes tell of. Where the session fails, at
/// most the event of its last frame is left out.
pub proof fn forwarded_input_is_acted_out_in_order(
    state: SessionModel,
    reads: Seq<SessionRead>,
    before: Seq<PlatformCall>,
    result: Result<Seq<ExecutionModel>, Seq<char>>,
    after: Seq<PlatformCall>,
)
    requires
        session_run(state, reads, before, result, after),
    ensures
        result is Ok ==> crate::platform::injected_by(after) == crate::platform::injected_by(before)
            + sent_events(reads),
        result matches Ok(outcomes) ==> told_events(outcomes) == told_events(state.outcomes)
            + sent_events(reads),
        result is Err ==> crate::platform::injected_by(after) == crate::platform::injected_by(
            before,
        ) + sent_events(reads) || crate::platform::injected_by(after)
            == crate::platform::injected_by(before) + sent_events(reads.drop_last()),
    decreases reads.len(),
{
    reveal_with_fuel(session_run, 2);
    reveal_with_fuel(sent_events, 2);
    let empty = Seq::<InjectedInputEvent>::empty();
    let acted = crate::platform::injected_by(before);
    let rest = reads.drop_first();
    assert(acted + empty =~= acted);
    assert(told_events(state.outcomes) + empty =~= told_events(state.outcomes));
    if reads.len() == 1 {
        assert(rest =~= Seq::<SessionRead>::empty());
        assert(reads.drop_last() =~= Seq::<SessionRead>::empty());
    } else {
        assert(reads.drop_last()[0] == reads[0]);
        assert(reads.drop_last().drop_first() =~= rest.drop_last());
    }
    match frame_verdict(state.expected, reads[0]) {
        FrameVerdict::Fail { reason } => {
            lemma_error_injects_nothing(state.guarded, reason, before, result->Err_0, after);
        },
        FrameVerdict::Close => {
            if state.guarded {
                lemma_one_more_call(before, after);
                let more = state.outcomes.push(ExecutionModel::InputsReleased);
                assert(more.drop_last() =~= state.outcomes);
            }
        },
        FrameVerdict::Beat => {
            forwarded_input_is_acted_out_in_order(
                SessionModel { expected: (state.expected + 1) as u64, ..state },
                rest,
                before,
                result,
                after,
            );
        },
        FrameVerdict::Run { command } => {
            let (ran, mid) = choose|
                ran: Result<ExecutionModel, Seq<char>>,
                mid: Seq<PlatformCall>,
            | #[trigger]
                command_runs(before, command, ran, mid) && match ran {
                    Ok(outcome) => session_run(
                        SessionModel {
                            outcomes: state.outcomes.push(outcome),
                            guarded: guard_after(state.guarded, command),
                            expected: (state.expected + 1) as u64,
                        },
                        rest,
                        mid,
                        result,
                        after,
                    ),
                    Err(reason) => {
                        &&& reads.len() == 1
                        &&& result is Err
                        &&& error_ends(state.guarded, reason, mid, result->Err_0, after)
                    },
                };
            if mid != before {
                lemma_one_more_call(before, mid);
            }
            match ran {
                Ok(outcome) => {
                    let next = state.outcomes.push(outcome);
                    assert(next.drop_last() =~= state.outcomes);
                    forwarded_input_is_acted_out_in_order(
                        SessionModel {
                            outcomes: next,
                            guarded: guard_after(state.guarded, command),
                            expected: (state.expected + 1) as u64,
                        },
                        rest,
                        mid,
                        result,
                        after,
                    );
                    match command {
                        crate::wire::CommandModel::ForwardInput { event } => {
                            let tail = sent_events(rest);
                            assert(acted.push(event) + tail =~= acted + (seq![event] + tail));
                            assert(told_events(state.outcomes).push(event) + tail =~= told_events(
                                state.outcomes,
                            ) + (seq![event] + tail));
                            let shorter = sent_events(rest.drop_last());
                            assert(acted.push(event) + shorter =~= acted + (seq![event] + shorter));
                        },
                        _ => {},
                    }
                },
                Err(reason) => {
                    lemma_error_injects_nothing(state.guarded, reason, mid, result->Err_0, after);
                    match command {
                        crate::wire::CommandModel::ForwardInput { event } => {
                            assert(acted.push(event) =~= acted + (seq![event] + empty));
                        },
                        _ => {},
                    }
                },
            }
        },
    }
}

/// A session that is executed acts out the input that its frames forward, in order and unchanged, asks
/// for nothing else to be acted out, and tells of the same input.
pub proof fn an_executed_session_acts_out_what_was_forwarded<
    R: PeerFrameSource,
    P: PlatformAdapter,
>(
    reader: &mut R,
    platform: &mut P,
    hello: PeerTransportSessionHello,
    result: Result<PeerTransportSessionExecution, PlatformError>,
)
    requires
        call_ensures(
            execute_peer_transport_session_frames_until_closed::<R, P>,
            (reader, platform, hello),
            result,
        ),
        result is Ok,
    ensures
        result->Ok_0.hello == hello,
        exists|reads: Seq<SessionRead>, calls: Seq<PlatformCall>| #[trigger]
            given(*old(reader), reads, *final(reader)) && #[trigger] crate::platform::carried(
                *old(platform),
                calls,
                *final(platform),
            ) && crate::platform::injected_by(calls) == sent_events(reads) && told_events(
                outcome_views(result->Ok_0.outcomes@),
            ) == sent_events(reads),
{
    let (reads, calls) = choose|reads: Seq<SessionRead>, calls: Seq<PlatformCall>| #[trigger]
        given(*old(reader), reads, *final(reader)) && #[trigger] crate::platform::carried(
            *old(platform),
            calls,
            *final(platform),
        ) && session_run(fresh_session(), reads, Seq::empty(), session_outcome(result), calls);
    forwarded_input_is_acted_out_in_order(
        fresh_session(),
        reads,
        Seq::empty(),
        session_outcome(result),
        calls,
    );
    let empty = Seq::<InjectedInputEvent>::empty();
    assert(empty + sent_events(reads) =~= sent_events(reads));
}

/// The number that a frame of an open session carries.
pub open spec fn frame_number(read: SessionRead) -> Option<u64> {
    match read {
        SessionRead::Frame { frame: PeerTransportSessionFrame::Command { sequence, .. } } => Some(
            sequence,
        ),
        SessionRead::Frame { frame: PeerTransportSessionFrame::Heartbeat { sequence } } => Some(
            sequence,
        ),
        _ => None,
    }
}

/// Every frame but the one that ends a session carries the next number, commands and heartbeats alike;
/// a session ends well only where the peer closed it.
pub proof fn frames_are_counted_without_gaps(
    state: SessionModel,
    reads: Seq<SessionRead>,
    before: Seq<PlatformCall>,
    result: Result<Seq<ExecutionModel>, Seq<char>>,
    after: Seq<PlatformCall>,
)
    requires
        session_run(state, reads, before, result, after),
    ensures
        reads.len() > 0,
        forall|i: int|
            0 <= i < reads.len() - 1 ==> frame_number(#[trigger] reads[i]) is Some && frame_number(
                reads[i],
            )->Some_0 == state.expected + i,
        result is Ok ==> reads.last() is Closed,
    decreases reads.len(),
{
    let rest = reads.drop_first();
    match frame_verdict(state.expected, reads[0]) {
        FrameVerdict::Fail { .. } => {},
        FrameVerdict::Close => {},
        FrameVerdict::Beat => {
            frames_are_counted_without_gaps(
                SessionModel { expected: (state.expected + 1) as u64, ..state },
                rest,
                before,
                result,
                after,
            );
        },
        FrameVerdict::Run { command } => {
            let (ran, mid) = choose|
                ran: Result<ExecutionModel, Seq<char>>,
                mid: Seq<PlatformCall>,
            | #[trigger]
                command_runs(before, command, ran, mid) && match ran {
                    Ok(outcome) => session_run(
                        SessionModel {
                            outcomes: state.outcomes.push(outcome),
                            guarded: guard_after(state.guarded, command),
                            expected: (state.expected + 1) as u64,
                        },
                        rest,
                        mid,
                        result,
                        after,
                    ),
                    Err(reason) => {
                        &&& reads.len() == 1
                        &&& result is Err
                        &&& error_ends(state.guarded, reason, mid, result->Err_0, after)
                    },
                };
            if ran is Ok {
                frames_are_counted_without_gaps(
                    SessionModel {
                        outcomes: state.outcomes.push(ran->Ok_0),
                        guarded: guard_after(state.guarded, command),
                        expected: (state.expected + 1) as u64,
                    },
                    rest,
                    mid,
                    result,
                    after,
                );
            }
        },
    }
    assert forall|i: int| 0 <= i < reads.len() - 1 implies frame_number(#[trigger] reads[i]) is Some
        && frame_number(reads[i])->Some_0 == state.expected + i by {
        if i > 0 {
            assert(reads[i] == rest[i - 1]);
        }
    }
    if reads.len() > 1 {
        assert(reads.last() == rest.last());
    }
}

/// Whether a read is a command to release everything.
pub open spec fn asks_for_release(read: SessionRead) -> bool {
    read matches SessionRead::Frame {
        frame: PeerTransportSessionFrame::Command { command, .. },
    } && command is ReleaseAllInputs
}

/// Whether a read is a command that may leave inputs held: the start of a session or forwarded input.
pub open spec fn may_hold_input(read: SessionRead) -> bool {
    read matches SessionRead::Frame {
        frame: PeerTransportSessionFrame::Command { command, .. },
    } && (command is StartRemoteSession || command is ForwardInput)
}

/// Where inputs may be held and the peer does not ask for their release, the last thing that the
/// platform is asked is to release everything; where none may be held and the peer sends nothing that
/// may hold one, the platform is not asked to release anything.
pub proof fn inputs_that_may_be_held_are_released_last(
    state: SessionModel,
    reads: Seq<SessionRead>,
    before: Seq<PlatformCall>,
    result: Result<Seq<ExecutionModel>, Seq<char>>,
    after: Seq<PlatformCall>,
)
    requires
        session_run(state, reads, before, result, after),
        forall|i: int| 0 <= i < reads.len() ==> !asks_for_release(#[trigger] reads[i]),
    ensures
        state.guarded ==> after.len() > 0 && after.last() is ReleaseAll,
        !state.guarded && (forall|i: int|
            0 <= i < reads.len() ==> !may_hold_input(#[trigger] reads[i])) ==> after == before,
    decreases reads.len(),
{
    let rest = reads.drop_first();
    assert forall|i: int| 0 <= i < rest.len() implies !asks_for_release(#[trigger] rest[i]) by {
        assert(rest[i] == reads[i + 1]);
    }
    let idle = forall|i: int| 0 <= i < reads.len() ==> !may_hold_input(#[trigger] reads[i]);
    if idle {
        assert forall|i: int| 0 <= i < rest.len() implies !may_hold_input(#[trigger] rest[i]) by {
            assert(rest[i] == reads[i + 1]);
        }
    }
    match frame_verdict(state.expected, reads[0]) {
        FrameVerdict::Fail { .. } => {},
        FrameVerdict::Close => {},
        FrameVerdict::Beat => {
            inputs_that_may_be_held_are_released_last(
                SessionModel { expected: (state.expected + 1) as u64, ..state },
                rest,
                before,
                result,
                after,
            );
        },
        FrameVerdict::Run { command } => {
            let (ran, mid) = choose|
                ran: Result<ExecutionModel, Seq<char>>,
                mid: Seq<PlatformCall>,
            | #[trigger]
                command_runs(before, command, ran, mid) && match ran {
                    Ok(outcome) => session_run(
                        SessionModel {
                            outcomes: state.outcomes.push(outcome),
                            guarded: guard_after(state.guarded, command),
                            expected: (state.expected + 1) as u64,
                        },
                        rest,
                        mid,
                        result,
                        after,
                    ),
                    Err(reason) => {
                        &&& reads.len() == 1
                        &&& result is Err
                        &&& error_ends(state.guarded, reason, mid, result->Err_0, after)
                    },
                };
            assert(!asks_for_release(reads[0]));
            if ran is Ok {
                inputs_that_may_be_held_are_released_last(
                    SessionModel {
                        outcomes: state.outcomes.push(ran->Ok_0),
                        guarded: guard_after(state.guarded, command),
                        expected: (state.expected + 1) as u64,
                    },
                    rest,
                    mid,
                    result,
                    after,
                );
            }
            if idle {
                assert(!may_hold_input(reads[0]));
            }
        },
    }
}

/// After a command that may leave inputs held they count as held, after a release they do not, and the
/// end of a session changes nothing about it.
pub proof fn the_guard_follows_the_commands(guard: &mut bool, command: &DaemonTransportCommand)
    requires
        call_ensures(update_peer_transport_release_guard, (guard, command), ()),
    ensures
        command is StartRemoteSession || command is ForwardInput ==> *final(guard),
        command is ReleaseAllInputs ==> !*final(guard),
        command is StopRemoteSession ==> *final(guard) == *old(guard),
{
}

/// A peer is served only after it has proven who it is, for the role and the transcript that were
/// asked of it, and has ended the handshake with the first number; its commands come after that.
pub proof fn only_a_proven_peer_is_served<V: IdentityPublicKey>(
    peer: TrustedPeer<V>,
    expected_role: PeerRole,
    transcript: AuthTranscript,
    reads: Seq<SessionRead>,
    before: Seq<PlatformCall>,
    outcomes: Seq<ExecutionModel>,
    after: Seq<PlatformCall>,
) where V::Error: ErrorText
    requires
        handshake_run(
            peer,
            expected_role,
            transcript,
            reads,
            before,
            Ok::<Seq<ExecutionModel>, Seq<char>>(outcomes),
            after,
        ),
    ensures
        reads.len() >= 3,
        reads[0] matches SessionRead::Frame {
            frame: PeerTransportSessionFrame::AuthProof { proof },
        } && crate::identity::proof_checked(
            peer.identity.peer_id@,
            peer.public_key,
            expected_role,
            transcript,
            proof,
            Ok::<(), crate::identity::AuthProofVerifyError<V::Error>>(()),
        ),
        reads[1] matches SessionRead::Frame {
            frame: PeerTransportSessionFrame::SessionReady { ready },
        } && ready.sequence_base == 0,
        crate::platform::injected_by(after) == crate::platform::injected_by(before) + sent_events(
            reads.skip(2),
        ),
{
    let proof = read_proof(reads[0])->Ok_0;
    let checked = choose|
        checked: Result<(), crate::identity::AuthProofVerifyError<V::Error>>,
    | #[trigger]
        crate::identity::proof_checked(
            peer.identity.peer_id@,
            peer.public_key,
            expected_role,
            transcript,
            proof,
            checked,
        ) && checked is Ok;
    assert(checked->Ok_0 == ());
    assert(checked == Ok::<(), crate::identity::AuthProofVerifyError<V::Error>>(()));
    let run = session_run(
        fresh_session(),
        reads.skip(2),
        before,
        Ok::<Seq<ExecutionModel>, Seq<char>>(outcomes),
        after,
    );
    assert(run);
    forwarded_input_is_acted_out_in_order(
        fresh_session(),
        reads.skip(2),
        before,
        Ok::<Seq<ExecutionModel>, Seq<char>>(outcomes),
        after,
    );
}

/// A hello that is accepted is a hello frame, says what the frame says, and is of the major version
/// that is spoken here.
pub proof fn an_accepted_hello_says_what_was_sent(read: SessionRead)
    requires
        read_hello(read) is Ok,
    ensures
        read is Frame && read->frame is Hello,
        read_hello(read)->Ok_0.device_id == read->frame->device_id@,
        read_hello(read)->Ok_0.peer_id == read->frame->peer_id@,
        read_hello(read)->Ok_0.nonce == read->frame->nonce,
        read_hello(read)->Ok_0.capabilities == read->frame->Hello_capabilities,
        read->frame->protocol.major == crate::protocol::PROTOCOL_MAJOR,
        read_hello(read)->Ok_0.protocol.major == read->frame->protocol.major,
        read_hello(read)->Ok_0.protocol.minor <= read->frame->protocol.minor,
        read_hello(read)->Ok_0.protocol.minor <= crate::protocol::PROTOCOL_MINOR,
{
}

/// A hello that was made here for a peer is accepted there, and says who sends it and whom it is for.
pub proof fn an_own_hello_is_accepted(
    local_device_id: &str,
    peer_id: &str,
    nonce: Option<[u8; 32]>,
    frame: PeerTransportSessionFrame,
)
    requires
        call_ensures(session_hello, (local_device_id, peer_id, nonce), frame),
    ensures
        ({
            let read = read_hello(SessionRead::Frame { frame });
            &&& read is Ok
            &&& read->Ok_0.device_id == local_device_id@
            &&& read->Ok_0.peer_id == peer_id@
            &&& read->Ok_0.nonce == nonce
            &&& read->Ok_0.protocol.major == crate::protocol::PROTOCOL_MAJOR
            &&& read->Ok_0.protocol.minor == crate::protocol::PROTOCOL_MINOR
        }),
{
}

/// The transcript of a session names the two devices, each in its place, with the nonce of the side
/// that opens it and what each side can do; the rest is filled with zeros.
pub proof fn a_transcript_names_both_sides(
    local_device_id: &str,
    remote_device_id: &str,
    local_nonce: [u8; 32],
    local_capabilities: CapabilityFlags,
    remote_capabilities: CapabilityFlags,
    transcript: AuthTranscript,
)
    requires
        call_ensures(
            build_pre_tls_initiator_auth_transcript,
            (
                local_device_id,
                remote_device_id,
                local_nonce,
                local_capabilities,
                remote_capabilities,
            ),
            transcript,
        ),
    ensures
        transcript.local_device_id@ == local_device_id@,
        transcript.remote_device_id@ == remote_device_id@,
        transcript.local_nonce@ == local_nonce@,
        transcript.local_capabilities == local_capabilities,
        transcript.remote_capabilities == remote_capabilities,
        transcript.role is Initiator,
        transcript.protocol.major == crate::protocol::PROTOCOL_MAJOR,
        transcript.protocol.minor == crate::protocol::PROTOCOL_MINOR,
        forall|i: int| 0 <= i < 32 ==> #[trigger] transcript.remote_nonce@[i] == 0u8,
        forall|i: int| 0 <= i < 32 ==> #[trigger] transcript.tls_exporter@[i] == 0u8,
{
}

/// Frames that one side makes one after the other are numbered one after the other, whatever they carry,
/// and a command frame is read as the command that it was made of.
pub proof fn made_frames_are_numbered_in_order(
    sender: &mut PeerSessionSender,
    command: &DaemonTransportCommand,
    framed: Result<PeerTransportSessionFrame, PlatformError>,
    later: &mut PeerSessionSender,
    beat: Result<PeerTransportSessionFrame, PlatformError>,
)
    requires
        call_ensures(PeerSessionSender::command_frame, (sender, command), framed),
        call_ensures(PeerSessionSender::heartbeat_frame, (later,), beat),
        *old(later) == *final(sender),
        old(sender).next_sequence < u64::MAX - 1,
    ensures
        framed is Ok && beat is Ok,
        frame_number(SessionRead::Frame { frame: framed->Ok_0 }) == Some(
            old(sender).next_sequence,
        ),
        frame_number(SessionRead::Frame { frame: beat->Ok_0 }) == Some(
            (old(sender).next_sequence + 1) as u64,
        ),
        framed->Ok_0 is Command && beat->Ok_0 is Heartbeat,
        crate::wire::read_command(framed->Ok_0->command@) == Ok::<
            crate::wire::CommandModel,
            Seq<char>,
        >(command@),
        command is ForwardInput ==> sent_event(SessionRead::Frame { frame: framed->Ok_0 }) == Some(
            command->event,
        ),
        final(later).next_sequence == old(sender).next_sequence + 2,
{
    crate::wire::spelled_command_reads_back(command@);
}

/// A number is accepted where it is the one that is expected, and the next one is expected then.
pub proof fn only_the_expected_number_is_accepted(
    sequence: &mut PeerTransportSessionSequence,
    received: u64,
    result: Result<(), PlatformError>,
)
    requires
        call_ensures(PeerTransportSessionSequence::accept, (sequence, received), result),
    ensures
        result is Ok <==> received == old(sequence).expected && received < u64::MAX,
        result is Ok ==> final(sequence).expected == received + 1,
        result is Err ==> final(sequence).expected == old(sequence).expected,
{
}

/// A connection takes the start of a session only with its own peer, and every other command as it is.
pub proof fn a_connection_starts_its_own_peer_only(
    configured: &PeerId,
    command: &DaemonTransportCommand,
    result: Result<(), PlatformError>,
)
    requires
        call_ensures(validate_transport_command_peer, (configured, command), result),
    ensures
        result is Ok <==> (command is StartRemoteSession
            ==> command->StartRemoteSession_peer_id.value@ == configured.value@),
{
}

/// Commands that are read from a session are the commands of its frames, in order: with one of them read,
/// the rest is read from what follows.
pub proof fn a_command_is_taken_from_its_own_frame(
    reads: Seq<SessionRead>,
    expected: u64,
    command: crate::wire::CommandModel,
    next: u64,
)
    requires
        command_taken(
            reads,
            expected,
            Ok::<crate::wire::CommandModel, Seq<char>>(command),
            next,
        ),
    ensures
        reads.len() > 0,
        next == expected + reads.len(),
        reads.last() matches SessionRead::Frame {
            frame: PeerTransportSessionFrame::Command { sequence, command: payload },
        } && sequence == next - 1 && crate::wire::read_command(payload@) == Ok::<
            crate::wire::CommandModel,
            Seq<char>,
        >(command),
        forall|i: int|
            0 <= i < reads.len() - 1 ==> (#[trigger] reads[i]) is Frame
                && reads[i]->frame is Heartbeat && reads[i]->frame->Heartbeat_sequence == expected
                + i,
    decreases reads.len(),
{
    match needed_frame(reads[0]) {
        Ok(PeerTransportSessionFrame::Heartbeat { sequence }) => {
            let rest = reads.drop_first();
            a_command_is_taken_from_its_own_frame(rest, (expected + 1) as u64, command, next);
            assert(reads.last() == rest.last());
            assert forall|i: int| 0 <= i < reads.len() - 1 implies (#[trigger] reads[i]) is Frame
                && reads[i]->frame is Heartbeat && reads[i]->frame->Heartbeat_sequence == expected
                + i by {
                if i > 0 {
                    assert(reads[i] == rest[i - 1]);
                }
            }
        },
        _ => {},
    }
}

/// A bounded session acts out the input that its commands forward, in order and unchanged.
pub proof fn a_bounded_session_acts_out_what_was_forwarded(
    outcomes: Seq<ExecutionModel>,
    reads: Seq<SessionRead>,
    expected: u64,
    count: nat,
    before: Seq<PlatformCall>,
    told: Seq<ExecutionModel>,
    after: Seq<PlatformCall>,
)
    requires
        bounded_run(
            outcomes,
            reads,
            expected,
            count,
            before,
            Ok::<Seq<ExecutionModel>, Seq<char>>(told),
            after,
        ),
    ensures
        told.len() == outcomes.len() + count,
        crate::platform::injected_by(after) == crate::platform::injected_by(before) + sent_events(
            reads,
        ),
    decreases count,
{
    let acted = crate::platform::injected_by(before);
    let result = Ok::<Seq<ExecutionModel>, Seq<char>>(told);
    if count == 0 {
        assert(acted + sent_events(reads) =~= acted);
    } else {
        let (length, first, next) = choose|
            length: int,
            first: Result<crate::wire::CommandModel, Seq<char>>,
            next: u64,
        |
            0 <= length <= reads.len() && #[trigger] command_taken(
                reads.take(length),
                expected,
                first,
                next,
            ) && match first {
                Err(reason) => {
                    &&& length == reads.len()
                    &&& after == before
                    &&& result == Err::<Seq<ExecutionModel>, Seq<char>>(reason)
                },
                Ok(command) => exists|
                    ran: Result<ExecutionModel, Seq<char>>,
                    mid: Seq<PlatformCall>,
                | #[trigger]
                    command_runs(before, command, ran, mid) && match ran {
                        Err(reason) => {
                            &&& length == reads.len()
                            &&& after == mid
                            &&& result == Err::<Seq<ExecutionModel>, Seq<char>>(reason)
                        },
                        Ok(outcome) => bounded_run(
                            outcomes.push(outcome),
                            reads.skip(length),
                            next,
                            (count - 1) as nat,
                            mid,
                            result,
                            after,
                        ),
                    },
            };
        let command = first->Ok_0;
        let (ran, mid) = choose|
            ran: Result<ExecutionModel, Seq<char>>,
            mid: Seq<PlatformCall>,
        | #[trigger]
            command_runs(before, command, ran, mid) && match ran {
                Err(reason) => {
                    &&& length == reads.len()
                    &&& after == mid
                    &&& result == Err::<Seq<ExecutionModel>, Seq<char>>(reason)
                },
                Ok(outcome) => bounded_run(
                    outcomes.push(outcome),
                    reads.skip(length),
                    next,
                    (count - 1) as nat,
                    mid,
                    result,
                    after,
                ),
            };
        a_bounded_session_acts_out_what_was_forwarded(
            outcomes.push(ran->Ok_0),
            reads.skip(length),
            next,
            (count - 1) as nat,
            mid,
            told,
            after,
        );
        let taken = reads.take(length);
        a_command_is_taken_from_its_own_frame(taken, expected, command, next);
        lemma_taken_event(taken, expected, command, next);
        lemma_sent_events_of_both(taken, reads.skip(length));
        assert(taken + reads.skip(length) =~= reads);
        if mid != before {
            lemma_one_more_call(before, mid);
        }
        let tail = sent_events(reads.skip(length));
        match command {
            crate::wire::CommandModel::ForwardInput { event } => {
                assert(acted.push(event) + tail =~= acted + (seq![event] + tail));
            },
            _ => {
                assert(Seq::<InjectedInputEvent>::empty() + tail =~= tail);
            },
        }
    }
}

/// The input of some reads and that of later ones make up the input of all.
proof fn lemma_sent_events_of_both(first: Seq<SessionRead>, later: Seq<SessionRead>)
    ensures
        sent_events(first + later) == sent_events(first) + sent_events(later),
    decreases first.len(),
{
    if first.len() == 0 {
        assert(first + later =~= later);
        assert(sent_events(first) + sent_events(later) =~= sent_events(later));
    } else {
        lemma_sent_events_of_both(first.drop_first(), later);
        assert((first + later).drop_first() =~= first.drop_first() + later);
        match sent_event(first[0]) {
            Some(event) => {
                assert(seq![event] + (sent_events(first.drop_first()) + sent_events(later)) =~= (
                seq![event] + sent_events(first.drop_first())) + sent_events(later));
            },
            None => {},
        }
    }
}

/// The reads that bring a command forward what it forwards.
proof fn lemma_taken_event(
    reads: Seq<SessionRead>,
    expected: u64,
    command: crate::wire::CommandModel,
    next: u64,
)
    requires
        command_taken(
            reads,
            expected,
            Ok::<crate::wire::CommandModel, Seq<char>>(command),
            next,
        ),
    ensures
        sent_events(reads) == (match command {
            crate::wire::CommandModel::ForwardInput { event } => seq![event],
            _ => Seq::<InjectedInputEvent>::empty(),
        }),
    decreases reads.len(),
{
    reveal_with_fuel(sent_events, 2);
    match needed_frame(reads[0]) {
        Ok(PeerTransportSessionFrame::Heartbeat { .. }) => {
            lemma_taken_event(reads.drop_first(), (expected + 1) as u64, command, next);
        },
        _ => {
            assert(reads.drop_first() =~= Seq::<SessionRead>::empty());
            match command {
                crate::wire::CommandModel::ForwardInput { event } => {
                    assert(seq![event] + Seq::<InjectedInputEvent>::empty() =~= seq![event]);
                },
                _ => {},
            }
        },
    }
}

/// What opens a session names the device that opens it and the peer it is for, who is the one that was
/// asked for; it carries the nonce, ends the handshake with the first number, and names what both can
/// do.
pub proof fn a_prelude_names_both_devices<S: IdentitySecretKey>(
    peer_id: Seq<char>,
    local: LocalIdentity<S>,
    peer: TrustedPeer<Ed25519PublicKey>,
    nonce: [u8; 32],
    prelude: PeerSessionPrelude,
) where S::Error: ErrorText
    requires
        prelude_made(
            peer_id,
            local,
            peer,
            nonce,
            Ok::<PeerSessionPrelude, PlatformError>(prelude),
        ),
    ensures
        peer.identity.peer_id@ == peer_id,
        prelude.local_device_id.value@ == local.identity.device_id@,
        prelude.hello is Hello,
        prelude.hello->device_id@ == local.identity.device_id@,
        prelude.hello->peer_id@ == peer_id,
        prelude.hello->nonce == Some(nonce),
        read_hello(SessionRead::Frame { frame: prelude.hello }) is Ok,
        prelude.proof is AuthProof,
        read_proof(SessionRead::Frame { frame: prelude.proof }) is Ok,
        prelude.ready is SessionReady,
        prelude.ready->ready.sequence_base == 0,
        prelude.ready->ready.session_id@ == local.identity.device_id@ + "->"@ + peer_id,
{
}

/// A session that begins with a hello acts out the input that the frames after the hello forward, in
/// order and unchanged, and nothing else; it says who was there as the hello said it.
pub proof fn a_session_with_a_hello_acts_out_what_was_forwarded<
    R: PeerFrameSource,
    P: PlatformAdapter,
>(
    reader: &mut R,
    platform: &mut P,
    result: Result<PeerTransportSessionExecution, PlatformError>,
)
    requires
        call_ensures(
            execute_peer_transport_session_stream_until_closed::<R, P>,
            (reader, platform),
            result,
        ),
        result is Ok,
    ensures
        exists|reads: Seq<SessionRead>, calls: Seq<PlatformCall>| #[trigger]
            given(*old(reader), reads, *final(reader)) && #[trigger] crate::platform::carried(
                *old(platform),
                calls,
                *final(platform),
            ) && reads.len() > 1 && says_hello(reads[0], result->Ok_0.hello) && reads.last() is Closed
                && crate::platform::injected_by(calls) == sent_events(reads.drop_first())
                && told_events(outcome_views(result->Ok_0.outcomes@)) == sent_events(
                reads.drop_first(),
            ),
{
    let (reads, calls) = choose|reads: Seq<SessionRead>, calls: Seq<PlatformCall>| #[trigger]
        given(*old(reader), reads, *final(reader)) && #[trigger] crate::platform::carried(
            *old(platform),
            calls,
            *final(platform),
        ) && reads.len() > 0 && match read_hello(reads[0]) {
            Err(reason) => {
                &&& reads.len() == 1
                &&& calls == Seq::<PlatformCall>::empty()
                &&& session_outcome(result) == Err::<Seq<ExecutionModel>, Seq<char>>(reason)
            },
            Ok(hello) => {
                &&& session_run(
                    fresh_session(),
                    reads.drop_first(),
                    Seq::empty(),
                    session_outcome(result),
                    calls,
                )
                &&& result matches Ok(execution) ==> execution.hello@ == hello
            },
        };
    let rest = reads.drop_first();
    assert(session_run(fresh_session(), rest, Seq::empty(), session_outcome(result), calls));
    forwarded_input_is_acted_out_in_order(
        fresh_session(),
        rest,
        Seq::empty(),
        session_outcome(result),
        calls,
    );
    frames_are_counted_without_gaps(
        fresh_session(),
        rest,
        Seq::empty(),
        session_outcome(result),
        calls,
    );
    assert(reads.last() == rest.last());
    let empty = Seq::<InjectedInputEvent>::empty();
    assert(empty + sent_events(rest) =~= sent_events(rest));
}

/// Whether a frame is a hello of the version that is spoken here, and it is the one that was taken.
pub open spec fn says_hello(read: SessionRead, hello: PeerTransportSessionHello) -> bool {
    &&& read is Frame
    &&& read->frame is Hello
    &&& read->frame->device_id@ == hello.device_id.value@
    &&& read->frame->peer_id@ == hello.peer_id.value@
    &&& read->frame->nonce == hello.nonce
    &&& read->frame->Hello_capabilities == hello.capabilities
    &&& read->frame->protocol.major == hello.protocol.major
    &&& hello.protocol.minor <= read->frame->protocol.minor
}

/// What opens a session is taken from its own frame, as it was sent, and one frame is read for it.
pub proof fn what_opens_a_session_is_taken_as_it_was_sent<R: PeerFrameSource>(
    hello_reader: &mut R,
    hello: Result<PeerTransportSessionHello, PlatformError>,
    proof_reader: &mut R,
    proven: Result<AuthProof, PlatformError>,
    ready_reader: &mut R,
    ready: Result<SessionReady, PlatformError>,
)
    requires
        call_ensures(read_peer_transport_session_hello::<R>, (hello_reader,), hello),
        call_ensures(read_peer_transport_session_auth_proof::<R>, (proof_reader,), proven),
        call_ensures(read_peer_transport_session_ready::<R>, (ready_reader,), ready),
    ensures
        hello is Ok ==> exists|read: SessionRead| #[trigger]
            R::gives(*old(hello_reader), read, *final(hello_reader)) && says_hello(
                read,
                hello->Ok_0,
            ),
        hello is Err ==> exists|read: SessionRead| #[trigger]
            R::gives(*old(hello_reader), read, *final(hello_reader)) && !(read is Frame
                && read->frame is Hello && read->frame->protocol.major
                == crate::protocol::PROTOCOL_MAJOR),
        proven is Ok ==> exists|read: SessionRead| #[trigger]
            R::gives(*old(proof_reader), read, *final(proof_reader)) && read is Frame
                && read->frame is AuthProof && read->frame->proof == proven->Ok_0,
        proven is Err ==> exists|read: SessionRead| #[trigger]
            R::gives(*old(proof_reader), read, *final(proof_reader)) && !(read is Frame
                && read->frame is AuthProof),
        ready is Ok ==> exists|read: SessionRead| #[trigger]
            R::gives(*old(ready_reader), read, *final(ready_reader)) && read is Frame
                && read->frame is SessionReady && read->frame->ready == ready->Ok_0,
        ready is Err ==> exists|read: SessionRead| #[trigger]
            R::gives(*old(ready_reader), read, *final(ready_reader)) && !(read is Frame
                && read->frame is SessionReady),
{
}

/// After an error the inputs that may be held are released once, and nothing else is asked of the
/// platform; the error is told first of all.
pub proof fn an_error_releases_what_may_be_held<P: PlatformAdapter>(
    platform: &mut P,
    needs_release_on_close: bool,
    error: PlatformError,
    result: PlatformError,
)
    requires
        call_ensures(
            release_peer_transport_inputs_after_error::<P>,
            (platform, needs_release_on_close, error),
            result,
        ),
    ensures
        error@.is_prefix_of(result@),
        !needs_release_on_close ==> result@ == error@,
        exists|calls: Seq<PlatformCall>| #[trigger]
            crate::platform::carried(*old(platform), calls, *final(platform)) && (if needs_release_on_close {
                calls.len() == 1 && calls[0] is ReleaseAll
            } else {
                calls.len() == 0
            }),
{
    let calls = choose|calls: Seq<PlatformCall>| #[trigger]
        crate::platform::carried(*old(platform), calls, *final(platform)) && error_ends(
            needs_release_on_close,
            error@,
            Seq::empty(),
            result@,
            calls,
        );
    assert(crate::platform::carried(*old(platform), calls, *final(platform)));
}

/// What is sent to open a session names the device that opens it and the peer that was asked for,
/// whatever nonce was drawn.
pub proof fn a_session_is_opened_with_the_peer_that_was_asked_for<S: IdentitySecretKey>(
    peer_id: &PeerId,
    local_identity: &LocalIdentity<S>,
    trusted_peer: &TrustedPeer<Ed25519PublicKey>,
    local_nonce: [u8; 32],
    made: Result<PeerSessionPrelude, PlatformError>,
    connected: Result<PeerSessionPrelude, PlatformError>,
) where S::Error: ErrorText
    requires
        call_ensures(
            build_session_prelude::<S>,
            (peer_id, local_identity, trusted_peer, local_nonce),
            made,
        ),
        call_ensures(
            connect_authenticated::<S>,
            (peer_id, local_identity, trusted_peer),
            connected,
        ),
    ensures
        made is Ok ==> opens_with(*peer_id, *local_identity, *trusted_peer, made->Ok_0)
            && made->Ok_0.hello->nonce == Some(local_nonce),
        connected is Ok ==> opens_with(*peer_id, *local_identity, *trusted_peer, connected->Ok_0)
            && connected->Ok_0.hello->nonce is Some,
        trusted_peer.identity.peer_id@ != peer_id.value@ ==> made is Err && connected is Err,
{
    if made is Ok {
        a_prelude_names_both_devices(
            peer_id@,
            *local_identity,
            *trusted_peer,
            local_nonce,
            made->Ok_0,
        );
    }
    if connected is Ok {
        let nonce = choose|nonce: [u8; 32]| #[trigger]
            prelude_made(peer_id@, *local_identity, *trusted_peer, nonce, connected);
        a_prelude_names_both_devices(
            peer_id@,
            *local_identity,
            *trusted_peer,
            nonce,
            connected->Ok_0,
        );
    }
}

/// Whether what opens a session is for a peer and from a device.
pub open spec fn opens_with<S: IdentitySecretKey>(
    peer_id: PeerId,
    local: LocalIdentity<S>,
    peer: TrustedPeer<Ed25519PublicKey>,
    prelude: PeerSessionPrelude,
) -> bool {
    &&& prelude.local_device_id.value@ == local.identity.device_id@
    &&& prelude.hello is Hello
    &&& prelude.hello->device_id@ == local.identity.device_id@
    &&& prelude.hello->peer_id@ == peer_id.value@
    &&& prelude.proof is AuthProof
    &&& prelude.ready is SessionReady
    &&& prelude.ready->ready.sequence_base == 0
}

/// An authenticated session acts out input only where the peer has proven who it is, and then the
/// input that was forwarded after the handshake, in order and unchanged.
pub proof fn an_authenticated_session_acts_out_what_was_forwarded<
    R: PeerFrameSource,
    P: PlatformAdapter,
    V: IdentityPublicKey,
>(
    reader: &mut R,
    platform: &mut P,
    trusted_peer: &TrustedPeer<V>,
    expected_role: PeerRole,
    transcript: &AuthTranscript,
    result: Result<PeerTransportSessionExecution, PlatformError>,
) where V::Error: ErrorText
    requires
        call_ensures(
            execute_authenticated_peer_transport_session_stream_until_closed::<R, P, V>,
            (reader, platform, trusted_peer, expected_role, transcript),
            result,
        ),
        result is Ok,
    ensures
        exists|reads: Seq<SessionRead>, calls: Seq<PlatformCall>| #[trigger]
            given(*old(reader), reads, *final(reader)) && #[trigger] crate::platform::carried(
                *old(platform),
                calls,
                *final(platform),
            ) && reads.len() >= 4 && says_hello(reads[0], result->Ok_0.hello)
                && reads[1] is Frame && reads[1]->frame is AuthProof
                && crate::identity::proof_checked(
                trusted_peer.identity.peer_id@,
                trusted_peer.public_key,
                expected_role,
                *transcript,
                reads[1]->frame->proof,
                Ok::<(), crate::identity::AuthProofVerifyError<V::Error>>(()),
            ) && reads[2] is Frame && reads[2]->frame is SessionReady
                && crate::platform::injected_by(calls) == sent_events(reads.skip(3)),
{
    let (reads, calls) = choose|reads: Seq<SessionRead>, calls: Seq<PlatformCall>| #[trigger]
        given(*old(reader), reads, *final(reader)) && #[trigger] crate::platform::carried(
            *old(platform),
            calls,
            *final(platform),
        ) && reads.len() > 0 && match read_hello(reads[0]) {
            Err(reason) => {
                &&& reads.len() == 1
                &&& calls == Seq::<PlatformCall>::empty()
                &&& session_outcome(result) == Err::<Seq<ExecutionModel>, Seq<char>>(reason)
            },
            Ok(hello) => {
                &&& handshake_run(
                    *trusted_peer,
                    expected_role,
                    *transcript,
                    reads.drop_first(),
                    Seq::empty(),
                    session_outcome(result),
                    calls,
                )
                &&& result matches Ok(execution) ==> execution.hello@ == hello
            },
        };
    let rest = reads.drop_first();
    let outcomes = outcome_views(result->Ok_0.outcomes@);
    assert(session_outcome(result) == Ok::<Seq<ExecutionModel>, Seq<char>>(outcomes));
    only_a_proven_peer_is_served(
        *trusted_peer,
        expected_role,
        *transcript,
        rest,
        Seq::empty(),
        outcomes,
        calls,
    );
    assert(rest.skip(2) =~= reads.skip(3));
    assert(rest[0] == reads[1]);
    assert(rest[1] == reads[2]);
    let empty = Seq::<InjectedInputEvent>::empty();
    assert(empty + sent_events(reads.skip(3)) =~= sent_events(reads.skip(3)));
}

/// A session with a bound acts out as many commands as it was told to, and the input that is acted out
/// is the input that was forwarded, in order and unchanged.
pub proof fn a_session_with_a_bound_acts_out_so_many_commands<
    R: PeerFrameSource,
    P: PlatformAdapter,
>(
    reader: &mut R,
    max_commands: usize,
    platform: &mut P,
    result: Result<PeerTransportSessionExecution, PlatformError>,
)
    requires
        call_ensures(
            execute_bounded_peer_transport_session::<R, P>,
            (reader, max_commands, platform),
            result,
        ),
        result is Ok,
    ensures
        result->Ok_0.outcomes@.len() == max_commands,
        exists|reads: Seq<SessionRead>, calls: Seq<PlatformCall>| #[trigger]
            given(*old(reader), reads, *final(reader)) && #[trigger] crate::platform::carried(
                *old(platform),
                calls,
                *final(platform),
            ) && reads.len() > 0 && says_hello(reads[0], result->Ok_0.hello)
                && crate::platform::injected_by(calls) == sent_events(reads.drop_first()),
{
    let (reads, calls) = choose|reads: Seq<SessionRead>, calls: Seq<PlatformCall>| #[trigger]
        given(*old(reader), reads, *final(reader)) && #[trigger] crate::platform::carried(
            *old(platform),
            calls,
            *final(platform),
        ) && reads.len() > 0 && match read_hello(reads[0]) {
            Err(reason) => {
                &&& reads.len() == 1
                &&& calls == Seq::<PlatformCall>::empty()
                &&& session_outcome(result) == Err::<Seq<ExecutionModel>, Seq<char>>(reason)
            },
            Ok(hello) => {
                &&& bounded_run(
                    Seq::empty(),
                    reads.drop_first(),
                    0,
                    max_commands as nat,
                    Seq::empty(),
                    session_outcome(result),
                    calls,
                )
                &&& result matches Ok(execution) ==> execution.hello@ == hello
            },
        };
    let rest = reads.drop_first();
    let outcomes = outcome_views(result->Ok_0.outcomes@);
    assert(session_outcome(result) == Ok::<Seq<ExecutionModel>, Seq<char>>(outcomes));
    a_bounded_session_acts_out_what_was_forwarded(
        Seq::empty(),
        rest,
        0,
        max_commands as nat,
        Seq::empty(),
        outcomes,
        calls,
    );
    let empty = Seq::<InjectedInputEvent>::empty();
    assert(empty + sent_events(rest) =~= sent_events(rest));
}

/// A command that is read from an open session is the one that its own frame carries, and the frames
/// are counted as they are read.
pub proof fn a_read_command_is_the_one_that_was_sent<R: PeerFrameSource>(
    reader: &mut R,
    sequence: &mut PeerTransportSessionSequence,
    result: Result<DaemonTransportCommand, PlatformError>,
)
    requires
        call_ensures(
            read_peer_transport_session_command_with_sequence::<R>,
            (reader, sequence),
            result,
        ),
        result is Ok,
    ensures
        exists|reads: Seq<SessionRead>| #[trigger]
            given(*old(reader), reads, *final(reader)) && reads.len() > 0
                && final(sequence).expected == old(sequence).expected + reads.len()
                && reads.last() is Frame && reads.last()->frame is Command
                && reads.last()->frame->Command_sequence == final(sequence).expected - 1
                && crate::wire::read_command(reads.last()->frame->command@) == Ok::<
                crate::wire::CommandModel,
                Seq<char>,
            >(result->Ok_0@) && (forall|i: int|
                0 <= i < reads.len() - 1 ==> (#[trigger] reads[i]) is Frame
                    && reads[i]->frame is Heartbeat),
{
    let reads = choose|reads: Seq<SessionRead>| #[trigger]
        given(*old(reader), reads, *final(reader)) && command_taken(
            reads,
            old(sequence).expected,
            command_model(result),
            final(sequence).expected,
        );
    a_command_is_taken_from_its_own_frame(
        reads,
        old(sequence).expected,
        result->Ok_0@,
        final(sequence).expected,
    );
    assert(given(*old(reader), reads, *final(reader)));
}

} // verus!
