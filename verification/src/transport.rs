//! From what the state machine asks for to what a peer is told.

use vstd::prelude::*;

use crate::platform::{PlatformAdapter, PlatformCall, PlatformError};
use crate::runtime::{
    clone_crossing, clone_session_id, CoreAction, EdgeCrossing, InjectedInputEvent, PeerId,
    SessionId,
};

verus! {

/// What a peer is told to do.
#[derive(Debug, PartialEq, Eq)]
pub enum DaemonTransportCommand {
    StartRemoteSession { peer_id: PeerId, crossing: Option<EdgeCrossing> },
    ForwardInput { event: InjectedInputEvent },
    ReleaseAllInputs,
    StopRemoteSession { session_id: Option<SessionId> },
}

impl Clone for DaemonTransportCommand {
    fn clone(&self) -> (result: Self)
        ensures
            result == *self,
    {
        match self {
            DaemonTransportCommand::StartRemoteSession { peer_id, crossing } => {
                DaemonTransportCommand::StartRemoteSession {
                    peer_id: peer_id.clone(),
                    crossing: clone_crossing(crossing),
                }
            },
            DaemonTransportCommand::ForwardInput { event } => {
                DaemonTransportCommand::ForwardInput { event: *event }
            },
            DaemonTransportCommand::ReleaseAllInputs => DaemonTransportCommand::ReleaseAllInputs,
            DaemonTransportCommand::StopRemoteSession { session_id } => {
                DaemonTransportCommand::StopRemoteSession {
                    session_id: clone_session_id(session_id),
                }
            },
        }
    }
}

/// The command for one action; the idle report and local releases concern no peer.
pub open spec fn remote_command(action: CoreAction) -> Option<DaemonTransportCommand> {
    match action {
        CoreAction::InputCaptureIdle | CoreAction::ReleaseLocalInputs => None,
        CoreAction::StartRemoteSession { peer_id, crossing } => Some(
            DaemonTransportCommand::StartRemoteSession { peer_id, crossing },
        ),
        CoreAction::ForwardInput { event } => Some(DaemonTransportCommand::ForwardInput { event }),
        CoreAction::ReleaseAllInputs => Some(DaemonTransportCommand::ReleaseAllInputs),
        CoreAction::StopRemoteSession { session_id } => Some(
            DaemonTransportCommand::StopRemoteSession { session_id },
        ),
    }
}

/// The commands for a batch of actions, in order.
pub open spec fn remote_commands(actions: Seq<CoreAction>) -> Seq<DaemonTransportCommand>
    decreases actions.len(),
{
    if actions.len() == 0 {
        Seq::empty()
    } else {
        match remote_command(actions[0]) {
            Some(command) => seq![command] + remote_commands(actions.drop_first()),
            None => remote_commands(actions.drop_first()),
        }
    }
}

impl DaemonTransportCommand {
    /// The command for one action, where it concerns the peer.
    pub fn from_remote_core_action(action: &CoreAction) -> (result: Option<Self>)
        ensures
            result == remote_command(*action),
    {
        match action {
            CoreAction::InputCaptureIdle | CoreAction::ReleaseLocalInputs => None,
            CoreAction::StartRemoteSession { peer_id, crossing } => Some(
                DaemonTransportCommand::StartRemoteSession {
                    peer_id: peer_id.clone(),
                    crossing: clone_crossing(crossing),
                },
            ),
            CoreAction::ForwardInput { event } => Some(
                DaemonTransportCommand::ForwardInput { event: *event },
            ),
            CoreAction::ReleaseAllInputs => Some(DaemonTransportCommand::ReleaseAllInputs),
            CoreAction::StopRemoteSession { session_id } => Some(
                DaemonTransportCommand::StopRemoteSession {
                    session_id: clone_session_id(session_id),
                },
            ),
        }
    }
}

/// Carries out what the state machine asks for.
pub trait CoreActionDispatcher: Sized {
    /// What one batch does: which results it may have and what it leaves behind.
    open spec fn dispatches(
        before: Self,
        actions: Seq<CoreAction>,
        result: Result<(), PlatformError>,
        after: Self,
    ) -> bool {
        true
    }

    fn dispatch_core_actions(&mut self, actions: &[CoreAction]) -> (result: Result<
        (),
        PlatformError,
    >)
        ensures
            Self::dispatches(*old(self), actions@, result, *final(self)),
    ;
}

/// Tells a peer what to do.
pub trait DaemonPeerTransport: Sized {
    /// What one command does: which results it may have and what it leaves behind.
    open spec fn sends(
        before: Self,
        command: DaemonTransportCommand,
        result: Result<(), PlatformError>,
        after: Self,
    ) -> bool {
        true
    }

    fn dispatch_transport_command(&mut self, command: DaemonTransportCommand) -> (result: Result<
        (),
        PlatformError,
    >)
        ensures
            Self::sends(*old(self), command, result, *final(self)),
    ;
}

/// Ignores every action.
#[derive(Debug, Clone, Copy, PartialEq, Eq)]
pub struct NoopCoreActionDispatcher;

impl Default for NoopCoreActionDispatcher {
    fn default() -> (result: Self)
        ensures
            result == NoopCoreActionDispatcher,
    {
        NoopCoreActionDispatcher
    }
}

impl CoreActionDispatcher for NoopCoreActionDispatcher {
    open spec fn dispatches(
        before: Self,
        actions: Seq<CoreAction>,
        result: Result<(), PlatformError>,
        after: Self,
    ) -> bool {
        result is Ok
    }

    fn dispatch_core_actions(&mut self, actions: &[CoreAction]) -> (result: Result<
        (),
        PlatformError,
    >) {
        Ok(())
    }
}

/// Releases local inputs on the platform and hands every other action on.
#[derive(Debug)]
pub struct LocalPlatformCoreActionDispatcher<P, D> {
    pub platform: P,
    pub next: D,
}

impl<P, D> LocalPlatformCoreActionDispatcher<P, D> {
    pub fn new(platform: P, next: D) -> (result: Self)
        ensures
            result == (LocalPlatformCoreActionDispatcher { platform, next }),
    {
        LocalPlatformCoreActionDispatcher { platform, next }
    }

    pub fn platform(&self) -> (result: &P)
        ensures
            *result == self.platform,
    {
        &self.platform
    }

    pub fn next(&self) -> (result: &D)
        ensures
            *result == self.next,
    {
        &self.next
    }
}

/// What one action does: a local release is one call to the platform, everything else goes to the
/// next dispatcher alone.
pub open spec fn local_step<P: PlatformAdapter, D: CoreActionDispatcher>(
    before: LocalPlatformCoreActionDispatcher<P, D>,
    action: CoreAction,
    result: Result<(), PlatformError>,
    after: LocalPlatformCoreActionDispatcher<P, D>,
) -> bool {
    if action is ReleaseLocalInputs {
        &&& P::answers(
            before.platform,
            PlatformCall::ReleaseAll { released: result },
            after.platform,
        )
        &&& after.next == before.next
    } else {
        &&& after.platform == before.platform
        &&& D::dispatches(before.next, seq![action], result, after.next)
    }
}

/// What a batch does: each action in order, up to and with the first that fails.
pub open spec fn local_run<P: PlatformAdapter, D: CoreActionDispatcher>(
    before: LocalPlatformCoreActionDispatcher<P, D>,
    actions: Seq<CoreAction>,
    result: Result<(), PlatformError>,
    after: LocalPlatformCoreActionDispatcher<P, D>,
) -> bool
    decreases actions.len(),
{
    if actions.len() == 0 {
        result is Ok && after == before
    } else {
        exists|first: Result<(), PlatformError>, mid: LocalPlatformCoreActionDispatcher<P, D>| #[trigger]
            local_step(before, actions[0], first, mid) && match first {
                Err(error) => result == Err::<(), PlatformError>(error) && after == mid,
                Ok(_) => local_run(mid, actions.drop_first(), result, after),
            }
    }
}

impl<P: PlatformAdapter, D: CoreActionDispatcher> CoreActionDispatcher
    for LocalPlatformCoreActionDispatcher<P, D> {
    open spec fn dispatches(
        before: Self,
        actions: Seq<CoreAction>,
        result: Result<(), PlatformError>,
        after: Self,
    ) -> bool {
        local_run(before, actions, result, after)
    }

    fn dispatch_core_actions(&mut self, actions: &[CoreAction]) -> (result: Result<
        (),
        PlatformError,
    >) {
        let mut i: usize = 0;
        proof {
            assert(actions@.subrange(0, actions@.len() as int) =~= actions@);
        }
        while i < actions.len()
            invariant
                i <= actions@.len(),
                forall|result: Result<(), PlatformError>, after: Self|
                    local_run(
                        *self,
                        actions@.subrange(i as int, actions@.len() as int),
                        result,
                        after,
                    ) ==> #[trigger] local_run(*old(self), actions@, result, after),
            decreases actions@.len() - i,
        {
            let ghost rest = actions@.subrange(i as int, actions@.len() as int);
            let ghost before = *self;
            proof {
                assert(rest[0] == actions@[i as int]);
                assert(rest.drop_first() =~= actions@.subrange(i + 1, actions@.len() as int));
            }
            let answer: Result<(), PlatformError> = match &actions[i] {
                CoreAction::ReleaseLocalInputs => self.platform.release_all(),
                other => {
                    let one: Vec<CoreAction> = vec![other.clone()];
                    proof {
                        assert(one@ =~= seq![actions@[i as int]]);
                    }
                    self.next.dispatch_core_actions(one.as_slice())
                },
            };
            assert(local_step(before, rest[0], answer, *self));
            match answer {
                Err(error) => {
                    let result: Result<(), PlatformError> = Err(error);
                    assert(local_run(before, rest, result, *self));
                    return result;
                },
                Ok(_) => {},
            }
            proof {
                let current = *self;
                assert forall|result: Result<(), PlatformError>, after: Self|
                    local_run(current, rest.drop_first(), result, after) implies #[trigger] local_run(
                    *old(self),
                    actions@,
                    result,
                    after,
                ) by {
                    assert(local_run(before, rest, result, after));
                }
            }
            i = i + 1;
        }
        let result: Result<(), PlatformError> = Ok(());
        assert(local_run(*self, actions@.subrange(i as int, actions@.len() as int), result, *self));
        result
    }
}

/// Turns actions into commands for a peer.
#[derive(Debug)]
pub struct TransportCoreActionDispatcher<T> {
    pub transport: T,
}

impl<T> TransportCoreActionDispatcher<T> {
    pub fn new(transport: T) -> (result: Self)
        ensures
            result == (TransportCoreActionDispatcher { transport }),
    {
        TransportCoreActionDispatcher { transport }
    }

    pub fn transport(&self) -> (result: &T)
        ensures
            *result == self.transport,
    {
        &self.transport
    }
}

/// What a list of commands does: each in order, up to and with the first that fails.
pub open spec fn transport_run<T: DaemonPeerTransport>(
    before: T,
    commands: Seq<DaemonTransportCommand>,
    result: Result<(), PlatformError>,
    after: T,
) -> bool
    decreases commands.len(),
{
    if commands.len() == 0 {
        result is Ok && after == before
    } else {
        exists|first: Result<(), PlatformError>, mid: T| #[trigger]
            T::sends(before, commands[0], first, mid) && match first {
                Err(error) => result == Err::<(), PlatformError>(error) && after == mid,
                Ok(_) => transport_run(mid, commands.drop_first(), result, after),
            }
    }
}

impl<T: DaemonPeerTransport> CoreActionDispatcher for TransportCoreActionDispatcher<T> {
    open spec fn dispatches(
        before: Self,
        actions: Seq<CoreAction>,
        result: Result<(), PlatformError>,
        after: Self,
    ) -> bool {
        transport_run(before.transport, remote_commands(actions), result, after.transport)
    }

    fn dispatch_core_actions(&mut self, actions: &[CoreAction]) -> (result: Result<
        (),
        PlatformError,
    >) {
        let mut i: usize = 0;
        let ghost all = remote_commands(actions@);
        proof {
            assert(actions@.subrange(0, actions@.len() as int) =~= actions@);
        }
        while i < actions.len()
            invariant
                i <= actions@.len(),
                all == remote_commands(actions@),
                forall|result: Result<(), PlatformError>, after: T|
                    transport_run(
                        self.transport,
                        remote_commands(actions@.subrange(i as int, actions@.len() as int)),
                        result,
                        after,
                    ) ==> #[trigger] transport_run(old(self).transport, all, result, after),
            decreases actions@.len() - i,
        {
            let ghost rest = actions@.subrange(i as int, actions@.len() as int);
            let ghost before = self.transport;
            proof {
                assert(rest[0] == actions@[i as int]);
                assert(rest.drop_first() =~= actions@.subrange(i + 1, actions@.len() as int));
            }
            if let Some(command) = DaemonTransportCommand::from_remote_core_action(&actions[i]) {
                let ghost commands = remote_commands(rest);
                proof {
                    assert(commands[0] == command);
                    assert(commands.drop_first() =~= remote_commands(rest.drop_first()));
                }
                let answer: Result<(), PlatformError> = self.transport.dispatch_transport_command(
                    command,
                );
                match answer {
                    Err(error) => {
                        let result: Result<(), PlatformError> = Err(error);
                        assert(T::sends(before, commands[0], result, self.transport));
                        assert(transport_run(before, commands, result, self.transport));
                        return result;
                    },
                    Ok(_) => {},
                }
                proof {
                    let current = self.transport;
                    assert forall|result: Result<(), PlatformError>, after: T|
                        transport_run(
                            current,
                            commands.drop_first(),
                            result,
                            after,
                        ) implies #[trigger] transport_run(
                        old(self).transport,
                        all,
                        result,
                        after,
                    ) by {
                        assert(T::sends(before, commands[0], answer, current));
                        assert(transport_run(before, commands, result, after));
                    }
                }
            }
            i = i + 1;
        }
        let result: Result<(), PlatformError> = Ok(());
        assert(transport_run(
            self.transport,
            remote_commands(actions@.subrange(i as int, actions@.len() as int)),
            result,
            self.transport,
        ));
        result
    }
}

/// Keeps every command, for a peer that is this process.
#[derive(Debug)]
pub struct LoopbackPeerTransport {
    commands: Vec<DaemonTransportCommand>,
}

impl View for LoopbackPeerTransport {
    type V = Seq<DaemonTransportCommand>;

    closed spec fn view(&self) -> Seq<DaemonTransportCommand> {
        self.commands@
    }
}

/// A copy of a list of commands.
pub fn clone_commands(commands: &Vec<DaemonTransportCommand>) -> (result: Vec<
    DaemonTransportCommand,
>)
    ensures
        result@ == commands@,
{
    let mut result: Vec<DaemonTransportCommand> = Vec::new();
    let mut i: usize = 0;
    while i < commands.len()
        invariant
            i <= commands@.len(),
            result@ =~= commands@.subrange(0, i as int),
        decreases commands@.len() - i,
    {
        result.push(commands[i].clone());
        i = i + 1;
    }
    proof {
        assert(commands@.subrange(0, i as int) =~= commands@);
    }
    result
}

impl LoopbackPeerTransport {
    pub fn new() -> (result: Self)
        ensures
            result@ == Seq::<DaemonTransportCommand>::empty(),
    {
        LoopbackPeerTransport { commands: Vec::new() }
    }

    /// The commands kept so far, oldest first.
    pub fn snapshot(&self) -> (result: Vec<DaemonTransportCommand>)
        ensures
            result@ == self@,
    {
        clone_commands(&self.commands)
    }
}

impl Default for LoopbackPeerTransport {
    fn default() -> (result: Self)
        ensures
            result@ == Seq::<DaemonTransportCommand>::empty(),
    {
        LoopbackPeerTransport::new()
    }
}

impl DaemonPeerTransport for LoopbackPeerTransport {
    open spec fn sends(
        before: Self,
        command: DaemonTransportCommand,
        result: Result<(), PlatformError>,
        after: Self,
    ) -> bool {
        result is Ok && after@ == before@.push(command)
    }

    fn dispatch_transport_command(&mut self, command: DaemonTransportCommand) -> (result: Result<
        (),
        PlatformError,
    >) {
        self.commands.push(command);
        Ok(())
    }
}

/// A loopback dispatcher keeps the command of every action that concerns the peer, in order, and
/// never fails.
pub proof fn loopback_keeps_remote_commands_in_order(
    before: TransportCoreActionDispatcher<LoopbackPeerTransport>,
    actions: Seq<CoreAction>,
    result: Result<(), PlatformError>,
    after: TransportCoreActionDispatcher<LoopbackPeerTransport>,
)
    requires
        TransportCoreActionDispatcher::<LoopbackPeerTransport>::dispatches(
            before,
            actions,
            result,
            after,
        ),
    ensures
        result is Ok,
        after.transport@ == before.transport@ + remote_commands(actions),
{
    lemma_loopback_run(before.transport, remote_commands(actions), result, after.transport);
}

proof fn lemma_loopback_run(
    before: LoopbackPeerTransport,
    commands: Seq<DaemonTransportCommand>,
    result: Result<(), PlatformError>,
    after: LoopbackPeerTransport,
)
    requires
        transport_run(before, commands, result, after),
    ensures
        result is Ok,
        after@ == before@ + commands,
    decreases commands.len(),
{
    if commands.len() == 0 {
        assert(before@ + commands =~= before@);
    } else {
        let (first, mid) = choose|first: Result<(), PlatformError>, mid: LoopbackPeerTransport|
            #[trigger]
            LoopbackPeerTransport::sends(before, commands[0], first, mid) && match first {
                Err(error) => result == Err::<(), PlatformError>(error) && after == mid,
                Ok(_) => transport_run(mid, commands.drop_first(), result, after),
            };
        lemma_loopback_run(mid, commands.drop_first(), result, after);
        assert(before@.push(commands[0]) + commands.drop_first() =~= before@ + commands);
    }
}

/// How many actions of a batch release local inputs.
pub open spec fn local_releases(actions: Seq<CoreAction>) -> nat
    decreases actions.len(),
{
    if actions.len() == 0 {
        0
    } else {
        local_releases(actions.drop_first()) + if actions[0] is ReleaseLocalInputs {
            1nat
        } else {
            0nat
        }
    }
}

/// So many calls that release everything, each of them granted.
pub open spec fn granted_releases(count: nat) -> Seq<PlatformCall> {
    Seq::new(count, |i: int| PlatformCall::ReleaseAll { released: Ok::<(), PlatformError>(()) })
}

/// A batch that succeeds calls the platform once for each local release it holds, and for nothing
/// else.
pub proof fn local_dispatcher_releases_once_per_action<P: PlatformAdapter, D: CoreActionDispatcher>(
    before: LocalPlatformCoreActionDispatcher<P, D>,
    actions: Seq<CoreAction>,
    result: Result<(), PlatformError>,
    after: LocalPlatformCoreActionDispatcher<P, D>,
)
    requires
        LocalPlatformCoreActionDispatcher::<P, D>::dispatches(before, actions, result, after),
        result is Ok,
    ensures
        crate::platform::carried(
            before.platform,
            granted_releases(local_releases(actions)),
            after.platform,
        ),
    decreases actions.len(),
{
    if actions.len() > 0 {
        let (first, mid) = choose|
            first: Result<(), PlatformError>,
            mid: LocalPlatformCoreActionDispatcher<P, D>,
        | #[trigger]
            local_step(before, actions[0], first, mid) && match first {
                Err(error) => result == Err::<(), PlatformError>(error) && after == mid,
                Ok(_) => local_run(mid, actions.drop_first(), result, after),
            };
        local_dispatcher_releases_once_per_action(mid, actions.drop_first(), result, after);
        let rest = granted_releases(local_releases(actions.drop_first()));
        if actions[0] is ReleaseLocalInputs {
            match first {
                Ok(granted) => {
                    assert(granted == ());
                },
                Err(_) => {},
            }
            let release = PlatformCall::ReleaseAll { released: Ok::<(), PlatformError>(()) };
            crate::platform::lemma_one_call(before.platform, release, mid.platform);
            crate::platform::lemma_carried_on(
                before.platform,
                seq![release],
                mid.platform,
                rest,
                after.platform,
            );
            assert(seq![release] + rest =~= granted_releases(local_releases(actions)));
        }
    }
}

/// A peer is told of an action what the action says, and of nothing that concerns this computer alone.
pub proof fn peers_are_told_what_concerns_them(
    action: &CoreAction,
    command: Option<DaemonTransportCommand>,
)
    requires
        call_ensures(DaemonTransportCommand::from_remote_core_action, (action,), command),
    ensures
        command is None <==> (action is InputCaptureIdle || action is ReleaseLocalInputs),
        action is ForwardInput ==> command->Some_0 is ForwardInput && command->Some_0->event
            == action->event,
        action is StartRemoteSession ==> command->Some_0 is StartRemoteSession
            && command->Some_0->StartRemoteSession_peer_id == action->StartRemoteSession_peer_id
            && command->Some_0->crossing == action->crossing,
        action is ReleaseAllInputs ==> command->Some_0 is ReleaseAllInputs,
        action is StopRemoteSession ==> command->Some_0 is StopRemoteSession
            && command->Some_0->session_id == action->session_id,
{
}

/// The commands for two batches are those for the first and then those for the second.
pub proof fn batches_become_commands_in_order(first: Seq<CoreAction>, later: Seq<CoreAction>)
    ensures
        remote_commands(first + later) == remote_commands(first) + remote_commands(later),
        remote_commands(Seq::<CoreAction>::empty()).len() == 0,
    decreases first.len(),
{
    if first.len() == 0 {
        assert(first + later =~= later);
        assert(remote_commands(first) + remote_commands(later) =~= remote_commands(later));
    } else {
        batches_become_commands_in_order(first.drop_first(), later);
        assert((first + later).drop_first() =~= first.drop_first() + later);
        let rest = remote_commands(first.drop_first());
        match remote_command(first[0]) {
            Some(command) => {
                assert(seq![command] + (rest + remote_commands(later)) =~= (seq![command] + rest)
                    + remote_commands(later));
            },
            None => {},
        }
    }
}

/// A batch of one action becomes the command for it, or none.
pub proof fn one_action_becomes_one_command(action: CoreAction)
    ensures
        remote_commands(seq![action]).len() <= 1,
        action is InputCaptureIdle || action is ReleaseLocalInputs <==> remote_commands(
            seq![action],
        ).len() == 0,
        action is ForwardInput ==> remote_commands(seq![action])[0] == (
        DaemonTransportCommand::ForwardInput { event: action->event }),
        action is StartRemoteSession ==> remote_commands(seq![action])[0] == (
        DaemonTransportCommand::StartRemoteSession {
            peer_id: action->StartRemoteSession_peer_id,
            crossing: action->crossing,
        }),
        action is ReleaseAllInputs ==> remote_commands(seq![action])[0]
            == DaemonTransportCommand::ReleaseAllInputs,
        action is StopRemoteSession ==> remote_commands(seq![action])[0] == (
        DaemonTransportCommand::StopRemoteSession { session_id: action->session_id }),
{
    reveal_with_fuel(remote_commands, 2);
    assert(seq![action].drop_first() =~= Seq::<CoreAction>::empty());
}

/// A batch that is handed on one by one leaves the platform alone but for local releases, and the next
/// dispatcher alone for them. A failure ends it.
pub proof fn local_releases_stay_here<P: PlatformAdapter, D: CoreActionDispatcher>(
    before: LocalPlatformCoreActionDispatcher<P, D>,
    action: CoreAction,
    result: Result<(), PlatformError>,
    after: LocalPlatformCoreActionDispatcher<P, D>,
)
    requires
        LocalPlatformCoreActionDispatcher::<P, D>::dispatches(
            before,
            seq![action],
            result,
            after,
        ),
    ensures
        action is ReleaseLocalInputs ==> after.next == before.next && exists|
            answer: Result<(), PlatformError>,
        | #[trigger]
            P::answers(
                before.platform,
                PlatformCall::ReleaseAll { released: answer },
                after.platform,
            ) && (answer is Ok <==> result is Ok),
        !(action is ReleaseLocalInputs) ==> after.platform == before.platform && exists|
            sent: Result<(), PlatformError>,
        | #[trigger]
            D::dispatches(before.next, seq![action], sent, after.next) && (sent is Ok
                <==> result is Ok),
{
    reveal_with_fuel(local_run, 2);
    let actions = seq![action];
    assert(actions[0] == action);
    assert(actions.drop_first() =~= Seq::<CoreAction>::empty());
    let (first, mid) = choose|
        first: Result<(), PlatformError>,
        mid: LocalPlatformCoreActionDispatcher<P, D>,
    | #[trigger]
        local_step(before, actions[0], first, mid) && match first {
            Err(error) => result == Err::<(), PlatformError>(error) && after == mid,
            Ok(_) => local_run(mid, actions.drop_first(), result, after),
        };
    assert(after == mid);
}

/// A transport is handed the commands of a batch one after the other; where one cannot be sent, the
/// batch fails with that error and nothing more is sent.
pub proof fn a_failed_command_ends_the_batch<T: DaemonPeerTransport>(
    before: T,
    first: DaemonTransportCommand,
    later: Seq<DaemonTransportCommand>,
    result: Result<(), PlatformError>,
    after: T,
)
    requires
        transport_run(before, seq![first] + later, result, after),
    ensures
        exists|sent: Result<(), PlatformError>, mid: T| #[trigger]
            T::sends(before, first, sent, mid) && (sent is Err ==> result is Err && after == mid
                && result->Err_0 == sent->Err_0) && (sent is Ok ==> transport_run(
                mid,
                later,
                result,
                after,
            )),
{
    let commands = seq![first] + later;
    assert(commands[0] == first);
    assert(commands.drop_first() =~= later);
}

} // verus!
