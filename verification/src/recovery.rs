//! How control returns to this computer when something interrupts it.

use vstd::prelude::*;

use crate::logs::{record_daemon_event, DaemonLogBuffer};
use crate::platform::PlatformError;
use crate::runtime::{CoreAction, CoreTransitionError, RuntimeEvent, RuntimeInputState};
use crate::snapshot::{ControlModeSnapshot, DaemonLogLevel, InputReleaseAllResult};
use crate::transport::CoreActionDispatcher;

verus! {

/// What carrying out a batch does. An empty batch is not handed on.
pub open spec fn batch_dispatched<D: CoreActionDispatcher>(
    before: D,
    actions: Seq<CoreAction>,
    result: Result<(), PlatformError>,
    after: D,
) -> bool {
    if actions.len() == 0 {
        result is Ok && after == before
    } else {
        D::dispatches(before, actions, result, after)
    }
}

/// Carry out a batch of actions.
pub fn dispatch_core_action_batch<D: CoreActionDispatcher>(
    dispatcher: &mut D,
    actions: Vec<CoreAction>,
) -> (result: Result<(), PlatformError>)
    ensures
        batch_dispatched(*old(dispatcher), actions@, result, *final(dispatcher)),
{
    if actions.len() == 0 {
        return Ok(());
    }
    dispatcher.dispatch_core_actions(actions.as_slice())
}

/// What takes control back from a peer without being asked.
#[derive(Debug, Clone, Copy, PartialEq, Eq, Structural)]
pub enum RuntimeRecoveryInterrupt {
    ScreenLayoutChanged,
    PermissionLost,
    SystemResumed,
}

impl RuntimeRecoveryInterrupt {
    pub open spec fn event(self) -> RuntimeEvent {
        match self {
            RuntimeRecoveryInterrupt::ScreenLayoutChanged => RuntimeEvent::ScreenLayoutChanged,
            RuntimeRecoveryInterrupt::PermissionLost => RuntimeEvent::PermissionLost,
            RuntimeRecoveryInterrupt::SystemResumed => RuntimeEvent::SystemResumed,
        }
    }

    pub fn runtime_event(self) -> (result: RuntimeEvent)
        ensures
            result == self.event(),
    {
        match self {
            RuntimeRecoveryInterrupt::ScreenLayoutChanged => RuntimeEvent::ScreenLayoutChanged,
            RuntimeRecoveryInterrupt::PermissionLost => RuntimeEvent::PermissionLost,
            RuntimeRecoveryInterrupt::SystemResumed => RuntimeEvent::SystemResumed,
        }
    }

    pub open spec fn success_event(self) -> Seq<char> {
        match self {
            RuntimeRecoveryInterrupt::ScreenLayoutChanged => "input.capture.layoutChanged"@,
            RuntimeRecoveryInterrupt::PermissionLost => "input.capture.permissionLost"@,
            RuntimeRecoveryInterrupt::SystemResumed => "input.capture.resume"@,
        }
    }

    pub fn success_log_event(self) -> (result: &'static str)
        ensures
            result@ == self.success_event(),
    {
        match self {
            RuntimeRecoveryInterrupt::ScreenLayoutChanged => "input.capture.layoutChanged",
            RuntimeRecoveryInterrupt::PermissionLost => "input.capture.permissionLost",
            RuntimeRecoveryInterrupt::SystemResumed => "input.capture.resume",
        }
    }

    pub open spec fn success_text(self) -> Seq<char> {
        match self {
            RuntimeRecoveryInterrupt::ScreenLayoutChanged => {
                "Input capture recovered after the screen layout changed."@
            },
            RuntimeRecoveryInterrupt::PermissionLost => {
                "Input capture recovered after platform input permission loss."@
            },
            RuntimeRecoveryInterrupt::SystemResumed => {
                "Input capture recovered after a system resume or long poll gap."@
            },
        }
    }

    pub fn success_log_message(self) -> (result: &'static str)
        ensures
            result@ == self.success_text(),
    {
        match self {
            RuntimeRecoveryInterrupt::ScreenLayoutChanged => {
                "Input capture recovered after the screen layout changed."
            },
            RuntimeRecoveryInterrupt::PermissionLost => {
                "Input capture recovered after platform input permission loss."
            },
            RuntimeRecoveryInterrupt::SystemResumed => {
                "Input capture recovered after a system resume or long poll gap."
            },
        }
    }

    pub open spec fn failure_event(self) -> Seq<char> {
        match self {
            RuntimeRecoveryInterrupt::ScreenLayoutChanged => "input.capture.layoutChanged.failed"@,
            RuntimeRecoveryInterrupt::PermissionLost => "input.capture.permissionLost.failed"@,
            RuntimeRecoveryInterrupt::SystemResumed => "input.capture.resume.failed"@,
        }
    }

    pub fn failure_log_event(self) -> (result: &'static str)
        ensures
            result@ == self.failure_event(),
    {
        match self {
            RuntimeRecoveryInterrupt::ScreenLayoutChanged => "input.capture.layoutChanged.failed",
            RuntimeRecoveryInterrupt::PermissionLost => "input.capture.permissionLost.failed",
            RuntimeRecoveryInterrupt::SystemResumed => "input.capture.resume.failed",
        }
    }

    pub open spec fn failure_text(self) -> Seq<char> {
        match self {
            RuntimeRecoveryInterrupt::ScreenLayoutChanged => {
                "Input capture recovery failed after a screen layout change."@
            },
            RuntimeRecoveryInterrupt::PermissionLost => {
                "Input capture recovery failed after platform input permission loss."@
            },
            RuntimeRecoveryInterrupt::SystemResumed => {
                "Input capture recovery failed after a system resume or long poll gap."@
            },
        }
    }

    pub fn failure_log_message(self) -> (result: &'static str)
        ensures
            result@ == self.failure_text(),
    {
        match self {
            RuntimeRecoveryInterrupt::ScreenLayoutChanged => {
                "Input capture recovery failed after a screen layout change."
            },
            RuntimeRecoveryInterrupt::PermissionLost => {
                "Input capture recovery failed after platform input permission loss."
            },
            RuntimeRecoveryInterrupt::SystemResumed => {
                "Input capture recovery failed after a system resume or long poll gap."
            },
        }
    }

    pub open spec fn context(self) -> Seq<char> {
        match self {
            RuntimeRecoveryInterrupt::ScreenLayoutChanged => "screen layout change"@,
            RuntimeRecoveryInterrupt::PermissionLost => "platform input permission loss"@,
            RuntimeRecoveryInterrupt::SystemResumed => "system resume"@,
        }
    }

    pub fn error_context(self) -> (result: &'static str)
        ensures
            result@ == self.context(),
    {
        match self {
            RuntimeRecoveryInterrupt::ScreenLayoutChanged => "screen layout change",
            RuntimeRecoveryInterrupt::PermissionLost => "platform input permission loss",
            RuntimeRecoveryInterrupt::SystemResumed => "system resume",
        }
    }
}

/// What is said where an interrupt does not apply.
pub fn recovery_interrupt_transition_error(
    interrupt: RuntimeRecoveryInterrupt,
    error: CoreTransitionError,
) -> (result: PlatformError)
    ensures
        result@ == "failed to recover after "@ + interrupt.context() + ": "@ + error.text(),
{
    PlatformError::from_message(
        "failed to recover after ".to_owned().concat(interrupt.error_context()).concat(
            ": ",
        ).concat(error.message().as_str()),
    )
}

/// What an interrupt does: control is local, the event is noted, and the recovery's actions are
/// carried out. The outcome is that of carrying them out.
pub open spec fn interrupt_recovers<D: CoreActionDispatcher>(
    state: crate::runtime::RuntimeModel,
    dispatcher: D,
    logs: Option<DaemonLogBuffer>,
    interrupt: RuntimeRecoveryInterrupt,
    result: Result<(), PlatformError>,
    next_state: crate::runtime::RuntimeModel,
    next_dispatcher: D,
    next_logs: Option<DaemonLogBuffer>,
) -> bool {
    &&& next_state == crate::runtime::recovered(state)
    &&& crate::logs::logged(
        logs,
        DaemonLogLevel::Warn,
        interrupt.success_event(),
        interrupt.success_text(),
        next_logs,
    )
    &&& D::dispatches(
        dispatcher,
        crate::runtime::recovery_actions(state),
        result,
        next_dispatcher,
    )
}

/// Take control back because of an interrupt.
pub fn recover_runtime_state_after_interrupt_and_dispatch<D: CoreActionDispatcher>(
    state: &mut RuntimeInputState,
    dispatcher: &mut D,
    logs: &mut Option<DaemonLogBuffer>,
    interrupt: RuntimeRecoveryInterrupt,
) -> (result: Result<(), PlatformError>)
    ensures
        interrupt_recovers(
            old(state)@,
            *old(dispatcher),
            *old(logs),
            interrupt,
            result,
            final(state)@,
            *final(dispatcher),
            *final(logs),
        ),
{
    match state.apply_event(interrupt.runtime_event()) {
        Ok(actions) => {
            record_daemon_event(
                logs,
                DaemonLogLevel::Warn,
                interrupt.success_log_event(),
                interrupt.success_log_message(),
            );
            dispatch_core_action_batch(dispatcher, actions)
        },
        Err(error) => {
            record_daemon_event(
                logs,
                DaemonLogLevel::Error,
                interrupt.failure_log_event(),
                interrupt.failure_log_message(),
            );
            Err(recovery_interrupt_transition_error(interrupt, error))
        },
    }
}

/// Take control back after the system was asleep.
pub fn recover_runtime_after_system_resume_and_dispatch<D: CoreActionDispatcher>(
    state: &mut RuntimeInputState,
    dispatcher: &mut D,
    logs: &mut Option<DaemonLogBuffer>,
) -> (result: Result<(), PlatformError>)
    ensures
        interrupt_recovers(
            old(state)@,
            *old(dispatcher),
            *old(logs),
            RuntimeRecoveryInterrupt::SystemResumed,
            result,
            final(state)@,
            *final(dispatcher),
            *final(logs),
        ),
{
    recover_runtime_state_after_interrupt_and_dispatch(
        state,
        dispatcher,
        logs,
        RuntimeRecoveryInterrupt::SystemResumed,
    )
}

/// Take control back because a user asked for it.
pub fn recover_local_control_and_release_inputs<D: CoreActionDispatcher>(
    state: &mut RuntimeInputState,
    dispatcher: &mut D,
) -> (result: Result<InputReleaseAllResult, PlatformError>)
    ensures
        final(state)@ == crate::runtime::recovered(old(state)@),
        match result {
            Ok(outcome) => {
                &&& outcome == (InputReleaseAllResult {
                    released: true,
                    mode: ControlModeSnapshot::Local,
                })
                &&& D::dispatches(
                    *old(dispatcher),
                    crate::runtime::recovery_actions(old(state)@),
                    Ok::<(), PlatformError>(()),
                    *final(dispatcher),
                )
            },
            Err(error) => D::dispatches(
                *old(dispatcher),
                crate::runtime::recovery_actions(old(state)@),
                Err::<(), PlatformError>(error),
                *final(dispatcher),
            ),
        },
{
    let actions = match state.apply_event(RuntimeEvent::EmergencyRecoveryRequested) {
        Ok(actions) => actions,
        Err(error) => {
            return Err(
                PlatformError::from_message(
                    "failed to recover local control: ".to_owned().concat(
                        error.message().as_str(),
                    ),
                ),
            );
        },
    };
    let sent = dispatch_core_action_batch(dispatcher, actions);
    match sent {
        Ok(done) => {
            assert(done == ());
            Ok(
                InputReleaseAllResult {
                    released: true,
                    mode: ControlModeSnapshot::from(state.mode()),
                },
            )
        },
        Err(error) => Err(error),
    }
}

/// Recovery never fails to return control, even where carrying out its actions does: afterwards
/// control is local, no peer is pending and no session is named.
pub proof fn interrupted_control_is_local<D: CoreActionDispatcher>(
    state: crate::runtime::RuntimeModel,
    dispatcher: D,
    logs: Option<DaemonLogBuffer>,
    interrupt: RuntimeRecoveryInterrupt,
    result: Result<(), PlatformError>,
    next_state: crate::runtime::RuntimeModel,
    next_dispatcher: D,
    next_logs: Option<DaemonLogBuffer>,
)
    requires
        interrupt_recovers(
            state,
            dispatcher,
            logs,
            interrupt,
            result,
            next_state,
            next_dispatcher,
            next_logs,
        ),
    ensures
        next_state.mode == crate::runtime::ControlMode::Local,
        next_state.pending_peer_id is None,
        next_state.session_id is None,
        next_state.pressed_keys == state.pressed_keys,
{
}

/// Whether actions give up control of a peer: what is held is released here and there, a session that
/// is not over is ended under its name, and nothing else is asked for.
pub open spec fn gives_control_up(
    state: crate::runtime::RuntimeModel,
    actions: Seq<CoreAction>,
) -> bool {
    &&& actions.contains(CoreAction::ReleaseLocalInputs)
    &&& actions.contains(CoreAction::ReleaseAllInputs)
    &&& !(state.mode is Local) ==> actions.contains(
        CoreAction::StopRemoteSession { session_id: state.session_id },
    )
    &&& forall|i: int|
        0 <= i < actions.len() ==> {
            ||| #[trigger] actions[i] is ReleaseLocalInputs
            ||| actions[i] is ReleaseAllInputs
            ||| actions[i] is StopRemoteSession && !(state.mode is Local)
        }
}

/// What is done to take control back gives control up.
pub proof fn recovery_gives_control_up(state: crate::runtime::RuntimeModel)
    ensures
        gives_control_up(state, crate::runtime::recovery_actions(state)),
{
    let actions = crate::runtime::recovery_actions(state);
    assert(actions[0] is ReleaseLocalInputs);
    assert(actions[1] is ReleaseAllInputs);
    if !(state.mode is Local) {
        assert(actions[2] == CoreAction::StopRemoteSession { session_id: state.session_id });
    }
}

/// After an interrupt control is here again: what is held is let go here and there, the peer's session
/// is ended, the log says why, and the outcome is that of doing so.
pub proof fn an_interrupt_brings_control_home<D: CoreActionDispatcher>(
    state: &mut RuntimeInputState,
    dispatcher: &mut D,
    logs: &mut Option<DaemonLogBuffer>,
    interrupt: RuntimeRecoveryInterrupt,
    result: Result<(), PlatformError>,
)
    requires
        call_ensures(
            recover_runtime_state_after_interrupt_and_dispatch::<D>,
            (state, dispatcher, logs, interrupt),
            result,
        ),
    ensures
        final(state)@.mode is Local,
        final(state)@.pending_peer_id is None,
        final(state)@.session_id is None,
        final(state)@.last_local_pointer == old(state)@.last_local_pointer,
        final(state)@.pressed_keys == old(state)@.pressed_keys,
        exists|actions: Seq<CoreAction>|
            gives_control_up(old(state)@, actions) && #[trigger] D::dispatches(
                *old(dispatcher),
                actions,
                result,
                *final(dispatcher),
            ),
        interrupt is ScreenLayoutChanged ==> crate::logs::is_noted(
            *old(logs),
            DaemonLogLevel::Warn,
            "input.capture.layoutChanged"@,
            "Input capture recovered after the screen layout changed."@,
            *final(logs),
        ),
        interrupt is PermissionLost ==> crate::logs::is_noted(
            *old(logs),
            DaemonLogLevel::Warn,
            "input.capture.permissionLost"@,
            "Input capture recovered after platform input permission loss."@,
            *final(logs),
        ),
        interrupt is SystemResumed ==> crate::logs::is_noted(
            *old(logs),
            DaemonLogLevel::Warn,
            "input.capture.resume"@,
            "Input capture recovered after a system resume or long poll gap."@,
            *final(logs),
        ),
{
    recovery_gives_control_up(old(state)@);
}

/// Waking up brings control home as any other interrupt does, and the log says so.
pub proof fn waking_up_brings_control_home<D: CoreActionDispatcher>(
    state: &mut RuntimeInputState,
    dispatcher: &mut D,
    logs: &mut Option<DaemonLogBuffer>,
    result: Result<(), PlatformError>,
)
    requires
        call_ensures(
            recover_runtime_after_system_resume_and_dispatch::<D>,
            (state, dispatcher, logs),
            result,
        ),
    ensures
        final(state)@.mode is Local,
        final(state)@.pending_peer_id is None,
        exists|actions: Seq<CoreAction>|
            gives_control_up(old(state)@, actions) && #[trigger] D::dispatches(
                *old(dispatcher),
                actions,
                result,
                *final(dispatcher),
            ),
        crate::logs::is_noted(
            *old(logs),
            DaemonLogLevel::Warn,
            "input.capture.resume"@,
            "Input capture recovered after a system resume or long poll gap."@,
            *final(logs),
        ),
{
    recovery_gives_control_up(old(state)@);
}

/// Asking for control back brings it home. The answer says so where everything was let go, and why not
/// where it was not.
pub proof fn asking_brings_control_home<D: CoreActionDispatcher>(
    state: &mut RuntimeInputState,
    dispatcher: &mut D,
    result: Result<InputReleaseAllResult, PlatformError>,
)
    requires
        call_ensures(
            recover_local_control_and_release_inputs::<D>,
            (state, dispatcher),
            result,
        ),
    ensures
        final(state)@.mode is Local,
        final(state)@.pending_peer_id is None,
        final(state)@.session_id is None,
        final(state)@.pressed_keys == old(state)@.pressed_keys,
        exists|actions: Seq<CoreAction>, sent: Result<(), PlatformError>|
            gives_control_up(old(state)@, actions) && #[trigger] D::dispatches(
                *old(dispatcher),
                actions,
                sent,
                *final(dispatcher),
            ) && (result is Ok <==> sent is Ok) && (sent is Err ==> result->Err_0 == sent->Err_0),
        result is Ok ==> result->Ok_0.released && result->Ok_0.mode is Local,
{
    recovery_gives_control_up(old(state)@);
    let actions = crate::runtime::recovery_actions(old(state)@);
    match result {
        Ok(_) => {
            assert(D::dispatches(
                *old(dispatcher),
                actions,
                Ok::<(), PlatformError>(()),
                *final(dispatcher),
            ));
        },
        Err(error) => {
            assert(D::dispatches(
                *old(dispatcher),
                actions,
                Err::<(), PlatformError>(error),
                *final(dispatcher),
            ));
        },
    }
}

/// A batch is handed on as it is, and one without actions changes nothing.
pub proof fn a_batch_is_handed_on_as_it_is<D: CoreActionDispatcher>(
    dispatcher: &mut D,
    actions: Vec<CoreAction>,
    result: Result<(), PlatformError>,
)
    requires
        call_ensures(dispatch_core_action_batch::<D>, (dispatcher, actions), result),
    ensures
        actions@.len() > 0 ==> D::dispatches(
            *old(dispatcher),
            actions@,
            result,
            *final(dispatcher),
        ),
        actions@.len() == 0 ==> result is Ok && *final(dispatcher) == *old(dispatcher),
{
}

/// What is said of an interrupt names it, and no two say the same.
pub proof fn interrupts_are_told_apart(
    interrupt: RuntimeRecoveryInterrupt,
    event: RuntimeEvent,
    failed: &'static str,
    told: &'static str,
    context: &'static str,
)
    requires
        call_ensures(RuntimeRecoveryInterrupt::runtime_event, (interrupt,), event),
        call_ensures(RuntimeRecoveryInterrupt::failure_log_event, (interrupt,), failed),
        call_ensures(RuntimeRecoveryInterrupt::failure_log_message, (interrupt,), told),
        call_ensures(RuntimeRecoveryInterrupt::error_context, (interrupt,), context),
    ensures
        interrupt is ScreenLayoutChanged <==> event is ScreenLayoutChanged,
        interrupt is PermissionLost <==> event is PermissionLost,
        interrupt is SystemResumed <==> event is SystemResumed,
        interrupt is ScreenLayoutChanged ==> {
            &&& failed@ == "input.capture.layoutChanged.failed"@
            &&& told@ == "Input capture recovery failed after a screen layout change."@
            &&& context@ == "screen layout change"@
        },
        interrupt is PermissionLost ==> {
            &&& failed@ == "input.capture.permissionLost.failed"@
            &&& told@ == "Input capture recovery failed after platform input permission loss."@
            &&& context@ == "platform input permission loss"@
        },
        interrupt is SystemResumed ==> {
            &&& failed@ == "input.capture.resume.failed"@
            &&& told@ == "Input capture recovery failed after a system resume or long poll gap."@
            &&& context@ == "system resume"@
        },
{
}

/// What could not be undone after an interrupt is told with the interrupt and the reason.
pub proof fn a_failed_recovery_tells_of_its_interrupt(
    interrupt: RuntimeRecoveryInterrupt,
    error: CoreTransitionError,
    result: PlatformError,
)
    requires
        call_ensures(recovery_interrupt_transition_error, (interrupt, error), result),
    ensures
        "failed to recover after "@.is_prefix_of(result@),
        exists|rest: Seq<char>|
            result@ == #[trigger] ("failed to recover after "@ + interrupt.context() + rest),
{
    assert(result@ =~= "failed to recover after "@ + interrupt.context() + (": "@ + error.text()));
}

} // verus!
