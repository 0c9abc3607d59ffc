//! What the desktop application gathers from the daemon for a support case.

use vstd::prelude::*;

use crate::snapshot::{
    DaemonStatus, DiagnosticsKeyboardLayout, DiagnosticsScreenTopology, PermissionsProbe,
};

verus! {

/// What was gathered. The screens and the keyboard are there where the daemon could tell; every call
/// that was answered left the time that it took, in microseconds.
#[derive(Debug, PartialEq, Eq)]
pub struct DiagnosticsParts {
    pub status: DaemonStatus,
    pub permissions: PermissionsProbe,
    pub screen_topology: Option<DiagnosticsScreenTopology>,
    pub keyboard_layout: Option<DiagnosticsKeyboardLayout>,
    pub latency_samples: Vec<u128>,
}

/// How much has been gathered.
#[derive(Debug, PartialEq, Eq)]
pub enum DiagnosticsRun {
    AskingStatus,
    AskingPermissions { status: (DaemonStatus, u128) },
    AskingTopology { status: (DaemonStatus, u128), permissions: (PermissionsProbe, u128) },
    AskingKeyboard {
        status: (DaemonStatus, u128),
        permissions: (PermissionsProbe, u128),
        topology: Option<(DiagnosticsScreenTopology, u128)>,
    },
    Done,
}

/// What the daemon answered, with the time that it took.
pub enum DiagnosticsEvent {
    Status(Result<(DaemonStatus, u128), String>),
    Permissions(Result<(PermissionsProbe, u128), String>),
    Topology(Result<(DiagnosticsScreenTopology, u128), String>),
    Keyboard(Result<(DiagnosticsKeyboardLayout, u128), String>),
}

/// What the daemon is to be asked for.
pub enum DiagnosticsAction {
    AskStatus,
    AskPermissions,
    AskTopology,
    AskKeyboard,
    Finish(Result<DiagnosticsParts, String>),
}

/// Whether such an answer is waited for.
pub open spec fn diagnostics_awaits(run: DiagnosticsRun, event: DiagnosticsEvent) -> bool {
    match event {
        DiagnosticsEvent::Status(_) => run is AskingStatus,
        DiagnosticsEvent::Permissions(_) => run is AskingPermissions,
        DiagnosticsEvent::Topology(_) => run is AskingTopology,
        DiagnosticsEvent::Keyboard(_) => run is AskingKeyboard,
    }
}

/// The time that a call took, where it was answered.
pub open spec fn sample<T>(answer: Option<(T, u128)>) -> Seq<u128> {
    match answer {
        Some((_, latency)) => seq![latency],
        None => Seq::empty(),
    }
}

/// What a call was answered, where it was.
pub open spec fn answered<T>(answer: Option<(T, u128)>) -> Option<T> {
    match answer {
        Some((value, _)) => Some(value),
        None => None,
    }
}

/// Whether parts are made of these answers, with the times in the order of the calls.
pub open spec fn made_of(
    parts: DiagnosticsParts,
    status: (DaemonStatus, u128),
    permissions: (PermissionsProbe, u128),
    topology: Option<(DiagnosticsScreenTopology, u128)>,
    keyboard: Option<(DiagnosticsKeyboardLayout, u128)>,
) -> bool {
    &&& parts.status == status.0
    &&& parts.permissions == permissions.0
    &&& parts.screen_topology == answered(topology)
    &&& parts.keyboard_layout == answered(keyboard)
    &&& parts.latency_samples@ == seq![status.1, permissions.1] + sample(topology) + sample(
        keyboard,
    )
}

/// An answer, where there is one.
pub open spec fn in_hand<T>(answer: Result<T, String>) -> Option<T> {
    match answer {
        Ok(value) => Some(value),
        Err(_) => None,
    }
}

/// One step. Without a status or the permissions there is nothing to report; the rest may be missing.
pub open spec fn diagnostics_step(
    before: DiagnosticsRun,
    event: DiagnosticsEvent,
    action: DiagnosticsAction,
    after: DiagnosticsRun,
) -> bool {
    match event {
        DiagnosticsEvent::Status(Ok(status)) => action is AskPermissions && after == (
        DiagnosticsRun::AskingPermissions { status }),
        DiagnosticsEvent::Status(Err(refused)) => after is Done && action
            == DiagnosticsAction::Finish(Err::<DiagnosticsParts, String>(refused)),
        DiagnosticsEvent::Permissions(Ok(permissions)) => action is AskTopology && after == (
        DiagnosticsRun::AskingTopology {
            status: before->AskingPermissions_status,
            permissions,
        }),
        DiagnosticsEvent::Permissions(Err(refused)) => after is Done && action
            == DiagnosticsAction::Finish(Err::<DiagnosticsParts, String>(refused)),
        DiagnosticsEvent::Topology(answer) => action is AskKeyboard && after == (
        DiagnosticsRun::AskingKeyboard {
            status: before->AskingTopology_status,
            permissions: before->AskingTopology_permissions,
            topology: in_hand(answer),
        }),
        DiagnosticsEvent::Keyboard(answer) => {
            &&& after is Done
            &&& action matches DiagnosticsAction::Finish(Ok(parts)) && made_of(
                parts,
                before->AskingKeyboard_status,
                before->AskingKeyboard_permissions,
                before->topology,
                in_hand(answer),
            )
        },
    }
}

/// What was gathered.
fn gather(
    status: (DaemonStatus, u128),
    permissions: (PermissionsProbe, u128),
    topology: Option<(DiagnosticsScreenTopology, u128)>,
    keyboard: Option<(DiagnosticsKeyboardLayout, u128)>,
) -> (result: DiagnosticsParts)
    ensures
        made_of(result, status, permissions, topology, keyboard),
{
    let mut latency_samples: Vec<u128> = Vec::new();
    latency_samples.push(status.1);
    latency_samples.push(permissions.1);
    proof {
        assert(latency_samples@ =~= seq![status.1, permissions.1]);
    }
    let screen_topology = match topology {
        Some((screens, latency)) => {
            latency_samples.push(latency);
            Some(screens)
        },
        None => None,
    };
    proof {
        assert(latency_samples@ =~= seq![status.1, permissions.1] + sample(topology));
    }
    let keyboard_layout = match keyboard {
        Some((layout, latency)) => {
            latency_samples.push(latency);
            Some(layout)
        },
        None => None,
    };
    proof {
        assert(latency_samples@ =~= seq![status.1, permissions.1] + sample(topology) + sample(
            keyboard,
        ));
    }
    DiagnosticsParts {
        status: status.0,
        permissions: permissions.0,
        screen_topology,
        keyboard_layout,
        latency_samples,
    }
}

impl DiagnosticsRun {
    /// Begin with the status.
    pub fn begin() -> (result: (DiagnosticsRun, DiagnosticsAction))
        ensures
            result.0 is AskingStatus,
            result.1 is AskStatus,
    {
        (DiagnosticsRun::AskingStatus, DiagnosticsAction::AskStatus)
    }

    /// Go on after an answer.
    pub fn call_daemon_diagnostics_snapshot(self, event: DiagnosticsEvent) -> (result: (
        DiagnosticsRun,
        DiagnosticsAction,
    ))
        requires
            diagnostics_awaits(self, event),
        ensures
            diagnostics_step(self, event, result.1, result.0),
    {
        match (self, event) {
            (DiagnosticsRun::AskingStatus, DiagnosticsEvent::Status(Ok(status))) => {
                (DiagnosticsRun::AskingPermissions { status }, DiagnosticsAction::AskPermissions)
            },
            (
                DiagnosticsRun::AskingPermissions { status },
                DiagnosticsEvent::Permissions(Ok(permissions)),
            ) => {
                (
                    DiagnosticsRun::AskingTopology { status, permissions },
                    DiagnosticsAction::AskTopology,
                )
            },
            (
                DiagnosticsRun::AskingTopology { status, permissions },
                DiagnosticsEvent::Topology(answer),
            ) => {
                let topology = match answer {
                    Ok(topology) => Some(topology),
                    Err(_) => None,
                };
                (
                    DiagnosticsRun::AskingKeyboard { status, permissions, topology },
                    DiagnosticsAction::AskKeyboard,
                )
            },
            (
                DiagnosticsRun::AskingKeyboard { status, permissions, topology },
                DiagnosticsEvent::Keyboard(answer),
            ) => {
                let keyboard = match answer {
                    Ok(keyboard) => Some(keyboard),
                    Err(_) => None,
                };
                (
                    DiagnosticsRun::Done,
                    DiagnosticsAction::Finish(Ok(gather(status, permissions, topology, keyboard))),
                )
            },
            (_, DiagnosticsEvent::Status(Err(refused))) => {
                (DiagnosticsRun::Done, DiagnosticsAction::Finish(Err(refused)))
            },
            (_, DiagnosticsEvent::Permissions(Err(refused))) => {
                (DiagnosticsRun::Done, DiagnosticsAction::Finish(Err(refused)))
            },
            (run, _) => (run, DiagnosticsAction::AskStatus),
        }
    }
}

/// The daemon is asked for its status, its permissions, its screens and its keyboard, one after the
/// other. Without the first two there is nothing to report, and the refusal is told as it was.
pub proof fn the_daemon_is_asked_in_order(
    begun: (DiagnosticsRun, DiagnosticsAction),
    run: DiagnosticsRun,
    event: DiagnosticsEvent,
    next: (DiagnosticsRun, DiagnosticsAction),
)
    requires
        call_ensures(DiagnosticsRun::begin, (), begun),
        diagnostics_awaits(run, event),
        call_ensures(DiagnosticsRun::call_daemon_diagnostics_snapshot, (run, event), next),
    ensures
        begun.0 is AskingStatus && begun.1 is AskStatus,
        event matches DiagnosticsEvent::Status(Ok(_)) ==> next.1 is AskPermissions,
        event matches DiagnosticsEvent::Permissions(Ok(_)) ==> next.1 is AskTopology,
        event is Topology ==> next.1 is AskKeyboard,
        event is Keyboard ==> next.1 is Finish && next.1->Finish_0 is Ok,
        event matches DiagnosticsEvent::Status(Err(why)) ==> next.1 is Finish && next.1->Finish_0
            is Err && next.1->Finish_0->Err_0 == why,
        event matches DiagnosticsEvent::Permissions(Err(why)) ==> next.1 is Finish
            && next.1->Finish_0 is Err && next.1->Finish_0->Err_0 == why,
{
}

/// What is reported is what the daemon answered: each answer in its place, and the time that each
/// answered call took, in the order of the calls.
pub proof fn what_is_reported_is_what_was_answered(
    status: (DaemonStatus, u128),
    permissions: (PermissionsProbe, u128),
    topology: Result<(DiagnosticsScreenTopology, u128), String>,
    keyboard: Result<(DiagnosticsKeyboardLayout, u128), String>,
    first: (DiagnosticsRun, DiagnosticsAction),
    second: (DiagnosticsRun, DiagnosticsAction),
    third: (DiagnosticsRun, DiagnosticsAction),
    last: (DiagnosticsRun, DiagnosticsAction),
)
    requires
        call_ensures(
            DiagnosticsRun::call_daemon_diagnostics_snapshot,
            (
                DiagnosticsRun::AskingStatus,
                DiagnosticsEvent::Status(Ok::<(DaemonStatus, u128), String>(status)),
            ),
            first,
        ),
        call_ensures(
            DiagnosticsRun::call_daemon_diagnostics_snapshot,
            (
                first.0,
                DiagnosticsEvent::Permissions(Ok::<(PermissionsProbe, u128), String>(permissions)),
            ),
            second,
        ),
        call_ensures(
            DiagnosticsRun::call_daemon_diagnostics_snapshot,
            (second.0, DiagnosticsEvent::Topology(topology)),
            third,
        ),
        call_ensures(
            DiagnosticsRun::call_daemon_diagnostics_snapshot,
            (third.0, DiagnosticsEvent::Keyboard(keyboard)),
            last,
        ),
    ensures
        last.1 is Finish,
        last.1->Finish_0 is Ok,
        ({
            let parts = last.1->Finish_0->Ok_0;
            &&& parts.status == status.0
            &&& parts.permissions == permissions.0
            &&& topology matches Ok(answer) ==> parts.screen_topology == Some(answer.0)
            &&& topology is Err ==> parts.screen_topology is None
            &&& keyboard matches Ok(answer) ==> parts.keyboard_layout == Some(answer.0)
            &&& keyboard is Err ==> parts.keyboard_layout is None
            &&& parts.latency_samples@.len() >= 2
            &&& parts.latency_samples@[0] == status.1
            &&& parts.latency_samples@[1] == permissions.1
            &&& topology is Ok ==> parts.latency_samples@.len() >= 3 && parts.latency_samples@[2]
                == topology->Ok_0.1
            &&& keyboard is Ok ==> parts.latency_samples@.last() == keyboard->Ok_0.1
            &&& topology is Ok && keyboard is Ok ==> parts.latency_samples@.len() == 4
            &&& topology is Err && keyboard is Err ==> parts.latency_samples@.len() == 2
        }),
{
}

} // verus!
