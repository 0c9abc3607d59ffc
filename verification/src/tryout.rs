//! Trying the daemon out from the desktop application: start it, ask it, stop it, and report.

use vstd::prelude::*;

use crate::json::{JsonModel, JsonObject, JsonValue, ToJson};
use crate::launch::{non_empty_string, DaemonStartOptions};
use crate::lifecycle::{
    phase_name, DaemonLifecyclePhase, DaemonLifecycleSnapshot, DaemonStopMethod, DaemonStopOutcome,
};
use crate::settings::{copy_edges, same_settings, AppSettings};
use crate::snapshot::{DaemonShutdownResult, PermissionsProbe};

verus! {

/// What was seen while the daemon was tried out.
#[derive(Debug, PartialEq, Eq)]
pub struct DaemonLifecycleSmokeReport {
    pub initial: DaemonLifecycleSnapshot,
    pub settings: Option<AppSettings>,
    pub permissions: Option<PermissionsProbe>,
    pub started: Option<DaemonLifecycleSnapshot>,
    pub stopped: Option<DaemonLifecycleSnapshot>,
    pub stop_method: Option<DaemonStopMethod>,
    pub shutdown: Option<DaemonShutdownResult>,
}

/// A report that has seen the daemon once.
pub open spec fn first_report(initial: DaemonLifecycleSnapshot) -> DaemonLifecycleSmokeReport {
    DaemonLifecycleSmokeReport {
        initial,
        settings: None,
        permissions: None,
        started: None,
        stopped: None,
        stop_method: None,
        shutdown: None,
    }
}

/// A report that has seen the daemon stop.
pub open spec fn with_stop(
    report: DaemonLifecycleSmokeReport,
    outcome: DaemonStopOutcome,
) -> DaemonLifecycleSmokeReport {
    DaemonLifecycleSmokeReport {
        stop_method: Some(outcome.method),
        shutdown: outcome.shutdown,
        stopped: Some(outcome.snapshot),
        ..report
    }
}

impl DaemonLifecycleSmokeReport {
    pub fn new(initial: DaemonLifecycleSnapshot) -> (result: Self)
        ensures
            result == first_report(initial),
    {
        DaemonLifecycleSmokeReport {
            initial,
            settings: None,
            permissions: None,
            started: None,
            stopped: None,
            stop_method: None,
            shutdown: None,
        }
    }

    /// Note how the daemon stopped.
    pub fn record_stop(&mut self, outcome: DaemonStopOutcome)
        ensures
            *final(self) == with_stop(*old(self), outcome),
    {
        self.stop_method = Some(outcome.method);
        self.shutdown = outcome.shutdown;
        self.stopped = Some(outcome.snapshot);
    }
}

/// An optional snapshot: what it is written as, or null.
pub open spec fn optional_snapshot_model(snapshot: Option<DaemonLifecycleSnapshot>) -> JsonModel {
    match snapshot {
        Some(snapshot) => snapshot.json(),
        None => JsonModel::Null,
    }
}

/// An optional snapshot as a JSON value.
fn json_optional_snapshot(snapshot: &Option<DaemonLifecycleSnapshot>) -> (result: JsonValue)
    ensures
        result@ == optional_snapshot_model(*snapshot),
{
    match snapshot {
        Some(snapshot) => snapshot.to_json(),
        None => JsonValue::Null,
    }
}

/// The entries of an object with one more where there is a value for it.
pub open spec fn with_optional<T: ToJson>(
    entries: Seq<(Seq<char>, JsonModel)>,
    key: Seq<char>,
    value: Option<T>,
) -> Seq<(Seq<char>, JsonModel)> {
    match value {
        Some(value) => entries.push((key, value.json())),
        None => entries,
    }
}

/// The object with one more entry where there is a value for it.
fn put_optional<T: ToJson>(object: JsonObject, key: &str, value: &Option<T>) -> (result: JsonObject)
    ensures
        result.entries() == with_optional(object.entries(), key@, *value),
{
    match value {
        Some(value) => object.with(key, value.to_json()),
        None => object,
    }
}

impl ToJson for DaemonLifecycleSmokeReport {
    open spec fn json(&self) -> JsonModel {
        let initial = seq![("initial"@, self.initial.json())];
        let asked = with_optional(
            with_optional(initial, "settings"@, self.settings),
            "permissions"@,
            self.permissions,
        );
        let seen = asked.push(("started"@, optional_snapshot_model(self.started))).push(
            ("stopped"@, optional_snapshot_model(self.stopped)),
        );
        JsonModel::Object(
            with_optional(
                with_optional(seen, "stopMethod"@, self.stop_method),
                "shutdown"@,
                self.shutdown,
            ),
        )
    }

    fn to_json(&self) -> (result: JsonValue) {
        let initial = JsonObject::new().with("initial", self.initial.to_json());
        proof {
            assert(initial.entries() =~= seq![("initial"@, self.initial.json())]);
        }
        let asked = put_optional(
            put_optional(initial, "settings", &self.settings),
            "permissions",
            &self.permissions,
        );
        let seen = asked.with("started", json_optional_snapshot(&self.started)).with(
            "stopped",
            json_optional_snapshot(&self.stopped),
        );
        put_optional(
            put_optional(seen, "stopMethod", &self.stop_method),
            "shutdown",
            &self.shutdown,
        ).done()
    }
}

/// What was asked of the application.
#[derive(Debug, PartialEq, Eq)]
pub enum TryoutStage {
    Refreshing,
    TryingSettings,
    Starting,
    Probing,
    /// The daemon is stopped on the way to a failure that is already known. Where it cannot be
    /// stopped, the report is still printed if the permissions were the trouble.
    GivingUp { message: String, after_probe: bool },
    Stopping,
    Done,
}

/// What came of it.
pub enum TryoutEvent {
    Refreshed(Result<DaemonLifecycleSnapshot, String>),
    /// The settings as they were saved and as they were loaded again.
    Settings(Result<(AppSettings, AppSettings), String>),
    Started(Result<DaemonLifecycleSnapshot, String>),
    Probed(Result<PermissionsProbe, String>),
    Stopped(Result<DaemonStopOutcome, String>),
}

/// What the application is to do.
pub enum TryoutAction {
    Refresh,
    TrySettings,
    Start(DaemonStartOptions),
    Probe,
    Stop,
    /// Print the report where there is one, and end.
    Finish { report: Option<DaemonLifecycleSmokeReport>, result: Result<(), String> },
}

/// A try of the daemon, with settings of its own or without.
#[derive(Debug, PartialEq, Eq)]
pub struct Tryout {
    pub with_settings: bool,
    pub stage: TryoutStage,
    pub report: Option<DaemonLifecycleSmokeReport>,
}

/// Whether such an event is waited for.
pub open spec fn tryout_awaits(stage: TryoutStage, event: TryoutEvent) -> bool {
    match event {
        TryoutEvent::Refreshed(_) => stage is Refreshing,
        TryoutEvent::Settings(_) => stage is TryingSettings,
        TryoutEvent::Started(_) => stage is Starting,
        TryoutEvent::Probed(_) => stage is Probing,
        TryoutEvent::Stopped(_) => stage is GivingUp || stage is Stopping,
    }
}

/// What the try is called.
pub open spec fn tryout_name(with_settings: bool) -> Seq<char> {
    if with_settings {
        "daemon settings smoke"@
    } else {
        "daemon lifecycle smoke"@
    }
}

/// What is said where a daemon was there before.
pub open spec fn occupied_text(with_settings: bool, phase: DaemonLifecyclePhase) -> Seq<char> {
    tryout_name(with_settings) + " requires no existing daemon, but initial phase was "@
        + crate::lifecycle::phase_named(phase)
}

/// What is said where the daemon did not come to run.
pub open spec fn not_started_text(with_settings: bool, phase: DaemonLifecyclePhase) -> Seq<char> {
    tryout_name(with_settings) + (if with_settings {
        " expected running after configured start, got "@
    } else {
        " expected running after start, got "@
    }) + crate::lifecycle::phase_named(phase)
}

/// What is said where the daemon runs on.
pub open spec fn not_stopped_text(with_settings: bool) -> Seq<char> {
    tryout_name(with_settings) + " expected daemon to stop, but it is still running."@
}

/// Whether a try ends, with a report to print or without, and with a failure or without.
pub open spec fn tryout_ends(
    action: TryoutAction,
    after: Tryout,
    report: Option<DaemonLifecycleSmokeReport>,
    failure: Option<Seq<char>>,
) -> bool {
    &&& after.stage is Done
    &&& action matches TryoutAction::Finish { report: printed, result } && printed == report && (
    match result {
        Ok(_) => failure is None,
        Err(message) => failure == Some(message@),
    })
}

/// Whether a try goes on with a report.
pub open spec fn tryout_goes_on(
    before: Tryout,
    after: Tryout,
    stage: TryoutStage,
    report: DaemonLifecycleSmokeReport,
) -> bool {
    after == (Tryout { with_settings: before.with_settings, stage, report: Some(report) })
}

/// One step of a try.
pub open spec fn tryout_step(
    before: Tryout,
    event: TryoutEvent,
    action: TryoutAction,
    after: Tryout,
) -> bool {
    let report = before.report->Some_0;
    match event {
        TryoutEvent::Refreshed(Err(message)) => tryout_ends(action, after, None, Some(message@)),
        TryoutEvent::Refreshed(Ok(initial)) => if !(initial.phase is NotRunning) {
            tryout_ends(
                action,
                after,
                Some(first_report(initial)),
                Some(occupied_text(before.with_settings, initial.phase)),
            )
        } else if before.with_settings {
            action is TrySettings && tryout_goes_on(
                before,
                after,
                TryoutStage::TryingSettings,
                first_report(initial),
            )
        } else {
            &&& action matches TryoutAction::Start(options) && options@ == (
            crate::launch::StartModel {
                capture_input: None,
                peer_listen_address: None,
                edge_bindings: Seq::empty(),
            })
            &&& tryout_goes_on(before, after, TryoutStage::Starting, first_report(initial))
        },
        TryoutEvent::Settings(Err(message)) => tryout_ends(action, after, None, Some(message@)),
        TryoutEvent::Settings(Ok((saved, loaded))) => {
            let noted = DaemonLifecycleSmokeReport { settings: Some(loaded), ..report };
            if loaded@ != saved@ {
                tryout_ends(
                    action,
                    after,
                    Some(noted),
                    Some("daemon settings smoke loaded settings did not match saved settings."@),
                )
            } else {
                &&& action matches TryoutAction::Start(options) && options@
                    == crate::launch::start_of(loaded@)
                &&& tryout_goes_on(before, after, TryoutStage::Starting, noted)
            }
        },
        TryoutEvent::Started(Err(message)) => tryout_ends(action, after, None, Some(message@)),
        TryoutEvent::Started(Ok(started)) => {
            let noted = DaemonLifecycleSmokeReport { started: Some(started), ..report };
            if started.phase is Running {
                action is Probe && tryout_goes_on(before, after, TryoutStage::Probing, noted)
            } else {
                &&& action is Stop
                &&& after.with_settings == before.with_settings
                &&& after.report == Some(noted)
                &&& after.stage matches TryoutStage::GivingUp { message, after_probe }
                    && !after_probe && message@ == not_started_text(
                    before.with_settings,
                    started.phase,
                )
            }
        },
        TryoutEvent::Probed(Ok(permissions)) => action is Stop && tryout_goes_on(
            before,
            after,
            TryoutStage::Stopping,
            DaemonLifecycleSmokeReport { permissions: Some(permissions), ..report },
        ),
        TryoutEvent::Probed(Err(error)) => {
            &&& action is Stop
            &&& after.with_settings == before.with_settings
            &&& after.report == before.report
            &&& after.stage matches TryoutStage::GivingUp { message, after_probe } && after_probe
                && message@ == "daemon smoke permissions probe failed: "@ + error@
        },
        TryoutEvent::Stopped(Err(message)) => tryout_ends(
            action,
            after,
            if before.stage is GivingUp && before.stage->after_probe {
                before.report
            } else {
                None
            },
            Some(message@),
        ),
        TryoutEvent::Stopped(Ok(outcome)) => tryout_ends(
            action,
            after,
            Some(with_stop(report, outcome)),
            match before.stage {
                TryoutStage::GivingUp { message, .. } => Some(message@),
                _ => if outcome.snapshot.phase is Running {
                    Some(not_stopped_text(before.with_settings))
                } else {
                    None
                },
            },
        ),
    }
}

/// What a try is called.
fn name_of(with_settings: bool) -> (result: String)
    ensures
        result@ == tryout_name(with_settings),
{
    if with_settings {
        "daemon settings smoke".to_owned()
    } else {
        "daemon lifecycle smoke".to_owned()
    }
}

/// Whether a phase is that of a daemon that answers.
fn is_running(phase: DaemonLifecyclePhase) -> (result: bool)
    ensures
        result == phase is Running,
{
    match phase {
        DaemonLifecyclePhase::Running => true,
        _ => false,
    }
}

impl Tryout {
    /// Whether there is a report once the daemon has been seen.
    pub open spec fn wf(&self) -> bool {
        self.stage is Refreshing || self.stage is Done || self.report is Some
    }

    /// Begin with a look at the daemon.
    pub fn begin(with_settings: bool) -> (result: (Tryout, TryoutAction))
        ensures
            result.0 == (Tryout { with_settings, stage: TryoutStage::Refreshing, report: None }),
            result.0.wf(),
            result.1 is Refresh,
    {
        (
            Tryout { with_settings, stage: TryoutStage::Refreshing, report: None },
            TryoutAction::Refresh,
        )
    }

    /// End.
    fn finish(&mut self, report: Option<DaemonLifecycleSmokeReport>, message: String) -> (action:
        TryoutAction)
        ensures
            final(self).wf(),
            tryout_ends(action, *final(self), report, Some(message@)),
    {
        self.stage = TryoutStage::Done;
        TryoutAction::Finish { report, result: Err(message) }
    }

    /// Go on after the first look.
    fn on_refreshed(&mut self, initial: DaemonLifecycleSnapshot) -> (action: TryoutAction)
        requires
            old(self).stage is Refreshing,
        ensures
            final(self).wf(),
            tryout_step(*old(self), TryoutEvent::Refreshed(Ok(initial)), action, *final(self)),
    {
        let phase = initial.phase;
        let report = DaemonLifecycleSmokeReport::new(initial);
        match phase {
            DaemonLifecyclePhase::NotRunning => {
                self.report = Some(report);
                if self.with_settings {
                    self.stage = TryoutStage::TryingSettings;
                    TryoutAction::TrySettings
                } else {
                    self.stage = TryoutStage::Starting;
                    TryoutAction::Start(DaemonStartOptions::default())
                }
            },
            _ => {
                let message = name_of(self.with_settings).concat(
                    " requires no existing daemon, but initial phase was ",
                ).concat(phase_name(phase));
                self.finish(Some(report), message)
            },
        }
    }

    /// Go on after the settings were saved and loaded.
    fn on_settings(&mut self, saved: AppSettings, loaded: AppSettings) -> (action: TryoutAction)
        requires
            old(self).wf(),
            old(self).stage is TryingSettings,
        ensures
            final(self).wf(),
            tryout_step(
                *old(self),
                TryoutEvent::Settings(Ok((saved, loaded))),
                action,
                *final(self),
            ),
    {
        let matching = same_settings(&loaded, &saved);
        let options = DaemonStartOptions {
            capture_input: Some(loaded.capture_input),
            peer_listen_address: non_empty_string(loaded.peer_listen_address.as_str()),
            edge_bindings: copy_edges(&loaded.edge_bindings),
        };
        let mut report = self.report.take().unwrap();
        report.settings = Some(loaded);
        if matching {
            self.report = Some(report);
            self.stage = TryoutStage::Starting;
            TryoutAction::Start(options)
        } else {
            let message = "daemon settings smoke loaded settings did not match saved settings."
                .to_owned();
            self.finish(Some(report), message)
        }
    }

    /// Go on after the start.
    fn on_started(&mut self, started: DaemonLifecycleSnapshot) -> (action: TryoutAction)
        requires
            old(self).wf(),
            old(self).stage is Starting,
        ensures
            final(self).wf(),
            tryout_step(*old(self), TryoutEvent::Started(Ok(started)), action, *final(self)),
    {
        let phase = started.phase;
        let mut report = self.report.take().unwrap();
        report.started = Some(started);
        self.report = Some(report);
        if is_running(phase) {
            self.stage = TryoutStage::Probing;
            TryoutAction::Probe
        } else {
            let name = name_of(self.with_settings);
            let expected = if self.with_settings {
                name.concat(" expected running after configured start, got ")
            } else {
                name.concat(" expected running after start, got ")
            };
            self.stage = TryoutStage::GivingUp {
                message: expected.concat(phase_name(phase)),
                after_probe: false,
            };
            TryoutAction::Stop
        }
    }

    /// Go on after the daemon was asked for its permissions.
    fn on_probed(&mut self, probed: Result<PermissionsProbe, String>) -> (action: TryoutAction)
        requires
            old(self).wf(),
            old(self).stage is Probing,
        ensures
            final(self).wf(),
            tryout_step(*old(self), TryoutEvent::Probed(probed), action, *final(self)),
    {
        match probed {
            Ok(permissions) => {
                let mut report = self.report.take().unwrap();
                report.permissions = Some(permissions);
                self.report = Some(report);
                self.stage = TryoutStage::Stopping;
            },
            Err(error) => {
                self.stage = TryoutStage::GivingUp {
                    message: "daemon smoke permissions probe failed: ".to_owned().concat(
                        error.as_str(),
                    ),
                    after_probe: true,
                };
            },
        }
        TryoutAction::Stop
    }

    /// Go on after the stop.
    fn on_stopped(&mut self, stopped: Result<DaemonStopOutcome, String>) -> (action: TryoutAction)
        requires
            old(self).wf(),
            old(self).stage is GivingUp || old(self).stage is Stopping,
        ensures
            final(self).wf(),
            tryout_step(*old(self), TryoutEvent::Stopped(stopped), action, *final(self)),
    {
        let known: Option<(String, bool)> = match &self.stage {
            TryoutStage::GivingUp { message, after_probe } => Some((message.clone(), *after_probe)),
            _ => None,
        };
        let mut report = self.report.take().unwrap();
        match stopped {
            Err(error) => {
                let print: bool = match &known {
                    Some((_, after_probe)) => *after_probe,
                    None => false,
                };
                if print {
                    self.finish(Some(report), error)
                } else {
                    self.finish(None, error)
                }
            },
            Ok(outcome) => {
                let phase = outcome.snapshot.phase;
                report.record_stop(outcome);
                match known {
                    Some((message, _)) => self.finish(Some(report), message),
                    None => {
                        if is_running(phase) {
                            let message = name_of(self.with_settings).concat(
                                " expected daemon to stop, but it is still running.",
                            );
                            self.finish(Some(report), message)
                        } else {
                            self.stage = TryoutStage::Done;
                            TryoutAction::Finish { report: Some(report), result: Ok(()) }
                        }
                    },
                }
            },
        }
    }

    /// Go on after a step of a try.
    pub fn run_daemon_smoke(&mut self, event: TryoutEvent) -> (action: TryoutAction)
        requires
            old(self).wf(),
            tryout_awaits(old(self).stage, event),
        ensures
            final(self).wf(),
            tryout_step(*old(self), event, action, *final(self)),
    {
        match event {
            TryoutEvent::Refreshed(Ok(initial)) => self.on_refreshed(initial),
            TryoutEvent::Refreshed(Err(message)) => self.finish(None, message),
            TryoutEvent::Settings(Ok((saved, loaded))) => self.on_settings(saved, loaded),
            TryoutEvent::Settings(Err(message)) => self.finish(None, message),
            TryoutEvent::Started(Ok(started)) => self.on_started(started),
            TryoutEvent::Started(Err(message)) => self.finish(None, message),
            TryoutEvent::Probed(probed) => self.on_probed(probed),
            TryoutEvent::Stopped(stopped) => self.on_stopped(stopped),
        }
    }
}

/// A daemon that a try has started is stopped before the try ends, unless the start itself gave no
/// answer.
pub proof fn a_started_daemon_is_stopped(
    before: Tryout,
    event: TryoutEvent,
    action: TryoutAction,
    after: Tryout,
)
    requires
        before.wf(),
        tryout_awaits(before.stage, event),
        tryout_step(before, event, action, after),
        event matches TryoutEvent::Started(Ok(_)) || event is Probed,
    ensures
        !(action is Finish),
        after.stage is Probing || action is Stop,
{
}

/// A try begins by looking for a daemon, and goes on only where there is none: with settings of its own
/// first where it has some, else with a daemon that is started with none.
pub proof fn a_try_needs_the_daemon_to_be_absent(
    with_settings: bool,
    begun: (Tryout, TryoutAction),
    run: &mut Tryout,
    seen: Result<DaemonLifecycleSnapshot, String>,
    action: TryoutAction,
)
    requires
        call_ensures(Tryout::begin, (with_settings,), begun),
        old(run).wf(),
        old(run).stage is Refreshing,
        call_ensures(Tryout::run_daemon_smoke, (run, TryoutEvent::Refreshed(seen)), action),
    ensures
        begun.1 is Refresh && begun.0.stage is Refreshing && begun.0.with_settings == with_settings,
        seen matches Err(why) ==> action is Finish && action->Finish_result is Err
            && action->Finish_result->Err_0@ == why@ && action->Finish_report is None,
        seen matches Ok(snapshot) ==> {
            &&& !(snapshot.phase is NotRunning) ==> {
                &&& action is Finish
                &&& action->Finish_result is Err
                &&& action->Finish_report is Some
                &&& action->Finish_report->Some_0.initial == snapshot
                &&& action->Finish_report->Some_0.started is None
            }
            &&& snapshot.phase is NotRunning && old(run).with_settings ==> action is TrySettings
            &&& snapshot.phase is NotRunning && !old(run).with_settings ==> {
                &&& action is Start
                &&& action->Start_0.capture_input is None
                &&& action->Start_0.peer_listen_address is None
                &&& action->Start_0.edge_bindings@.len() == 0
            }
            &&& snapshot.phase is NotRunning ==> final(run).report is Some && final(run).report->Some_0.initial == snapshot
        },
{
    if seen matches Ok(snapshot) && snapshot.phase is NotRunning && !old(run).with_settings {
        assert(crate::settings::edge_models(action->Start_0.edge_bindings@).len()
            == action->Start_0.edge_bindings@.len());
    }
}

/// A daemon is started with the settings that were loaded, and only where they are those that were
/// saved.
pub proof fn the_daemon_is_tried_with_the_saved_settings(
    run: &mut Tryout,
    saved: AppSettings,
    loaded: AppSettings,
    action: TryoutAction,
)
    requires
        old(run).wf(),
        old(run).stage is TryingSettings,
        call_ensures(
            Tryout::run_daemon_smoke,
            (
                run,
                TryoutEvent::Settings(Ok::<(AppSettings, AppSettings), String>((saved, loaded))),
            ),
            action,
        ),
    ensures
        action is Start <==> loaded@ == saved@,
        action is Start ==> {
            &&& action->Start_0.capture_input == Some(loaded.capture_input)
            &&& action->Start_0.edge_bindings@.len() == loaded.edge_bindings@.len()
            &&& final(run).report is Some
            &&& final(run).report->Some_0.settings == Some(loaded)
        },
        !(action is Start) ==> action is Finish && action->Finish_result is Err,
{
    if action is Start {
        assert(crate::settings::edge_models(action->Start_0.edge_bindings@).len()
            == action->Start_0.edge_bindings@.len());
        assert(crate::settings::edge_models(loaded.edge_bindings@).len()
            == loaded.edge_bindings@.len());
    }
}

/// A daemon that came to run is asked for its permissions and then stopped; one that did not is stopped
/// as well. The try is a success where the daemon ran, answered and stopped, and in no other case.
pub proof fn a_try_succeeds_where_everything_worked(
    run: &mut Tryout,
    event: TryoutEvent,
    action: TryoutAction,
)
    requires
        old(run).wf(),
        tryout_awaits(old(run).stage, event),
        call_ensures(Tryout::run_daemon_smoke, (run, event), action),
    ensures
        event matches TryoutEvent::Started(Ok(started)) ==> {
            &&& started.phase is Running ==> action is Probe
            &&& !(started.phase is Running) ==> action is Stop && final(run).stage is GivingUp
            &&& final(run).report is Some
            &&& final(run).report->Some_0.started == Some(started)
        },
        event matches TryoutEvent::Started(Err(why)) ==> action is Finish && action->Finish_result
            is Err && action->Finish_result->Err_0@ == why@,
        event matches TryoutEvent::Probed(Ok(permissions)) ==> action is Stop && final(run).stage
            is Stopping && final(run).report->Some_0.permissions == Some(permissions),
        event matches TryoutEvent::Probed(Err(_)) ==> action is Stop && final(run).stage is GivingUp,
        event matches TryoutEvent::Stopped(Ok(outcome)) ==> {
            &&& action is Finish
            &&& action->Finish_report is Some
            &&& action->Finish_report->Some_0.stopped == Some(outcome.snapshot)
            &&& action->Finish_report->Some_0.stop_method == Some(outcome.method)
            &&& action->Finish_report->Some_0.shutdown == outcome.shutdown
            &&& action->Finish_report->Some_0.initial == old(run).report->Some_0.initial
            &&& action->Finish_report->Some_0.started == old(run).report->Some_0.started
            &&& action->Finish_result is Ok <==> old(run).stage is Stopping && !(
            outcome.snapshot.phase is Running)
        },
        event matches TryoutEvent::Stopped(Err(why)) ==> action is Finish && action->Finish_result
            is Err && action->Finish_result->Err_0@ == why@,
        action is Finish && action->Finish_result is Ok ==> event is Stopped,
{
}

/// What is written of a try says what was seen: how the daemon was at first, after the start and after
/// the stop.
pub proof fn written_tries_say_what_was_seen(report: DaemonLifecycleSmokeReport)
    ensures
        ({
            let members = report.json()->Object_0;
            &&& members[0] == ("initial"@, report.initial.json())
            &&& report.started matches Some(started) ==> members.contains(
                ("started"@, started.json()),
            )
            &&& report.started is None ==> members.contains(("started"@, JsonModel::Null))
            &&& report.stopped matches Some(stopped) ==> members.contains(
                ("stopped"@, stopped.json()),
            )
            &&& report.stopped is None ==> members.contains(("stopped"@, JsonModel::Null))
            &&& report.stop_method matches Some(method) ==> members.contains(
                ("stopMethod"@, method.json()),
            )
            &&& report.shutdown matches Some(shutdown) ==> members.contains(
                ("shutdown"@, shutdown.json()),
            )
        }),
{
    let members = report.json()->Object_0;
    let at: int = 1 + (if report.settings is Some {
        1int
    } else {
        0
    }) + (if report.permissions is Some {
        1int
    } else {
        0
    });
    assert(members[at] == ("started"@, optional_snapshot_model(report.started)));
    assert(members[at + 1] == ("stopped"@, optional_snapshot_model(report.stopped)));
    if let Some(method) = report.stop_method {
        assert(members[at + 2] == ("stopMethod"@, method.json()));
    }
    if let Some(shutdown) = report.shutdown {
        assert(members.last() == ("shutdown"@, shutdown.json()));
        assert(members[members.len() - 1] == ("shutdown"@, shutdown.json()));
    }
}

/// A report of a try keeps how the daemon was stopped, and leaves the rest as it is.
pub proof fn a_try_reports_how_the_daemon_was_stopped(
    report: &mut DaemonLifecycleSmokeReport,
    outcome: DaemonStopOutcome,
    done: (),
)
    requires
        call_ensures(DaemonLifecycleSmokeReport::record_stop, (report, outcome), done),
    ensures
        final(report).stop_method == Some(outcome.method),
        final(report).shutdown == outcome.shutdown,
        final(report).stopped == Some(outcome.snapshot),
        final(report).initial == old(report).initial,
{
}

} // verus!
