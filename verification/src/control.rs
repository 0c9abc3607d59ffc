//! Starting and stopping the daemon, one step at a time: the application does what a step asks for
//! and hands back what came of it.

use vstd::prelude::*;

use crate::launch::daemon_executable_name;
use crate::lifecycle::{
    read_daemon_snapshot, DaemonCallFailure, DaemonLifecyclePhase, DaemonLifecycleSnapshot,
    DaemonStopMethod, DaemonStopOutcome, SnapshotModel,
};
use crate::settings::join_path;
use crate::snapshot::{DaemonShutdownResult, DaemonStatus};

verus! {

/// How often a started daemon is asked before it counts as slow.
pub const DAEMON_START_RETRIES: u32 = 50;

pub const DAEMON_START_RETRY_DELAY_MILLIS: u64 = 40;

/// How often a stopping daemon is asked before it counts as stuck.
pub const DAEMON_STOP_RETRIES: u32 = 50;

pub const DAEMON_STOP_RETRY_DELAY_MILLIS: u64 = 40;

/// What was asked of the application in a start.
#[derive(Debug, Clone, Copy, PartialEq, Eq, Structural)]
pub enum StartStage {
    CheckingPid,
    CheckingStatus,
    RecheckingPid,
    Spawning,
    Storing,
    PollingPid,
    PollingStatus,
    Sleeping,
    Done,
}

/// What came of it.
pub enum StartEvent {
    Pid(Result<Option<u32>, String>),
    Status(Result<DaemonStatus, DaemonCallFailure>),
    Spawned(Result<(), String>),
    Stored(Result<u32, String>),
    Slept,
}

/// What the application is to do in a start.
pub enum StartAction {
    ReadPid,
    ReadStatus,
    Spawn,
    Store,
    Sleep { millis: u64 },
    Finish(Result<DaemonLifecycleSnapshot, String>),
}

/// A start of the daemon.
#[derive(Debug, Clone, Copy, PartialEq, Eq, Structural)]
pub struct DaemonStart {
    pub stage: StartStage,
    pub managed_pid: Option<u32>,
    pub pid: u32,
    pub attempts: u32,
}

/// Whether a start waits for such an event.
pub open spec fn start_awaits(stage: StartStage, event: StartEvent) -> bool {
    match event {
        StartEvent::Pid(_) => stage is CheckingPid || stage is RecheckingPid || stage is PollingPid,
        StartEvent::Status(_) => stage is CheckingStatus || stage is PollingStatus,
        StartEvent::Spawned(_) => stage is Spawning,
        StartEvent::Stored(_) => stage is Storing,
        StartEvent::Slept => stage is Sleeping,
    }
}

/// Whether a result says what it should.
pub open spec fn is_answer(
    result: Result<DaemonLifecycleSnapshot, String>,
    wanted: Result<SnapshotModel, Seq<char>>,
) -> bool {
    match result {
        Ok(snapshot) => wanted == Ok::<SnapshotModel, Seq<char>>(snapshot@),
        Err(message) => wanted == Err::<SnapshotModel, Seq<char>>(message@),
    }
}

/// Whether a start ends with an answer.
pub open spec fn start_ends(
    action: StartAction,
    after: DaemonStart,
    wanted: Result<SnapshotModel, Seq<char>>,
) -> bool {
    &&& after.stage is Done
    &&& action matches StartAction::Finish(result) && is_answer(result, wanted)
}

/// One step of a start. A daemon that answers, or whose process is there, is left alone; one that was
/// started is asked until it answers, ends, or has been asked often enough.
pub open spec fn start_step(
    before: DaemonStart,
    event: StartEvent,
    action: StartAction,
    after: DaemonStart,
) -> bool {
    match event {
        StartEvent::Pid(Err(message)) => start_ends(action, after, Err(message@)),
        StartEvent::Pid(Ok(pid)) => match before.stage {
            StartStage::CheckingPid => action is ReadStatus && after == (DaemonStart {
                stage: StartStage::CheckingStatus,
                managed_pid: pid,
                ..before
            }),
            StartStage::RecheckingPid => match pid {
                Some(pid) => start_ends(
                    action,
                    after,
                    Ok(crate::lifecycle::starts("Akraz is already starting."@, Some(pid))),
                ),
                None => action is Spawn && after == (DaemonStart {
                    stage: StartStage::Spawning,
                    ..before
                }),
            },
            _ => match pid {
                Some(_) => action is ReadStatus && after == (DaemonStart {
                    stage: StartStage::PollingStatus,
                    ..before
                }),
                None => start_ends(
                    action,
                    after,
                    Ok(
                        crate::lifecycle::no_status(
                            DaemonLifecyclePhase::Failed,
                            "akraz-daemon exited before it became reachable."@,
                        ),
                    ),
                ),
            },
        },
        StartEvent::Status(answer) => if before.stage is CheckingStatus {
            let current = SnapshotModel {
                managed_pid: before.managed_pid,
                ..crate::lifecycle::seen(answer)
            };
            match current.phase {
                DaemonLifecyclePhase::Running => start_ends(
                    action,
                    after,
                    Ok(
                        SnapshotModel {
                            detail: Some("Akraz is already running."@),
                            ..current
                        },
                    ),
                ),
                DaemonLifecyclePhase::NotRunning => action is ReadPid && after == (DaemonStart {
                    stage: StartStage::RecheckingPid,
                    ..before
                }),
                _ => start_ends(action, after, Ok(current)),
            }
        } else if crate::lifecycle::seen(answer).phase is Running {
            start_ends(
                action,
                after,
                Ok(
                    SnapshotModel {
                        managed_pid: Some(before.pid),
                        detail: Some("Akraz is running."@),
                        ..crate::lifecycle::seen(answer)
                    },
                ),
            )
        } else {
            action == (StartAction::Sleep { millis: DAEMON_START_RETRY_DELAY_MILLIS }) && after == (
            DaemonStart { stage: StartStage::Sleeping, ..before })
        },
        StartEvent::Spawned(Ok(_)) => action is Store && after == (DaemonStart {
            stage: StartStage::Storing,
            ..before
        }),
        StartEvent::Spawned(Err(message)) => start_ends(
            action,
            after,
            Ok(crate::lifecycle::no_status(DaemonLifecyclePhase::Failed, message@)),
        ),
        StartEvent::Stored(Ok(pid)) => action is ReadPid && after == (DaemonStart {
            stage: StartStage::PollingPid,
            pid,
            attempts: 0,
            ..before
        }),
        StartEvent::Stored(Err(message)) => start_ends(action, after, Err(message@)),
        StartEvent::Slept => if before.attempts + 1 < DAEMON_START_RETRIES {
            action is ReadPid && after == (DaemonStart {
                stage: StartStage::PollingPid,
                attempts: (before.attempts + 1) as u32,
                ..before
            })
        } else {
            start_ends(
                action,
                after,
                Ok(
                    crate::lifecycle::starts(
                        "Akraz is starting, but it has not answered yet."@,
                        Some(before.pid),
                    ),
                ),
            )
        },
    }
}

impl DaemonStart {
    /// Whether the daemon has been asked no more often than it should be.
    pub open spec fn wf(&self) -> bool {
        self.attempts < DAEMON_START_RETRIES
    }

    /// Begin with a look at the process that is known.
    pub fn begin() -> (result: (DaemonStart, StartAction))
        ensures
            result.0.wf(),
            result.0.stage is CheckingPid,
            result.1 is ReadPid,
    {
        (
            DaemonStart {
                stage: StartStage::CheckingPid,
                managed_pid: None,
                pid: 0,
                attempts: 0,
            },
            StartAction::ReadPid,
        )
    }

    /// End with an answer.
    fn finish(&mut self, result: Result<DaemonLifecycleSnapshot, String>) -> (action: StartAction)
        requires
            old(self).wf(),
        ensures
            final(self).wf(),
            final(self).stage is Done,
            action == StartAction::Finish(result),
    {
        self.stage = StartStage::Done;
        StartAction::Finish(result)
    }

    /// Go on after a look at the process.
    fn on_pid(&mut self, pid: Option<u32>) -> (action: StartAction)
        requires
            old(self).wf(),
            start_awaits(old(self).stage, StartEvent::Pid(Ok(pid))),
        ensures
            final(self).wf(),
            start_step(*old(self), StartEvent::Pid(Ok(pid)), action, *final(self)),
    {
        match self.stage {
            StartStage::CheckingPid => {
                self.stage = StartStage::CheckingStatus;
                self.managed_pid = pid;
                StartAction::ReadStatus
            },
            StartStage::RecheckingPid => match pid {
                Some(pid) => {
                    let snapshot = DaemonLifecycleSnapshot::starting(
                        "Akraz is already starting.",
                        Some(pid),
                    );
                    self.finish(Ok(snapshot))
                },
                None => {
                    self.stage = StartStage::Spawning;
                    StartAction::Spawn
                },
            },
            _ => match pid {
                Some(_) => {
                    self.stage = StartStage::PollingStatus;
                    StartAction::ReadStatus
                },
                None => {
                    let snapshot = DaemonLifecycleSnapshot::failed(
                        "akraz-daemon exited before it became reachable.",
                    );
                    self.finish(Ok(snapshot))
                },
            },
        }
    }

    /// Go on after the daemon was asked.
    fn on_status(&mut self, answer: Result<DaemonStatus, DaemonCallFailure>) -> (action:
        StartAction)
        requires
            old(self).wf(),
            start_awaits(old(self).stage, StartEvent::Status(answer)),
        ensures
            final(self).wf(),
            start_step(*old(self), StartEvent::Status(answer), action, *final(self)),
    {
        let snapshot = read_daemon_snapshot(answer);
        let checking: bool = match self.stage {
            StartStage::CheckingStatus => true,
            _ => false,
        };
        if checking {
            let current = snapshot.with_managed_pid(self.managed_pid);
            match current.phase {
                DaemonLifecyclePhase::Running => {
                    self.finish(Ok(current.with_detail("Akraz is already running.")))
                },
                DaemonLifecyclePhase::NotRunning => {
                    self.stage = StartStage::RecheckingPid;
                    StartAction::ReadPid
                },
                _ => self.finish(Ok(current)),
            }
        } else {
            let current = snapshot.with_managed_pid(Some(self.pid));
            match current.phase {
                DaemonLifecyclePhase::Running => {
                    self.finish(Ok(current.with_detail("Akraz is running.")))
                },
                _ => {
                    self.stage = StartStage::Sleeping;
                    StartAction::Sleep { millis: DAEMON_START_RETRY_DELAY_MILLIS }
                },
            }
        }
    }

    /// Go on after a step of a start.
    pub fn start_daemon(&mut self, event: StartEvent) -> (action: StartAction)
        requires
            old(self).wf(),
            start_awaits(old(self).stage, event),
        ensures
            final(self).wf(),
            start_step(*old(self), event, action, *final(self)),
    {
        match event {
            StartEvent::Pid(Ok(pid)) => self.on_pid(pid),
            StartEvent::Pid(Err(message)) => self.finish(Err(message)),
            StartEvent::Status(answer) => self.on_status(answer),
            StartEvent::Spawned(Ok(_)) => {
                self.stage = StartStage::Storing;
                StartAction::Store
            },
            StartEvent::Spawned(Err(message)) => {
                let snapshot = DaemonLifecycleSnapshot::failed(message.as_str());
                self.finish(Ok(snapshot))
            },
            StartEvent::Stored(Ok(pid)) => {
                self.stage = StartStage::PollingPid;
                self.pid = pid;
                self.attempts = 0;
                StartAction::ReadPid
            },
            StartEvent::Stored(Err(message)) => self.finish(Err(message)),
            StartEvent::Slept => {
                if self.attempts + 1 < DAEMON_START_RETRIES {
                    self.attempts = self.attempts + 1;
                    self.stage = StartStage::PollingPid;
                    StartAction::ReadPid
                } else {
                    let snapshot = DaemonLifecycleSnapshot::starting(
                        "Akraz is starting, but it has not answered yet.",
                        Some(self.pid),
                    );
                    self.finish(Ok(snapshot))
                }
            },
        }
    }
}

/// How many steps a start can still take.
pub open spec fn start_left(run: DaemonStart) -> int {
    match run.stage {
        StartStage::CheckingPid => 3 * DAEMON_START_RETRIES + 7,
        StartStage::CheckingStatus => 3 * DAEMON_START_RETRIES + 6,
        StartStage::RecheckingPid => 3 * DAEMON_START_RETRIES + 5,
        StartStage::Spawning => 3 * DAEMON_START_RETRIES + 4,
        StartStage::Storing => 3 * DAEMON_START_RETRIES + 3,
        StartStage::PollingPid => 3 * (DAEMON_START_RETRIES - run.attempts) + 2,
        StartStage::PollingStatus => 3 * (DAEMON_START_RETRIES - run.attempts) + 1,
        StartStage::Sleeping => 3 * (DAEMON_START_RETRIES - run.attempts),
        StartStage::Done => 0,
    }
}

/// A start comes to an end: every step leaves fewer to take.
pub proof fn a_start_comes_to_an_end(
    before: DaemonStart,
    event: StartEvent,
    action: StartAction,
    after: DaemonStart,
)
    requires
        before.wf(),
        start_awaits(before.stage, event),
        start_step(before, event, action, after),
    ensures
        0 <= start_left(after) < start_left(before),
        action is Finish <==> after.stage is Done,
{
}

/// A second daemon is never started: a process is started only where the daemon's endpoint was not
/// there and no process is known, and only once in a start.
pub proof fn only_a_missing_daemon_is_started(
    before: DaemonStart,
    event: StartEvent,
    action: StartAction,
    after: DaemonStart,
)
    requires
        before.wf(),
        start_awaits(before.stage, event),
        start_step(before, event, action, after),
    ensures
        action is Spawn ==> before.stage is RecheckingPid && event == StartEvent::Pid(
            Ok::<Option<u32>, String>(None),
        ),
        after.stage is RecheckingPid ==> (event matches StartEvent::Status(answer)
            && crate::lifecycle::seen(answer).phase is NotRunning),
        before.stage is Spawning ==> !(after.stage is RecheckingPid),
{
}

/// What came of stopping the daemon.
pub struct StopModel {
    pub snapshot: SnapshotModel,
    pub method: DaemonStopMethod,
    pub shutdown: Option<DaemonShutdownResult>,
}

impl View for DaemonStopOutcome {
    type V = StopModel;

    open spec fn view(&self) -> StopModel {
        StopModel { snapshot: self.snapshot@, method: self.method, shutdown: self.shutdown }
    }
}

/// What was asked of the application in a stop.
#[derive(Debug, Clone, Copy, PartialEq, Eq, Structural)]
pub enum StopStage {
    CheckingPid,
    ReadingUnmanaged,
    Asking,
    Waiting,
    Sleeping,
    Clearing,
    Taking,
    ReadingEnded,
    Killing,
    Done,
}

/// What came of it.
pub enum StopEvent {
    Pid(Result<Option<u32>, String>),
    Status(Result<DaemonStatus, DaemonCallFailure>),
    Asked(Option<DaemonShutdownResult>),
    Slept,
    Cleared(Result<(), String>),
    Taken(Result<bool, String>),
    Killed(Result<(), String>),
}

/// What the application is to do in a stop.
pub enum StopAction {
    ReadPid,
    ReadStatus,
    AskToStop,
    Sleep { millis: u64 },
    ClearChild,
    TakeChild,
    KillChild,
    Finish(Result<DaemonStopOutcome, String>),
}

/// A stop of the daemon.
#[derive(Debug, PartialEq, Eq)]
pub struct DaemonStop {
    pub stage: StopStage,
    pub shutdown: Option<DaemonShutdownResult>,
    pub attempts: u32,
    pub killed: bool,
    pub settled: Option<DaemonLifecycleSnapshot>,
}

/// Whether a stop waits for such an event.
pub open spec fn stop_awaits(stage: StopStage, event: StopEvent) -> bool {
    match event {
        StopEvent::Pid(_) => stage is CheckingPid,
        StopEvent::Status(_) => stage is ReadingUnmanaged || stage is Waiting
            || stage is ReadingEnded,
        StopEvent::Asked(_) => stage is Asking,
        StopEvent::Slept => stage is Sleeping,
        StopEvent::Cleared(_) => stage is Clearing,
        StopEvent::Taken(_) => stage is Taking,
        StopEvent::Killed(_) => stage is Killing,
    }
}

/// Whether a result says what it should.
pub open spec fn is_stop_answer(
    result: Result<DaemonStopOutcome, String>,
    wanted: Result<StopModel, Seq<char>>,
) -> bool {
    match result {
        Ok(outcome) => wanted == Ok::<StopModel, Seq<char>>(outcome@),
        Err(message) => wanted == Err::<StopModel, Seq<char>>(message@),
    }
}

/// Whether a stop ends with an answer.
pub open spec fn stop_ends(
    action: StopAction,
    after: DaemonStop,
    wanted: Result<StopModel, Seq<char>>,
) -> bool {
    &&& after.stage is Done
    &&& action matches StopAction::Finish(result) && is_stop_answer(result, wanted)
}

/// Whether a stop goes on to another stage with nothing else changed.
pub open spec fn moves(before: DaemonStop, after: DaemonStop, stage: StopStage) -> bool {
    after == (DaemonStop { stage, ..before })
}

/// What is known, in other words.
pub open spec fn told(snapshot: SnapshotModel, detail: Seq<char>) -> SnapshotModel {
    SnapshotModel { detail: Some(detail), ..snapshot }
}

/// What a stop makes of the daemon's status while it waits for the daemon to go. The wait is over when
/// the endpoint is gone or has been looked at often enough.
pub open spec fn wait_step(
    before: DaemonStop,
    snapshot: SnapshotModel,
    action: StopAction,
    after: DaemonStop,
) -> bool {
    if before.attempts < DAEMON_STOP_RETRIES && !(snapshot.phase is NotRunning) {
        action == (StopAction::Sleep { millis: DAEMON_STOP_RETRY_DELAY_MILLIS }) && moves(
            before,
            after,
            StopStage::Sleeping,
        )
    } else if before.killed {
        stop_ends(
            action,
            after,
            Ok(
                StopModel {
                    snapshot: told(
                        snapshot,
                        "Akraz graceful stop did not settle, so the managed process was stopped."@,
                    ),
                    method: DaemonStopMethod::ForcedKill,
                    shutdown: before.shutdown,
                },
            ),
        )
    } else if snapshot.phase is NotRunning {
        &&& action is ClearChild
        &&& after.stage is Clearing
        &&& after.shutdown == before.shutdown
        &&& after.attempts == before.attempts
        &&& after.killed == before.killed
        &&& after.settled matches Some(settled) && settled@ == snapshot
    } else {
        action is TakeChild && moves(before, after, StopStage::Taking)
    }
}

/// One step of a stop. A process that the application did not start is left alone. One that it did
/// start is asked to go, and ended where it does not.
pub open spec fn stop_step(
    before: DaemonStop,
    event: StopEvent,
    action: StopAction,
    after: DaemonStop,
) -> bool {
    match event {
        StopEvent::Pid(Err(message)) => stop_ends(action, after, Err(message@)),
        StopEvent::Pid(Ok(None)) => action is ReadStatus && moves(
            before,
            after,
            StopStage::ReadingUnmanaged,
        ),
        StopEvent::Pid(Ok(Some(_))) => action is AskToStop && moves(
            before,
            after,
            StopStage::Asking,
        ),
        StopEvent::Status(answer) => {
            let snapshot = crate::lifecycle::seen(answer);
            match before.stage {
                StopStage::ReadingUnmanaged => stop_ends(
                    action,
                    after,
                    Ok(
                        StopModel {
                            snapshot: told(
                                snapshot,
                                "This app did not start the current Akraz background process."@,
                            ),
                            method: DaemonStopMethod::Unmanaged,
                            shutdown: None,
                        },
                    ),
                ),
                StopStage::ReadingEnded => stop_ends(
                    action,
                    after,
                    Ok(
                        StopModel {
                            snapshot: told(snapshot, "Akraz stopped."@),
                            method: if before.shutdown is Some {
                                DaemonStopMethod::GracefulShutdown
                            } else {
                                DaemonStopMethod::Unmanaged
                            },
                            shutdown: before.shutdown,
                        },
                    ),
                ),
                _ => wait_step(before, snapshot, action, after),
            }
        },
        StopEvent::Asked(Some(shutdown)) => action is ReadStatus && after == (DaemonStop {
            stage: StopStage::Waiting,
            shutdown: Some(shutdown),
            attempts: 0,
            ..before
        }),
        StopEvent::Asked(None) => action is TakeChild && moves(before, after, StopStage::Taking),
        StopEvent::Slept => action is ReadStatus && after == (DaemonStop {
            stage: StopStage::Waiting,
            attempts: (before.attempts + 1) as u32,
            ..before
        }),
        StopEvent::Cleared(Err(message)) => stop_ends(action, after, Err(message@)),
        StopEvent::Cleared(Ok(_)) => stop_ends(
            action,
            after,
            Ok(
                StopModel {
                    snapshot: told(before.settled->Some_0@, "Akraz stopped."@),
                    method: DaemonStopMethod::GracefulShutdown,
                    shutdown: before.shutdown,
                },
            ),
        ),
        StopEvent::Taken(Err(message)) => stop_ends(action, after, Err(message@)),
        StopEvent::Taken(Ok(false)) => action is ReadStatus && moves(
            before,
            after,
            StopStage::ReadingEnded,
        ),
        StopEvent::Taken(Ok(true)) => action is KillChild && moves(
            before,
            after,
            StopStage::Killing,
        ),
        StopEvent::Killed(Err(message)) => stop_ends(
            action,
            after,
            Ok(
                StopModel {
                    snapshot: crate::lifecycle::no_status(DaemonLifecyclePhase::Failed, message@),
                    method: DaemonStopMethod::ForcedKill,
                    shutdown: before.shutdown,
                },
            ),
        ),
        StopEvent::Killed(Ok(_)) => action is ReadStatus && after == (DaemonStop {
            stage: StopStage::Waiting,
            attempts: 0,
            killed: true,
            ..before
        }),
    }
}

impl DaemonStop {
    /// Whether the daemon has been asked no more often than it should be, and what is kept is there
    /// when it is needed.
    pub open spec fn wf(&self) -> bool {
        &&& self.attempts <= DAEMON_STOP_RETRIES
        &&& self.stage is Sleeping ==> self.attempts < DAEMON_STOP_RETRIES
        &&& self.stage is Clearing ==> self.settled is Some && self.shutdown is Some
        &&& (self.stage is Waiting || self.stage is Sleeping) && !self.killed ==> self.shutdown
            is Some
        &&& self.killed ==> self.stage is Waiting || self.stage is Sleeping || self.stage is Done
    }

    /// Begin with a look at the process that is known.
    pub fn begin() -> (result: (DaemonStop, StopAction))
        ensures
            result.0.wf(),
            result.0.stage is CheckingPid,
            result.0.shutdown is None,
            !result.0.killed,
            result.1 is ReadPid,
    {
        (
            DaemonStop {
                stage: StopStage::CheckingPid,
                shutdown: None,
                attempts: 0,
                killed: false,
                settled: None,
            },
            StopAction::ReadPid,
        )
    }

    /// End with an answer.
    fn finish(&mut self, result: Result<DaemonStopOutcome, String>) -> (action: StopAction)
        requires
            old(self).wf(),
        ensures
            final(self).wf(),
            final(self).stage is Done,
            action == StopAction::Finish(result),
    {
        self.stage = StopStage::Done;
        StopAction::Finish(result)
    }

    /// Go on after a look at the endpoint while the daemon is to go.
    fn wait_for_stopped(&mut self, snapshot: DaemonLifecycleSnapshot) -> (action: StopAction)
        requires
            old(self).wf(),
            old(self).stage is Waiting,
        ensures
            final(self).wf(),
            wait_step(*old(self), snapshot@, action, *final(self)),
    {
        let gone: bool = match snapshot.phase {
            DaemonLifecyclePhase::NotRunning => true,
            _ => false,
        };
        if self.attempts < DAEMON_STOP_RETRIES && !gone {
            self.stage = StopStage::Sleeping;
            StopAction::Sleep { millis: DAEMON_STOP_RETRY_DELAY_MILLIS }
        } else if self.killed {
            let snapshot = snapshot.with_detail(
                "Akraz graceful stop did not settle, so the managed process was stopped.",
            );
            let outcome = DaemonStopOutcome::forced(snapshot, self.shutdown);
            self.finish(Ok(outcome))
        } else if gone {
            self.settled = Some(snapshot);
            self.stage = StopStage::Clearing;
            StopAction::ClearChild
        } else {
            self.stage = StopStage::Taking;
            StopAction::TakeChild
        }
    }

    /// Go on after the daemon was asked.
    fn on_status(&mut self, answer: Result<DaemonStatus, DaemonCallFailure>) -> (action: StopAction)
        requires
            old(self).wf(),
            stop_awaits(old(self).stage, StopEvent::Status(answer)),
        ensures
            final(self).wf(),
            stop_step(*old(self), StopEvent::Status(answer), action, *final(self)),
    {
        let snapshot = read_daemon_snapshot(answer);
        match self.stage {
            StopStage::ReadingUnmanaged => {
                let outcome = DaemonStopOutcome::unmanaged(
                    snapshot.with_detail(
                        "This app did not start the current Akraz background process.",
                    ),
                );
                self.finish(Ok(outcome))
            },
            StopStage::ReadingEnded => {
                let method = match self.shutdown {
                    Some(_) => DaemonStopMethod::GracefulShutdown,
                    None => DaemonStopMethod::Unmanaged,
                };
                let outcome = DaemonStopOutcome::new(
                    snapshot.with_detail("Akraz stopped."),
                    method,
                    self.shutdown,
                );
                self.finish(Ok(outcome))
            },
            _ => self.wait_for_stopped(snapshot),
        }
    }

    /// Go on after the process was forgotten.
    fn on_cleared(&mut self) -> (action: StopAction)
        requires
            old(self).wf(),
            old(self).stage is Clearing,
        ensures
            final(self).wf(),
            stop_step(
                *old(self),
                StopEvent::Cleared(Ok::<(), String>(())),
                action,
                *final(self),
            ),
    {
        let snapshot = self.settled.take().unwrap();
        let shutdown = self.shutdown;
        self.stage = StopStage::Done;
        let outcome = DaemonStopOutcome::new(
            snapshot.with_detail("Akraz stopped."),
            DaemonStopMethod::GracefulShutdown,
            shutdown,
        );
        StopAction::Finish(Ok(outcome))
    }

    /// Go on after a step of a stop.
    pub fn stop_daemon(&mut self, event: StopEvent) -> (action: StopAction)
        requires
            old(self).wf(),
            stop_awaits(old(self).stage, event),
        ensures
            final(self).wf(),
            stop_step(*old(self), event, action, *final(self)),
    {
        match event {
            StopEvent::Pid(Err(message)) => self.finish(Err(message)),
            StopEvent::Pid(Ok(None)) => {
                self.stage = StopStage::ReadingUnmanaged;
                StopAction::ReadStatus
            },
            StopEvent::Pid(Ok(Some(_))) => {
                self.stage = StopStage::Asking;
                StopAction::AskToStop
            },
            StopEvent::Status(answer) => self.on_status(answer),
            StopEvent::Asked(Some(shutdown)) => {
                self.stage = StopStage::Waiting;
                self.shutdown = Some(shutdown);
                self.attempts = 0;
                StopAction::ReadStatus
            },
            StopEvent::Asked(None) => {
                self.stage = StopStage::Taking;
                StopAction::TakeChild
            },
            StopEvent::Slept => {
                self.stage = StopStage::Waiting;
                self.attempts = self.attempts + 1;
                StopAction::ReadStatus
            },
            StopEvent::Cleared(Ok(done)) => {
                proof {
                    assert(done == ());
                }
                self.on_cleared()
            },
            StopEvent::Cleared(Err(message)) => self.finish(Err(message)),
            StopEvent::Taken(Ok(true)) => {
                self.stage = StopStage::Killing;
                StopAction::KillChild
            },
            StopEvent::Taken(Ok(false)) => {
                self.stage = StopStage::ReadingEnded;
                StopAction::ReadStatus
            },
            StopEvent::Taken(Err(message)) => self.finish(Err(message)),
            StopEvent::Killed(Ok(_)) => {
                self.stage = StopStage::Waiting;
                self.attempts = 0;
                self.killed = true;
                StopAction::ReadStatus
            },
            StopEvent::Killed(Err(message)) => {
                let outcome = DaemonStopOutcome::forced(
                    DaemonLifecycleSnapshot::failed(message.as_str()),
                    self.shutdown,
                );
                self.finish(Ok(outcome))
            },
        }
    }
}

/// How many steps a stop can still take.
pub open spec fn stop_left(run: DaemonStop) -> int {
    let looks = 2 * (DAEMON_STOP_RETRIES - run.attempts);
    match run.stage {
        StopStage::CheckingPid => 4 * DAEMON_STOP_RETRIES + 9,
        StopStage::ReadingUnmanaged => 4 * DAEMON_STOP_RETRIES + 8,
        StopStage::Asking => 4 * DAEMON_STOP_RETRIES + 8,
        StopStage::Waiting => if run.killed {
            looks + 2
        } else {
            2 * DAEMON_STOP_RETRIES + 5 + looks + 2
        },
        StopStage::Sleeping => if run.killed {
            looks + 1
        } else {
            2 * DAEMON_STOP_RETRIES + 5 + looks + 1
        },
        StopStage::Taking => 2 * DAEMON_STOP_RETRIES + 4,
        StopStage::Clearing => 2 * DAEMON_STOP_RETRIES + 3,
        StopStage::ReadingEnded => 2 * DAEMON_STOP_RETRIES + 3,
        StopStage::Killing => 2 * DAEMON_STOP_RETRIES + 3,
        StopStage::Done => 0,
    }
}

/// A stop comes to an end: every step leaves fewer to take.
pub proof fn a_stop_comes_to_an_end(
    before: DaemonStop,
    event: StopEvent,
    action: StopAction,
    after: DaemonStop,
)
    requires
        before.wf(),
        stop_awaits(before.stage, event),
        stop_step(before, event, action, after),
    ensures
        0 <= stop_left(after) < stop_left(before),
        action is Finish <==> after.stage is Done,
{
}

/// Only a process of the application's own is asked to go or ended.
pub proof fn only_an_own_daemon_is_stopped(
    before: DaemonStop,
    event: StopEvent,
    action: StopAction,
    after: DaemonStop,
)
    requires
        before.wf(),
        stop_awaits(before.stage, event),
        stop_step(before, event, action, after),
    ensures
        action is AskToStop ==> (event matches StopEvent::Pid(Ok(Some(_)))),
        action is KillChild ==> event == StopEvent::Taken(Ok::<bool, String>(true)),
        event == StopEvent::Pid(Ok::<Option<u32>, String>(None)) ==> after.stage
            is ReadingUnmanaged,
        before.stage is ReadingUnmanaged ==> action is Finish,
{
}

/// A process that could not be started.
#[derive(Debug, PartialEq, Eq)]
pub enum SpawnFailure {
    /// There are no arguments to start it with.
    Arguments(String),
    /// The system did not start it.
    Process(String),
}

/// Why an executable could not be started.
pub open spec fn spawn_text(executable: Seq<char>, failure: SpawnFailure) -> Seq<char> {
    match failure {
        SpawnFailure::Arguments(message) => message@,
        SpawnFailure::Process(cause) => "failed to start akraz-daemon at "@ + executable + ": "@
            + cause@,
    }
}

/// Why an executable could not be started.
pub fn spawn_message(executable: &str, failure: &SpawnFailure) -> (result: String)
    ensures
        result@ == spawn_text(executable@, *failure),
{
    match failure {
        SpawnFailure::Arguments(message) => message.clone(),
        SpawnFailure::Process(cause) => "failed to start akraz-daemon at ".to_owned().concat(
            executable,
        ).concat(": ").concat(cause.as_str()),
    }
}

/// The daemon beside the application, given the application's directory.
pub fn resolve_adjacent_daemon_executable(
    directory: Result<Option<String>, String>,
    windows: bool,
) -> (result: Result<String, String>)
    ensures
        match directory {
            Err(cause) => result matches Err(message) && message@
                == "failed to locate the Akraz app executable: "@ + cause@,
            Ok(None) => result matches Err(message) && message@
                == "failed to locate the Akraz app executable directory."@,
            Ok(Some(directory)) => result matches Ok(path) && path@ == crate::settings::path_below(
                directory@,
                if windows {
                    "akraz-daemon.exe"@
                } else {
                    "akraz-daemon"@
                },
                windows,
            ),
        },
{
    match directory {
        Err(cause) => Err(
            "failed to locate the Akraz app executable: ".to_owned().concat(cause.as_str()),
        ),
        Ok(None) => Err("failed to locate the Akraz app executable directory.".to_owned()),
        Ok(Some(directory)) => Ok(
            join_path(directory.as_str(), daemon_executable_name(windows), windows),
        ),
    }
}

/// What kind of process was started.
#[derive(Debug, Clone, Copy, PartialEq, Eq, Structural)]
pub enum SpawnedProcess {
    Os,
    Sidecar,
}

/// How far the daemon's process has been started.
#[derive(Debug, PartialEq, Eq)]
pub enum DaemonSpawn {
    Named { executable: String },
    Sidecar,
    Locating { sidecar_error: String },
    Adjacent { sidecar_error: String, executable: String },
    Done,
}

/// What came of a step.
pub enum SpawnEvent {
    Executable(Result<(), SpawnFailure>),
    Sidecar(Result<(), String>),
    Located(Result<String, String>),
}

/// What the application is to do.
pub enum SpawnAction {
    SpawnExecutable(String),
    SpawnSidecar,
    LocateAdjacent,
    Finish(Result<SpawnedProcess, String>),
}

/// Whether such an event is waited for.
pub open spec fn spawn_awaits(run: DaemonSpawn, event: SpawnEvent) -> bool {
    match event {
        SpawnEvent::Executable(_) => run is Named || run is Adjacent,
        SpawnEvent::Sidecar(_) => run is Sidecar,
        SpawnEvent::Located(_) => run is Locating,
    }
}

/// Whether it ends with a process or with a message.
pub open spec fn spawn_ends(
    action: SpawnAction,
    after: DaemonSpawn,
    wanted: Result<SpawnedProcess, Seq<char>>,
) -> bool {
    &&& after is Done
    &&& action matches SpawnAction::Finish(result) && (match result {
        Ok(process) => wanted == Ok::<SpawnedProcess, Seq<char>>(process),
        Err(message) => wanted == Err::<SpawnedProcess, Seq<char>>(message@),
    })
}

/// One step. The bundled daemon is tried first; where it does not start, the one beside the
/// application is.
pub open spec fn spawn_step(
    before: DaemonSpawn,
    event: SpawnEvent,
    action: SpawnAction,
    after: DaemonSpawn,
) -> bool {
    match event {
        SpawnEvent::Executable(Ok(_)) => spawn_ends(action, after, Ok(SpawnedProcess::Os)),
        SpawnEvent::Executable(Err(failure)) => match before {
            DaemonSpawn::Adjacent { sidecar_error, executable } => spawn_ends(
                action,
                after,
                Err(
                    "failed to start bundled akraz-daemon sidecar: "@ + sidecar_error@
                        + ". Also failed to start adjacent daemon at "@ + executable@ + ": "@
                        + spawn_text(executable@, failure),
                ),
            ),
            _ => spawn_ends(action, after, Err(spawn_text(before->Named_executable@, failure))),
        },
        SpawnEvent::Sidecar(Ok(_)) => spawn_ends(action, after, Ok(SpawnedProcess::Sidecar)),
        SpawnEvent::Sidecar(Err(error)) => action is LocateAdjacent && after == (
        DaemonSpawn::Locating { sidecar_error: error }),
        SpawnEvent::Located(Err(message)) => spawn_ends(action, after, Err(message@)),
        SpawnEvent::Located(Ok(path)) => action == SpawnAction::SpawnExecutable(path) && after == (
        DaemonSpawn::Adjacent {
            sidecar_error: before->Locating_sidecar_error,
            executable: path,
        }),
    }
}

impl DaemonSpawn {
    /// Begin with the daemon that the environment names, if it names one.
    pub fn begin(named: Option<String>) -> (result: (DaemonSpawn, SpawnAction))
        ensures
            match named {
                Some(executable) => result.0 == (DaemonSpawn::Named { executable }) && result.1
                    == SpawnAction::SpawnExecutable(executable),
                None => result.0 is Sidecar && result.1 is SpawnSidecar,
            },
    {
        match named {
            Some(executable) => {
                let action = SpawnAction::SpawnExecutable(executable.clone());
                (DaemonSpawn::Named { executable }, action)
            },
            None => (DaemonSpawn::Sidecar, SpawnAction::SpawnSidecar),
        }
    }

    /// Go on after a step.
    pub fn spawn_daemon_process(self, event: SpawnEvent) -> (result: (DaemonSpawn, SpawnAction))
        requires
            spawn_awaits(self, event),
        ensures
            spawn_step(self, event, result.1, result.0),
    {
        match event {
            SpawnEvent::Executable(Ok(_)) => {
                (DaemonSpawn::Done, SpawnAction::Finish(Ok(SpawnedProcess::Os)))
            },
            SpawnEvent::Executable(Err(failure)) => {
                let message = match &self {
                    DaemonSpawn::Adjacent { sidecar_error, executable } => {
                        "failed to start bundled akraz-daemon sidecar: ".to_owned().concat(
                            sidecar_error.as_str(),
                        ).concat(". Also failed to start adjacent daemon at ").concat(
                            executable.as_str(),
                        ).concat(": ").concat(
                            spawn_message(executable.as_str(), &failure).as_str(),
                        )
                    },
                    DaemonSpawn::Named { executable } => {
                        spawn_message(executable.as_str(), &failure)
                    },
                    _ => String::new(),
                };
                (DaemonSpawn::Done, SpawnAction::Finish(Err(message)))
            },
            SpawnEvent::Sidecar(Ok(_)) => {
                (DaemonSpawn::Done, SpawnAction::Finish(Ok(SpawnedProcess::Sidecar)))
            },
            SpawnEvent::Sidecar(Err(error)) => {
                (DaemonSpawn::Locating { sidecar_error: error }, SpawnAction::LocateAdjacent)
            },
            SpawnEvent::Located(Err(message)) => {
                (DaemonSpawn::Done, SpawnAction::Finish(Err(message)))
            },
            SpawnEvent::Located(Ok(path)) => match self {
                DaemonSpawn::Locating { sidecar_error } => {
                    let action = SpawnAction::SpawnExecutable(path.clone());
                    (DaemonSpawn::Adjacent { sidecar_error, executable: path }, action)
                },
                other => (other, SpawnAction::LocateAdjacent),
            },
        }
    }
}

/// A start reads which process it has and asks the daemon for its status, before anything else. Where a
/// daemon answers, the start ends with its status and starts nothing.
pub proof fn a_running_daemon_is_left_alone(
    run: &mut DaemonStart,
    answer: Result<DaemonStatus, DaemonCallFailure>,
    action: StartAction,
)
    requires
        old(run).wf(),
        call_ensures(DaemonStart::start_daemon, (run, StartEvent::Status(answer)), action),
        start_awaits(old(run).stage, StartEvent::Status(answer)),
    ensures
        answer matches Ok(status) ==> {
            &&& action is Finish
            &&& action->Finish_0 is Ok
            &&& action->Finish_0->Ok_0.phase is Running
            &&& action->Finish_0->Ok_0.status == Some(status)
            &&& old(run).stage is CheckingStatus ==> action->Finish_0->Ok_0.managed_pid
                == old(run).managed_pid
            &&& old(run).stage is PollingStatus ==> action->Finish_0->Ok_0.managed_pid == Some(
                old(run).pid,
            )
        },
        answer is Err && old(run).stage is PollingStatus ==> action == (StartAction::Sleep {
            millis: 40,
        }),
        old(run).stage is CheckingStatus && (answer matches Err(DaemonCallFailure::NotRunning(_)))
            ==> action is ReadPid,
        old(run).stage is CheckingStatus && (answer matches Err(DaemonCallFailure::Unreachable(why))
            ) ==> action is Finish && action->Finish_0 is Ok && action->Finish_0->Ok_0.phase
            is Unreachable,
        old(run).stage is CheckingStatus && (answer matches Err(DaemonCallFailure::Failed(why)))
            ==> action is Finish && action->Finish_0 is Ok && action->Finish_0->Ok_0.phase
            is Failed,
{
}

/// A daemon is started where there is neither a process nor an answer; the process that is started is
/// kept and then asked for its status, until it is there or gone.
pub proof fn a_missing_daemon_is_started(
    run: &mut DaemonStart,
    event: StartEvent,
    action: StartAction,
)
    requires
        old(run).wf(),
        start_awaits(old(run).stage, event),
        call_ensures(DaemonStart::start_daemon, (run, event), action),
    ensures
        action is Spawn <==> old(run).stage is RecheckingPid && event == StartEvent::Pid(
            Ok::<Option<u32>, String>(None),
        ),
        action is Store <==> (event matches StartEvent::Spawned(Ok(_))),
        old(run).stage is CheckingPid && (event matches StartEvent::Pid(Ok(_))) ==> action
            is ReadStatus,
        old(run).stage is CheckingPid ==> (event matches StartEvent::Pid(Ok(pid)) ==> final(run).managed_pid == pid),
        event matches StartEvent::Stored(Ok(pid)) ==> action is ReadPid && final(run).pid == pid
            && final(run).attempts == 0,
        event matches StartEvent::Pid(Err(why)) ==> action is Finish && action->Finish_0 is Err
            && action->Finish_0->Err_0@ == why@,
        event matches StartEvent::Stored(Err(why)) ==> action is Finish && action->Finish_0 is Err
            && action->Finish_0->Err_0@ == why@,
        event matches StartEvent::Spawned(Err(why)) ==> {
            &&& action is Finish
            &&& action->Finish_0 is Ok
            &&& action->Finish_0->Ok_0.phase is Failed
            &&& action->Finish_0->Ok_0.detail->Some_0@ == why@
        },
        old(run).stage is RecheckingPid ==> (event matches StartEvent::Pid(Ok(Some(pid))) ==> {
            &&& action is Finish
            &&& action->Finish_0 is Ok
            &&& action->Finish_0->Ok_0.phase is Starting
            &&& action->Finish_0->Ok_0.managed_pid == Some(pid)
        }),
        old(run).stage is PollingPid && (event matches StartEvent::Pid(Ok(Some(_)))) ==> action
            is ReadStatus,
        old(run).stage is PollingPid && event == StartEvent::Pid(Ok::<Option<u32>, String>(None))
            ==> {
            &&& action is Finish
            &&& action->Finish_0 is Ok
            &&& action->Finish_0->Ok_0.phase is Failed
        },
        event is Slept ==> {
            if old(run).attempts < 49 {
                action is ReadPid && final(run).attempts == old(run).attempts + 1
            } else {
                &&& action is Finish
                &&& action->Finish_0 is Ok
                &&& action->Finish_0->Ok_0.phase is Starting
                &&& action->Finish_0->Ok_0.managed_pid == Some(old(run).pid)
            }
        },
        !(event is Stored) && !(action is Finish) ==> final(run).pid == old(run).pid,
{
}

/// A stop asks the application's own daemon to go and leaves every other alone.
pub proof fn another_ones_daemon_is_left_alone(
    run: &mut DaemonStop,
    event: StopEvent,
    action: StopAction,
)
    requires
        old(run).wf(),
        stop_awaits(old(run).stage, event),
        call_ensures(DaemonStop::stop_daemon, (run, event), action),
    ensures
        action is AskToStop <==> (event matches StopEvent::Pid(Ok(Some(_)))),
        action is KillChild <==> event == StopEvent::Taken(Ok::<bool, String>(true)),
        event == StopEvent::Pid(Ok::<Option<u32>, String>(None)) ==> action is ReadStatus
            && final(run).stage is ReadingUnmanaged,
        old(run).stage is ReadingUnmanaged ==> {
            &&& action is Finish
            &&& action->Finish_0 is Ok
            &&& action->Finish_0->Ok_0.method is Unmanaged
            &&& action->Finish_0->Ok_0.shutdown is None
        },
        event matches StopEvent::Pid(Err(why)) ==> action is Finish && action->Finish_0 is Err
            && action->Finish_0->Err_0@ == why@,
        event matches StopEvent::Taken(Err(why)) ==> action is Finish && action->Finish_0 is Err
            && action->Finish_0->Err_0@ == why@,
        event matches StopEvent::Cleared(Err(why)) ==> action is Finish && action->Finish_0 is Err
            && action->Finish_0->Err_0@ == why@,
{
}

/// A daemon that was asked to go is waited for. One that goes is told as stopped in good order, with
/// what it said; one that does not is ended, and that is told.
pub proof fn a_daemon_that_stays_is_ended(
    run: &mut DaemonStop,
    event: StopEvent,
    action: StopAction,
)
    requires
        old(run).wf(),
        stop_awaits(old(run).stage, event),
        call_ensures(DaemonStop::stop_daemon, (run, event), action),
    ensures
        event matches StopEvent::Asked(Some(shutdown)) ==> action is ReadStatus && final(run).shutdown == Some(shutdown) && final(run).attempts == 0 && final(run).stage is Waiting,
        event == StopEvent::Asked(None) ==> action is TakeChild,
        event is Slept ==> action is ReadStatus && final(run).attempts == old(run).attempts + 1,
        old(run).stage is Waiting ==> (event matches StopEvent::Status(answer) ==> {
            &&& old(run).attempts < 50 && !(answer matches Err(DaemonCallFailure::NotRunning(_)))
                ==> action == (StopAction::Sleep { millis: 40 })
            &&& !old(run).killed && (answer matches Err(DaemonCallFailure::NotRunning(_)))
                ==> action is ClearChild
            &&& !old(run).killed && old(run).attempts >= 50 && !(answer matches Err(
                DaemonCallFailure::NotRunning(_),
            )) ==> action is TakeChild
            &&& old(run).killed && (old(run).attempts >= 50 || (answer matches Err(
                DaemonCallFailure::NotRunning(_),
            ))) ==> {
                &&& action is Finish
                &&& action->Finish_0 is Ok
                &&& action->Finish_0->Ok_0.method is ForcedKill
                &&& action->Finish_0->Ok_0.shutdown == old(run).shutdown
            }
        }),
        event matches StopEvent::Cleared(Ok(_)) ==> {
            &&& action is Finish
            &&& action->Finish_0 is Ok
            &&& action->Finish_0->Ok_0.method is GracefulShutdown
            &&& action->Finish_0->Ok_0.shutdown == old(run).shutdown
            &&& action->Finish_0->Ok_0.snapshot.phase == old(run).settled->Some_0.phase
        },
        event == StopEvent::Taken(Ok::<bool, String>(false)) ==> action is ReadStatus,
        old(run).stage is ReadingEnded ==> {
            &&& action is Finish
            &&& action->Finish_0 is Ok
            &&& action->Finish_0->Ok_0.method is GracefulShutdown <==> old(run).shutdown is Some
            &&& action->Finish_0->Ok_0.method is Unmanaged <==> old(run).shutdown is None
        },
        event matches StopEvent::Killed(Ok(_)) ==> action is ReadStatus && final(run).killed
            && final(run).attempts == 0,
        event matches StopEvent::Killed(Err(why)) ==> {
            &&& action is Finish
            &&& action->Finish_0 is Ok
            &&& action->Finish_0->Ok_0.method is ForcedKill
            &&& action->Finish_0->Ok_0.snapshot.phase is Failed
            &&& action->Finish_0->Ok_0.snapshot.detail->Some_0@ == why@
        },
        !(event is Killed) ==> final(run).killed == old(run).killed || final(run).stage is Done,
{
}

/// A start and a stop begin by looking for the process.
pub proof fn control_begins_with_the_process(
    start: (DaemonStart, StartAction),
    stop: (DaemonStop, StopAction),
)
    requires
        call_ensures(DaemonStart::begin, (), start),
        call_ensures(DaemonStop::begin, (), stop),
    ensures
        start.0.stage is CheckingPid,
        start.1 is ReadPid,
        stop.0.stage is CheckingPid,
        stop.1 is ReadPid,
        !stop.0.killed,
        stop.0.shutdown is None,
{
}

/// The executable that was named is started and no other. Without a name the bundled one is tried
/// first, and only where it does not start the one beside the application.
pub proof fn the_named_executable_is_started(
    named: Option<String>,
    begun: (DaemonSpawn, SpawnAction),
    run: DaemonSpawn,
    event: SpawnEvent,
    next: (DaemonSpawn, SpawnAction),
)
    requires
        call_ensures(DaemonSpawn::begin, (named,), begun),
        spawn_awaits(run, event),
        call_ensures(DaemonSpawn::spawn_daemon_process, (run, event), next),
    ensures
        named matches Some(path) ==> begun.1 is SpawnExecutable && begun.1->SpawnExecutable_0
            == path && begun.0 is Named,
        named is None ==> begun.1 is SpawnSidecar && begun.0 is Sidecar,
        event matches SpawnEvent::Executable(Ok(_)) ==> next.1 is Finish && next.1->Finish_0 is Ok
            && next.1->Finish_0->Ok_0 is Os,
        event matches SpawnEvent::Sidecar(Ok(_)) ==> next.1 is Finish && next.1->Finish_0 is Ok
            && next.1->Finish_0->Ok_0 is Sidecar,
        event matches SpawnEvent::Sidecar(Err(_)) ==> next.1 is LocateAdjacent,
        event matches SpawnEvent::Located(Ok(path)) ==> next.1 is SpawnExecutable
            && next.1->SpawnExecutable_0 == path,
        event matches SpawnEvent::Located(Err(why)) ==> next.1 is Finish && next.1->Finish_0 is Err
            && next.1->Finish_0->Err_0@ == why@,
        event matches SpawnEvent::Executable(Err(_)) ==> next.1 is Finish && next.1->Finish_0
            is Err,
        event matches SpawnEvent::Executable(Err(SpawnFailure::Process(cause))) ==> (
        run matches DaemonSpawn::Named { executable } ==> next.1->Finish_0->Err_0@
            == "failed to start akraz-daemon at "@ + executable@ + ": "@ + cause@),
{
}

/// The daemon beside the application lies in its directory, under the name that its system gives it.
pub proof fn the_daemon_beside_lies_in_the_directory(
    directory: Result<Option<String>, String>,
    windows: bool,
    result: Result<String, String>,
)
    requires
        call_ensures(resolve_adjacent_daemon_executable, (directory, windows), result),
    ensures
        result is Ok <==> directory is Ok && directory->Ok_0 is Some,
        !windows && result is Ok && directory->Ok_0->Some_0@.len() > 0
            && directory->Ok_0->Some_0@.last() != '/' ==> result->Ok_0@
            == directory->Ok_0->Some_0@ + "/"@ + "akraz-daemon"@,
        windows && result is Ok && directory->Ok_0->Some_0@.len() > 2
            && directory->Ok_0->Some_0@.last() != '/' && directory->Ok_0->Some_0@.last() != '\\'
            ==> result->Ok_0@ == directory->Ok_0->Some_0@ + "\\"@ + "akraz-daemon.exe"@,
        directory matches Err(cause) ==> result->Err_0@
            == "failed to locate the Akraz app executable: "@ + cause@,
        directory matches Ok(None) ==> result->Err_0@
            == "failed to locate the Akraz app executable directory."@,
{
    reveal_strlit("akraz-daemon");
    reveal_strlit("akraz-daemon.exe");
    reveal_strlit("/");
    reveal_strlit("\\");
    reveal_strlit("\\\\?\\");
}

} // verus!
