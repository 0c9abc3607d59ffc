//! Captured input on its way into the state machine, and the watchdogs beside it.

use vstd::prelude::*;

use crate::logs::{record_daemon_event, DaemonLogBuffer};
use crate::platform::{
    input_capture_policy_for_control_mode, DesktopGeometry, InputCaptureConfig, InputCapturePolicy,
    InputCaptureSession, PlatformAdapter, PlatformCall, PlatformCapabilities, PlatformError,
};
use crate::recovery::{
    dispatch_core_action_batch, recover_runtime_after_system_resume_and_dispatch,
    recover_runtime_state_after_interrupt_and_dispatch, RuntimeRecoveryInterrupt,
};
use crate::runtime::{
    clone_bindings, saturating_add_i32, CapturedInputEvent, ControlMode, CoreAction,
    CoreTransitionError, LogicalPoint, LogicalRect, RuntimeEvent, RuntimeInputState,
    ScreenEdgeBinding, ScreenLayout,
};
use crate::snapshot::DaemonLogLevel;
use crate::transport::CoreActionDispatcher;

verus! {

/// Events taken at once from those that wait.
pub const DEFAULT_CAPTURE_DRAIN_BATCH_SIZE: usize = 64;

/// Nanoseconds to wait for input before looking around.
pub const DEFAULT_CAPTURE_IDLE_POLL_INTERVAL: u64 = 25_000_000;

/// Polls without input before it is reported that nothing comes.
pub const DEFAULT_CAPTURE_WATCHDOG_IDLE_POLLS: u64 = 80;

/// Nanoseconds between two polls that only a sleeping computer leaves.
pub const DEFAULT_POWER_RESUME_POLL_GAP: u64 = 5_000_000_000;

/// Nanoseconds between two looks at the screens and the permissions.
pub const DEFAULT_RUNTIME_ENVIRONMENT_POLL_GAP: u64 = 250_000_000;

/// Nanoseconds from one time to a later one; none to an earlier one.
pub open spec fn elapsed(since: u64, now: u64) -> u64 {
    if now > since {
        (now - since) as u64
    } else {
        0
    }
}

fn elapsed_since(since: u64, now: u64) -> (result: u64)
    ensures
        result == elapsed(since, now),
{
    if now > since {
        now - since
    } else {
        0
    }
}

/// How captured input is read.
#[derive(Debug, Clone, Copy, PartialEq, Eq, Structural)]
pub struct DaemonInputCaptureConfig {
    pub input_capture: InputCaptureConfig,
    pub drain_batch_size: usize,
    pub idle_poll_interval: u64,
}

impl Default for DaemonInputCaptureConfig {
    fn default() -> (result: Self)
        ensures
            result.input_capture.event_buffer_capacity
                == crate::platform::DEFAULT_EVENT_BUFFER_CAPACITY,
            result.drain_batch_size == DEFAULT_CAPTURE_DRAIN_BATCH_SIZE,
            result.idle_poll_interval == DEFAULT_CAPTURE_IDLE_POLL_INTERVAL,
    {
        DaemonInputCaptureConfig {
            input_capture: InputCaptureConfig::default(),
            drain_batch_size: DEFAULT_CAPTURE_DRAIN_BATCH_SIZE,
            idle_poll_interval: DEFAULT_CAPTURE_IDLE_POLL_INTERVAL,
        }
    }
}

impl DaemonInputCaptureConfig {
    /// At least one event at once.
    pub open spec fn batch_size(self) -> usize {
        if self.drain_batch_size < 1 {
            1
        } else {
            self.drain_batch_size
        }
    }

    pub fn bounded_drain_batch_size(self) -> (result: usize)
        ensures
            result == self.batch_size(),
    {
        if self.drain_batch_size < 1 {
            1
        } else {
            self.drain_batch_size
        }
    }

    /// Never without a pause.
    pub open spec fn poll_interval(self) -> u64 {
        if self.idle_poll_interval == 0 {
            DEFAULT_CAPTURE_IDLE_POLL_INTERVAL
        } else {
            self.idle_poll_interval
        }
    }

    pub fn bounded_idle_poll_interval(self) -> (result: u64)
        ensures
            result == self.poll_interval(),
            result > 0,
    {
        if self.idle_poll_interval == 0 {
            DEFAULT_CAPTURE_IDLE_POLL_INTERVAL
        } else {
            self.idle_poll_interval
        }
    }

    /// How long nothing may come before it is reported.
    pub open spec fn watchdog_timeout(self) -> u64 {
        let timeout = self.poll_interval() * DEFAULT_CAPTURE_WATCHDOG_IDLE_POLLS;
        if timeout > u64::MAX {
            u64::MAX
        } else {
            timeout as u64
        }
    }

    pub fn bounded_idle_watchdog_timeout(self) -> (result: u64)
        ensures
            result == self.watchdog_timeout(),
    {
        match self.bounded_idle_poll_interval().checked_mul(DEFAULT_CAPTURE_WATCHDOG_IDLE_POLLS) {
            Some(timeout) => timeout,
            None => u64::MAX,
        }
    }
}

/// Notices that the computer was asleep: two polls lie too far apart.
#[derive(Debug, Clone, Copy, PartialEq, Eq, Structural)]
pub struct PowerResumeWatchdog {
    pub max_poll_gap: u64,
    pub last_poll_at: u64,
}

impl PowerResumeWatchdog {
    pub fn new(max_poll_gap: u64, now: u64) -> (result: Self)
        ensures
            result == (PowerResumeWatchdog { max_poll_gap, last_poll_at: now }),
    {
        PowerResumeWatchdog { max_poll_gap, last_poll_at: now }
    }

    /// Whether a poll comes too late.
    pub open spec fn is_late(self, now: u64) -> bool {
        elapsed(self.last_poll_at, now) >= self.max_poll_gap
    }

    /// The watchdog after a poll.
    pub open spec fn polled(self, now: u64) -> Self {
        PowerResumeWatchdog { last_poll_at: now, ..self }
    }

    pub fn record_poll(&mut self, now: u64) -> (result: bool)
        ensures
            result == old(self).is_late(now),
            *final(self) == old(self).polled(now),
    {
        let late: bool = elapsed_since(self.last_poll_at, now) >= self.max_poll_gap;
        self.last_poll_at = now;
        late
    }
}

/// Decides when to look at the screens and the permissions, and notices lost permissions.
#[derive(Debug, Clone, Copy, PartialEq, Eq, Structural)]
pub struct RuntimeEnvironmentWatchdog {
    pub poll_interval: u64,
    pub last_poll_at: u64,
    pub permissions_available: bool,
}

impl RuntimeEnvironmentWatchdog {
    /// A watchdog that is due at once, unless time has only just begun.
    pub open spec fn fresh(poll_interval: u64, now: u64) -> Self {
        RuntimeEnvironmentWatchdog {
            poll_interval,
            last_poll_at: if poll_interval <= now {
                (now - poll_interval) as u64
            } else {
                now
            },
            permissions_available: true,
        }
    }

    /// A watchdog that is due at once, unless time has only just begun.
    pub fn new(poll_interval: u64, now: u64) -> (result: Self)
        ensures
            result == RuntimeEnvironmentWatchdog::fresh(poll_interval, now),
    {
        RuntimeEnvironmentWatchdog {
            poll_interval,
            last_poll_at: if poll_interval <= now {
                now - poll_interval
            } else {
                now
            },
            permissions_available: true,
        }
    }

    /// Whether it is time for another look.
    pub open spec fn is_due(self, now: u64) -> bool {
        elapsed(self.last_poll_at, now) >= self.poll_interval
    }

    /// The watchdog after a look, or after it was too early for one.
    pub open spec fn polled(self, now: u64) -> Self {
        if self.is_due(now) {
            RuntimeEnvironmentWatchdog { last_poll_at: now, ..self }
        } else {
            self
        }
    }

    pub fn record_poll(&mut self, now: u64) -> (result: bool)
        ensures
            result == old(self).is_due(now),
            *final(self) == old(self).polled(now),
    {
        if elapsed_since(self.last_poll_at, now) < self.poll_interval {
            return false;
        }
        self.last_poll_at = now;
        true
    }

    /// Note whether all permissions are there, and say whether they were lost just now.
    pub fn record_permissions_available(&mut self, available: bool) -> (result: bool)
        ensures
            result == (old(self).permissions_available && !available),
            *final(self) == (RuntimeEnvironmentWatchdog {
                permissions_available: available,
                ..*old(self)
            }),
    {
        let lost: bool = self.permissions_available && !available;
        self.permissions_available = available;
        lost
    }
}

/// Notices that no input comes, and reports it once.
#[derive(Debug, Clone, Copy, PartialEq, Eq, Structural)]
pub struct InputCaptureIdleWatchdog {
    pub idle_timeout: u64,
    pub last_progress_at: u64,
    pub idle_reported: bool,
}

impl InputCaptureIdleWatchdog {
    pub fn new(idle_timeout: u64, now: u64) -> (result: Self)
        ensures
            result == (InputCaptureIdleWatchdog {
                idle_timeout,
                last_progress_at: now,
                idle_reported: false,
            }),
    {
        InputCaptureIdleWatchdog { idle_timeout, last_progress_at: now, idle_reported: false }
    }

    /// The watchdog after input came.
    pub open spec fn progressed(self, now: u64) -> Self {
        InputCaptureIdleWatchdog { last_progress_at: now, idle_reported: false, ..self }
    }

    pub fn record_progress(&mut self, now: u64)
        ensures
            *final(self) == old(self).progressed(now),
    {
        self.last_progress_at = now;
        self.idle_reported = false;
    }

    /// Whether a poll without input is to be reported.
    pub open spec fn is_idle(self, now: u64) -> bool {
        !self.idle_reported && elapsed(self.last_progress_at, now) >= self.idle_timeout
    }

    /// The watchdog after a poll without input.
    pub open spec fn idled(self, now: u64) -> Self {
        InputCaptureIdleWatchdog {
            idle_reported: self.idle_reported || self.is_idle(now),
            ..self
        }
    }

    pub fn record_idle_poll(&mut self, now: u64) -> (result: Option<CoreAction>)
        ensures
            *final(self) == old(self).idled(now),
            result == (if old(self).is_idle(now) {
                Some(CoreAction::InputCaptureIdle)
            } else {
                None
            }),
    {
        if self.idle_reported || elapsed_since(self.last_progress_at, now) < self.idle_timeout {
            return None;
        }
        self.idle_reported = true;
        Some(CoreAction::InputCaptureIdle)
    }
}

/// However often nothing comes, it is reported once; only input makes the watchdog report again.
pub proof fn idleness_is_reported_once(watchdog: InputCaptureIdleWatchdog, first: u64, later: u64)
    requires
        watchdog.is_idle(first),
    ensures
        !watchdog.idled(first).is_idle(later),
        !watchdog.idled(first).idled(later).is_idle(later),
        elapsed(first, later) >= watchdog.idle_timeout ==> watchdog.idled(first).progressed(
            first,
        ).is_idle(later),
{
}

/// Where the screens lie, and where the pointer is on them.
#[derive(Debug, PartialEq, Eq)]
pub struct DaemonInputRoutingConfig {
    pub screen_layout: ScreenLayout,
    pub initial_pointer: LogicalPoint,
}

impl Default for DaemonInputRoutingConfig {
    fn default() -> (result: Self)
        ensures
            result.screen_layout.edge_bindings@.len() == 0,
            result.initial_pointer == (LogicalPoint { x: 0, y: 0 }),
    {
        DaemonInputRoutingConfig {
            screen_layout: ScreenLayout::default(),
            initial_pointer: LogicalPoint::default(),
        }
    }
}

impl DaemonInputRoutingConfig {
    /// The whole desktop, with the peers beyond its edges.
    pub fn from_desktop_geometry(
        geometry: DesktopGeometry,
        edge_bindings: Vec<ScreenEdgeBinding>,
    ) -> (result: Self)
        ensures
            result.screen_layout.local_bounds == geometry.virtual_screen_bounds,
            result.screen_layout.edge_bindings == edge_bindings,
            result.initial_pointer == geometry.pointer_position,
    {
        DaemonInputRoutingConfig {
            screen_layout: ScreenLayout::new(geometry.virtual_screen_bounds, edge_bindings),
            initial_pointer: geometry.pointer_position,
        }
    }
}

/// Follows the pointer over the desktop.
#[derive(Debug, PartialEq, Eq)]
pub struct CapturedInputRouter {
    pub screen_layout: ScreenLayout,
    pub current_pointer: LogicalPoint,
}

/// Where a router believes the screens, the peers and the pointer to be.
pub struct RouterModel {
    pub bounds: LogicalRect,
    pub bindings: Seq<ScreenEdgeBinding>,
    pub pointer: LogicalPoint,
}

impl View for CapturedInputRouter {
    type V = RouterModel;

    open spec fn view(&self) -> RouterModel {
        RouterModel {
            bounds: self.screen_layout.local_bounds,
            bindings: self.screen_layout.edge_bindings@,
            pointer: self.current_pointer,
        }
    }
}

impl CapturedInputRouter {
    pub fn new(config: DaemonInputRoutingConfig) -> (result: Self)
        ensures
            result.screen_layout == config.screen_layout,
            result.current_pointer == config.initial_pointer,
    {
        CapturedInputRouter {
            screen_layout: config.screen_layout,
            current_pointer: config.initial_pointer,
        }
    }
}

/// What one captured event does.
pub struct RoutedModel {
    pub state: crate::runtime::RuntimeModel,
    pub router: RouterModel,
    pub actions: Seq<CoreAction>,
}

/// A point moved by some distance, held within the range of coordinates.
pub open spec fn moved_pointer(from: LogicalPoint, delta_x: i32, delta_y: i32) -> LogicalPoint {
    LogicalPoint {
        x: crate::runtime::clamp_i32(from.x + delta_x),
        y: crate::runtime::clamp_i32(from.y + delta_y),
    }
}

/// What one captured event does: while control is local a move of the pointer is followed over the
/// desktop, where it may reach a peer; everything else is input for the state machine.
pub open spec fn routed(
    state: crate::runtime::RuntimeModel,
    router: RouterModel,
    event: CapturedInputEvent,
) -> RoutedModel {
    match event {
        CapturedInputEvent::PointerMoved { delta_x, delta_y } if state.mode
            == ControlMode::Local => {
            let next = moved_pointer(router.pointer, delta_x, delta_y);
            let (state, actions) = crate::runtime::pointer_moved(
                state,
                router.bounds,
                router.bindings,
                next,
            );
            RoutedModel { state, router: RouterModel { pointer: next, ..router }, actions }
        },
        _ => {
            let (state, actions) = crate::runtime::transition(
                state,
                RuntimeEvent::Input(event),
            )->Ok_0;
            RoutedModel { state, router, actions }
        },
    }
}

/// Route one captured event into the state machine.
pub fn apply_routed_capture_event_to_state(
    state: &mut RuntimeInputState,
    router: &mut CapturedInputRouter,
    event: CapturedInputEvent,
) -> (result: Result<Vec<CoreAction>, CoreTransitionError>)
    ensures
        result is Ok,
        ({
            let model = routed(old(state)@, old(router)@, event);
            &&& final(state)@ == model.state
            &&& final(router)@ == model.router
            &&& result->Ok_0@ == model.actions
        }),
{
    match event {
        CapturedInputEvent::PointerMoved { delta_x, delta_y } => {
            if state.mode() == ControlMode::Local {
                let previous = router.current_pointer;
                let next = LogicalPoint {
                    x: saturating_add_i32(previous.x, delta_x),
                    y: saturating_add_i32(previous.y, delta_y),
                };
                router.current_pointer = next;
                let layout = router.screen_layout.clone();
                state.apply_event(RuntimeEvent::LocalPointerMoved { previous, next, layout })
            } else {
                state.apply_event(RuntimeEvent::Input(event))
            }
        },
        _ => state.apply_event(RuntimeEvent::Input(event)),
    }
}

/// Route one captured event into the state machine, with the error in words.
pub fn apply_routed_capture_event(
    state: &mut RuntimeInputState,
    router: &mut CapturedInputRouter,
    event: CapturedInputEvent,
) -> (result: Result<Vec<CoreAction>, PlatformError>)
    ensures
        result is Ok,
        ({
            let model = routed(old(state)@, old(router)@, event);
            &&& final(state)@ == model.state
            &&& final(router)@ == model.router
            &&& result->Ok_0@ == model.actions
        }),
{
    match apply_routed_capture_event_to_state(state, router, event) {
        Ok(actions) => Ok(actions),
        Err(error) => Err(
            PlatformError::from_message(
                "failed to apply captured input: ".to_owned().concat(error.message().as_str()),
            ),
        ),
    }
}

/// What the events that wait do, in order, up to a number of them.
pub open spec fn all_routed(
    state: crate::runtime::RuntimeModel,
    router: RouterModel,
    events: Seq<CapturedInputEvent>,
) -> RoutedModel
    decreases events.len(),
{
    if events.len() == 0 {
        RoutedModel { state, router, actions: Seq::empty() }
    } else {
        let before = all_routed(state, router, events.drop_last());
        let last = routed(before.state, before.router, events.last());
        RoutedModel {
            state: last.state,
            router: last.router,
            actions: before.actions + last.actions,
        }
    }
}

/// The first so many items.
pub open spec fn first_of<A>(items: Seq<A>, count: nat) -> Seq<A> {
    if count < items.len() {
        items.subrange(0, count as int)
    } else {
        items
    }
}

/// The items behind the first so many.
pub open spec fn rest_of<A>(items: Seq<A>, count: nat) -> Seq<A> {
    if count < items.len() {
        items.subrange(count as int, items.len() as int)
    } else {
        Seq::empty()
    }
}

/// Add actions behind others.
fn append_actions(actions: &mut Vec<CoreAction>, more: Vec<CoreAction>)
    ensures
        final(actions)@ == old(actions)@ + more@,
{
    let mut i: usize = 0;
    while i < more.len()
        invariant
            i <= more@.len(),
            actions@ =~= old(actions)@ + more@.subrange(0, i as int),
        decreases more@.len() - i,
    {
        actions.push(more[i].clone());
        i = i + 1;
    }
    proof {
        assert(more@.subrange(0, i as int) =~= more@);
    }
}

/// Route the events that wait, up to a number of them, without waiting for more.
pub fn drain_ready_capture_events(
    state: &mut RuntimeInputState,
    capture: &mut InputCaptureSession,
    router: &mut CapturedInputRouter,
    max_events: usize,
) -> (result: Result<Vec<CoreAction>, PlatformError>)
    ensures
        final(capture).spec_policy() == old(capture).spec_policy(),
        final(capture).waiting() == rest_of(old(capture).waiting(), max_events as nat),
        result is Ok,
        ({
            let model = all_routed(
                old(state)@,
                old(router)@,
                first_of(old(capture).waiting(), max_events as nat),
            );
            &&& final(state)@ == model.state
            &&& final(router)@ == model.router
            &&& result->Ok_0@ == model.actions
        }),
{
    let mut actions: Vec<CoreAction> = Vec::new();
    let mut taken: usize = 0;
    let ghost all = capture.waiting();
    proof {
        assert(all.subrange(0, all.len() as int) =~= all);
        assert(actions@ =~= Seq::empty());
    }
    while taken < max_events
        invariant
            taken <= max_events,
            taken <= all.len(),
            all == old(capture).waiting(),
            capture.spec_policy() == old(capture).spec_policy(),
            capture.waiting() == all.subrange(taken as int, all.len() as int),
            ({
                let model = all_routed(old(state)@, old(router)@, all.subrange(0, taken as int));
                &&& state@ == model.state
                &&& router@ == model.router
                &&& actions@ == model.actions
            }),
        decreases max_events - taken,
    {
        match capture.try_recv() {
            Some(event) => {
                proof {
                    let longer = all.subrange(0, taken + 1);
                    assert(longer.drop_last() =~= all.subrange(0, taken as int));
                    assert(longer.last() == event);
                    assert(capture.waiting() =~= all.subrange(taken + 1, all.len() as int));
                }
                match apply_routed_capture_event(state, router, event) {
                    Ok(more) => append_actions(&mut actions, more),
                    Err(error) => {
                        return Err(error);
                    },
                }
                taken = taken + 1;
            },
            None => {
                proof {
                    assert(all.subrange(0, taken as int) =~= all);
                    assert(capture.waiting() =~= Seq::empty());
                }
                return Ok(actions);
            },
        }
    }
    proof {
        if taken == all.len() {
            assert(all.subrange(0, taken as int) =~= all);
            assert(capture.waiting() =~= Seq::empty());
        }
    }
    Ok(actions)
}

/// What input does to the state machine, in order.
pub open spec fn inputs_applied(
    state: crate::runtime::RuntimeModel,
    events: Seq<CapturedInputEvent>,
) -> (crate::runtime::RuntimeModel, Seq<CoreAction>)
    decreases events.len(),
{
    if events.len() == 0 {
        (state, Seq::empty())
    } else {
        let before = inputs_applied(state, events.drop_last());
        let last = crate::runtime::transition(
            before.0,
            RuntimeEvent::Input(events.last()),
        )->Ok_0;
        (last.0, before.1 + last.1)
    }
}

/// Hand the events that wait to the state machine as they are, up to a number of them, without
/// waiting for more.
pub fn drain_capture_events(
    state: &mut RuntimeInputState,
    capture: &mut InputCaptureSession,
    max_events: usize,
) -> (result: Result<Vec<CoreAction>, CoreTransitionError>)
    ensures
        final(capture).spec_policy() == old(capture).spec_policy(),
        final(capture).waiting() == rest_of(old(capture).waiting(), max_events as nat),
        result is Ok,
        ({
            let model = inputs_applied(
                old(state)@,
                first_of(old(capture).waiting(), max_events as nat),
            );
            &&& final(state)@ == model.0
            &&& result->Ok_0@ == model.1
        }),
{
    let mut actions: Vec<CoreAction> = Vec::new();
    let mut taken: usize = 0;
    let ghost all = capture.waiting();
    proof {
        assert(all.subrange(0, all.len() as int) =~= all);
        assert(actions@ =~= Seq::empty());
    }
    while taken < max_events
        invariant
            taken <= max_events,
            taken <= all.len(),
            all == old(capture).waiting(),
            capture.spec_policy() == old(capture).spec_policy(),
            capture.waiting() == all.subrange(taken as int, all.len() as int),
            state@ == inputs_applied(old(state)@, all.subrange(0, taken as int)).0,
            actions@ == inputs_applied(old(state)@, all.subrange(0, taken as int)).1,
        decreases max_events - taken,
    {
        match capture.try_recv() {
            Some(event) => {
                proof {
                    let longer = all.subrange(0, taken + 1);
                    assert(longer.drop_last() =~= all.subrange(0, taken as int));
                    assert(longer.last() == event);
                    assert(capture.waiting() =~= all.subrange(taken + 1, all.len() as int));
                }
                match state.apply_event(RuntimeEvent::Input(event)) {
                    Ok(more) => append_actions(&mut actions, more),
                    Err(error) => {
                        return Err(error);
                    },
                }
                taken = taken + 1;
            },
            None => {
                proof {
                    assert(all.subrange(0, taken as int) =~= all);
                    assert(capture.waiting() =~= Seq::empty());
                }
                return Ok(actions);
            },
        }
    }
    proof {
        if taken == all.len() {
            assert(all.subrange(0, taken as int) =~= all);
            assert(capture.waiting() =~= Seq::empty());
        }
    }
    Ok(actions)
}

/// Bring the capture policy in line with the control mode.
pub fn sync_capture_policy_with_state(
    capture: &mut InputCaptureSession,
    state: &RuntimeInputState,
)
    ensures
        final(capture).spec_policy() == crate::platform::capture_policy(state@.mode),
        final(capture).waiting() == old(capture).waiting(),
{
    capture.set_policy(input_capture_policy_for_control_mode(state.mode()));
}

/// Whether everything that input needs is permitted.
pub open spec fn all_permitted(capabilities: PlatformCapabilities) -> bool {
    capabilities.can_capture_pointer && capabilities.can_capture_keyboard
        && capabilities.can_inject_pointer && capabilities.can_inject_keyboard
}

pub fn required_input_capabilities_available(capabilities: &PlatformCapabilities) -> (result: bool)
    ensures
        result == all_permitted(*capabilities),
{
    capabilities.can_capture_pointer && capabilities.can_capture_keyboard
        && capabilities.can_inject_pointer && capabilities.can_inject_keyboard
}

/// What captured input acts on: the state machine, the platform, who carries out actions, and the
/// log.
pub struct DaemonRuntime<P, D> {
    pub state: RuntimeInputState,
    pub platform: P,
    pub dispatcher: D,
    pub logs: Option<DaemonLogBuffer>,
}

/// What captured input acts on, with the router.
pub struct SceneModel<P, D> {
    pub state: crate::runtime::RuntimeModel,
    pub dispatcher: D,
    pub logs: Option<DaemonLogBuffer>,
    pub platform: P,
    pub router: RouterModel,
}

/// What captured input acts on, with the router.
pub open spec fn scene<P: PlatformAdapter, D>(
    runtime: DaemonRuntime<P, D>,
    router: CapturedInputRouter,
) -> SceneModel<P, D> {
    SceneModel {
        state: runtime.state@,
        dispatcher: runtime.dispatcher,
        logs: runtime.logs,
        platform: runtime.platform,
        router: router@,
    }
}

/// What an interrupt does to a scene.
pub open spec fn scene_interrupted<P: PlatformAdapter, D: CoreActionDispatcher>(
    before: SceneModel<P, D>,
    interrupt: RuntimeRecoveryInterrupt,
    result: Result<(), PlatformError>,
    after: SceneModel<P, D>,
) -> bool {
    &&& after.platform == before.platform
    &&& after.router == before.router
    &&& crate::recovery::interrupt_recovers(
        before.state,
        before.dispatcher,
        before.logs,
        interrupt,
        result,
        after.state,
        after.dispatcher,
        after.logs,
    )
}

/// What an answer about the screens does: where they lie differently than before, control is taken
/// back, and the router follows the new layout. A failure is noted.
pub open spec fn layout_answered<P: PlatformAdapter, D: CoreActionDispatcher>(
    before: SceneModel<P, D>,
    answer: Result<DesktopGeometry, PlatformError>,
    result: Result<(), PlatformError>,
    after: SceneModel<P, D>,
) -> bool {
    match answer {
        Ok(geometry) => if geometry.virtual_screen_bounds != before.router.bounds {
            &&& crate::recovery::interrupt_recovers(
                before.state,
                before.dispatcher,
                before.logs,
                RuntimeRecoveryInterrupt::ScreenLayoutChanged,
                result,
                after.state,
                after.dispatcher,
                after.logs,
            )
            &&& after.router == (if result is Ok {
                RouterModel {
                    bounds: geometry.virtual_screen_bounds,
                    pointer: geometry.pointer_position,
                    ..before.router
                }
            } else {
                before.router
            })
        } else {
            &&& result is Ok
            &&& after == (SceneModel { platform: after.platform, ..before })
        },
        Err(_) => {
            &&& result is Ok
            &&& crate::logs::logged(
                before.logs,
                DaemonLogLevel::Warn,
                "input.capture.layoutProbe.failed"@,
                "Input capture screen layout probe failed."@,
                after.logs,
            )
            &&& after == (SceneModel { platform: after.platform, logs: after.logs, ..before })
        },
    }
}

/// What a look at the screens does: the platform is asked once, and its answer is acted upon.
pub open spec fn layout_checked<P: PlatformAdapter, D: CoreActionDispatcher>(
    before: SceneModel<P, D>,
    result: Result<(), PlatformError>,
    after: SceneModel<P, D>,
) -> bool {
    exists|answer: Result<DesktopGeometry, PlatformError>|
        P::answers(
            before.platform,
            PlatformCall::ReadDesktopGeometry { geometry: answer },
            after.platform,
        ) && #[trigger] layout_answered(before, answer, result, after)
}

/// What an answer about the permissions does: where they were lost just now, control is taken back. A
/// failure is noted.
pub open spec fn permissions_answered<P: PlatformAdapter, D: CoreActionDispatcher>(
    before: SceneModel<P, D>,
    watchdog: RuntimeEnvironmentWatchdog,
    answer: Result<PlatformCapabilities, PlatformError>,
    result: Result<(), PlatformError>,
    after: SceneModel<P, D>,
    next: RuntimeEnvironmentWatchdog,
) -> bool {
    &&& after.router == before.router
    &&& match answer {
        Ok(capabilities) => {
            &&& next == (RuntimeEnvironmentWatchdog {
                permissions_available: all_permitted(capabilities),
                ..watchdog
            })
            &&& if watchdog.permissions_available && !all_permitted(capabilities) {
                crate::recovery::interrupt_recovers(
                    before.state,
                    before.dispatcher,
                    before.logs,
                    RuntimeRecoveryInterrupt::PermissionLost,
                    result,
                    after.state,
                    after.dispatcher,
                    after.logs,
                )
            } else {
                &&& result is Ok
                &&& after == (SceneModel { platform: after.platform, ..before })
            }
        },
        Err(_) => {
            &&& next == watchdog
            &&& result is Ok
            &&& crate::logs::logged(
                before.logs,
                DaemonLogLevel::Warn,
                "input.capture.permissionProbe.failed"@,
                "Input capture permission probe failed."@,
                after.logs,
            )
            &&& after == (SceneModel { platform: after.platform, logs: after.logs, ..before })
        },
    }
}

/// What a look at the permissions does: the platform is asked once, and its answer is acted upon.
pub open spec fn permissions_checked<P: PlatformAdapter, D: CoreActionDispatcher>(
    before: SceneModel<P, D>,
    watchdog: RuntimeEnvironmentWatchdog,
    result: Result<(), PlatformError>,
    after: SceneModel<P, D>,
    next: RuntimeEnvironmentWatchdog,
) -> bool {
    exists|answer: Result<PlatformCapabilities, PlatformError>|
        P::answers(
            before.platform,
            PlatformCall::ProbeCapabilities { capabilities: answer },
            after.platform,
        ) && #[trigger] permissions_answered(before, watchdog, answer, result, after, next)
}

/// What an inspection does: nothing before it is due, and then a look at the screens and one at the
/// permissions.
pub open spec fn inspected<P: PlatformAdapter, D: CoreActionDispatcher>(
    before: SceneModel<P, D>,
    watchdog: RuntimeEnvironmentWatchdog,
    now: u64,
    result: Result<(), PlatformError>,
    after: SceneModel<P, D>,
    next: RuntimeEnvironmentWatchdog,
) -> bool {
    if !watchdog.is_due(now) {
        result is Ok && after == before && next == watchdog
    } else {
        exists|checked: Result<(), PlatformError>, mid: SceneModel<P, D>| #[trigger]
            layout_checked(before, checked, mid) && match checked {
                Err(_) => result == checked && after == mid && next == watchdog.polled(now),
                Ok(_) => permissions_checked(mid, watchdog.polled(now), result, after, next),
            }
    }
}

/// Look at the screens and the permissions where it is time, and take control back where they
/// changed.
pub fn inspect_runtime_environment_and_recover<P: PlatformAdapter, D: CoreActionDispatcher>(
    runtime: &mut DaemonRuntime<P, D>,
    router: &mut CapturedInputRouter,
    watchdog: &mut RuntimeEnvironmentWatchdog,
    now: u64,
) -> (result: Result<(), PlatformError>)
    ensures
        inspected(
            scene(*old(runtime), *old(router)),
            *old(watchdog),
            now,
            result,
            scene(*final(runtime), *final(router)),
            *final(watchdog),
        ),
{
    if !watchdog.record_poll(now) {
        return Ok(());
    }
    let ghost before = scene(*runtime, *router);
    let geometry = runtime.platform.read_desktop_geometry();
    let ghost screens = geometry;
    match geometry {
        Ok(geometry) => {
            if geometry.virtual_screen_bounds != router.screen_layout.local_bounds {
                let recovered = recover_runtime_state_after_interrupt_and_dispatch(
                    &mut runtime.state,
                    &mut runtime.dispatcher,
                    &mut runtime.logs,
                    RuntimeRecoveryInterrupt::ScreenLayoutChanged,
                );
                match recovered {
                    Ok(done) => {
                        assert(done == ());
                    },
                    Err(error) => {
                        assert(layout_answered(
                            before,
                            screens,
                            Err::<(), PlatformError>(error),
                            scene(*runtime, *router),
                        ));
                        assert(layout_checked(
                            before,
                            Err::<(), PlatformError>(error),
                            scene(*runtime, *router),
                        ));
                        return Err(error);
                    },
                }
                router.current_pointer = geometry.pointer_position;
                let bindings = clone_bindings(&router.screen_layout.edge_bindings);
                router.screen_layout = ScreenLayout::new(geometry.virtual_screen_bounds, bindings);
            }
        },
        Err(_) => {
            record_daemon_event(
                &mut runtime.logs,
                DaemonLogLevel::Warn,
                "input.capture.layoutProbe.failed",
                "Input capture screen layout probe failed.",
            );
        },
    }
    let ghost mid = scene(*runtime, *router);
    let ghost polled = *watchdog;
    assert(layout_answered(before, screens, Ok::<(), PlatformError>(()), mid));
    assert(layout_checked(before, Ok::<(), PlatformError>(()), mid));
    let capabilities = runtime.platform.probe_capabilities();
    let ghost permissions = capabilities;
    let mut result: Result<(), PlatformError> = Ok(());
    match capabilities {
        Ok(capabilities) => {
            let available: bool = required_input_capabilities_available(&capabilities);
            if watchdog.record_permissions_available(available) {
                result = recover_runtime_state_after_interrupt_and_dispatch(
                    &mut runtime.state,
                    &mut runtime.dispatcher,
                    &mut runtime.logs,
                    RuntimeRecoveryInterrupt::PermissionLost,
                );
            }
        },
        Err(_) => {
            record_daemon_event(
                &mut runtime.logs,
                DaemonLogLevel::Warn,
                "input.capture.permissionProbe.failed",
                "Input capture permission probe failed.",
            );
        },
    }
    assert(permissions_answered(
        mid,
        polled,
        permissions,
        result,
        scene(*runtime, *router),
        *watchdog,
    ));
    result
}

/// Report that no input comes.
pub fn dispatch_input_capture_idle_watchdog_action<D: CoreActionDispatcher>(
    dispatcher: &mut D,
    logs: &mut Option<DaemonLogBuffer>,
    action: CoreAction,
) -> (result: Result<(), PlatformError>)
    ensures
        crate::logs::logged(
            *old(logs),
            DaemonLogLevel::Warn,
            "input.capture.idle"@,
            "Input capture made no progress before the watchdog timeout."@,
            *final(logs),
        ),
        D::dispatches(*old(dispatcher), seq![action], result, *final(dispatcher)),
{
    record_daemon_event(
        logs,
        DaemonLogLevel::Warn,
        "input.capture.idle",
        "Input capture made no progress before the watchdog timeout.",
    );
    let mut actions: Vec<CoreAction> = Vec::new();
    let ghost reported = action;
    actions.push(action);
    proof {
        assert(actions@ =~= seq![reported]);
    }
    dispatch_core_action_batch(dispatcher, actions)
}

/// Reads captured input, in the background of everything else.
pub struct DaemonInputCaptureWorker {
    pub config: DaemonInputCaptureConfig,
    pub capture: InputCaptureSession,
    pub router: CapturedInputRouter,
    pub idle_watchdog: InputCaptureIdleWatchdog,
    pub power_resume_watchdog: PowerResumeWatchdog,
    pub environment: Option<RuntimeEnvironmentWatchdog>,
}

/// Where a worker and what it acts on stand.
pub struct CaptureModel<P, D> {
    pub scene: SceneModel<P, D>,
    pub environment: Option<RuntimeEnvironmentWatchdog>,
    pub waiting: Seq<CapturedInputEvent>,
    pub policy: InputCapturePolicy,
    pub idle: InputCaptureIdleWatchdog,
    pub power: PowerResumeWatchdog,
}

/// Where a worker and what it acts on stand.
pub open spec fn capture_model<P: PlatformAdapter, D>(
    runtime: DaemonRuntime<P, D>,
    worker: DaemonInputCaptureWorker,
) -> CaptureModel<P, D> {
    CaptureModel {
        scene: scene(runtime, worker.router),
        environment: worker.environment,
        waiting: worker.capture.waiting(),
        policy: worker.capture.spec_policy(),
        idle: worker.idle_watchdog,
        power: worker.power_resume_watchdog,
    }
}

/// The policy follows the control mode.
pub open spec fn synced<P: PlatformAdapter, D>(model: CaptureModel<P, D>) -> CaptureModel<P, D> {
    CaptureModel { policy: crate::platform::capture_policy(model.scene.state.mode), ..model }
}

/// What a poll does first: where it comes too late, control is taken back.
pub open spec fn resumed_if_late<P: PlatformAdapter, D: CoreActionDispatcher>(
    before: CaptureModel<P, D>,
    now: u64,
    result: Result<(), PlatformError>,
    after: CaptureModel<P, D>,
) -> bool {
    &&& after == (CaptureModel {
        scene: after.scene,
        power: before.power.polled(now),
        ..before
    })
    &&& if before.power.is_late(now) {
        scene_interrupted(
            before.scene,
            RuntimeRecoveryInterrupt::SystemResumed,
            result,
            after.scene,
        )
    } else {
        result is Ok && after.scene == before.scene
    }
}

/// What a poll does next: an inspection, where the worker makes them.
pub open spec fn inspected_if_monitored<P: PlatformAdapter, D: CoreActionDispatcher>(
    before: CaptureModel<P, D>,
    now: u64,
    result: Result<(), PlatformError>,
    after: CaptureModel<P, D>,
) -> bool {
    &&& after == (CaptureModel {
        scene: after.scene,
        environment: after.environment,
        ..before
    })
    &&& match before.environment {
        None => result is Ok && after.scene == before.scene && after.environment is None,
        Some(watchdog) => after.environment is Some && inspected(
            before.scene,
            watchdog,
            now,
            result,
            after.scene,
            after.environment->Some_0,
        ),
    }
}

/// What routed events do to a worker: their actions are carried out, and where that succeeds the
/// policy follows the control mode.
pub open spec fn routed_and_dispatched<P: PlatformAdapter, D: CoreActionDispatcher>(
    before: CaptureModel<P, D>,
    model: RoutedModel,
    result: Result<(), PlatformError>,
    after: CaptureModel<P, D>,
) -> bool {
    &&& crate::recovery::batch_dispatched(
        before.scene.dispatcher,
        model.actions,
        result,
        after.scene.dispatcher,
    )
    &&& after == ({
        let moved = CaptureModel {
            scene: SceneModel {
                state: model.state,
                router: model.router,
                dispatcher: after.scene.dispatcher,
                ..before.scene
            },
            ..before
        };
        if result is Ok {
            synced(moved)
        } else {
            moved
        }
    })
}

/// What the events that wait do to a worker.
pub open spec fn ready_drained<P: PlatformAdapter, D: CoreActionDispatcher>(
    before: CaptureModel<P, D>,
    batch: nat,
    result: Result<(), PlatformError>,
    after: CaptureModel<P, D>,
) -> bool {
    routed_and_dispatched(
        CaptureModel { waiting: rest_of(before.waiting, batch), ..before },
        all_routed(before.scene.state, before.scene.router, first_of(before.waiting, batch)),
        result,
        after,
    )
}

/// What an event does once the inspection is over: it is routed, and then those that wait are.
pub open spec fn event_after_inspection<P: PlatformAdapter, D: CoreActionDispatcher>(
    before: CaptureModel<P, D>,
    batch: nat,
    event: CapturedInputEvent,
    now: u64,
    result: Result<(), PlatformError>,
    after: CaptureModel<P, D>,
) -> bool {
    exists|sent: Result<(), PlatformError>, mid: CaptureModel<P, D>| #[trigger]
        routed_and_dispatched(
            CaptureModel { idle: before.idle.progressed(now), ..before },
            routed(before.scene.state, before.scene.router, event),
            sent,
            mid,
        ) && match sent {
            Err(_) => result == sent && after == mid,
            Ok(_) => ready_drained(mid, batch, result, after),
        }
}

/// What an event does: a check for a sleep, an inspection, and then the event itself. Whatever fails
/// first ends the worker.
pub open spec fn event_polled<P: PlatformAdapter, D: CoreActionDispatcher>(
    before: CaptureModel<P, D>,
    batch: nat,
    event: CapturedInputEvent,
    now: u64,
    result: Result<(), PlatformError>,
    after: CaptureModel<P, D>,
) -> bool {
    exists|resumed: Result<(), PlatformError>, awake: CaptureModel<P, D>| #[trigger]
        resumed_if_late(before, now, resumed, awake) && match resumed {
            Err(_) => result == resumed && after == awake,
            Ok(_) => exists|looked: Result<(), PlatformError>, seen: CaptureModel<P, D>| #[trigger]
                inspected_if_monitored(awake, now, looked, seen) && match looked {
                    Err(_) => result == looked && after == seen,
                    Ok(_) => event_after_inspection(seen, batch, event, now, result, after),
                },
        }
}

/// What a poll without input does once the inspection is over: where nothing came for too long, that
/// is reported. Where nothing fails, the policy follows the control mode.
pub open spec fn idle_after_inspection<P: PlatformAdapter, D: CoreActionDispatcher>(
    before: CaptureModel<P, D>,
    now: u64,
    result: Result<(), PlatformError>,
    after: CaptureModel<P, D>,
) -> bool {
    &&& after == ({
        let moved = CaptureModel {
            scene: SceneModel {
                dispatcher: after.scene.dispatcher,
                logs: after.scene.logs,
                ..before.scene
            },
            idle: before.idle.idled(now),
            ..before
        };
        if result is Ok {
            synced(moved)
        } else {
            moved
        }
    })
    &&& if before.idle.is_idle(now) {
        &&& crate::logs::logged(
            before.scene.logs,
            DaemonLogLevel::Warn,
            "input.capture.idle"@,
            "Input capture made no progress before the watchdog timeout."@,
            after.scene.logs,
        )
        &&& D::dispatches(
            before.scene.dispatcher,
            seq![CoreAction::InputCaptureIdle],
            result,
            after.scene.dispatcher,
        )
    } else {
        result is Ok && after.scene == before.scene
    }
}

/// What a poll without input does: a check for a sleep, which counts as progress, or else an
/// inspection and a check for idleness. The policy follows the control mode before and after.
pub open spec fn timeout_polled<P: PlatformAdapter, D: CoreActionDispatcher>(
    before: CaptureModel<P, D>,
    now: u64,
    result: Result<(), PlatformError>,
    after: CaptureModel<P, D>,
) -> bool {
    exists|resumed: Result<(), PlatformError>, awake: CaptureModel<P, D>| #[trigger]
        resumed_if_late(synced(before), now, resumed, awake) && match resumed {
            Err(_) => result == resumed && after == awake,
            Ok(_) => if before.power.is_late(now) {
                result is Ok && after == synced(
                    CaptureModel { idle: awake.idle.progressed(now), ..awake },
                )
            } else {
                exists|looked: Result<(), PlatformError>, seen: CaptureModel<P, D>| #[trigger]
                    inspected_if_monitored(awake, now, looked, seen) && match looked {
                        Err(_) => result == looked && after == seen,
                        Ok(_) => idle_after_inspection(seen, now, result, after),
                    }
            },
        }
}

/// What a worker does before it first waits for input: an inspection, after which the policy follows
/// the control mode.
pub open spec fn start_polled<P: PlatformAdapter, D: CoreActionDispatcher>(
    before: CaptureModel<P, D>,
    now: u64,
    result: Result<(), PlatformError>,
    after: CaptureModel<P, D>,
) -> bool {
    exists|seen: CaptureModel<P, D>| #[trigger]
        inspected_if_monitored(before, now, result, seen) && after == (if result is Ok {
            synced(seen)
        } else {
            seen
        })
}

/// What waiting for input gave. A worker begins with `Started`, before it has waited.
#[derive(Debug, Clone, Copy, PartialEq, Eq, Structural)]
pub enum CapturePoll {
    Started,
    Event(CapturedInputEvent),
    Timeout,
    Disconnected,
}

impl DaemonInputCaptureWorker {
    /// A worker for a capture session, with a routing and inspections where they are wanted.
    pub fn new(
        config: DaemonInputCaptureConfig,
        capture: InputCaptureSession,
        routing: DaemonInputRoutingConfig,
        monitored: bool,
        now: u64,
    ) -> (result: Self)
        ensures
            result.config == config,
            result.capture.waiting() == capture.waiting(),
            result.capture.spec_policy() == capture.spec_policy(),
            result.router.screen_layout == routing.screen_layout,
            result.router.current_pointer == routing.initial_pointer,
            result.idle_watchdog == (InputCaptureIdleWatchdog {
                idle_timeout: config.watchdog_timeout(),
                last_progress_at: now,
                idle_reported: false,
            }),
            result.power_resume_watchdog == (PowerResumeWatchdog {
                max_poll_gap: DEFAULT_POWER_RESUME_POLL_GAP,
                last_poll_at: now,
            }),
            result.environment == (if monitored {
                Some(
                    RuntimeEnvironmentWatchdog::fresh(DEFAULT_RUNTIME_ENVIRONMENT_POLL_GAP, now),
                )
            } else {
                None
            }),
    {
        DaemonInputCaptureWorker {
            config,
            capture,
            router: CapturedInputRouter::new(routing),
            idle_watchdog: InputCaptureIdleWatchdog::new(
                config.bounded_idle_watchdog_timeout(),
                now,
            ),
            power_resume_watchdog: PowerResumeWatchdog::new(DEFAULT_POWER_RESUME_POLL_GAP, now),
            environment: if monitored {
                Some(RuntimeEnvironmentWatchdog::new(DEFAULT_RUNTIME_ENVIRONMENT_POLL_GAP, now))
            } else {
                None
            },
        }
    }

    /// Make an inspection, where this worker makes them.
    pub fn inspect<P: PlatformAdapter, D: CoreActionDispatcher>(
        &mut self,
        runtime: &mut DaemonRuntime<P, D>,
        now: u64,
    ) -> (result: Result<(), PlatformError>)
        ensures
            final(self).config == old(self).config,
            inspected_if_monitored(
                capture_model(*old(runtime), *old(self)),
                now,
                result,
                capture_model(*final(runtime), *final(self)),
            ),
    {
        match self.environment {
            None => Ok(()),
            Some(watchdog) => {
                let mut watchdog = watchdog;
                let result = inspect_runtime_environment_and_recover(
                    runtime,
                    &mut self.router,
                    &mut watchdog,
                    now,
                );
                self.environment = Some(watchdog);
                result
            },
        }
    }

    /// Check whether the computer was asleep.
    fn check_resume<P: PlatformAdapter, D: CoreActionDispatcher>(
        &mut self,
        runtime: &mut DaemonRuntime<P, D>,
        now: u64,
    ) -> (outcome: (bool, Result<(), PlatformError>))
        ensures
            final(self).config == old(self).config,
            outcome.0 == old(self).power_resume_watchdog.is_late(now),
            resumed_if_late(
                capture_model(*old(runtime), *old(self)),
                now,
                outcome.1,
                capture_model(*final(runtime), *final(self)),
            ),
    {
        if self.power_resume_watchdog.record_poll(now) {
            let result = recover_runtime_after_system_resume_and_dispatch(
                &mut runtime.state,
                &mut runtime.dispatcher,
                &mut runtime.logs,
            );
            (true, result)
        } else {
            (false, Ok(()))
        }
    }

    /// Handle one captured event, and then those that wait.
    fn handle_event<P: PlatformAdapter, D: CoreActionDispatcher>(
        &mut self,
        runtime: &mut DaemonRuntime<P, D>,
        event: CapturedInputEvent,
        now: u64,
    ) -> (result: Result<(), PlatformError>)
        ensures
            final(self).config == old(self).config,
            event_after_inspection(
                capture_model(*old(runtime), *old(self)),
                old(self).config.batch_size() as nat,
                event,
                now,
                result,
                capture_model(*final(runtime), *final(self)),
            ),
    {
        let ghost before = capture_model(*runtime, *self);
        self.idle_watchdog.record_progress(now);
        let actions = match apply_routed_capture_event(&mut runtime.state, &mut self.router, event) {
            Ok(actions) => actions,
            Err(error) => {
                return Err(error);
            },
        };
        let sent = dispatch_core_action_batch(&mut runtime.dispatcher, actions);
        match sent {
            Err(error) => {
                assert(routed_and_dispatched(
                    CaptureModel { idle: before.idle.progressed(now), ..before },
                    routed(before.scene.state, before.scene.router, event),
                    Err::<(), PlatformError>(error),
                    capture_model(*runtime, *self),
                ));
                return Err(error);
            },
            Ok(done) => {
                assert(done == ());
            },
        }
        sync_capture_policy_with_state(&mut self.capture, &runtime.state);
        let ghost mid = capture_model(*runtime, *self);
        assert(routed_and_dispatched(
            CaptureModel { idle: before.idle.progressed(now), ..before },
            routed(before.scene.state, before.scene.router, event),
            Ok::<(), PlatformError>(()),
            mid,
        ));
        let actions = match drain_ready_capture_events(
            &mut runtime.state,
            &mut self.capture,
            &mut self.router,
            self.config.bounded_drain_batch_size(),
        ) {
            Ok(actions) => actions,
            Err(error) => {
                return Err(error);
            },
        };
        let ghost batch = self.config.batch_size() as nat;
        match dispatch_core_action_batch(&mut runtime.dispatcher, actions) {
            Err(error) => {
                assert(ready_drained(
                    mid,
                    batch,
                    Err::<(), PlatformError>(error),
                    capture_model(*runtime, *self),
                ));
                Err(error)
            },
            Ok(done) => {
                assert(done == ());
                sync_capture_policy_with_state(&mut self.capture, &runtime.state);
                assert(ready_drained(
                    mid,
                    batch,
                    Ok::<(), PlatformError>(()),
                    capture_model(*runtime, *self),
                ));
                Ok(())
            },
        }
    }

    /// Handle what waiting for input gave. The worker goes on while this says so.
    pub fn run_daemon_input_capture_worker<P: PlatformAdapter, D: CoreActionDispatcher>(
        &mut self,
        runtime: &mut DaemonRuntime<P, D>,
        poll: CapturePoll,
        now: u64,
    ) -> (result: Result<bool, PlatformError>)
        ensures
            final(self).config == old(self).config,
            ({
                let before = capture_model(*old(runtime), *old(self));
                let after = capture_model(*final(runtime), *final(self));
                let outcome = match result {
                    Ok(_) => Ok::<(), PlatformError>(()),
                    Err(error) => Err::<(), PlatformError>(error),
                };
                &&& polled(before, old(self).config.batch_size() as nat, poll, now, outcome, after)
                &&& result matches Ok(more) ==> more == !(poll is Disconnected)
            }),
    {
        let ghost before = capture_model(*runtime, *self);
        match poll {
            CapturePoll::Disconnected => Ok(false),
            CapturePoll::Started => {
                let looked = self.inspect(runtime, now);
                let ghost seen = capture_model(*runtime, *self);
                match looked {
                    Err(error) => {
                        assert(inspected_if_monitored(
                            before,
                            now,
                            Err::<(), PlatformError>(error),
                            seen,
                        ));
                        Err(error)
                    },
                    Ok(done) => {
                        assert(done == ());
                        assert(inspected_if_monitored(
                            before,
                            now,
                            Ok::<(), PlatformError>(()),
                            seen,
                        ));
                        sync_capture_policy_with_state(&mut self.capture, &runtime.state);
                        Ok(true)
                    },
                }
            },
            CapturePoll::Event(event) => {
                let (_, resumed) = self.check_resume(runtime, now);
                let ghost awake = capture_model(*runtime, *self);
                match resumed {
                    Err(error) => {
                        assert(resumed_if_late(
                            before,
                            now,
                            Err::<(), PlatformError>(error),
                            awake,
                        ));
                        return Err(error);
                    },
                    Ok(done) => {
                        assert(done == ());
                        assert(resumed_if_late(before, now, Ok::<(), PlatformError>(()), awake));
                    },
                }
                let looked = self.inspect(runtime, now);
                let ghost seen = capture_model(*runtime, *self);
                match looked {
                    Err(error) => {
                        assert(inspected_if_monitored(
                            awake,
                            now,
                            Err::<(), PlatformError>(error),
                            seen,
                        ));
                        return Err(error);
                    },
                    Ok(done) => {
                        assert(done == ());
                        assert(inspected_if_monitored(
                            awake,
                            now,
                            Ok::<(), PlatformError>(()),
                            seen,
                        ));
                    },
                }
                match self.handle_event(runtime, event, now) {
                    Err(error) => Err(error),
                    Ok(done) => {
                        assert(done == ());
                        Ok(true)
                    },
                }
            },
            CapturePoll::Timeout => {
                sync_capture_policy_with_state(&mut self.capture, &runtime.state);
                let ghost ready = capture_model(*runtime, *self);
                assert(ready == synced(before));
                let (late, resumed) = self.check_resume(runtime, now);
                let ghost awake = capture_model(*runtime, *self);
                match resumed {
                    Err(error) => {
                        assert(resumed_if_late(
                            ready,
                            now,
                            Err::<(), PlatformError>(error),
                            awake,
                        ));
                        return Err(error);
                    },
                    Ok(done) => {
                        assert(done == ());
                        assert(resumed_if_late(ready, now, Ok::<(), PlatformError>(()), awake));
                    },
                }
                if late {
                    self.idle_watchdog.record_progress(now);
                    sync_capture_policy_with_state(&mut self.capture, &runtime.state);
                    return Ok(true);
                }
                let looked = self.inspect(runtime, now);
                let ghost seen = capture_model(*runtime, *self);
                match looked {
                    Err(error) => {
                        assert(inspected_if_monitored(
                            awake,
                            now,
                            Err::<(), PlatformError>(error),
                            seen,
                        ));
                        return Err(error);
                    },
                    Ok(done) => {
                        assert(done == ());
                        assert(inspected_if_monitored(
                            awake,
                            now,
                            Ok::<(), PlatformError>(()),
                            seen,
                        ));
                    },
                }
                match self.idle_watchdog.record_idle_poll(now) {
                    None => {},
                    Some(action) => match dispatch_input_capture_idle_watchdog_action(
                        &mut runtime.dispatcher,
                        &mut runtime.logs,
                        action,
                    ) {
                        Err(error) => {
                            return Err(error);
                        },
                        Ok(done) => {
                            assert(done == ());
                        },
                    },
                }
                sync_capture_policy_with_state(&mut self.capture, &runtime.state);
                Ok(true)
            },
        }
    }
}

/// What a poll does to a worker and what it acts on.
pub open spec fn polled<P: PlatformAdapter, D: CoreActionDispatcher>(
    before: CaptureModel<P, D>,
    batch: nat,
    poll: CapturePoll,
    now: u64,
    result: Result<(), PlatformError>,
    after: CaptureModel<P, D>,
) -> bool {
    match poll {
        CapturePoll::Started => start_polled(before, now, result, after),
        CapturePoll::Event(event) => event_polled(before, batch, event, now, result, after),
        CapturePoll::Timeout => timeout_polled(before, now, result, after),
        CapturePoll::Disconnected => result is Ok && after == before,
    }
}

/// While a worker goes on, input is held back from this computer exactly while control is remote:
/// whenever it is about to wait, at the start, after an event and after a wait that gave none.
pub proof fn policy_follows_the_control_mode<P: PlatformAdapter, D: CoreActionDispatcher>(
    before: CaptureModel<P, D>,
    batch: nat,
    poll: CapturePoll,
    now: u64,
    after: CaptureModel<P, D>,
)
    requires
        polled(before, batch, poll, now, Ok::<(), PlatformError>(()), after),
        !(poll is Disconnected),
    ensures
        after.policy == crate::platform::capture_policy(after.scene.state.mode),
{
}

/// Where control was taken back, the log holds nothing but texts of the daemon's own.
proof fn lemma_interrupt_text(
    before: Option<DaemonLogBuffer>,
    interrupt: RuntimeRecoveryInterrupt,
    after: Option<DaemonLogBuffer>,
)
    requires
        crate::logs::logged(
            before,
            DaemonLogLevel::Warn,
            interrupt.success_event(),
            interrupt.success_text(),
            after,
        ),
        crate::logs::tells_own_texts(before),
    ensures
        crate::logs::tells_own_texts(after),
{
    crate::logs::lemma_own_text_logged(
        before,
        DaemonLogLevel::Warn,
        interrupt.success_event(),
        interrupt.success_text(),
        after,
    );
}

/// Where an inspection was made, the log holds nothing but texts of the daemon's own.
proof fn lemma_inspection_text<P: PlatformAdapter, D: CoreActionDispatcher>(
    before: SceneModel<P, D>,
    watchdog: RuntimeEnvironmentWatchdog,
    now: u64,
    result: Result<(), PlatformError>,
    after: SceneModel<P, D>,
    next: RuntimeEnvironmentWatchdog,
)
    requires
        inspected(before, watchdog, now, result, after, next),
        crate::logs::tells_own_texts(before.logs),
    ensures
        crate::logs::tells_own_texts(after.logs),
{
    if watchdog.is_due(now) {
        let (checked, mid) = choose|checked: Result<(), PlatformError>, mid: SceneModel<P, D>|
            #[trigger]
            layout_checked(before, checked, mid) && match checked {
                Err(_) => result == checked && after == mid && next == watchdog.polled(now),
                Ok(_) => permissions_checked(mid, watchdog.polled(now), result, after, next),
            };
        let screens = choose|answer: Result<DesktopGeometry, PlatformError>|
            P::answers(
                before.platform,
                PlatformCall::ReadDesktopGeometry { geometry: answer },
                mid.platform,
            ) && #[trigger] layout_answered(before, answer, checked, mid);
        match screens {
            Ok(geometry) => if geometry.virtual_screen_bounds != before.router.bounds {
                lemma_interrupt_text(
                    before.logs,
                    RuntimeRecoveryInterrupt::ScreenLayoutChanged,
                    mid.logs,
                );
            },
            Err(_) => crate::logs::lemma_own_text_logged(
                before.logs,
                DaemonLogLevel::Warn,
                "input.capture.layoutProbe.failed"@,
                "Input capture screen layout probe failed."@,
                mid.logs,
            ),
        }
        if checked is Ok {
            let permissions = choose|answer: Result<PlatformCapabilities, PlatformError>|
                P::answers(
                    mid.platform,
                    PlatformCall::ProbeCapabilities { capabilities: answer },
                    after.platform,
                ) && #[trigger] permissions_answered(
                    mid,
                    watchdog.polled(now),
                    answer,
                    result,
                    after,
                    next,
                );
            match permissions {
                Ok(capabilities) => if watchdog.permissions_available && !all_permitted(
                    capabilities,
                ) {
                    lemma_interrupt_text(
                        mid.logs,
                        RuntimeRecoveryInterrupt::PermissionLost,
                        after.logs,
                    );
                },
                Err(_) => crate::logs::lemma_own_text_logged(
                    mid.logs,
                    DaemonLogLevel::Warn,
                    "input.capture.permissionProbe.failed"@,
                    "Input capture permission probe failed."@,
                    after.logs,
                ),
            }
        }
    }
}

/// Where a worker was woken and made its inspection, the log holds nothing but texts of the daemon's
/// own.
proof fn lemma_look_text<P: PlatformAdapter, D: CoreActionDispatcher>(
    before: CaptureModel<P, D>,
    now: u64,
    resumed: Result<(), PlatformError>,
    awake: CaptureModel<P, D>,
    looked: Result<(), PlatformError>,
    seen: CaptureModel<P, D>,
)
    requires
        resumed_if_late(before, now, resumed, awake),
        crate::logs::tells_own_texts(before.scene.logs),
    ensures
        crate::logs::tells_own_texts(awake.scene.logs),
        inspected_if_monitored(awake, now, looked, seen) ==> crate::logs::tells_own_texts(
            seen.scene.logs,
        ),
{
    if before.power.is_late(now) {
        lemma_interrupt_text(
            before.scene.logs,
            RuntimeRecoveryInterrupt::SystemResumed,
            awake.scene.logs,
        );
    }
    if inspected_if_monitored(awake, now, looked, seen) {
        if let Some(watchdog) = awake.environment {
            lemma_inspection_text(
                awake.scene,
                watchdog,
                now,
                looked,
                seen.scene,
                seen.environment->Some_0,
            );
        }
    }
}

/// An event leaves nothing in the log but texts of the daemon's own.
proof fn lemma_event_text<P: PlatformAdapter, D: CoreActionDispatcher>(
    before: CaptureModel<P, D>,
    batch: nat,
    event: CapturedInputEvent,
    now: u64,
    result: Result<(), PlatformError>,
    after: CaptureModel<P, D>,
)
    requires
        event_polled(before, batch, event, now, result, after),
        crate::logs::tells_own_texts(before.scene.logs),
    ensures
        crate::logs::tells_own_texts(after.scene.logs),
{
    let (resumed, awake) = choose|resumed: Result<(), PlatformError>, awake: CaptureModel<P, D>|
        #[trigger]
        resumed_if_late(before, now, resumed, awake) && match resumed {
            Err(_) => result == resumed && after == awake,
            Ok(_) => exists|looked: Result<(), PlatformError>, seen: CaptureModel<P, D>| #[trigger]
                inspected_if_monitored(awake, now, looked, seen) && match looked {
                    Err(_) => result == looked && after == seen,
                    Ok(_) => event_after_inspection(seen, batch, event, now, result, after),
                },
        };
    lemma_look_text(before, now, resumed, awake, resumed, awake);
    if resumed is Ok {
        let (looked, seen) = choose|looked: Result<(), PlatformError>, seen: CaptureModel<P, D>|
            #[trigger]
            inspected_if_monitored(awake, now, looked, seen) && match looked {
                Err(_) => result == looked && after == seen,
                Ok(_) => event_after_inspection(seen, batch, event, now, result, after),
            };
        lemma_look_text(before, now, resumed, awake, looked, seen);
    }
}

/// A wait without input leaves nothing in the log but texts of the daemon's own.
proof fn lemma_timeout_text<P: PlatformAdapter, D: CoreActionDispatcher>(
    before: CaptureModel<P, D>,
    now: u64,
    result: Result<(), PlatformError>,
    after: CaptureModel<P, D>,
)
    requires
        timeout_polled(before, now, result, after),
        crate::logs::tells_own_texts(before.scene.logs),
    ensures
        crate::logs::tells_own_texts(after.scene.logs),
{
    let ready = synced(before);
    let (resumed, awake) = choose|resumed: Result<(), PlatformError>, awake: CaptureModel<P, D>|
        #[trigger]
        resumed_if_late(ready, now, resumed, awake) && match resumed {
            Err(_) => result == resumed && after == awake,
            Ok(_) => if before.power.is_late(now) {
                result is Ok && after == synced(
                    CaptureModel { idle: awake.idle.progressed(now), ..awake },
                )
            } else {
                exists|looked: Result<(), PlatformError>, seen: CaptureModel<P, D>| #[trigger]
                    inspected_if_monitored(awake, now, looked, seen) && match looked {
                        Err(_) => result == looked && after == seen,
                        Ok(_) => idle_after_inspection(seen, now, result, after),
                    }
            },
        };
    lemma_look_text(ready, now, resumed, awake, resumed, awake);
    if resumed is Ok && !before.power.is_late(now) {
        let (looked, seen) = choose|looked: Result<(), PlatformError>, seen: CaptureModel<P, D>|
            #[trigger]
            inspected_if_monitored(awake, now, looked, seen) && match looked {
                Err(_) => result == looked && after == seen,
                Ok(_) => idle_after_inspection(seen, now, result, after),
            };
        lemma_look_text(ready, now, resumed, awake, looked, seen);
        if looked is Ok && seen.idle.is_idle(now) {
            crate::logs::lemma_own_text_logged(
                seen.scene.logs,
                DaemonLogLevel::Warn,
                "input.capture.idle"@,
                "Input capture made no progress before the watchdog timeout."@,
                after.scene.logs,
            );
        }
    }
}

/// Captured input is never logged: whatever a poll gives, every event in the log is one of the daemon's
/// own fixed texts.
pub proof fn captured_input_is_never_logged<P: PlatformAdapter, D: CoreActionDispatcher>(
    before: CaptureModel<P, D>,
    batch: nat,
    poll: CapturePoll,
    now: u64,
    result: Result<(), PlatformError>,
    after: CaptureModel<P, D>,
)
    requires
        polled(before, batch, poll, now, result, after),
        crate::logs::tells_own_texts(before.scene.logs),
    ensures
        crate::logs::tells_own_texts(after.scene.logs),
{
    match poll {
        CapturePoll::Started => {
            let seen = choose|seen: CaptureModel<P, D>| #[trigger]
                inspected_if_monitored(before, now, result, seen) && after == (if result is Ok {
                    synced(seen)
                } else {
                    seen
                });
            if let Some(watchdog) = before.environment {
                lemma_inspection_text(
                    before.scene,
                    watchdog,
                    now,
                    result,
                    seen.scene,
                    seen.environment->Some_0,
                );
            }
        },
        CapturePoll::Event(event) => lemma_event_text(before, batch, event, now, result, after),
        CapturePoll::Timeout => lemma_timeout_text(before, now, result, after),
        CapturePoll::Disconnected => {},
    }
}

/// Whether a worker is one that has just begun to read a capture session.
pub open spec fn is_fresh_worker(
    worker: DaemonInputCaptureWorker,
    mode: ControlMode,
    config: DaemonInputCaptureConfig,
    session: InputCaptureSession,
    bounds: LogicalRect,
    bindings: Seq<ScreenEdgeBinding>,
    pointer: LogicalPoint,
    monitored: bool,
    now: u64,
) -> bool {
    &&& worker.config == config
    &&& worker.capture.waiting() == session.waiting()
    &&& worker.capture.spec_policy() == crate::platform::capture_policy(mode)
    &&& worker.router@ == (RouterModel { bounds, bindings, pointer })
    &&& worker.idle_watchdog == (InputCaptureIdleWatchdog {
        idle_timeout: config.watchdog_timeout(),
        last_progress_at: now,
        idle_reported: false,
    })
    &&& worker.power_resume_watchdog == (PowerResumeWatchdog {
        max_poll_gap: DEFAULT_POWER_RESUME_POLL_GAP,
        last_poll_at: now,
    })
    &&& worker.environment == (if monitored {
        Some(RuntimeEnvironmentWatchdog::fresh(DEFAULT_RUNTIME_ENVIRONMENT_POLL_GAP, now))
    } else {
        None
    })
}

/// What starting a worker with a routing comes to: the platform is asked once for a capture session,
/// and decides.
pub open spec fn starts_with_routing<P: PlatformAdapter>(
    before: P,
    mode: ControlMode,
    config: DaemonInputCaptureConfig,
    bounds: LogicalRect,
    bindings: Seq<ScreenEdgeBinding>,
    pointer: LogicalPoint,
    monitored: bool,
    now: u64,
    result: Result<DaemonInputCaptureWorker, PlatformError>,
    after: P,
) -> bool {
    exists|answer: Result<InputCaptureSession, PlatformError>| #[trigger]
        P::answers(
            before,
            PlatformCall::StartInputCapture { config: config.input_capture, capture: answer },
            after,
        ) && match answer {
            Err(error) => result == Err::<DaemonInputCaptureWorker, PlatformError>(error),
            Ok(session) => result is Ok && is_fresh_worker(
                result->Ok_0,
                mode,
                config,
                session,
                bounds,
                bindings,
                pointer,
                monitored,
                now,
            ),
        }
}

/// What starting a worker over the whole desktop comes to: the platform is asked for the desktop
/// first.
pub open spec fn starts_over_desktop<P: PlatformAdapter>(
    before: P,
    mode: ControlMode,
    config: DaemonInputCaptureConfig,
    bindings: Seq<ScreenEdgeBinding>,
    monitored: bool,
    now: u64,
    result: Result<DaemonInputCaptureWorker, PlatformError>,
    after: P,
) -> bool {
    exists|answer: Result<DesktopGeometry, PlatformError>, mid: P| #[trigger]
        P::answers(before, PlatformCall::ReadDesktopGeometry { geometry: answer }, mid)
            && match answer {
            Err(error) => after == mid && result == Err::<DaemonInputCaptureWorker, PlatformError>(
                error,
            ),
            Ok(geometry) => starts_with_routing(
                mid,
                mode,
                config,
                geometry.virtual_screen_bounds,
                bindings,
                geometry.pointer_position,
                monitored,
                now,
                result,
                after,
            ),
        }
}

/// Whether only the platform was asked, and nothing else was touched.
pub open spec fn only_asked<P, D>(before: DaemonRuntime<P, D>, after: DaemonRuntime<P, D>) -> bool {
    &&& after.state == before.state
    &&& after.dispatcher == before.dispatcher
    &&& after.logs == before.logs
}

/// Start a worker with a routing.
fn start_worker<P: PlatformAdapter, D>(
    runtime: &mut DaemonRuntime<P, D>,
    config: DaemonInputCaptureConfig,
    routing: DaemonInputRoutingConfig,
    monitored: bool,
    now: u64,
) -> (result: Result<DaemonInputCaptureWorker, PlatformError>)
    ensures
        only_asked(*old(runtime), *final(runtime)),
        starts_with_routing(
            old(runtime).platform,
            old(runtime).state@.mode,
            config,
            routing.screen_layout.local_bounds,
            routing.screen_layout.edge_bindings@,
            routing.initial_pointer,
            monitored,
            now,
            result,
            final(runtime).platform,
        ),
{
    let answer = runtime.platform.start_input_capture(config.input_capture);
    let ghost started = answer;
    assert(P::answers(
        old(runtime).platform,
        PlatformCall::StartInputCapture { config: config.input_capture, capture: started },
        runtime.platform,
    ));
    match answer {
        Err(error) => Err(error),
        Ok(session) => {
            let mut worker = DaemonInputCaptureWorker::new(
                config,
                session,
                routing,
                monitored,
                now,
            );
            sync_capture_policy_with_state(&mut worker.capture, &runtime.state);
            Ok(worker)
        },
    }
}

/// Start a worker over the whole desktop.
fn start_worker_over_desktop<P: PlatformAdapter, D>(
    runtime: &mut DaemonRuntime<P, D>,
    config: DaemonInputCaptureConfig,
    edge_bindings: Vec<ScreenEdgeBinding>,
    monitored: bool,
    now: u64,
) -> (result: Result<DaemonInputCaptureWorker, PlatformError>)
    ensures
        only_asked(*old(runtime), *final(runtime)),
        starts_over_desktop(
            old(runtime).platform,
            old(runtime).state@.mode,
            config,
            edge_bindings@,
            monitored,
            now,
            result,
            final(runtime).platform,
        ),
{
    let answer = runtime.platform.read_desktop_geometry();
    let ghost mid = runtime.platform;
    let ghost screens = answer;
    assert(P::answers(
        old(runtime).platform,
        PlatformCall::ReadDesktopGeometry { geometry: screens },
        mid,
    ));
    match answer {
        Err(error) => Err(error),
        Ok(geometry) => start_worker(
            runtime,
            config,
            DaemonInputRoutingConfig::from_desktop_geometry(geometry, edge_bindings),
            monitored,
            now,
        ),
    }
}

/// Start to read captured input, with no peer beyond any edge.
pub fn start_daemon_input_capture<P: PlatformAdapter, D>(
    runtime: &mut DaemonRuntime<P, D>,
    config: DaemonInputCaptureConfig,
    now: u64,
) -> (result: Result<DaemonInputCaptureWorker, PlatformError>)
    ensures
        only_asked(*old(runtime), *final(runtime)),
        starts_over_desktop(
            old(runtime).platform,
            old(runtime).state@.mode,
            config,
            Seq::empty(),
            false,
            now,
            result,
            final(runtime).platform,
        ),
{
    let edge_bindings: Vec<ScreenEdgeBinding> = Vec::new();
    proof {
        assert(edge_bindings@ =~= Seq::empty());
    }
    start_worker_over_desktop(runtime, config, edge_bindings, false, now)
}

/// Start to read captured input, with peers beyond the edges of the desktop.
pub fn start_daemon_input_capture_with_edge_bindings<P: PlatformAdapter, D>(
    runtime: &mut DaemonRuntime<P, D>,
    config: DaemonInputCaptureConfig,
    edge_bindings: Vec<ScreenEdgeBinding>,
    now: u64,
) -> (result: Result<DaemonInputCaptureWorker, PlatformError>)
    ensures
        only_asked(*old(runtime), *final(runtime)),
        starts_over_desktop(
            old(runtime).platform,
            old(runtime).state@.mode,
            config,
            edge_bindings@,
            false,
            now,
            result,
            final(runtime).platform,
        ),
{
    start_worker_over_desktop(runtime, config, edge_bindings, false, now)
}

/// Start to read captured input, with peers beyond the edges of the desktop, and look after
/// permissions and screens meanwhile.
pub fn start_monitored_daemon_input_capture_with_edge_bindings_dispatcher_and_logs<
    P: PlatformAdapter,
    D,
>(
    runtime: &mut DaemonRuntime<P, D>,
    config: DaemonInputCaptureConfig,
    edge_bindings: Vec<ScreenEdgeBinding>,
    now: u64,
) -> (result: Result<DaemonInputCaptureWorker, PlatformError>)
    ensures
        only_asked(*old(runtime), *final(runtime)),
        starts_over_desktop(
            old(runtime).platform,
            old(runtime).state@.mode,
            config,
            edge_bindings@,
            true,
            now,
            result,
            final(runtime).platform,
        ),
{
    start_worker_over_desktop(runtime, config, edge_bindings, true, now)
}

/// Start to read captured input with a routing of its own.
pub fn start_daemon_input_capture_with_routing<P: PlatformAdapter, D>(
    runtime: &mut DaemonRuntime<P, D>,
    config: DaemonInputCaptureConfig,
    routing: DaemonInputRoutingConfig,
    now: u64,
) -> (result: Result<DaemonInputCaptureWorker, PlatformError>)
    ensures
        only_asked(*old(runtime), *final(runtime)),
        starts_with_routing(
            old(runtime).platform,
            old(runtime).state@.mode,
            config,
            routing.screen_layout.local_bounds,
            routing.screen_layout.edge_bindings@,
            routing.initial_pointer,
            false,
            now,
            result,
            final(runtime).platform,
        ),
{
    start_worker(runtime, config, routing, false, now)
}

/// While control is here, the pointer that is followed moves by just the distance that was captured,
/// to either side, up and down; nothing else of the router changes.
pub proof fn pointer_follows_every_move(
    state: crate::runtime::RuntimeModel,
    router: RouterModel,
    delta_x: i32,
    delta_y: i32,
)
    requires
        state.mode == ControlMode::Local,
    ensures
        ({
            let after = routed(
                state,
                router,
                CapturedInputEvent::PointerMoved { delta_x, delta_y },
            );
            &&& i32::MIN <= router.pointer.x + delta_x <= i32::MAX ==> after.router.pointer.x
                - router.pointer.x == delta_x
            &&& i32::MIN <= router.pointer.y + delta_y <= i32::MAX ==> after.router.pointer.y
                - router.pointer.y == delta_y
            &&& router.pointer.x + delta_x > i32::MAX ==> after.router.pointer.x == i32::MAX
            &&& router.pointer.x + delta_x < i32::MIN ==> after.router.pointer.x == i32::MIN
            &&& router.pointer.y + delta_y > i32::MAX ==> after.router.pointer.y == i32::MAX
            &&& router.pointer.y + delta_y < i32::MIN ==> after.router.pointer.y == i32::MIN
            &&& after.state.last_local_pointer == Some(after.router.pointer)
            &&& after.router.bounds == router.bounds
            &&& after.router.bindings == router.bindings
            &&& after.state.pressed_keys == state.pressed_keys
        }),
{
}

/// A move and the opposite move, neither of which crosses to a peer, leave the pointer where it was.
pub proof fn opposite_moves_cancel_out(
    state: crate::runtime::RuntimeModel,
    router: RouterModel,
    delta_x: i32,
    delta_y: i32,
    back_x: i32,
    back_y: i32,
)
    requires
        state.mode == ControlMode::Local,
        i32::MIN <= router.pointer.x + delta_x <= i32::MAX,
        i32::MIN <= router.pointer.y + delta_y <= i32::MAX,
        delta_x + back_x == 0,
        delta_y + back_y == 0,
        routed(
            state,
            router,
            CapturedInputEvent::PointerMoved { delta_x, delta_y },
        ).state.mode == ControlMode::Local,
    ensures
        ({
            let there = routed(
                state,
                router,
                CapturedInputEvent::PointerMoved { delta_x, delta_y },
            );
            let back = routed(
                there.state,
                there.router,
                CapturedInputEvent::PointerMoved { delta_x: back_x, delta_y: back_y },
            );
            &&& back.router == router
            &&& back.state.last_local_pointer == Some(router.pointer)
        }),
{
}

/// A captured move asks for a peer just where it takes the pointer over an edge that is bound, and then
/// for a peer that the edge is bound to; a move that stays on the desktop asks for nothing.
pub proof fn a_move_over_a_bound_edge_asks_for_its_peer(
    state: crate::runtime::RuntimeModel,
    router: RouterModel,
    delta_x: i32,
    delta_y: i32,
)
    requires
        state.mode == ControlMode::Local,
    ensures
        ({
            let after = routed(
                state,
                router,
                CapturedInputEvent::PointerMoved { delta_x, delta_y },
            );
            &&& (after.state.mode == ControlMode::EnteringRemote) <==> exists|i: int|
                0 <= i < router.bindings.len() && crate::runtime::has_left_over(
                    router.bounds,
                    after.router.pointer,
                    (#[trigger] router.bindings[i]).local_edge,
                )
            &&& after.state.mode != ControlMode::EnteringRemote ==> after.state.mode
                == ControlMode::Local && after.actions.len() == 0
            &&& after.state.mode == ControlMode::EnteringRemote ==> {
                &&& after.actions.len() == 1
                &&& after.actions[0] is StartRemoteSession
                &&& after.state.pending_peer_id == Some(
                    after.actions[0]->StartRemoteSession_peer_id,
                )
                &&& exists|i: int|
                    0 <= i < router.bindings.len() && crate::runtime::has_left_over(
                        router.bounds,
                        after.router.pointer,
                        (#[trigger] router.bindings[i]).local_edge,
                    ) && router.bindings[i].peer_id
                        == after.actions[0]->StartRemoteSession_peer_id
                        && after.actions[0]->crossing is Some
                        && after.actions[0]->crossing->Some_0.remote_edge
                        == router.bindings[i].remote_edge
                        && after.actions[0]->crossing->Some_0.local_edge
                        == router.bindings[i].local_edge
                        && after.actions[0]->crossing->Some_0.exit_position
                        == after.router.pointer
            }
        }),
{
    let next = moved_pointer(router.pointer, delta_x, delta_y);
    crate::runtime::a_crossing_follows_a_binding(router.bounds, router.bindings, next);
}

/// What is captured while control is not here leaves the router alone, and does to the state machine
/// what input does.
pub proof fn only_local_moves_are_followed(
    state: crate::runtime::RuntimeModel,
    router: RouterModel,
    event: CapturedInputEvent,
)
    requires
        state.mode != ControlMode::Local || !(event is PointerMoved),
    ensures
        routed(state, router, event).router == router,
        crate::runtime::transition(state, RuntimeEvent::Input(event)) == Ok::<
            (crate::runtime::RuntimeModel, Seq<CoreAction>),
            CoreTransitionError,
        >((routed(state, router, event).state, routed(state, router, event).actions)),
{
}

/// While control is remote, captured events reach the peer one by one, in the order in which they were
/// captured and as they were captured, unless one of them may be the hotkey.
pub proof fn captured_events_reach_the_peer_in_order(
    state: crate::runtime::RuntimeModel,
    router: RouterModel,
    events: Seq<CapturedInputEvent>,
)
    requires
        state.mode == ControlMode::Remote,
        forall|i: int|
            0 <= i < events.len() ==> !((#[trigger] events[i]) matches CapturedInputEvent::Key {
                key: crate::runtime::PhysicalKey::Code(code),
                ..
            } && code == 1),
    ensures
        ({
            let after = all_routed(state, router, events);
            &&& after.state.mode == ControlMode::Remote
            &&& after.state.session_id == state.session_id
            &&& after.router == router
            &&& after.actions.len() == events.len()
            &&& forall|i: int|
                0 <= i < events.len() ==> (#[trigger] after.actions[i]) is ForwardInput
                    && crate::runtime::is_same_input(events[i], after.actions[i]->event)
        }),
        ({
            let after = inputs_applied(state, events);
            &&& after.0.mode == ControlMode::Remote
            &&& after.1.len() == events.len()
            &&& forall|i: int|
                0 <= i < events.len() ==> (#[trigger] after.1[i]) is ForwardInput
                    && crate::runtime::is_same_input(events[i], after.1[i]->event)
        }),
    decreases events.len(),
{
    if events.len() > 0 {
        let earlier = events.drop_last();
        assert forall|i: int| 0 <= i < earlier.len() implies !((
        #[trigger] earlier[i]) matches CapturedInputEvent::Key {
            key: crate::runtime::PhysicalKey::Code(code),
            ..
        } && code == 1) by {
            assert(earlier[i] == events[i]);
        }
        captured_events_reach_the_peer_in_order(state, router, earlier);
        assert(events[events.len() - 1] == events.last());
        crate::runtime::captured_input_is_forwarded_unchanged(
            all_routed(state, router, earlier).state,
            events.last(),
        );
        crate::runtime::captured_input_is_forwarded_unchanged(
            inputs_applied(state, earlier).0,
            events.last(),
        );
    }
}

/// Events that are taken in two batches do what they do in one.
pub proof fn batches_may_be_split(
    state: crate::runtime::RuntimeModel,
    router: RouterModel,
    first: Seq<CapturedInputEvent>,
    later: Seq<CapturedInputEvent>,
)
    ensures
        ({
            let half = all_routed(state, router, first);
            let rest = all_routed(half.state, half.router, later);
            let whole = all_routed(state, router, first + later);
            &&& whole.state == rest.state
            &&& whole.router == rest.router
            &&& whole.actions == half.actions + rest.actions
        }),
    decreases later.len(),
{
    let half = all_routed(state, router, first);
    if later.len() == 0 {
        assert(first + later =~= first);
        assert(half.actions + Seq::<CoreAction>::empty() =~= half.actions);
    } else {
        batches_may_be_split(state, router, first, later.drop_last());
        assert((first + later).drop_last() =~= first + later.drop_last());
        let shorter = all_routed(half.state, half.router, later.drop_last());
        let last = routed(shorter.state, shorter.router, later.last());
        assert((half.actions + shorter.actions) + last.actions =~= half.actions + (
        shorter.actions + last.actions));
    }
}

/// What is taken from a queue and what stays in it make up the queue; as much is taken as was asked for,
/// or all there is.
pub proof fn a_batch_and_the_rest_make_up_the_queue<A>(items: Seq<A>, count: nat)
    ensures
        first_of(items, count) + rest_of(items, count) == items,
        first_of(items, count).len() == count || (rest_of(items, count).len() == 0 && items.len()
            < count),
{
    assert(first_of(items, count) + rest_of(items, count) =~= items);
}

/// A worker takes at least one event at once, never waits without a pause, and reports that nothing
/// comes after eighty pauses.
pub proof fn capture_settings_are_bounded(config: DaemonInputCaptureConfig)
    ensures
        config.batch_size() >= 1,
        config.drain_batch_size >= 1 ==> config.batch_size() == config.drain_batch_size,
        config.poll_interval() > 0,
        config.idle_poll_interval > 0 ==> config.poll_interval() == config.idle_poll_interval,
        config.idle_poll_interval == 0 ==> config.poll_interval() == 25_000_000,
        80 * config.poll_interval() <= u64::MAX ==> config.watchdog_timeout() == 80
            * config.poll_interval(),
        80 * config.poll_interval() > u64::MAX ==> config.watchdog_timeout() == u64::MAX,
{
}

/// A gap between two polls is noticed where it is as long as the longest that is allowed, and each poll
/// starts a new one.
pub proof fn a_long_gap_is_noticed(watchdog: PowerResumeWatchdog, now: u64, later: u64)
    requires
        watchdog.last_poll_at <= now <= later,
    ensures
        watchdog.is_late(now) <==> now - watchdog.last_poll_at >= watchdog.max_poll_gap,
        watchdog.polled(now).is_late(later) <==> later - now >= watchdog.max_poll_gap,
{
}

/// A look at the screens is due at once and then each time that the interval has passed since the last
/// one; a poll in between does not put it off.
pub proof fn looks_come_at_intervals(poll_interval: u64, start: u64, now: u64, later: u64)
    requires
        poll_interval <= start <= now <= later,
    ensures
        ({
            let fresh = RuntimeEnvironmentWatchdog::fresh(poll_interval, start);
            let looked = fresh.polled(now);
            &&& fresh.is_due(now)
            &&& fresh.permissions_available
            &&& looked.is_due(later) <==> later - now >= poll_interval
            &&& !looked.is_due(later) ==> looked.polled(later) == looked
            &&& looked.permissions_available
        }),
{
}

/// Nothing is reported as long as input comes within the timeout, and something is once it has passed.
pub proof fn idleness_is_a_timeout_without_input(
    watchdog: InputCaptureIdleWatchdog,
    input_at: u64,
    now: u64,
)
    requires
        input_at <= now,
    ensures
        watchdog.progressed(input_at).is_idle(now) <==> now - input_at >= watchdog.idle_timeout,
        watchdog.idled(now).last_progress_at == watchdog.last_progress_at,
        watchdog.idled(now).idle_timeout == watchdog.idle_timeout,
{
}

/// Screens that lie differently than before take control back, and the pointer is followed over the new
/// desktop from where it is there; the peers beyond the edges stay. The same screens change nothing.
pub proof fn changed_screens_take_control_back<P: PlatformAdapter, D: CoreActionDispatcher>(
    before: SceneModel<P, D>,
    geometry: DesktopGeometry,
    result: Result<(), PlatformError>,
    after: SceneModel<P, D>,
)
    requires
        layout_answered(before, Ok::<DesktopGeometry, PlatformError>(geometry), result, after),
    ensures
        after.router.bindings == before.router.bindings,
        after.state.pressed_keys == before.state.pressed_keys,
        geometry.virtual_screen_bounds != before.router.bounds ==> {
            &&& after.state.mode == ControlMode::Local
            &&& after.state.session_id is None
            &&& after.state.pending_peer_id is None
            &&& result is Ok ==> after.router.bounds == geometry.virtual_screen_bounds
                && after.router.pointer == geometry.pointer_position
        },
        geometry.virtual_screen_bounds == before.router.bounds ==> {
            &&& result is Ok
            &&& after.state == before.state
            &&& after.dispatcher == before.dispatcher
            &&& after.logs == before.logs
            &&& after.router == before.router
        },
{
}

/// Losing any permission that input needs takes control back, once; while all of them are there, and
/// while they stay lost, nothing happens.
pub proof fn lost_permissions_take_control_back<P: PlatformAdapter, D: CoreActionDispatcher>(
    before: SceneModel<P, D>,
    watchdog: RuntimeEnvironmentWatchdog,
    capabilities: PlatformCapabilities,
    result: Result<(), PlatformError>,
    after: SceneModel<P, D>,
    next: RuntimeEnvironmentWatchdog,
)
    requires
        permissions_answered(
            before,
            watchdog,
            Ok::<PlatformCapabilities, PlatformError>(capabilities),
            result,
            after,
            next,
        ),
    ensures
        next.permissions_available <==> !(!capabilities.can_capture_pointer
            || !capabilities.can_capture_keyboard || !capabilities.can_inject_pointer
            || !capabilities.can_inject_keyboard),
        next.poll_interval == watchdog.poll_interval && next.last_poll_at == watchdog.last_poll_at,
        after.router == before.router,
        watchdog.permissions_available && !next.permissions_available ==> {
            &&& after.state.mode == ControlMode::Local
            &&& after.state.session_id is None
            &&& after.state.pending_peer_id is None
        },
        !watchdog.permissions_available || next.permissions_available ==> {
            &&& result is Ok
            &&& after.state == before.state
            &&& after.dispatcher == before.dispatcher
            &&& after.logs == before.logs
        },
{
}

/// A poll after a long gap finds control here, whether or not the peer could be told; one in time does
/// not change where control is.
pub proof fn waking_up_takes_control_back<P: PlatformAdapter, D: CoreActionDispatcher>(
    before: CaptureModel<P, D>,
    now: u64,
    result: Result<(), PlatformError>,
    after: CaptureModel<P, D>,
)
    requires
        resumed_if_late(before, now, result, after),
        before.power.last_poll_at <= now,
    ensures
        after.power.last_poll_at == now,
        after.waiting == before.waiting,
        now - before.power.last_poll_at >= before.power.max_poll_gap ==> {
            &&& after.scene.state.mode == ControlMode::Local
            &&& after.scene.state.session_id is None
            &&& after.scene.router == before.scene.router
        },
        now - before.power.last_poll_at < before.power.max_poll_gap ==> result is Ok && after.scene
            == before.scene,
{
}

/// Captured input is held back from this computer after every poll that succeeds and leaves control
/// with a peer, and only then.
pub proof fn input_is_held_back_while_control_is_remote<
    P: PlatformAdapter,
    D: CoreActionDispatcher,
>(
    before: CaptureModel<P, D>,
    batch: nat,
    poll: CapturePoll,
    now: u64,
    after: CaptureModel<P, D>,
)
    requires
        polled(before, batch, poll, now, Ok::<(), PlatformError>(()), after),
        !(poll is Disconnected),
    ensures
        after.policy is ConsumeCapturedInput <==> after.scene.state.mode is Remote,
        after.policy is PassThrough <==> !(after.scene.state.mode is Remote),
{
    policy_follows_the_control_mode(before, batch, poll, now, after);
}

/// A worker starts with the events that the platform has captured, over the desktop and with the peers
/// that it was given, with the pointer where it is, and with no time lost.
pub proof fn a_worker_starts_where_the_pointer_is<P: PlatformAdapter>(
    before: P,
    mode: ControlMode,
    config: DaemonInputCaptureConfig,
    bindings: Seq<ScreenEdgeBinding>,
    monitored: bool,
    now: u64,
    worker: DaemonInputCaptureWorker,
    after: P,
)
    requires
        starts_over_desktop(
            before,
            mode,
            config,
            bindings,
            monitored,
            now,
            Ok::<DaemonInputCaptureWorker, PlatformError>(worker),
            after,
        ),
    ensures
        exists|geometry: DesktopGeometry, session: InputCaptureSession, mid: P| #[trigger]
            P::answers(
                before,
                PlatformCall::ReadDesktopGeometry {
                    geometry: Ok::<DesktopGeometry, PlatformError>(geometry),
                },
                mid,
            ) && #[trigger] P::answers(
                mid,
                PlatformCall::StartInputCapture {
                    config: config.input_capture,
                    capture: Ok::<InputCaptureSession, PlatformError>(session),
                },
                after,
            ) && worker.router.screen_layout.local_bounds == geometry.virtual_screen_bounds
                && worker.router.screen_layout.edge_bindings@ == bindings
                && worker.router.current_pointer == geometry.pointer_position
                && worker.capture.waiting() == session.waiting(),
        worker.config == config,
        worker.capture.spec_policy() is ConsumeCapturedInput <==> mode is Remote,
        worker.power_resume_watchdog.last_poll_at == now,
        worker.power_resume_watchdog.max_poll_gap == 5_000_000_000,
        worker.idle_watchdog.last_progress_at == now,
        !worker.idle_watchdog.idle_reported,
        worker.environment is Some <==> monitored,
        monitored ==> worker.environment->Some_0.poll_interval == 250_000_000,
{
    let (answer, mid) = choose|answer: Result<DesktopGeometry, PlatformError>, mid: P| #[trigger]
        P::answers(before, PlatformCall::ReadDesktopGeometry { geometry: answer }, mid)
            && match answer {
            Err(error) => after == mid && Ok::<DaemonInputCaptureWorker, PlatformError>(worker)
                == Err::<DaemonInputCaptureWorker, PlatformError>(error),
            Ok(geometry) => starts_with_routing(
                mid,
                mode,
                config,
                geometry.virtual_screen_bounds,
                bindings,
                geometry.pointer_position,
                monitored,
                now,
                Ok::<DaemonInputCaptureWorker, PlatformError>(worker),
                after,
            ),
        };
    let geometry = answer->Ok_0;
    assert(answer == Ok::<DesktopGeometry, PlatformError>(geometry));
    let started = choose|started: Result<InputCaptureSession, PlatformError>| #[trigger]
        P::answers(
            mid,
            PlatformCall::StartInputCapture { config: config.input_capture, capture: started },
            after,
        ) && match started {
            Err(error) => Ok::<DaemonInputCaptureWorker, PlatformError>(worker) == Err::<
                DaemonInputCaptureWorker,
                PlatformError,
            >(error),
            Ok(session) => is_fresh_worker(
                worker,
                mode,
                config,
                session,
                geometry.virtual_screen_bounds,
                bindings,
                geometry.pointer_position,
                monitored,
                now,
            ),
        };
    assert(started == Ok::<InputCaptureSession, PlatformError>(started->Ok_0));
}

/// While control is here, a captured move takes the pointer that is followed just as far as it was moved,
/// in every direction, and the moved pointer is remembered. Input of any other kind leaves the pointer
/// where it is.
pub proof fn a_captured_move_moves_the_pointer(
    state: &mut RuntimeInputState,
    router: &mut CapturedInputRouter,
    event: CapturedInputEvent,
    result: Result<Vec<CoreAction>, CoreTransitionError>,
)
    requires
        call_ensures(apply_routed_capture_event_to_state, (state, router, event), result),
    ensures
        result is Ok,
        old(state)@.mode is Local ==> (event matches CapturedInputEvent::PointerMoved {
            delta_x,
            delta_y,
        } ==> {
            let from = old(router).current_pointer;
            let to = final(router).current_pointer;
            &&& i32::MIN <= from.x + delta_x <= i32::MAX ==> to.x - from.x == delta_x
            &&& i32::MIN <= from.y + delta_y <= i32::MAX ==> to.y - from.y == delta_y
            &&& final(state)@.last_local_pointer == Some(to)
        }),
        !(old(state)@.mode is Local) || !(event is PointerMoved) ==> final(router).current_pointer
            == old(router).current_pointer,
        final(router).screen_layout.local_bounds == old(router).screen_layout.local_bounds,
        final(router).screen_layout.edge_bindings@ == old(router).screen_layout.edge_bindings@,
{
    if let CapturedInputEvent::PointerMoved { delta_x, delta_y } = event {
        if old(state)@.mode is Local {
            pointer_follows_every_move(old(state)@, old(router)@, delta_x, delta_y);
        }
    }
}

/// What the daemon's router makes of an event is what the state machine's does.
pub proof fn routing_does_the_same_for_the_daemon(
    state: &mut RuntimeInputState,
    router: &mut CapturedInputRouter,
    event: CapturedInputEvent,
    result: Result<Vec<CoreAction>, PlatformError>,
    other_state: &mut RuntimeInputState,
    other_router: &mut CapturedInputRouter,
    other: Result<Vec<CoreAction>, CoreTransitionError>,
)
    requires
        call_ensures(apply_routed_capture_event, (state, router, event), result),
        call_ensures(
            apply_routed_capture_event_to_state,
            (other_state, other_router, event),
            other,
        ),
        old(other_state)@ == old(state)@,
        old(other_router)@ == old(router)@,
    ensures
        result is Ok,
        result->Ok_0@ == other->Ok_0@,
        final(state)@ == final(other_state)@,
        final(router)@ == final(other_router)@,
{
}

/// While control is with a peer, what is captured is forwarded as it was captured: one action for one
/// event, unless it may be the hotkey.
pub proof fn a_captured_event_is_forwarded_to_the_peer(
    state: &mut RuntimeInputState,
    router: &mut CapturedInputRouter,
    event: CapturedInputEvent,
    result: Result<Vec<CoreAction>, CoreTransitionError>,
)
    requires
        call_ensures(apply_routed_capture_event_to_state, (state, router, event), result),
        old(state)@.mode is Remote,
        !(event matches CapturedInputEvent::Key { key: crate::runtime::PhysicalKey::Code(code), .. }
            && code == 1),
    ensures
        result is Ok,
        result->Ok_0@.len() == 1,
        result->Ok_0@[0] is ForwardInput,
        crate::runtime::is_same_input(event, result->Ok_0@[0]->event),
        final(state)@.mode is Remote,
{
    crate::runtime::captured_input_is_forwarded_unchanged(old(state)@, event);
}

/// As many waiting events are taken as may be, the oldest first, and the rest stay. While control is
/// with a peer each of those that were taken is forwarded, in order, unless one may be the hotkey.
pub proof fn waiting_events_are_forwarded_in_order(
    state: &mut RuntimeInputState,
    capture: &mut InputCaptureSession,
    router: &mut CapturedInputRouter,
    max_events: usize,
    result: Result<Vec<CoreAction>, PlatformError>,
)
    requires
        call_ensures(drain_ready_capture_events, (state, capture, router, max_events), result),
        old(state)@.mode is Remote,
        forall|i: int|
            0 <= i < old(capture).waiting().len() ==> !((
            #[trigger] old(capture).waiting()[i]) matches CapturedInputEvent::Key {
                key: crate::runtime::PhysicalKey::Code(code),
                ..
            } && code == 1),
    ensures
        result is Ok,
        ({
            let waiting = old(capture).waiting();
            let taken = result->Ok_0@.len();
            &&& taken == max_events || taken == waiting.len()
            &&& taken <= max_events && taken <= waiting.len()
            &&& final(capture).waiting() == waiting.subrange(taken as int, waiting.len() as int)
            &&& forall|i: int|
                0 <= i < taken ==> (#[trigger] result->Ok_0@[i]) is ForwardInput
                    && crate::runtime::is_same_input(waiting[i], result->Ok_0@[i]->event)
        }),
        final(capture).spec_policy() == old(capture).spec_policy(),
{
    let waiting = old(capture).waiting();
    let first = first_of(waiting, max_events as nat);
    a_batch_and_the_rest_make_up_the_queue(waiting, max_events as nat);
    assert forall|i: int| 0 <= i < first.len() implies !((
    #[trigger] first[i]) matches CapturedInputEvent::Key {
        key: crate::runtime::PhysicalKey::Code(code),
        ..
    } && code == 1) by {
        assert(first[i] == waiting[i]);
    }
    captured_events_reach_the_peer_in_order(old(state)@, old(router)@, first);
    let taken = result->Ok_0@.len();
    assert(final(capture).waiting() =~= waiting.subrange(taken as int, waiting.len() as int));
    assert forall|i: int| 0 <= i < taken implies (#[trigger] result->Ok_0@[i]) is ForwardInput
        && crate::runtime::is_same_input(waiting[i], result->Ok_0@[i]->event) by {
        assert(first[i] == waiting[i]);
    }
}

/// Without a router too, the oldest waiting events are taken and forwarded in order.
pub proof fn drained_events_are_forwarded_in_order(
    state: &mut RuntimeInputState,
    capture: &mut InputCaptureSession,
    max_events: usize,
    result: Result<Vec<CoreAction>, CoreTransitionError>,
    router: RouterModel,
)
    requires
        call_ensures(drain_capture_events, (state, capture, max_events), result),
        old(state)@.mode is Remote,
        forall|i: int|
            0 <= i < old(capture).waiting().len() ==> !((
            #[trigger] old(capture).waiting()[i]) matches CapturedInputEvent::Key {
                key: crate::runtime::PhysicalKey::Code(code),
                ..
            } && code == 1),
    ensures
        result is Ok,
        ({
            let waiting = old(capture).waiting();
            let taken = result->Ok_0@.len();
            &&& taken == max_events || taken == waiting.len()
            &&& taken <= max_events && taken <= waiting.len()
            &&& final(capture).waiting() == waiting.subrange(taken as int, waiting.len() as int)
            &&& forall|i: int|
                0 <= i < taken ==> (#[trigger] result->Ok_0@[i]) is ForwardInput
                    && crate::runtime::is_same_input(waiting[i], result->Ok_0@[i]->event)
        }),
{
    let waiting = old(capture).waiting();
    let first = first_of(waiting, max_events as nat);
    a_batch_and_the_rest_make_up_the_queue(waiting, max_events as nat);
    assert forall|i: int| 0 <= i < first.len() implies !((
    #[trigger] first[i]) matches CapturedInputEvent::Key {
        key: crate::runtime::PhysicalKey::Code(code),
        ..
    } && code == 1) by {
        assert(first[i] == waiting[i]);
    }
    captured_events_reach_the_peer_in_order(old(state)@, router, first);
    let taken = result->Ok_0@.len();
    assert(final(capture).waiting() =~= waiting.subrange(taken as int, waiting.len() as int));
    assert forall|i: int| 0 <= i < taken implies (#[trigger] result->Ok_0@[i]) is ForwardInput
        && crate::runtime::is_same_input(waiting[i], result->Ok_0@[i]->event) by {
        assert(first[i] == waiting[i]);
    }
}

/// A capture session holds input back just while control is with a peer, and loses none of what waits.
pub proof fn capture_follows_the_control_mode(
    capture: &mut InputCaptureSession,
    state: RuntimeInputState,
)
    requires
        call_ensures(sync_capture_policy_with_state, (capture, &state), ()),
    ensures
        final(capture).spec_policy() is ConsumeCapturedInput <==> state@.mode is Remote,
        final(capture).waiting() == old(capture).waiting(),
{
}

/// The watchdogs notice a gap, an interval and idleness when the time has passed, and losing permissions
/// when they were there before.
pub proof fn watchdogs_notice_when_time_has_passed(
    power: &mut PowerResumeWatchdog,
    late: bool,
    environment: &mut RuntimeEnvironmentWatchdog,
    due: bool,
    permissions: &mut RuntimeEnvironmentWatchdog,
    available: bool,
    lost: bool,
    idle: &mut InputCaptureIdleWatchdog,
    idled: Option<CoreAction>,
    progress: &mut InputCaptureIdleWatchdog,
    now: u64,
)
    requires
        call_ensures(PowerResumeWatchdog::record_poll, (power, now), late),
        call_ensures(RuntimeEnvironmentWatchdog::record_poll, (environment, now), due),
        call_ensures(
            RuntimeEnvironmentWatchdog::record_permissions_available,
            (permissions, available),
            lost,
        ),
        call_ensures(InputCaptureIdleWatchdog::record_idle_poll, (idle, now), idled),
        call_ensures(InputCaptureIdleWatchdog::record_progress, (progress, now), ()),
        old(power).last_poll_at <= now,
        old(environment).last_poll_at <= now,
        old(idle).last_progress_at <= now,
    ensures
        late <==> now - old(power).last_poll_at >= old(power).max_poll_gap,
        final(power).last_poll_at == now,
        final(power).max_poll_gap == old(power).max_poll_gap,
        due <==> now - old(environment).last_poll_at >= old(environment).poll_interval,
        due ==> final(environment).last_poll_at == now,
        !due ==> final(environment).last_poll_at == old(environment).last_poll_at,
        lost <==> old(permissions).permissions_available && !available,
        final(permissions).permissions_available == available,
        idled is Some ==> idled->Some_0 is InputCaptureIdle,
        idled is Some ==> now - old(idle).last_progress_at >= old(idle).idle_timeout,
        final(idle).last_progress_at == old(idle).last_progress_at,
        final(progress).last_progress_at == now,
        final(progress).idle_timeout == old(progress).idle_timeout,
{
}

/// Input needs every permission: to capture and to inject, for the pointer and for the keyboard.
pub proof fn input_needs_every_permission(granted: PlatformCapabilities, available: bool)
    requires
        call_ensures(required_input_capabilities_available, (&granted,), available),
    ensures
        available <==> granted.can_capture_pointer && granted.can_capture_keyboard
            && granted.can_inject_pointer && granted.can_inject_keyboard,
{
}

/// The settings of a worker are bounded as they are used, and its desktop is the one that the platform
/// tells.
pub proof fn a_worker_is_set_up_as_told(
    config: DaemonInputCaptureConfig,
    batch: usize,
    interval: u64,
    timeout: u64,
    geometry: DesktopGeometry,
    edge_bindings: Vec<ScreenEdgeBinding>,
    routing: DaemonInputRoutingConfig,
)
    requires
        call_ensures(DaemonInputCaptureConfig::bounded_drain_batch_size, (config,), batch),
        call_ensures(DaemonInputCaptureConfig::bounded_idle_poll_interval, (config,), interval),
        call_ensures(DaemonInputCaptureConfig::bounded_idle_watchdog_timeout, (config,), timeout),
        call_ensures(
            DaemonInputRoutingConfig::from_desktop_geometry,
            (geometry, edge_bindings),
            routing,
        ),
    ensures
        batch >= 1,
        config.drain_batch_size >= 1 ==> batch == config.drain_batch_size,
        interval > 0,
        config.idle_poll_interval > 0 ==> interval == config.idle_poll_interval,
        80 * interval <= u64::MAX ==> timeout == 80 * interval,
        routing.screen_layout.local_bounds == geometry.virtual_screen_bounds,
        routing.screen_layout.edge_bindings@ == edge_bindings@,
        routing.initial_pointer == geometry.pointer_position,
{
}

/// That nothing comes is told to those who are to hear of it, and noted.
pub proof fn idleness_is_told_and_noted<D: CoreActionDispatcher>(
    dispatcher: &mut D,
    logs: &mut Option<DaemonLogBuffer>,
    action: CoreAction,
    result: Result<(), PlatformError>,
)
    requires
        call_ensures(
            dispatch_input_capture_idle_watchdog_action::<D>,
            (dispatcher, logs, action),
            result,
        ),
    ensures
        D::dispatches(*old(dispatcher), seq![action], result, *final(dispatcher)),
        crate::logs::is_noted(
            *old(logs),
            DaemonLogLevel::Warn,
            "input.capture.idle"@,
            "Input capture made no progress before the watchdog timeout."@,
            *final(logs),
        ),
{
}

/// A worker that is started sees the desktop as the platform tells it, with the pointer where it is and
/// the edges bound as was asked; input is held back from this computer just while control is remote.
pub proof fn a_started_worker_sees_the_desktop<P: PlatformAdapter, D>(
    runtime: &mut DaemonRuntime<P, D>,
    config: DaemonInputCaptureConfig,
    edge_bindings: Vec<ScreenEdgeBinding>,
    now: u64,
    result: Result<DaemonInputCaptureWorker, PlatformError>,
)
    requires
        call_ensures(
            start_daemon_input_capture_with_edge_bindings::<P, D>,
            (runtime, config, edge_bindings, now),
            result,
        ),
        result is Ok,
    ensures
        final(runtime).state == old(runtime).state,
        final(runtime).dispatcher == old(runtime).dispatcher,
        result->Ok_0.config == config,
        result->Ok_0.environment is None,
        result->Ok_0.router@.bindings == edge_bindings@,
        result->Ok_0.capture.spec_policy() is ConsumeCapturedInput
            <==> old(runtime).state@.mode is Remote,
        exists|geometry: DesktopGeometry, mid: P| #[trigger]
            P::answers(
                old(runtime).platform,
                PlatformCall::ReadDesktopGeometry {
                    geometry: Ok::<DesktopGeometry, PlatformError>(geometry),
                },
                mid,
            ) && result->Ok_0.router@.bounds == geometry.virtual_screen_bounds
                && result->Ok_0.router@.pointer == geometry.pointer_position,
{
    lemma_worker_over_desktop(
        old(runtime).platform,
        old(runtime).state@.mode,
        config,
        edge_bindings@,
        false,
        now,
        result,
        final(runtime).platform,
    );
}

/// A worker that watches over its surroundings is started like any other, and begins to watch at once.
pub proof fn a_watching_worker_sees_the_desktop<P: PlatformAdapter, D>(
    runtime: &mut DaemonRuntime<P, D>,
    config: DaemonInputCaptureConfig,
    edge_bindings: Vec<ScreenEdgeBinding>,
    now: u64,
    result: Result<DaemonInputCaptureWorker, PlatformError>,
)
    requires
        call_ensures(
            start_monitored_daemon_input_capture_with_edge_bindings_dispatcher_and_logs::<P, D>,
            (runtime, config, edge_bindings, now),
            result,
        ),
        result is Ok,
    ensures
        final(runtime).state == old(runtime).state,
        final(runtime).dispatcher == old(runtime).dispatcher,
        result->Ok_0.config == config,
        result->Ok_0.environment is Some,
        result->Ok_0.environment->Some_0.permissions_available,
        result->Ok_0.router@.bindings == edge_bindings@,
        result->Ok_0.capture.spec_policy() is ConsumeCapturedInput
            <==> old(runtime).state@.mode is Remote,
        exists|geometry: DesktopGeometry, mid: P| #[trigger]
            P::answers(
                old(runtime).platform,
                PlatformCall::ReadDesktopGeometry {
                    geometry: Ok::<DesktopGeometry, PlatformError>(geometry),
                },
                mid,
            ) && result->Ok_0.router@.bounds == geometry.virtual_screen_bounds
                && result->Ok_0.router@.pointer == geometry.pointer_position,
{
    lemma_worker_over_desktop(
        old(runtime).platform,
        old(runtime).state@.mode,
        config,
        edge_bindings@,
        true,
        now,
        result,
        final(runtime).platform,
    );
}

/// What a worker over the desktop has from the platform.
proof fn lemma_worker_over_desktop<P: PlatformAdapter>(
    before: P,
    mode: ControlMode,
    config: DaemonInputCaptureConfig,
    bindings: Seq<ScreenEdgeBinding>,
    monitored: bool,
    now: u64,
    result: Result<DaemonInputCaptureWorker, PlatformError>,
    after: P,
)
    requires
        starts_over_desktop(before, mode, config, bindings, monitored, now, result, after),
        result is Ok,
    ensures
        result->Ok_0.config == config,
        result->Ok_0.environment is Some <==> monitored,
        monitored ==> result->Ok_0.environment->Some_0.permissions_available,
        result->Ok_0.router@.bindings == bindings,
        result->Ok_0.capture.spec_policy() is ConsumeCapturedInput <==> mode is Remote,
        exists|geometry: DesktopGeometry, mid: P| #[trigger]
            P::answers(
                before,
                PlatformCall::ReadDesktopGeometry {
                    geometry: Ok::<DesktopGeometry, PlatformError>(geometry),
                },
                mid,
            ) && result->Ok_0.router@.bounds == geometry.virtual_screen_bounds
                && result->Ok_0.router@.pointer == geometry.pointer_position,
{
    let (answer, mid) = choose|answer: Result<DesktopGeometry, PlatformError>, mid: P| #[trigger]
        P::answers(before, PlatformCall::ReadDesktopGeometry { geometry: answer }, mid)
            && match answer {
            Err(error) => after == mid && result == Err::<DaemonInputCaptureWorker, PlatformError>(
                error,
            ),
            Ok(geometry) => starts_with_routing(
                mid,
                mode,
                config,
                geometry.virtual_screen_bounds,
                bindings,
                geometry.pointer_position,
                monitored,
                now,
                result,
                after,
            ),
        };
    assert(answer == Ok::<DesktopGeometry, PlatformError>(answer->Ok_0));
}

/// A worker goes on until there is nothing more to come, and whenever it is about to wait, input is held
/// back from this computer just while control is remote.
pub proof fn a_worker_goes_on_while_input_can_come<P: PlatformAdapter, D: CoreActionDispatcher>(
    worker: &mut DaemonInputCaptureWorker,
    runtime: &mut DaemonRuntime<P, D>,
    poll: CapturePoll,
    now: u64,
    result: Result<bool, PlatformError>,
)
    requires
        call_ensures(
            DaemonInputCaptureWorker::run_daemon_input_capture_worker::<P, D>,
            (worker, runtime, poll, now),
            result,
        ),
    ensures
        final(worker).config == old(worker).config,
        result matches Ok(more) ==> (more <==> !(poll is Disconnected)),
        poll is Disconnected ==> result is Ok && final(runtime).state@ == old(runtime).state@,
        result is Ok && !(poll is Disconnected) ==> (
        final(worker).capture.spec_policy() is ConsumeCapturedInput
            <==> final(runtime).state@.mode is Remote),
{
    let before = capture_model(*old(runtime), *old(worker));
    let after = capture_model(*final(runtime), *final(worker));
    let batch = old(worker).config.batch_size() as nat;
    if result is Ok && !(poll is Disconnected) {
        policy_follows_the_control_mode(before, batch, poll, now, after);
    }
}

} // verus!
