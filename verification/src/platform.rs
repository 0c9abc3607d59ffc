//! The boundary to the operating system's input devices and screens.

use vstd::prelude::*;

use crate::runtime::{
    CapturedInputEvent, ControlMode, InjectedInputEvent, LogicalPoint, LogicalRect, LogicalSize,
};

verus! {

/// A failure at the platform boundary, in words.
#[derive(Debug, PartialEq, Eq)]
pub struct PlatformError {
    pub message: String,
}

impl View for PlatformError {
    type V = Seq<char>;

    open spec fn view(&self) -> Seq<char> {
        self.message@
    }
}

impl PlatformError {
    pub fn new(message: &str) -> (result: Self)
        ensures
            result@ == message@,
    {
        PlatformError { message: message.to_owned() }
    }

    pub fn from_message(message: String) -> (result: Self)
        ensures
            result.message == message,
    {
        PlatformError { message }
    }

    /// The error in words.
    pub fn message(&self) -> (result: &str)
        ensures
            result@ == self@,
    {
        self.message.as_str()
    }
}

impl Clone for PlatformError {
    fn clone(&self) -> (result: Self)
        ensures
            result == *self,
    {
        PlatformError { message: self.message.clone() }
    }
}

/// What the platform lets this process do.
#[derive(Debug, Clone, Copy, PartialEq, Eq, Structural)]
pub struct PlatformCapabilities {
    pub can_capture_pointer: bool,
    pub can_capture_keyboard: bool,
    pub can_inject_pointer: bool,
    pub can_inject_keyboard: bool,
}

/// One monitor of the desktop.
#[derive(Debug, PartialEq, Eq)]
pub struct DesktopMonitor {
    pub id: String,
    pub bounds: LogicalRect,
    pub scale_factor_percent: Option<u16>,
    pub is_primary: bool,
}

impl Clone for DesktopMonitor {
    fn clone(&self) -> (result: Self)
        ensures
            result == *self,
    {
        DesktopMonitor {
            id: self.id.clone(),
            bounds: self.bounds,
            scale_factor_percent: self.scale_factor_percent,
            is_primary: self.is_primary,
        }
    }
}

/// Where the pointer is and how the screens lie.
#[derive(Debug, PartialEq, Eq)]
pub struct DesktopGeometry {
    pub pointer_position: LogicalPoint,
    pub virtual_screen_bounds: LogicalRect,
    pub monitors: Vec<DesktopMonitor>,
}

impl Clone for DesktopGeometry {
    fn clone(&self) -> (result: Self)
        ensures
            result.pointer_position == self.pointer_position,
            result.virtual_screen_bounds == self.virtual_screen_bounds,
            result.monitors@ == self.monitors@,
    {
        let mut monitors: Vec<DesktopMonitor> = Vec::new();
        let mut i: usize = 0;
        while i < self.monitors.len()
            invariant
                i <= self.monitors@.len(),
                monitors@ =~= self.monitors@.subrange(0, i as int),
            decreases self.monitors@.len() - i,
        {
            monitors.push(self.monitors[i].clone());
            i = i + 1;
        }
        proof {
            assert(self.monitors@.subrange(0, i as int) =~= self.monitors@);
        }
        DesktopGeometry {
            pointer_position: self.pointer_position,
            virtual_screen_bounds: self.virtual_screen_bounds,
            monitors,
        }
    }
}

/// The active keyboard layout.
#[derive(Debug, PartialEq, Eq)]
pub struct KeyboardLayoutSnapshot {
    pub source: String,
    pub layout_id: String,
    pub language_id: String,
    pub layout_name: Option<String>,
}

impl Clone for KeyboardLayoutSnapshot {
    fn clone(&self) -> (result: Self)
        ensures
            result == *self,
    {
        KeyboardLayoutSnapshot {
            source: self.source.clone(),
            layout_id: self.layout_id.clone(),
            language_id: self.language_id.clone(),
            layout_name: match &self.layout_name {
                Some(name) => Some(name.clone()),
                None => None,
            },
        }
    }
}

/// How much captured input the platform may hold back.
#[derive(Debug, Clone, Copy, PartialEq, Eq, Structural)]
pub struct InputCaptureConfig {
    pub event_buffer_capacity: usize,
}

/// Captured events kept while nobody reads them.
pub const DEFAULT_EVENT_BUFFER_CAPACITY: usize = 1024;

impl Default for InputCaptureConfig {
    fn default() -> (result: Self)
        ensures
            result.event_buffer_capacity == DEFAULT_EVENT_BUFFER_CAPACITY,
    {
        InputCaptureConfig { event_buffer_capacity: DEFAULT_EVENT_BUFFER_CAPACITY }
    }
}

/// Whether captured input still reaches this computer's applications.
#[derive(Debug, Clone, Copy, PartialEq, Eq, Structural)]
pub enum InputCapturePolicy {
    PassThrough,
    ConsumeCapturedInput,
}

/// The policy for a control mode: input is held back exactly while control is remote.
pub open spec fn capture_policy(mode: ControlMode) -> InputCapturePolicy {
    if mode == ControlMode::Remote {
        InputCapturePolicy::ConsumeCapturedInput
    } else {
        InputCapturePolicy::PassThrough
    }
}

/// The policy for a control mode.
pub fn input_capture_policy_for_control_mode(mode: ControlMode) -> (result: InputCapturePolicy)
    ensures
        result == capture_policy(mode),
{
    match mode {
        ControlMode::Remote => InputCapturePolicy::ConsumeCapturedInput,
        ControlMode::Local
        | ControlMode::EnteringRemote
        | ControlMode::LeavingRemote
        | ControlMode::Suspended => InputCapturePolicy::PassThrough,
    }
}

/// Captured events that wait to be read, and the policy in force.
#[derive(Debug)]
pub struct InputCaptureSession {
    waiting: Vec<CapturedInputEvent>,
    policy: InputCapturePolicy,
}

impl InputCaptureSession {
    /// The events that wait, oldest first.
    pub closed spec fn waiting(&self) -> Seq<CapturedInputEvent> {
        self.waiting@
    }

    pub closed spec fn spec_policy(&self) -> InputCapturePolicy {
        self.policy
    }

    /// A session with events that already wait; input passes through.
    pub fn new(waiting: Vec<CapturedInputEvent>) -> (result: Self)
        ensures
            result.waiting() == waiting@,
            result.spec_policy() == InputCapturePolicy::PassThrough,
    {
        InputCaptureSession { waiting, policy: InputCapturePolicy::PassThrough }
    }

    /// Add one event behind those that wait.
    pub fn deliver(&mut self, event: CapturedInputEvent)
        ensures
            final(self).waiting() == old(self).waiting().push(event),
            final(self).spec_policy() == old(self).spec_policy(),
    {
        self.waiting.push(event);
    }

    /// Take the oldest event, where one waits.
    pub fn try_recv(&mut self) -> (result: Option<CapturedInputEvent>)
        ensures
            final(self).spec_policy() == old(self).spec_policy(),
            match result {
                Some(event) => {
                    &&& old(self).waiting().len() > 0
                    &&& event == old(self).waiting()[0]
                    &&& final(self).waiting() == old(self).waiting().drop_first()
                },
                None => {
                    &&& old(self).waiting().len() == 0
                    &&& final(self).waiting() == old(self).waiting()
                },
            },
    {
        if self.waiting.len() == 0 {
            return None;
        }
        let event = self.waiting.remove(0);
        proof {
            assert(self.waiting@ =~= old(self).waiting@.drop_first());
        }
        Some(event)
    }

    pub fn set_policy(&mut self, policy: InputCapturePolicy)
        ensures
            final(self).spec_policy() == policy,
            final(self).waiting() == old(self).waiting(),
    {
        self.policy = policy;
    }

    pub fn policy(&self) -> (result: InputCapturePolicy)
        ensures
            result == self.spec_policy(),
    {
        self.policy
    }
}

/// One call across the platform boundary and its answer.
pub enum PlatformCall {
    ProbeCapabilities { capabilities: Result<PlatformCapabilities, PlatformError> },
    ReadDesktopGeometry { geometry: Result<DesktopGeometry, PlatformError> },
    ReadKeyboardLayout { layout: Result<KeyboardLayoutSnapshot, PlatformError> },
    InjectInput { event: InjectedInputEvent, injected: Result<(), PlatformError> },
    ReleaseAll { released: Result<(), PlatformError> },
    StartInputCapture {
        config: InputCaptureConfig,
        capture: Result<InputCaptureSession, PlatformError>,
    },
}

/// The operating system's input devices and screens.
pub trait PlatformAdapter: Sized {
    /// Whether a call may be answered so, and may leave this behind.
    open spec fn answers(before: Self, call: PlatformCall, after: Self) -> bool {
        true
    }

    /// Whether the adapter may go by a name.
    open spec fn is_named(&self, name: Seq<char>) -> bool {
        true
    }

    fn name(&self) -> (result: String)
        ensures
            self.is_named(result@),
    ;

    fn probe_capabilities(&mut self) -> (answer: Result<PlatformCapabilities, PlatformError>)
        ensures
            Self::answers(
                *old(self),
                PlatformCall::ProbeCapabilities { capabilities: answer },
                *final(self),
            ),
    ;

    fn read_desktop_geometry(&mut self) -> (answer: Result<DesktopGeometry, PlatformError>)
        ensures
            Self::answers(
                *old(self),
                PlatformCall::ReadDesktopGeometry { geometry: answer },
                *final(self),
            ),
    ;

    fn read_keyboard_layout(&mut self) -> (answer: Result<KeyboardLayoutSnapshot, PlatformError>)
        ensures
            Self::answers(
                *old(self),
                PlatformCall::ReadKeyboardLayout { layout: answer },
                *final(self),
            ),
    ;

    fn inject_input(&mut self, event: InjectedInputEvent) -> (answer: Result<(), PlatformError>)
        ensures
            Self::answers(
                *old(self),
                PlatformCall::InjectInput { event, injected: answer },
                *final(self),
            ),
    ;

    fn release_all(&mut self) -> (answer: Result<(), PlatformError>)
        ensures
            Self::answers(
                *old(self),
                PlatformCall::ReleaseAll { released: answer },
                *final(self),
            ),
    ;

    fn start_input_capture(&mut self, config: InputCaptureConfig) -> (answer: Result<
        InputCaptureSession,
        PlatformError,
    >)
        ensures
            Self::answers(
                *old(self),
                PlatformCall::StartInputCapture { config, capture: answer },
                *final(self),
            ),
    ;
}

/// Whether calls, one after the other, may lead from one state of a platform to another.
pub open spec fn carried<P: PlatformAdapter>(before: P, calls: Seq<PlatformCall>, after: P) -> bool
    decreases calls.len(),
{
    if calls.len() == 0 {
        after == before
    } else {
        exists|mid: P| #[trigger]
            P::answers(before, calls[0], mid) && carried(mid, calls.drop_first(), after)
    }
}

/// A call that was answered is a step of its own.
pub proof fn lemma_one_call<P: PlatformAdapter>(before: P, call: PlatformCall, after: P)
    requires
        P::answers(before, call, after),
    ensures
        carried(before, seq![call], after),
{
    assert(seq![call].drop_first() =~= Seq::<PlatformCall>::empty());
    assert(P::answers(before, seq![call][0], after));
    assert(carried(after, seq![call].drop_first(), after));
}

/// Calls may be followed by further calls.
pub proof fn lemma_carried_on<P: PlatformAdapter>(
    before: P,
    first: Seq<PlatformCall>,
    mid: P,
    rest: Seq<PlatformCall>,
    after: P,
)
    requires
        carried(before, first, mid),
        carried(mid, rest, after),
    ensures
        carried(before, first + rest, after),
    decreases first.len(),
{
    if first.len() == 0 {
        assert(first + rest =~= rest);
    } else {
        let next = choose|next: P| #[trigger]
            P::answers(before, first[0], next) && carried(next, first.drop_first(), mid);
        lemma_carried_on(next, first.drop_first(), mid, rest, after);
        assert(P::answers(before, (first + rest)[0], next));
        assert((first + rest).drop_first() =~= first.drop_first() + rest);
    }
}

/// A platform in memory: it grants what it was made with, never fails, and counts what it is asked.
pub struct FakePlatformAdapter {
    capabilities: PlatformCapabilities,
    geometry: DesktopGeometry,
    keyboard_layout: KeyboardLayoutSnapshot,
    captured: Vec<CapturedInputEvent>,
    injected: Vec<InjectedInputEvent>,
    releases: u64,
}

/// Copy captured events.
fn copy_captured(events: &Vec<CapturedInputEvent>) -> (result: Vec<CapturedInputEvent>)
    ensures
        result@ == events@,
{
    let mut copies: Vec<CapturedInputEvent> = Vec::new();
    let mut i: usize = 0;
    while i < events.len()
        invariant
            i <= events@.len(),
            copies@ =~= events@.subrange(0, i as int),
        decreases events@.len() - i,
    {
        copies.push(events[i]);
        i = i + 1;
    }
    proof {
        assert(events@.subrange(0, i as int) =~= events@);
    }
    copies
}

impl FakePlatformAdapter {
    pub closed spec fn capabilities(&self) -> PlatformCapabilities {
        self.capabilities
    }

    pub closed spec fn geometry(&self) -> DesktopGeometry {
        self.geometry
    }

    pub closed spec fn keyboard_layout(&self) -> KeyboardLayoutSnapshot {
        self.keyboard_layout
    }

    /// The events that a capture session of this platform starts with.
    pub closed spec fn captured(&self) -> Seq<CapturedInputEvent> {
        self.captured@
    }

    /// The input acted out so far.
    pub closed spec fn injected(&self) -> Seq<InjectedInputEvent> {
        self.injected@
    }

    /// How often input was released.
    pub closed spec fn releases(&self) -> u64 {
        self.releases
    }

    /// A platform with these capabilities, one primary monitor and an unnamed keyboard.
    pub fn new(capabilities: PlatformCapabilities) -> (result: Self)
        ensures
            result.capabilities() == capabilities,
            result.captured() == Seq::<CapturedInputEvent>::empty(),
            result.injected() == Seq::<InjectedInputEvent>::empty(),
            result.releases() == 0,
    {
        let bounds = LogicalRect {
            origin: LogicalPoint { x: 0, y: 0 },
            size: LogicalSize { width: 1920, height: 1080 },
        };
        FakePlatformAdapter {
            capabilities,
            geometry: DesktopGeometry {
                pointer_position: LogicalPoint { x: 0, y: 0 },
                virtual_screen_bounds: bounds,
                monitors: vec![
                    DesktopMonitor {
                        id: "primary".to_owned(),
                        bounds,
                        scale_factor_percent: Some(100),
                        is_primary: true,
                    },
                ],
            },
            keyboard_layout: KeyboardLayoutSnapshot {
                source: "fake".to_owned(),
                layout_id: String::new(),
                language_id: String::new(),
                layout_name: None,
            },
            captured: Vec::new(),
            injected: Vec::new(),
            releases: 0,
        }
    }

    /// The same platform with another desktop.
    pub fn with_desktop_geometry(self, geometry: DesktopGeometry) -> (result: Self)
        ensures
            result.geometry() == geometry,
            result.capabilities() == self.capabilities(),
            result.keyboard_layout() == self.keyboard_layout(),
            result.captured() == self.captured(),
            result.injected() == self.injected(),
            result.releases() == self.releases(),
    {
        let mut platform = self;
        platform.geometry = geometry;
        platform
    }

    /// The same platform with another keyboard layout.
    pub fn with_keyboard_layout(self, keyboard_layout: KeyboardLayoutSnapshot) -> (result: Self)
        ensures
            result.keyboard_layout() == keyboard_layout,
            result.geometry() == self.geometry(),
            result.capabilities() == self.capabilities(),
            result.captured() == self.captured(),
            result.injected() == self.injected(),
            result.releases() == self.releases(),
    {
        let mut platform = self;
        platform.keyboard_layout = keyboard_layout;
        platform
    }

    /// The same platform with events that wait to be captured.
    pub fn with_captured_events(self, captured: Vec<CapturedInputEvent>) -> (result: Self)
        ensures
            result.captured() == captured@,
            result.geometry() == self.geometry(),
            result.keyboard_layout() == self.keyboard_layout(),
            result.capabilities() == self.capabilities(),
            result.injected() == self.injected(),
            result.releases() == self.releases(),
    {
        let mut platform = self;
        platform.captured = captured;
        platform
    }

    /// The input acted out so far.
    pub fn injected_events(&self) -> (result: Vec<InjectedInputEvent>)
        ensures
            result@ == self.injected(),
    {
        let mut events: Vec<InjectedInputEvent> = Vec::new();
        let mut i: usize = 0;
        while i < self.injected.len()
            invariant
                i <= self.injected@.len(),
                events@ =~= self.injected@.subrange(0, i as int),
            decreases self.injected@.len() - i,
        {
            events.push(self.injected[i]);
            i = i + 1;
        }
        proof {
            assert(self.injected@.subrange(0, i as int) =~= self.injected@);
        }
        events
    }

    /// How often input was released.
    pub fn release_all_count(&self) -> (result: u64)
        ensures
            result == self.releases(),
    {
        self.releases
    }
}

impl Default for FakePlatformAdapter {
    fn default() -> (result: Self)
        ensures
            result.capabilities() == (PlatformCapabilities {
                can_capture_pointer: true,
                can_capture_keyboard: true,
                can_inject_pointer: true,
                can_inject_keyboard: true,
            }),
            result.injected() == Seq::<InjectedInputEvent>::empty(),
            result.releases() == 0,
    {
        FakePlatformAdapter::new(
            PlatformCapabilities {
                can_capture_pointer: true,
                can_capture_keyboard: true,
                can_inject_pointer: true,
                can_inject_keyboard: true,
            },
        )
    }
}

impl Clone for FakePlatformAdapter {
    fn clone(&self) -> (result: Self)
        ensures
            result.capabilities() == self.capabilities(),
            result.geometry().pointer_position == self.geometry().pointer_position,
            result.geometry().virtual_screen_bounds == self.geometry().virtual_screen_bounds,
            result.geometry().monitors@ == self.geometry().monitors@,
            result.keyboard_layout() == self.keyboard_layout(),
            result.captured() == self.captured(),
            result.injected() == self.injected(),
            result.releases() == self.releases(),
    {
        FakePlatformAdapter {
            capabilities: self.capabilities,
            geometry: self.geometry.clone(),
            keyboard_layout: self.keyboard_layout.clone(),
            captured: copy_captured(&self.captured),
            injected: self.injected_events(),
            releases: self.releases,
        }
    }
}

impl FakePlatformAdapter {
    /// Whether this platform grants what another one does, and has been asked for as much.
    pub open spec fn is_like(&self, other: Self) -> bool {
        &&& self.grants_like(other)
        &&& self.injected() == other.injected()
        &&& self.releases() == other.releases()
    }

    /// Whether this platform grants what another one does.
    pub open spec fn grants_like(&self, other: Self) -> bool {
        &&& self.capabilities() == other.capabilities()
        &&& self.geometry() == other.geometry()
        &&& self.keyboard_layout() == other.keyboard_layout()
        &&& self.captured() == other.captured()
    }
}

impl PlatformAdapter for FakePlatformAdapter {
    open spec fn answers(before: Self, call: PlatformCall, after: Self) -> bool {
        match call {
            PlatformCall::ProbeCapabilities { capabilities } => {
                &&& capabilities == Ok::<PlatformCapabilities, PlatformError>(before.capabilities())
                &&& after.is_like(before)
            },
            PlatformCall::ReadDesktopGeometry { geometry } => {
                &&& geometry is Ok
                &&& geometry->Ok_0.pointer_position == before.geometry().pointer_position
                &&& geometry->Ok_0.virtual_screen_bounds == before.geometry().virtual_screen_bounds
                &&& geometry->Ok_0.monitors@ == before.geometry().monitors@
                &&& after.is_like(before)
            },
            PlatformCall::ReadKeyboardLayout { layout } => {
                &&& layout == Ok::<KeyboardLayoutSnapshot, PlatformError>(before.keyboard_layout())
                &&& after.is_like(before)
            },
            PlatformCall::InjectInput { event, injected } => {
                &&& injected is Ok
                &&& after.grants_like(before)
                &&& after.injected() == before.injected().push(event)
                &&& after.releases() == before.releases()
            },
            PlatformCall::ReleaseAll { released } => {
                &&& released is Ok
                &&& after.grants_like(before)
                &&& after.injected() == before.injected()
                &&& after.releases() == (if before.releases() < u64::MAX {
                    (before.releases() + 1) as u64
                } else {
                    u64::MAX
                })
            },
            PlatformCall::StartInputCapture { capture, .. } => {
                &&& capture is Ok
                &&& capture->Ok_0.waiting() == before.captured()
                &&& capture->Ok_0.spec_policy() == InputCapturePolicy::PassThrough
                &&& after.is_like(before)
            },
        }
    }

    open spec fn is_named(&self, name: Seq<char>) -> bool {
        name == "fake"@
    }

    fn name(&self) -> (result: String) {
        "fake".to_owned()
    }

    fn probe_capabilities(&mut self) -> (answer: Result<PlatformCapabilities, PlatformError>) {
        Ok(self.capabilities)
    }

    fn read_desktop_geometry(&mut self) -> (answer: Result<DesktopGeometry, PlatformError>) {
        Ok(self.geometry.clone())
    }

    fn read_keyboard_layout(&mut self) -> (answer: Result<KeyboardLayoutSnapshot, PlatformError>) {
        Ok(self.keyboard_layout.clone())
    }

    fn inject_input(&mut self, event: InjectedInputEvent) -> (answer: Result<(), PlatformError>) {
        self.injected.push(event);
        Ok(())
    }

    fn release_all(&mut self) -> (answer: Result<(), PlatformError>) {
        self.releases = self.releases.saturating_add(1);
        Ok(())
    }

    fn start_input_capture(&mut self, config: InputCaptureConfig) -> (answer: Result<
        InputCaptureSession,
        PlatformError,
    >) {
        Ok(InputCaptureSession::new(copy_captured(&self.captured)))
    }
}

/// The events that calls asked to act out, in order.
pub open spec fn injected_by(calls: Seq<PlatformCall>) -> Seq<InjectedInputEvent>
    decreases calls.len(),
{
    if calls.len() == 0 {
        Seq::empty()
    } else {
        match calls[0] {
            PlatformCall::InjectInput { event, .. } => seq![event] + injected_by(
                calls.drop_first(),
            ),
            _ => injected_by(calls.drop_first()),
        }
    }
}

/// How many of some calls asked to release everything.
pub open spec fn released_by(calls: Seq<PlatformCall>) -> nat
    decreases calls.len(),
{
    if calls.len() == 0 {
        0
    } else {
        released_by(calls.drop_first()) + if calls[0] is ReleaseAll {
            1nat
        } else {
            0nat
        }
    }
}

/// The platform in memory keeps every event that it was asked to act out, in order, counts how often
/// it was asked to release everything, and goes on granting the same.
pub proof fn fake_platform_keeps_account(
    before: FakePlatformAdapter,
    calls: Seq<PlatformCall>,
    after: FakePlatformAdapter,
)
    requires
        carried(before, calls, after),
    ensures
        after.grants_like(before),
        after.injected() == before.injected() + injected_by(calls),
        after.releases() == (if before.releases() + released_by(calls) < u64::MAX {
            before.releases() + released_by(calls)
        } else {
            u64::MAX as int
        }),
    decreases calls.len(),
{
    if calls.len() == 0 {
        assert(before.injected() + injected_by(calls) =~= before.injected());
    } else {
        let mid = choose|mid: FakePlatformAdapter| #[trigger]
            FakePlatformAdapter::answers(before, calls[0], mid) && carried(
                mid,
                calls.drop_first(),
                after,
            );
        fake_platform_keeps_account(mid, calls.drop_first(), after);
        assert(after.injected() =~= before.injected() + injected_by(calls));
    }
}

/// Captured input is held back while control is with a peer, and at no other time.
pub proof fn input_is_held_back_only_for_a_peer(mode: ControlMode, policy: InputCapturePolicy)
    requires
        call_ensures(input_capture_policy_for_control_mode, (mode,), policy),
    ensures
        policy is ConsumeCapturedInput <==> mode is Remote,
        policy is PassThrough <==> !(mode is Remote),
{
}

/// What is delivered to a capture session is received in the order in which it came: the next event
/// received is the oldest one, and it is received once.
pub proof fn captured_events_are_received_in_order(
    session: &mut InputCaptureSession,
    later: &mut InputCaptureSession,
    event: CapturedInputEvent,
    received: Option<CapturedInputEvent>,
)
    requires
        call_ensures(InputCaptureSession::deliver, (session, event), ()),
        *old(later) == *final(session),
        call_ensures(InputCaptureSession::try_recv, (later,), received),
    ensures
        received is Some,
        old(session).waiting().len() == 0 ==> received->Some_0 == event,
        old(session).waiting().len() == 0 ==> final(later).waiting().len() == 0,
        old(session).waiting().len() > 0 ==> received->Some_0 == old(session).waiting()[0],
        seq![received->Some_0] + final(later).waiting() == old(session).waiting() + seq![event],
        final(later).spec_policy() == old(session).spec_policy(),
{
    assert(seq![received->Some_0] + final(later).waiting() =~= old(session).waiting()
        + seq![event]);
}

/// A capture session goes by the policy that was set last, and begins by letting everything through.
pub proof fn the_last_policy_holds(
    waiting: Vec<CapturedInputEvent>,
    fresh: InputCaptureSession,
    first: InputCapturePolicy,
    session: &mut InputCaptureSession,
    policy: InputCapturePolicy,
    shown: InputCapturePolicy,
)
    requires
        call_ensures(InputCaptureSession::new, (waiting,), fresh),
        call_ensures(InputCaptureSession::policy, (&fresh,), first),
        call_ensures(InputCaptureSession::set_policy, (session, policy), ()),
        call_ensures(InputCaptureSession::policy, (&*final(session),), shown),
    ensures
        first is PassThrough,
        fresh.waiting() == waiting@,
        shown == policy,
        final(session).waiting() == old(session).waiting(),
{
}

/// The platform in memory acts out what it is asked to and remembers it in order, counts the releases,
/// and tells what it was made with.
pub proof fn the_platform_in_memory_remembers(
    fake: &mut FakePlatformAdapter,
    event: InjectedInputEvent,
    injected: Result<(), PlatformError>,
    before: Vec<InjectedInputEvent>,
    after: Vec<InjectedInputEvent>,
    later: &mut FakePlatformAdapter,
    released: Result<(), PlatformError>,
    earlier_count: u64,
    count: u64,
)
    requires
        call_ensures(FakePlatformAdapter::injected_events, (&*old(fake),), before),
        call_ensures(<FakePlatformAdapter as PlatformAdapter>::inject_input, (fake, event), injected),
        call_ensures(FakePlatformAdapter::injected_events, (&*final(fake),), after),
        call_ensures(FakePlatformAdapter::release_all_count, (&*old(later),), earlier_count),
        call_ensures(<FakePlatformAdapter as PlatformAdapter>::release_all, (later,), released),
        call_ensures(FakePlatformAdapter::release_all_count, (&*final(later),), count),
    ensures
        injected is Ok,
        after@ == before@.push(event),
        released is Ok,
        earlier_count < u64::MAX ==> count == earlier_count + 1,
        final(later).injected() == old(later).injected(),
{
}

/// Reading the platform in memory gives back what it was made with and changes nothing.
pub proof fn the_platform_in_memory_tells_what_it_has(
    capabilities: PlatformCapabilities,
    plain: FakePlatformAdapter,
    geometry: DesktopGeometry,
    placed: FakePlatformAdapter,
    fake: &mut FakePlatformAdapter,
    granted: Result<PlatformCapabilities, PlatformError>,
    reader: &mut FakePlatformAdapter,
    told: Result<DesktopGeometry, PlatformError>,
)
    requires
        call_ensures(FakePlatformAdapter::new, (capabilities,), plain),
        call_ensures(FakePlatformAdapter::with_desktop_geometry, (plain, geometry), placed),
        *old(fake) == placed,
        call_ensures(
            <FakePlatformAdapter as PlatformAdapter>::probe_capabilities,
            (fake,),
            granted,
        ),
        *old(reader) == *final(fake),
        call_ensures(
            <FakePlatformAdapter as PlatformAdapter>::read_desktop_geometry,
            (reader,),
            told,
        ),
    ensures
        granted is Ok,
        granted->Ok_0 == capabilities,
        told is Ok,
        told->Ok_0.pointer_position == geometry.pointer_position,
        told->Ok_0.virtual_screen_bounds == geometry.virtual_screen_bounds,
        told->Ok_0.monitors@ == geometry.monitors@,
        final(reader).injected().len() == 0,
        final(reader).releases() == 0,
{
}

} // verus!
