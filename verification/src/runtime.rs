//! The input state machine: which computer the pointer and the keyboard act on.

use vstd::prelude::*;

verus! {

/// Name of a remote peer, as configured and as announced in its session hello.
#[derive(Debug, PartialEq, Eq, PartialOrd, Ord, Hash)]
pub struct PeerId {
    pub value: String,
}

impl View for PeerId {
    type V = Seq<char>;

    open spec fn view(&self) -> Seq<char> {
        self.value@
    }
}

impl PeerId {
    pub fn new(value: &str) -> (result: Self)
        ensures
            result@ == value@,
    {
        PeerId { value: value.to_owned() }
    }

    pub fn as_str(&self) -> (result: &str)
        ensures
            result@ == self@,
    {
        self.value.as_str()
    }
}

impl Clone for PeerId {
    fn clone(&self) -> (result: Self)
        ensures
            result == *self,
    {
        PeerId { value: self.value.clone() }
    }
}

/// Name of a device that takes part in a session.
#[derive(Debug, PartialEq, Eq, PartialOrd, Ord, Hash)]
pub struct DeviceId {
    pub value: String,
}

impl View for DeviceId {
    type V = Seq<char>;

    open spec fn view(&self) -> Seq<char> {
        self.value@
    }
}

impl DeviceId {
    pub fn new(value: &str) -> (result: Self)
        ensures
            result@ == value@,
    {
        DeviceId { value: value.to_owned() }
    }

    pub fn as_str(&self) -> (result: &str)
        ensures
            result@ == self@,
    {
        self.value.as_str()
    }
}

impl Clone for DeviceId {
    fn clone(&self) -> (result: Self)
        ensures
            result == *self,
    {
        DeviceId { value: self.value.clone() }
    }
}

/// Name of one period of remote control.
#[derive(Debug, PartialEq, Eq, PartialOrd, Ord, Hash)]
pub struct SessionId {
    pub value: String,
}

impl View for SessionId {
    type V = Seq<char>;

    open spec fn view(&self) -> Seq<char> {
        self.value@
    }
}

impl SessionId {
    pub fn new(value: &str) -> (result: Self)
        ensures
            result@ == value@,
    {
        SessionId { value: value.to_owned() }
    }

    pub fn as_str(&self) -> (result: &str)
        ensures
            result@ == self@,
    {
        self.value.as_str()
    }
}

impl Clone for SessionId {
    fn clone(&self) -> (result: Self)
        ensures
            result == *self,
    {
        SessionId { value: self.value.clone() }
    }
}

/// Where captured input acts.
#[derive(Debug, Clone, Copy, PartialEq, Eq, Structural)]
pub enum ControlMode {
    Local,
    EnteringRemote,
    Remote,
    LeavingRemote,
    Suspended,
}

impl Default for ControlMode {
    fn default() -> (result: Self)
        ensures
            result == ControlMode::Local,
    {
        ControlMode::Local
    }
}

/// A point in desktop coordinates.
#[derive(Debug, Clone, Copy, PartialEq, Eq, Structural)]
pub struct LogicalPoint {
    pub x: i32,
    pub y: i32,
}

impl Default for LogicalPoint {
    fn default() -> (result: Self)
        ensures
            result == (LogicalPoint { x: 0, y: 0 }),
    {
        LogicalPoint { x: 0, y: 0 }
    }
}

/// Extent of a desktop rectangle.
#[derive(Debug, Clone, Copy, PartialEq, Eq, Structural)]
pub struct LogicalSize {
    pub width: i32,
    pub height: i32,
}

/// A desktop rectangle.
#[derive(Debug, Clone, Copy, PartialEq, Eq, Structural)]
pub struct LogicalRect {
    pub origin: LogicalPoint,
    pub size: LogicalSize,
}

impl LogicalRect {
    /// First column right of the rectangle.
    pub open spec fn right(self) -> int {
        self.origin.x + self.size.width
    }

    /// First row below the rectangle.
    pub open spec fn bottom(self) -> int {
        self.origin.y + self.size.height
    }
}

/// A side of the desktop.
#[derive(Debug, Clone, Copy, PartialEq, Eq, Structural)]
pub enum ScreenEdge {
    Left,
    Right,
    Top,
    Bottom,
}

/// Leaving the desktop over `local_edge` enters the peer over `remote_edge`.
#[derive(Debug, PartialEq, Eq)]
pub struct ScreenEdgeBinding {
    pub local_edge: ScreenEdge,
    pub peer_id: PeerId,
    pub remote_edge: ScreenEdge,
}

impl Clone for ScreenEdgeBinding {
    fn clone(&self) -> (result: Self)
        ensures
            result == *self,
    {
        ScreenEdgeBinding {
            local_edge: self.local_edge,
            peer_id: self.peer_id.clone(),
            remote_edge: self.remote_edge,
        }
    }
}

/// The desktop's bounds and the peers beyond its edges.
#[derive(Debug, PartialEq, Eq)]
pub struct ScreenLayout {
    pub local_bounds: LogicalRect,
    pub edge_bindings: Vec<ScreenEdgeBinding>,
}

/// A copy of a list of bindings.
pub fn clone_bindings(bindings: &Vec<ScreenEdgeBinding>) -> (result: Vec<ScreenEdgeBinding>)
    ensures
        result@ == bindings@,
{
    let mut result: Vec<ScreenEdgeBinding> = Vec::new();
    let mut i: usize = 0;
    while i < bindings.len()
        invariant
            i <= bindings@.len(),
            result@ =~= bindings@.subrange(0, i as int),
        decreases bindings@.len() - i,
    {
        result.push(bindings[i].clone());
        i = i + 1;
    }
    proof {
        assert(bindings@.subrange(0, i as int) =~= bindings@);
    }
    result
}

impl ScreenLayout {
    pub fn new(local_bounds: LogicalRect, edge_bindings: Vec<ScreenEdgeBinding>) -> (result: Self)
        ensures
            result == (ScreenLayout { local_bounds, edge_bindings }),
    {
        ScreenLayout { local_bounds, edge_bindings }
    }
}

impl Clone for ScreenLayout {
    fn clone(&self) -> (result: Self)
        ensures
            result.local_bounds == self.local_bounds,
            result.edge_bindings@ == self.edge_bindings@,
    {
        ScreenLayout {
            local_bounds: self.local_bounds,
            edge_bindings: clone_bindings(&self.edge_bindings),
        }
    }
}

impl Default for ScreenLayout {
    fn default() -> (result: Self)
        ensures
            result.local_bounds == (LogicalRect {
                origin: LogicalPoint { x: 0, y: 0 },
                size: LogicalSize { width: 0, height: 0 },
            }),
            result.edge_bindings@.len() == 0,
    {
        ScreenLayout {
            local_bounds: LogicalRect {
                origin: LogicalPoint { x: 0, y: 0 },
                size: LogicalSize { width: 0, height: 0 },
            },
            edge_bindings: Vec::new(),
        }
    }
}

/// The pointer left the desktop towards a peer.
#[derive(Debug, PartialEq, Eq)]
pub struct EdgeCrossing {
    pub peer_id: PeerId,
    pub local_edge: ScreenEdge,
    pub remote_edge: ScreenEdge,
    pub exit_position: LogicalPoint,
    pub edge_offset: i32,
}

impl Clone for EdgeCrossing {
    fn clone(&self) -> (result: Self)
        ensures
            result == *self,
    {
        EdgeCrossing {
            peer_id: self.peer_id.clone(),
            local_edge: self.local_edge,
            remote_edge: self.remote_edge,
            exit_position: self.exit_position,
            edge_offset: self.edge_offset,
        }
    }
}

/// A key by its place on the keyboard.
#[derive(Debug, Clone, Copy, PartialEq, Eq, PartialOrd, Ord, Structural)]
pub enum PhysicalKey {
    LeftShift,
    RightShift,
    LeftControl,
    RightControl,
    LeftAlt,
    RightAlt,
    LeftMeta,
    RightMeta,
    Code(u16),
}

/// Code of the key that returns control to this computer, held with Control and Alt.
pub const DEFAULT_PANIC_HOTKEY_CODE: u16 = 1;

/// The key that returns control to this computer, held with Control and Alt.
pub fn default_panic_hotkey_key() -> (result: PhysicalKey)
    ensures
        result == PhysicalKey::Code(DEFAULT_PANIC_HOTKEY_CODE),
{
    PhysicalKey::Code(DEFAULT_PANIC_HOTKEY_CODE)
}

#[derive(Debug, Clone, Copy, PartialEq, Eq, Structural)]
pub enum MouseButton {
    Left,
    Right,
    Middle,
    Back,
    Forward,
    Other(u16),
}

#[derive(Debug, Clone, Copy, PartialEq, Eq, Structural)]
pub enum PressState {
    Pressed,
    Released,
}

/// Input read from this computer's devices.
#[derive(Debug, Clone, Copy, PartialEq, Eq, Structural)]
pub enum CapturedInputEvent {
    Key { key: PhysicalKey, state: PressState },
    MouseButton { button: MouseButton, state: PressState },
    PointerMoved { delta_x: i32, delta_y: i32 },
}

/// Input to act out on a computer.
#[derive(Debug, Clone, Copy, PartialEq, Eq, Structural)]
pub enum InjectedInputEvent {
    Key { key: PhysicalKey, state: PressState },
    MouseButton { button: MouseButton, state: PressState },
    PointerMoved { delta_x: i32, delta_y: i32 },
}

/// Something that happened to the state machine.
#[derive(Debug, PartialEq, Eq)]
pub enum RuntimeEvent {
    RemoteEntryRequested { peer_id: PeerId },
    RemoteEntryConfirmed { session_id: SessionId },
    LocalPointerMoved { previous: LogicalPoint, next: LogicalPoint, layout: ScreenLayout },
    Input(CapturedInputEvent),
    EmergencyRecoveryRequested,
    ScreenLayoutChanged,
    PermissionLost,
    SystemResumed,
}

/// A side effect that the state machine asks for.
#[derive(Debug, PartialEq, Eq)]
pub enum CoreAction {
    InputCaptureIdle,
    StartRemoteSession { peer_id: PeerId, crossing: Option<EdgeCrossing> },
    ForwardInput { event: InjectedInputEvent },
    ReleaseLocalInputs,
    ReleaseAllInputs,
    StopRemoteSession { session_id: Option<SessionId> },
}

/// A copy of an optional crossing.
pub fn clone_crossing(crossing: &Option<EdgeCrossing>) -> (result: Option<EdgeCrossing>)
    ensures
        result == *crossing,
{
    match crossing {
        Some(crossing) => Some(crossing.clone()),
        None => None,
    }
}

/// A copy of an optional session id.
pub fn clone_session_id(session_id: &Option<SessionId>) -> (result: Option<SessionId>)
    ensures
        result == *session_id,
{
    match session_id {
        Some(session_id) => Some(session_id.clone()),
        None => None,
    }
}

impl Clone for CoreAction {
    fn clone(&self) -> (result: Self)
        ensures
            result == *self,
    {
        match self {
            CoreAction::InputCaptureIdle => CoreAction::InputCaptureIdle,
            CoreAction::StartRemoteSession { peer_id, crossing } => CoreAction::StartRemoteSession {
                peer_id: peer_id.clone(),
                crossing: clone_crossing(crossing),
            },
            CoreAction::ForwardInput { event } => CoreAction::ForwardInput { event: *event },
            CoreAction::ReleaseLocalInputs => CoreAction::ReleaseLocalInputs,
            CoreAction::ReleaseAllInputs => CoreAction::ReleaseAllInputs,
            CoreAction::StopRemoteSession { session_id } => CoreAction::StopRemoteSession {
                session_id: clone_session_id(session_id),
            },
        }
    }
}

/// An event that does not apply in the current mode.
#[derive(Debug, Clone, Copy, PartialEq, Eq, Structural)]
pub enum CoreTransitionError {
    RemoteEntryOutsideLocalMode,
    ConfirmationWithoutPendingEntry,
    LocalPointerOutsideLocalMode,
}

impl CoreTransitionError {
    pub open spec fn text(self) -> Seq<char> {
        match self {
            CoreTransitionError::RemoteEntryOutsideLocalMode => "remote entry requires local mode"@,
            CoreTransitionError::ConfirmationWithoutPendingEntry => {
                "remote entry confirmation requires a pending entry"@
            },
            CoreTransitionError::LocalPointerOutsideLocalMode => {
                "local pointer movement requires local mode"@
            },
        }
    }

    /// The error in words.
    pub fn message(self) -> (result: String)
        ensures
            result@ == self.text(),
    {
        match self {
            CoreTransitionError::RemoteEntryOutsideLocalMode => {
                "remote entry requires local mode".to_owned()
            },
            CoreTransitionError::ConfirmationWithoutPendingEntry => {
                "remote entry confirmation requires a pending entry".to_owned()
            },
            CoreTransitionError::LocalPointerOutsideLocalMode => {
                "local pointer movement requires local mode".to_owned()
            },
        }
    }
}

/// Which modifier keys are held.
#[derive(Debug, Clone, Copy, PartialEq, Eq, Structural)]
pub struct KeyboardModifiers {
    pub left_shift: bool,
    pub right_shift: bool,
    pub left_control: bool,
    pub right_control: bool,
    pub left_alt: bool,
    pub right_alt: bool,
    pub left_meta: bool,
    pub right_meta: bool,
}


/// The edge over which a position lies outside a rectangle: left and right before top and bottom.
pub open spec fn exit_edge(bounds: LogicalRect, position: LogicalPoint) -> Option<ScreenEdge> {
    if position.x < bounds.origin.x {
        Some(ScreenEdge::Left)
    } else if position.x >= bounds.right() {
        Some(ScreenEdge::Right)
    } else if position.y < bounds.origin.y {
        Some(ScreenEdge::Top)
    } else if position.y >= bounds.bottom() {
        Some(ScreenEdge::Bottom)
    } else {
        None
    }
}

/// The index of the first binding of an edge, or the number of bindings where it has none.
pub open spec fn binding_index(bindings: Seq<ScreenEdgeBinding>, edge: ScreenEdge) -> int
    decreases bindings.len(),
{
    if bindings.len() == 0 {
        0
    } else if bindings[0].local_edge == edge {
        0
    } else {
        1 + binding_index(bindings.drop_first(), edge)
    }
}

/// An integer brought into the range of `i32`.
pub open spec fn clamp_i32(value: int) -> i32 {
    if value < i32::MIN {
        i32::MIN
    } else if value > i32::MAX {
        i32::MAX
    } else {
        value as i32
    }
}

/// How far along an edge a position lies, from the edge's top or left end.
pub open spec fn edge_offset(bounds: LogicalRect, edge: ScreenEdge, position: LogicalPoint) -> i32 {
    match edge {
        ScreenEdge::Left | ScreenEdge::Right => clamp_i32(position.y - bounds.origin.y),
        ScreenEdge::Top | ScreenEdge::Bottom => clamp_i32(position.x - bounds.origin.x),
    }
}

/// The crossing that a pointer position makes: it lies beyond an edge that leads to a peer.
pub open spec fn crossing_at(
    bounds: LogicalRect,
    bindings: Seq<ScreenEdgeBinding>,
    position: LogicalPoint,
) -> Option<EdgeCrossing> {
    match exit_edge(bounds, position) {
        None => None,
        Some(edge) => {
            let at = binding_index(bindings, edge);
            if 0 <= at < bindings.len() {
                Some(
                    EdgeCrossing {
                        peer_id: bindings[at].peer_id,
                        local_edge: edge,
                        remote_edge: bindings[at].remote_edge,
                        exit_position: position,
                        edge_offset: edge_offset(bounds, edge, position),
                    },
                )
            } else {
                None
            }
        },
    }
}

/// The sum of two coordinates, held within the range of `i32`.
pub fn saturating_add_i32(a: i32, b: i32) -> (result: i32)
    ensures
        result == clamp_i32(a + b),
{
    clamp_to_i32(a as i64 + b as i64)
}

fn clamp_to_i32(value: i64) -> (result: i32)
    ensures
        result == clamp_i32(value as int),
{
    if value < -0x8000_0000i64 {
        i32::MIN
    } else if value > 0x7fff_ffffi64 {
        i32::MAX
    } else {
        value as i32
    }
}

impl ScreenLayout {
    /// The crossing that a pointer position makes.
    pub fn crossing(&self, position: LogicalPoint) -> (result: Option<EdgeCrossing>)
        ensures
            result == crossing_at(self.local_bounds, self.edge_bindings@, position),
    {
        let bounds = self.local_bounds;
        let x: i64 = position.x as i64;
        let y: i64 = position.y as i64;
        let left: i64 = bounds.origin.x as i64;
        let top: i64 = bounds.origin.y as i64;
        let edge: ScreenEdge = if x < left {
            ScreenEdge::Left
        } else if x >= left + bounds.size.width as i64 {
            ScreenEdge::Right
        } else if y < top {
            ScreenEdge::Top
        } else if y >= top + bounds.size.height as i64 {
            ScreenEdge::Bottom
        } else {
            return None;
        };
        let offset: i32 = match edge {
            ScreenEdge::Left | ScreenEdge::Right => clamp_to_i32(y - top),
            ScreenEdge::Top | ScreenEdge::Bottom => clamp_to_i32(x - left),
        };
        let mut i: usize = 0;
        let ghost bindings = self.edge_bindings@;
        proof {
            assert(bindings.subrange(0, bindings.len() as int) =~= bindings);
        }
        while i < self.edge_bindings.len()
            invariant
                i <= bindings.len(),
                bindings == self.edge_bindings@,
                binding_index(bindings, edge) == i + binding_index(
                    bindings.subrange(i as int, bindings.len() as int),
                    edge,
                ),
                exit_edge(self.local_bounds, position) == Some(edge),
                offset == edge_offset(self.local_bounds, edge, position),
            decreases bindings.len() - i,
        {
            let binding = &self.edge_bindings[i];
            let ghost rest = bindings.subrange(i as int, bindings.len() as int);
            proof {
                assert(rest[0] == bindings[i as int]);
                assert(rest.drop_first() =~= bindings.subrange(i + 1, bindings.len() as int));
            }
            if binding.local_edge == edge {
                return Some(
                    EdgeCrossing {
                        peer_id: binding.peer_id.clone(),
                        local_edge: edge,
                        remote_edge: binding.remote_edge,
                        exit_position: position,
                        edge_offset: offset,
                    },
                );
            }
            i = i + 1;
        }
        None
    }
}

/// What the state machine remembers.
pub struct RuntimeModel {
    pub mode: ControlMode,
    pub pending_peer_id: Option<PeerId>,
    pub session_id: Option<SessionId>,
    pub last_local_pointer: Option<LogicalPoint>,
    pub pressed_keys: Set<PhysicalKey>,
}

/// The keys held after one more captured event.
pub open spec fn pressed_after(
    pressed: Set<PhysicalKey>,
    event: CapturedInputEvent,
) -> Set<PhysicalKey> {
    match event {
        CapturedInputEvent::Key { key, state } => match state {
            PressState::Pressed => pressed.insert(key),
            PressState::Released => pressed.remove(key),
        },
        _ => pressed,
    }
}

/// A captured event as input to act out elsewhere.
pub open spec fn injected(event: CapturedInputEvent) -> InjectedInputEvent {
    match event {
        CapturedInputEvent::Key { key, state } => InjectedInputEvent::Key { key, state },
        CapturedInputEvent::MouseButton { button, state } => InjectedInputEvent::MouseButton {
            button,
            state,
        },
        CapturedInputEvent::PointerMoved { delta_x, delta_y } => InjectedInputEvent::PointerMoved {
            delta_x,
            delta_y,
        },
    }
}

/// Whether an event completes the hotkey that returns control, over the keys held before it.
pub open spec fn is_panic_hotkey(pressed: Set<PhysicalKey>, event: CapturedInputEvent) -> bool {
    &&& event == (CapturedInputEvent::Key {
        key: PhysicalKey::Code(DEFAULT_PANIC_HOTKEY_CODE),
        state: PressState::Pressed,
    })
    &&& pressed.contains(PhysicalKey::LeftControl) || pressed.contains(PhysicalKey::RightControl)
    &&& pressed.contains(PhysicalKey::LeftAlt) || pressed.contains(PhysicalKey::RightAlt)
}

/// What recovery asks for: every input released, here and on the peer, and the session ended where
/// the pointer is not already here.
pub open spec fn recovery_actions(model: RuntimeModel) -> Seq<CoreAction> {
    if model.mode == ControlMode::Local {
        seq![CoreAction::ReleaseLocalInputs, CoreAction::ReleaseAllInputs]
    } else {
        seq![
            CoreAction::ReleaseLocalInputs,
            CoreAction::ReleaseAllInputs,
            CoreAction::StopRemoteSession { session_id: model.session_id },
        ]
    }
}

/// The state after recovery: control is local and nothing is pending.
pub open spec fn recovered(model: RuntimeModel) -> RuntimeModel {
    RuntimeModel {
        mode: ControlMode::Local,
        pending_peer_id: None,
        session_id: None,
        ..model
    }
}

/// What a move of the local pointer does: over an edge that leads to a peer, it asks for a session
/// with that peer.
pub open spec fn pointer_moved(
    model: RuntimeModel,
    bounds: LogicalRect,
    bindings: Seq<ScreenEdgeBinding>,
    next: LogicalPoint,
) -> (RuntimeModel, Seq<CoreAction>) {
    let moved = RuntimeModel { last_local_pointer: Some(next), ..model };
    match crossing_at(bounds, bindings, next) {
        None => (moved, Seq::empty()),
        Some(crossing) => (
            RuntimeModel {
                mode: ControlMode::EnteringRemote,
                pending_peer_id: Some(crossing.peer_id),
                ..moved
            },
            seq![
                CoreAction::StartRemoteSession {
                    peer_id: crossing.peer_id,
                    crossing: Some(crossing),
                },
            ],
        ),
    }
}

/// One step of the state machine: the next state and what it asks for, or why the event does not
/// apply.
pub open spec fn transition(model: RuntimeModel, event: RuntimeEvent) -> Result<
    (RuntimeModel, Seq<CoreAction>),
    CoreTransitionError,
> {
    match event {
        RuntimeEvent::RemoteEntryRequested { peer_id } => {
            if model.mode == ControlMode::Local {
                Ok(
                    (
                        RuntimeModel {
                            mode: ControlMode::EnteringRemote,
                            pending_peer_id: Some(peer_id),
                            ..model
                        },
                        seq![CoreAction::StartRemoteSession { peer_id, crossing: None }],
                    ),
                )
            } else {
                Err(CoreTransitionError::RemoteEntryOutsideLocalMode)
            }
        },
        RuntimeEvent::RemoteEntryConfirmed { session_id } => {
            if model.mode == ControlMode::EnteringRemote {
                Ok(
                    (
                        RuntimeModel {
                            mode: ControlMode::Remote,
                            pending_peer_id: None,
                            session_id: Some(session_id),
                            ..model
                        },
                        Seq::empty(),
                    ),
                )
            } else {
                Err(CoreTransitionError::ConfirmationWithoutPendingEntry)
            }
        },
        RuntimeEvent::LocalPointerMoved { previous, next, layout } => {
            if model.mode != ControlMode::Local {
                Err(CoreTransitionError::LocalPointerOutsideLocalMode)
            } else {
                Ok(pointer_moved(model, layout.local_bounds, layout.edge_bindings@, next))
            }
        },
        RuntimeEvent::Input(input) => {
            let noted = RuntimeModel {
                pressed_keys: pressed_after(model.pressed_keys, input),
                ..model
            };
            if model.mode == ControlMode::Local {
                Ok((noted, Seq::empty()))
            } else if is_panic_hotkey(model.pressed_keys, input) {
                Ok((recovered(noted), recovery_actions(model)))
            } else if model.mode == ControlMode::Remote {
                Ok((noted, seq![CoreAction::ForwardInput { event: injected(input) }]))
            } else {
                Ok((noted, Seq::empty()))
            }
        },
        RuntimeEvent::EmergencyRecoveryRequested
        | RuntimeEvent::ScreenLayoutChanged
        | RuntimeEvent::PermissionLost
        | RuntimeEvent::SystemResumed => Ok((recovered(model), recovery_actions(model))),
    }
}

/// The running state machine.
#[derive(Debug, PartialEq, Eq)]
pub struct RuntimeInputState {
    mode: ControlMode,
    pending_peer_id: Option<PeerId>,
    session_id: Option<SessionId>,
    last_local_pointer: Option<LogicalPoint>,
    pressed_keys: Vec<PhysicalKey>,
}

impl View for RuntimeInputState {
    type V = RuntimeModel;

    closed spec fn view(&self) -> RuntimeModel {
        RuntimeModel {
            mode: self.mode,
            pending_peer_id: self.pending_peer_id,
            session_id: self.session_id,
            last_local_pointer: self.last_local_pointer,
            pressed_keys: self.pressed_keys@.to_set(),
        }
    }
}

/// The captured event as input to act out elsewhere.
pub fn inject_event(event: CapturedInputEvent) -> (result: InjectedInputEvent)
    ensures
        result == injected(event),
{
    match event {
        CapturedInputEvent::Key { key, state } => InjectedInputEvent::Key { key, state },
        CapturedInputEvent::MouseButton { button, state } => InjectedInputEvent::MouseButton {
            button,
            state,
        },
        CapturedInputEvent::PointerMoved { delta_x, delta_y } => InjectedInputEvent::PointerMoved {
            delta_x,
            delta_y,
        },
    }
}

impl RuntimeInputState {
    /// Nothing has happened yet: control is local and no key is held.
    pub fn new() -> (result: Self)
        ensures
            result@ == (RuntimeModel {
                mode: ControlMode::Local,
                pending_peer_id: None,
                session_id: None,
                last_local_pointer: None,
                pressed_keys: Set::empty(),
            }),
    {
        let result = RuntimeInputState {
            mode: ControlMode::Local,
            pending_peer_id: None,
            session_id: None,
            last_local_pointer: None,
            pressed_keys: Vec::new(),
        };
        proof {
            assert(result.pressed_keys@.to_set() =~= Set::empty());
        }
        result
    }

    /// Where captured input acts.
    pub fn mode(&self) -> (result: ControlMode)
        ensures
            result == self@.mode,
    {
        self.mode
    }

    /// The peer that control is about to move to.
    pub fn pending_peer_id(&self) -> (result: Option<&PeerId>)
        ensures
            match result {
                Some(peer_id) => self@.pending_peer_id == Some(*peer_id),
                None => self@.pending_peer_id is None,
            },
    {
        self.pending_peer_id.as_ref()
    }

    /// Where the pointer was last seen on this desktop.
    pub fn last_local_pointer(&self) -> (result: Option<LogicalPoint>)
        ensures
            result == self@.last_local_pointer,
    {
        self.last_local_pointer
    }

    /// The keys that are held.
    pub fn pressed_keys(&self) -> (result: &Vec<PhysicalKey>)
        ensures
            result@.to_set() == self@.pressed_keys,
    {
        &self.pressed_keys
    }

    /// Whether a key is held.
    pub fn is_pressed(&self, key: PhysicalKey) -> (result: bool)
        ensures
            result == self@.pressed_keys.contains(key),
    {
        let mut i: usize = 0;
        while i < self.pressed_keys.len()
            invariant
                i <= self.pressed_keys@.len(),
                forall|j: int| 0 <= j < i ==> #[trigger] self.pressed_keys@[j] != key,
            decreases self.pressed_keys@.len() - i,
        {
            if self.pressed_keys[i] == key {
                assert(self.pressed_keys@.contains(key));
                return true;
            }
            i = i + 1;
        }
        assert(!self.pressed_keys@.contains(key));
        false
    }

    /// Which modifier keys are held.
    pub fn modifiers(&self) -> (result: KeyboardModifiers)
        ensures
            result.left_shift == self@.pressed_keys.contains(PhysicalKey::LeftShift),
            result.right_shift == self@.pressed_keys.contains(PhysicalKey::RightShift),
            result.left_control == self@.pressed_keys.contains(PhysicalKey::LeftControl),
            result.right_control == self@.pressed_keys.contains(PhysicalKey::RightControl),
            result.left_alt == self@.pressed_keys.contains(PhysicalKey::LeftAlt),
            result.right_alt == self@.pressed_keys.contains(PhysicalKey::RightAlt),
            result.left_meta == self@.pressed_keys.contains(PhysicalKey::LeftMeta),
            result.right_meta == self@.pressed_keys.contains(PhysicalKey::RightMeta),
    {
        KeyboardModifiers {
            left_shift: self.is_pressed(PhysicalKey::LeftShift),
            right_shift: self.is_pressed(PhysicalKey::RightShift),
            left_control: self.is_pressed(PhysicalKey::LeftControl),
            right_control: self.is_pressed(PhysicalKey::RightControl),
            left_alt: self.is_pressed(PhysicalKey::LeftAlt),
            right_alt: self.is_pressed(PhysicalKey::RightAlt),
            left_meta: self.is_pressed(PhysicalKey::LeftMeta),
            right_meta: self.is_pressed(PhysicalKey::RightMeta),
        }
    }

    fn note_input(&mut self, event: CapturedInputEvent)
        ensures
            final(self)@ == (RuntimeModel {
                pressed_keys: pressed_after(old(self)@.pressed_keys, event),
                ..old(self)@
            }),
    {
        match event {
            CapturedInputEvent::Key { key, state } => {
                let mut keys: Vec<PhysicalKey> = Vec::new();
                let mut i: usize = 0;
                while i < self.pressed_keys.len()
                    invariant
                        i <= self.pressed_keys@.len(),
                        self@ == old(self)@,
                        forall|k: PhysicalKey| #[trigger]
                            keys@.contains(k) <==> k != key && self.pressed_keys@.subrange(
                                0,
                                i as int,
                            ).contains(k),
                    decreases self.pressed_keys@.len() - i,
                {
                    let held = self.pressed_keys[i];
                    let ghost before = keys@;
                    let ghost seen = self.pressed_keys@.subrange(0, i as int);
                    if held != key {
                        keys.push(held);
                    }
                    proof {
                        let longer = self.pressed_keys@.subrange(0, i + 1);
                        assert(longer =~= seen.push(held));
                        lemma_push_contains(seen, held);
                        lemma_push_contains(before, held);
                    }
                    i = i + 1;
                }
                proof {
                    assert(self.pressed_keys@.subrange(0, i as int) =~= self.pressed_keys@);
                }
                let ghost rest = keys@;
                match state {
                    PressState::Pressed => {
                        keys.push(key);
                        proof {
                            lemma_push_contains(rest, key);
                        }
                    },
                    PressState::Released => {},
                }
                self.pressed_keys = keys;
                proof {
                    assert(self@.pressed_keys =~= pressed_after(old(self)@.pressed_keys, event));
                }
            },
            _ => {},
        }
    }

    fn holds_panic_hotkey(&self, event: CapturedInputEvent) -> (result: bool)
        ensures
            result == is_panic_hotkey(self@.pressed_keys, event),
    {
        event == (CapturedInputEvent::Key {
            key: default_panic_hotkey_key(),
            state: PressState::Pressed,
        }) && (self.is_pressed(PhysicalKey::LeftControl) || self.is_pressed(
            PhysicalKey::RightControl,
        )) && (self.is_pressed(PhysicalKey::LeftAlt) || self.is_pressed(PhysicalKey::RightAlt))
    }

    fn recover(&mut self) -> (actions: Vec<CoreAction>)
        ensures
            final(self)@ == recovered(old(self)@),
            actions@ == recovery_actions(old(self)@),
    {
        let mut actions: Vec<CoreAction> = vec![
            CoreAction::ReleaseLocalInputs,
            CoreAction::ReleaseAllInputs,
        ];
        if self.mode != ControlMode::Local {
            actions.push(CoreAction::StopRemoteSession {
                session_id: clone_session_id(&self.session_id),
            });
        }
        self.mode = ControlMode::Local;
        self.pending_peer_id = None;
        self.session_id = None;
        proof {
            assert(actions@ =~= recovery_actions(old(self)@));
        }
        actions
    }

    /// Apply one event: the actions to carry out, or why the event does not apply. A refused event
    /// changes nothing.
    pub fn apply_event(&mut self, event: RuntimeEvent) -> (result: Result<
        Vec<CoreAction>,
        CoreTransitionError,
    >)
        ensures
            match result {
                Ok(actions) => {
                    &&& transition(old(self)@, event) is Ok
                    &&& final(self)@ == transition(old(self)@, event)->Ok_0.0
                    &&& actions@ == transition(old(self)@, event)->Ok_0.1
                },
                Err(error) => {
                    &&& transition(old(self)@, event) is Err
                    &&& error == transition(old(self)@, event)->Err_0
                    &&& *final(self) == *old(self)
                },
            },
    {
        match event {
            RuntimeEvent::RemoteEntryRequested { peer_id } => {
                if self.mode != ControlMode::Local {
                    return Err(CoreTransitionError::RemoteEntryOutsideLocalMode);
                }
                self.mode = ControlMode::EnteringRemote;
                self.pending_peer_id = Some(peer_id.clone());
                Ok(vec![CoreAction::StartRemoteSession { peer_id, crossing: None }])
            },
            RuntimeEvent::RemoteEntryConfirmed { session_id } => {
                if self.mode != ControlMode::EnteringRemote {
                    return Err(CoreTransitionError::ConfirmationWithoutPendingEntry);
                }
                self.mode = ControlMode::Remote;
                self.pending_peer_id = None;
                self.session_id = Some(session_id);
                Ok(Vec::new())
            },
            RuntimeEvent::LocalPointerMoved { previous: _, next, layout } => {
                if self.mode != ControlMode::Local {
                    return Err(CoreTransitionError::LocalPointerOutsideLocalMode);
                }
                self.last_local_pointer = Some(next);
                match layout.crossing(next) {
                    None => Ok(Vec::new()),
                    Some(crossing) => {
                        self.mode = ControlMode::EnteringRemote;
                        self.pending_peer_id = Some(crossing.peer_id.clone());
                        Ok(
                            vec![
                                CoreAction::StartRemoteSession {
                                    peer_id: crossing.peer_id.clone(),
                                    crossing: Some(crossing),
                                },
                            ],
                        )
                    },
                }
            },
            RuntimeEvent::Input(input) => {
                let mode = self.mode;
                let hotkey = self.holds_panic_hotkey(input);
                self.note_input(input);
                if mode == ControlMode::Local {
                    Ok(Vec::new())
                } else if hotkey {
                    Ok(self.recover())
                } else if mode == ControlMode::Remote {
                    Ok(vec![CoreAction::ForwardInput { event: inject_event(input) }])
                } else {
                    Ok(Vec::new())
                }
            },
            RuntimeEvent::EmergencyRecoveryRequested
            | RuntimeEvent::ScreenLayoutChanged
            | RuntimeEvent::PermissionLost
            | RuntimeEvent::SystemResumed => Ok(self.recover()),
        }
    }
}

proof fn lemma_push_contains<T>(s: Seq<T>, item: T)
    ensures
        forall|k: T| #[trigger] s.push(item).contains(k) <==> s.contains(k) || k == item,
{
    assert forall|k: T| #[trigger] s.push(item).contains(k) <==> s.contains(k) || k == item by {
        if s.contains(k) {
            let i = choose|i: int| 0 <= i < s.len() && s[i] == k;
            assert(s.push(item)[i] == k);
        }
        if k == item {
            assert(s.push(item)[s.len() as int] == k);
        }
    }
}

/// Whatever happened before, recovery brings control back here, releases input on both sides and
/// leaves no session behind.
pub proof fn recovery_always_returns_control(model: RuntimeModel, event: RuntimeEvent)
    requires
        event is EmergencyRecoveryRequested || event is ScreenLayoutChanged
            || event is PermissionLost || event is SystemResumed,
    ensures
        transition(model, event) is Ok,
        ({
            let (next, actions) = transition(model, event)->Ok_0;
            &&& next.mode == ControlMode::Local
            &&& next.session_id is None
            &&& next.pending_peer_id is None
            &&& actions.contains(CoreAction::ReleaseLocalInputs)
            &&& actions.contains(CoreAction::ReleaseAllInputs)
        }),
{
    let actions = transition(model, event)->Ok_0.1;
    assert(actions[0] == CoreAction::ReleaseLocalInputs);
    assert(actions[1] == CoreAction::ReleaseAllInputs);
}

/// Input is forwarded only while control is remote.
pub proof fn input_is_forwarded_only_in_remote_mode(model: RuntimeModel, event: RuntimeEvent)
    ensures
        transition(model, event) matches Ok((_, actions)) ==> forall|i: int|
            0 <= i < actions.len() && (#[trigger] actions[i] is ForwardInput) ==> model.mode
                == ControlMode::Remote,
{
}

/// Whether input to act out is the same input as was captured: of the same kind, with the same key
/// or button in the same state, or over the same distance.
pub open spec fn is_same_input(captured: CapturedInputEvent, acted: InjectedInputEvent) -> bool {
    match captured {
        CapturedInputEvent::Key { key, state } => acted == (InjectedInputEvent::Key { key, state }),
        CapturedInputEvent::MouseButton { button, state } => acted == (
        InjectedInputEvent::MouseButton { button, state }),
        CapturedInputEvent::PointerMoved { delta_x, delta_y } => acted == (
        InjectedInputEvent::PointerMoved { delta_x, delta_y }),
    }
}

/// Whether a Control key and an Alt key are held, and an event presses the key of code 1.
pub open spec fn asks_for_control(pressed: Set<PhysicalKey>, input: CapturedInputEvent) -> bool {
    &&& input == (CapturedInputEvent::Key {
        key: PhysicalKey::Code(1),
        state: PressState::Pressed,
    })
    &&& !pressed.disjoint(set![PhysicalKey::LeftControl, PhysicalKey::RightControl])
    &&& !pressed.disjoint(set![PhysicalKey::LeftAlt, PhysicalKey::RightAlt])
}

proof fn lemma_asks_for_control(pressed: Set<PhysicalKey>, input: CapturedInputEvent)
    ensures
        asks_for_control(pressed, input) <==> is_panic_hotkey(pressed, input),
{
    let controls = set![PhysicalKey::LeftControl, PhysicalKey::RightControl];
    let alts = set![PhysicalKey::LeftAlt, PhysicalKey::RightAlt];
    if is_panic_hotkey(pressed, input) {
        if pressed.contains(PhysicalKey::LeftControl) {
            assert(controls.contains(PhysicalKey::LeftControl));
        } else {
            assert(controls.contains(PhysicalKey::RightControl));
        }
        if pressed.contains(PhysicalKey::LeftAlt) {
            assert(alts.contains(PhysicalKey::LeftAlt));
        } else {
            assert(alts.contains(PhysicalKey::RightAlt));
        }
    }
}

/// While control is remote, captured input goes to the peer as it was captured, one command for one
/// event, and nothing else changes than which keys are held. Only the hotkey is kept back.
pub proof fn captured_input_is_forwarded_unchanged(model: RuntimeModel, input: CapturedInputEvent)
    requires
        model.mode == ControlMode::Remote,
        !asks_for_control(model.pressed_keys, input),
    ensures
        ({
            let stepped = transition(model, RuntimeEvent::Input(input));
            &&& stepped is Ok
            &&& stepped->Ok_0.1.len() == 1
            &&& stepped->Ok_0.1[0] is ForwardInput
            &&& is_same_input(input, stepped->Ok_0.1[0]->event)
            &&& stepped->Ok_0.0.mode == model.mode
            &&& stepped->Ok_0.0.session_id == model.session_id
            &&& stepped->Ok_0.0.pending_peer_id == model.pending_peer_id
            &&& stepped->Ok_0.0.last_local_pointer == model.last_local_pointer
        }),
{
    lemma_asks_for_control(model.pressed_keys, input);
}

/// Input that is forwarded is told apart by the peer as it is here.
pub proof fn distinct_input_stays_distinct(a: CapturedInputEvent, b: CapturedInputEvent)
    ensures
        injected(a) == injected(b) ==> a == b,
        is_same_input(a, injected(a)),
{
}

/// While control is not here, the hotkey brings it back: everything is released, and the session that
/// is open is the one that is ended.
pub proof fn hotkey_brings_control_back(model: RuntimeModel, input: CapturedInputEvent)
    requires
        model.mode != ControlMode::Local,
        asks_for_control(model.pressed_keys, input),
    ensures
        ({
            let stepped = transition(model, RuntimeEvent::Input(input));
            &&& stepped is Ok
            &&& stepped->Ok_0.0.mode == ControlMode::Local
            &&& stepped->Ok_0.0.session_id is None
            &&& stepped->Ok_0.0.pending_peer_id is None
            &&& stepped->Ok_0.0.last_local_pointer == model.last_local_pointer
            &&& stepped->Ok_0.0.pressed_keys.contains(PhysicalKey::Code(1))
            &&& stepped->Ok_0.1 == seq![
                CoreAction::ReleaseLocalInputs,
                CoreAction::ReleaseAllInputs,
                CoreAction::StopRemoteSession { session_id: model.session_id },
            ]
        }),
{
    lemma_asks_for_control(model.pressed_keys, input);
}

/// Input that is neither forwarded nor the hotkey asks for nothing and leaves control where it is.
pub proof fn input_elsewhere_asks_for_nothing(model: RuntimeModel, input: CapturedInputEvent)
    requires
        model.mode == ControlMode::Local || (model.mode != ControlMode::Remote
            && !asks_for_control(model.pressed_keys, input)),
    ensures
        ({
            let stepped = transition(model, RuntimeEvent::Input(input));
            &&& stepped is Ok
            &&& stepped->Ok_0.1.len() == 0
            &&& stepped->Ok_0.0.mode == model.mode
            &&& stepped->Ok_0.0.session_id == model.session_id
            &&& stepped->Ok_0.0.pending_peer_id == model.pending_peer_id
            &&& stepped->Ok_0.0.last_local_pointer == model.last_local_pointer
        }),
{
    lemma_asks_for_control(model.pressed_keys, input);
}

/// A key is held from when it is pressed until it is released, whatever the mode; no event but that of
/// the key itself changes whether it is held.
pub proof fn keys_are_held_until_released(model: RuntimeModel, event: RuntimeEvent, key: PhysicalKey)
    requires
        transition(model, event) is Ok,
    ensures
        event == RuntimeEvent::Input(
            CapturedInputEvent::Key { key, state: PressState::Pressed },
        ) ==> transition(model, event)->Ok_0.0.pressed_keys.contains(key),
        event == RuntimeEvent::Input(
            CapturedInputEvent::Key { key, state: PressState::Released },
        ) ==> !transition(model, event)->Ok_0.0.pressed_keys.contains(key),
        !(event matches RuntimeEvent::Input(CapturedInputEvent::Key { key: touched, .. })
            && touched == key) ==> (transition(model, event)->Ok_0.0.pressed_keys.contains(key)
            <==> model.pressed_keys.contains(key)),
{
}

/// Asking for a peer enters that peer and no other, only from here; a confirmation counts only while
/// one is asked for, and names the session that a recovery then ends.
pub proof fn entry_is_asked_for_confirmed_and_ended(
    model: RuntimeModel,
    peer_id: PeerId,
    session_id: SessionId,
    recovery: RuntimeEvent,
)
    requires
        recovery is EmergencyRecoveryRequested || recovery is ScreenLayoutChanged
            || recovery is PermissionLost || recovery is SystemResumed,
    ensures
        ({
            let asked = transition(model, RuntimeEvent::RemoteEntryRequested { peer_id });
            let confirmed = transition(
                asked->Ok_0.0,
                RuntimeEvent::RemoteEntryConfirmed { session_id },
            );
            let ended = transition(confirmed->Ok_0.0, recovery);
            if model.mode == ControlMode::Local {
                &&& asked is Ok
                &&& asked->Ok_0.0.mode == ControlMode::EnteringRemote
                &&& asked->Ok_0.0.pending_peer_id == Some(peer_id)
                &&& asked->Ok_0.0.pressed_keys == model.pressed_keys
                &&& asked->Ok_0.0.last_local_pointer == model.last_local_pointer
                &&& asked->Ok_0.1 == seq![
                    CoreAction::StartRemoteSession { peer_id, crossing: None },
                ]
                &&& confirmed is Ok
                &&& confirmed->Ok_0.0.mode == ControlMode::Remote
                &&& confirmed->Ok_0.0.pending_peer_id is None
                &&& confirmed->Ok_0.0.session_id == Some(session_id)
                &&& confirmed->Ok_0.0.pressed_keys == model.pressed_keys
                &&& confirmed->Ok_0.0.last_local_pointer == model.last_local_pointer
                &&& confirmed->Ok_0.1.len() == 0
                &&& ended is Ok
                &&& ended->Ok_0.0 == (RuntimeModel {
                    pending_peer_id: None,
                    session_id: None,
                    ..model
                })
                &&& ended->Ok_0.1 == seq![
                    CoreAction::ReleaseLocalInputs,
                    CoreAction::ReleaseAllInputs,
                    CoreAction::StopRemoteSession { session_id: Some(session_id) },
                ]
            } else {
                asked == Err::<(RuntimeModel, Seq<CoreAction>), CoreTransitionError>(
                    CoreTransitionError::RemoteEntryOutsideLocalMode,
                )
            }
        }),
        ({
            let confirmed = transition(model, RuntimeEvent::RemoteEntryConfirmed { session_id });
            model.mode != ControlMode::EnteringRemote ==> confirmed == Err::<
                (RuntimeModel, Seq<CoreAction>),
                CoreTransitionError,
            >(CoreTransitionError::ConfirmationWithoutPendingEntry)
        }),
{
}

/// A recovery while control is here ends no session, and releases all the same.
pub proof fn recovery_at_home_ends_no_session(model: RuntimeModel, recovery: RuntimeEvent)
    requires
        model.mode == ControlMode::Local,
        recovery is EmergencyRecoveryRequested || recovery is ScreenLayoutChanged
            || recovery is PermissionLost || recovery is SystemResumed,
    ensures
        transition(model, recovery) is Ok,
        transition(model, recovery)->Ok_0.1 == seq![
            CoreAction::ReleaseLocalInputs,
            CoreAction::ReleaseAllInputs,
        ],
{
}

/// Whether a position has left a rectangle over one of its edges. Where it lies beyond two of them,
/// it has left to the side.
pub open spec fn has_left_over(
    bounds: LogicalRect,
    position: LogicalPoint,
    edge: ScreenEdge,
) -> bool {
    let column = position.x - bounds.origin.x;
    let row = position.y - bounds.origin.y;
    match edge {
        ScreenEdge::Left => column < 0,
        ScreenEdge::Right => column >= 0 && column >= bounds.size.width,
        ScreenEdge::Top => 0 <= column < bounds.size.width && row < 0,
        ScreenEdge::Bottom => 0 <= column < bounds.size.width && row >= 0 && row
            >= bounds.size.height,
    }
}

/// The pointer crosses to a peer where it has left the desktop over an edge that is bound, and nowhere
/// else. It crosses to the first peer that the edge is bound to, over the edge that the binding names,
/// at the place where it left.
pub proof fn a_crossing_follows_a_binding(
    bounds: LogicalRect,
    bindings: Seq<ScreenEdgeBinding>,
    position: LogicalPoint,
)
    ensures
        match crossing_at(bounds, bindings, position) {
            Some(crossing) => {
                &&& has_left_over(bounds, position, crossing.local_edge)
                &&& crossing.exit_position == position
                &&& (crossing.local_edge is Left || crossing.local_edge is Right)
                    && i32::MIN <= position.y - bounds.origin.y <= i32::MAX
                    ==> crossing.edge_offset == position.y - bounds.origin.y
                &&& (crossing.local_edge is Top || crossing.local_edge is Bottom)
                    && i32::MIN <= position.x - bounds.origin.x <= i32::MAX
                    ==> crossing.edge_offset == position.x - bounds.origin.x
                &&& exists|i: int|
                    0 <= i < bindings.len() && (#[trigger] bindings[i]).local_edge
                        == crossing.local_edge && bindings[i].peer_id == crossing.peer_id
                        && bindings[i].remote_edge == crossing.remote_edge && forall|j: int|
                        0 <= j < i ==> (#[trigger] bindings[j]).local_edge != crossing.local_edge
            },
            None => forall|i: int|
                0 <= i < bindings.len() ==> !has_left_over(
                    bounds,
                    position,
                    (#[trigger] bindings[i]).local_edge,
                ),
        },
{
    match exit_edge(bounds, position) {
        Some(edge) => {
            lemma_first_binding(bindings, edge);
        },
        None => {},
    }
}

/// The first binding of an edge stands where it is found.
proof fn lemma_first_binding(bindings: Seq<ScreenEdgeBinding>, edge: ScreenEdge)
    ensures
        0 <= binding_index(bindings, edge) <= bindings.len(),
        binding_index(bindings, edge) < bindings.len() ==> bindings[binding_index(
            bindings,
            edge,
        )].local_edge == edge,
        forall|j: int|
            0 <= j < binding_index(bindings, edge) ==> (#[trigger] bindings[j]).local_edge != edge,
    decreases bindings.len(),
{
    if bindings.len() > 0 && bindings[0].local_edge != edge {
        let rest = bindings.drop_first();
        lemma_first_binding(rest, edge);
        assert forall|j: int| 0 <= j < binding_index(bindings, edge) implies (
        #[trigger] bindings[j]).local_edge != edge by {
            if j > 0 {
                assert(rest[j - 1] == bindings[j]);
            }
        }
    }
}

/// A move of the pointer while control is here is remembered; it asks for the peer that it crosses to,
/// at that crossing, and for nothing where it crosses to none. Elsewhere there is no pointer to move.
pub proof fn pointer_moves_are_remembered(
    model: RuntimeModel,
    previous: LogicalPoint,
    next: LogicalPoint,
    layout: ScreenLayout,
)
    ensures
        ({
            let stepped = transition(
                model,
                RuntimeEvent::LocalPointerMoved { previous, next, layout },
            );
            let crossing = crossing_at(layout.local_bounds, layout.edge_bindings@, next);
            if model.mode == ControlMode::Local {
                &&& stepped is Ok
                &&& stepped->Ok_0.0.last_local_pointer == Some(next)
                &&& stepped->Ok_0.0.pressed_keys == model.pressed_keys
                &&& stepped->Ok_0.0.session_id == model.session_id
                &&& match crossing {
                    Some(crossing) => {
                        &&& stepped->Ok_0.0.mode == ControlMode::EnteringRemote
                        &&& stepped->Ok_0.0.pending_peer_id == Some(crossing.peer_id)
                        &&& stepped->Ok_0.1 == seq![
                            CoreAction::StartRemoteSession {
                                peer_id: crossing.peer_id,
                                crossing: Some(crossing),
                            },
                        ]
                    },
                    None => {
                        &&& stepped->Ok_0.0.mode == ControlMode::Local
                        &&& stepped->Ok_0.0.pending_peer_id == model.pending_peer_id
                        &&& stepped->Ok_0.1.len() == 0
                    },
                }
            } else {
                stepped == Err::<(RuntimeModel, Seq<CoreAction>), CoreTransitionError>(
                    CoreTransitionError::LocalPointerOutsideLocalMode,
                )
            }
        }),
{
}

/// A sum that fits is kept as it is, and one that does not ends at the nearest number that does.
pub proof fn sums_end_at_the_limits(a: i32, b: i32)
    ensures
        i32::MIN <= a + b <= i32::MAX ==> clamp_i32(a + b) == a + b,
        a + b > i32::MAX ==> clamp_i32(a + b) == 0x7fff_ffffi32,
        a + b < i32::MIN ==> clamp_i32(a + b) == -0x8000_0000i32,
{
}

/// A step that is taken does to captured input what is to be done with it: with a peer it is forwarded
/// as it was captured, and the hotkey brings control back; nowhere else does input ask for anything.
pub proof fn a_step_takes_captured_input_where_it_belongs(
    state: &mut RuntimeInputState,
    input: CapturedInputEvent,
    result: Result<Vec<CoreAction>, CoreTransitionError>,
)
    requires
        call_ensures(RuntimeInputState::apply_event, (state, RuntimeEvent::Input(input)), result),
    ensures
        result is Ok,
        old(state)@.mode is Remote && !asks_for_control(old(state)@.pressed_keys, input) ==> {
            &&& result->Ok_0@.len() == 1
            &&& result->Ok_0@[0] is ForwardInput
            &&& is_same_input(input, result->Ok_0@[0]->event)
            &&& final(state)@.mode is Remote
        },
        !(old(state)@.mode is Local) && asks_for_control(old(state)@.pressed_keys, input) ==> {
            &&& final(state)@.mode is Local
            &&& result->Ok_0@ == seq![
                CoreAction::ReleaseLocalInputs,
                CoreAction::ReleaseAllInputs,
                CoreAction::StopRemoteSession { session_id: old(state)@.session_id },
            ]
        },
        old(state)@.mode is Local ==> result->Ok_0@.len() == 0 && final(state)@.mode is Local,
{
    if old(state)@.mode is Remote && !asks_for_control(old(state)@.pressed_keys, input) {
        captured_input_is_forwarded_unchanged(old(state)@, input);
    } else if !(old(state)@.mode is Local) && asks_for_control(old(state)@.pressed_keys, input) {
        hotkey_brings_control_back(old(state)@, input);
    } else {
        input_elsewhere_asks_for_nothing(old(state)@, input);
    }
}

/// A key counts as pressed after it was pressed and until it is released.
pub proof fn a_pressed_key_counts_as_pressed(
    state: &mut RuntimeInputState,
    key: PhysicalKey,
    press: PressState,
    result: Result<Vec<CoreAction>, CoreTransitionError>,
    pressed: bool,
    other: PhysicalKey,
    other_before: bool,
    other_after: bool,
)
    requires
        call_ensures(
            RuntimeInputState::apply_event,
            (state, RuntimeEvent::Input(CapturedInputEvent::Key { key, state: press })),
            result,
        ),
        call_ensures(RuntimeInputState::is_pressed, (&*final(state), key), pressed),
        call_ensures(RuntimeInputState::is_pressed, (&*old(state), other), other_before),
        call_ensures(RuntimeInputState::is_pressed, (&*final(state), other), other_after),
        other != key,
    ensures
        pressed <==> press is Pressed,
        other_after == other_before,
{
    lemma_asks_for_control(
        old(state)@.pressed_keys,
        CapturedInputEvent::Key { key, state: press },
    );
}

/// Entering a peer is asked for from here, confirmed while it is asked for, and refused at any other
/// time; what is refused changes nothing.
pub proof fn a_peer_is_entered_step_by_step(
    state: &mut RuntimeInputState,
    peer_id: PeerId,
    asked: Result<Vec<CoreAction>, CoreTransitionError>,
    later: &mut RuntimeInputState,
    session_id: SessionId,
    confirmed: Result<Vec<CoreAction>, CoreTransitionError>,
)
    requires
        call_ensures(
            RuntimeInputState::apply_event,
            (state, RuntimeEvent::RemoteEntryRequested { peer_id }),
            asked,
        ),
        call_ensures(
            RuntimeInputState::apply_event,
            (later, RuntimeEvent::RemoteEntryConfirmed { session_id }),
            confirmed,
        ),
    ensures
        asked is Ok <==> old(state)@.mode is Local,
        asked matches Ok(actions) ==> {
            &&& final(state)@.mode is EnteringRemote
            &&& final(state)@.pending_peer_id == Some(peer_id)
            &&& actions@ == seq![CoreAction::StartRemoteSession { peer_id, crossing: None }]
        },
        asked is Err ==> *final(state) == *old(state),
        confirmed is Ok ==> old(later)@.mode is EnteringRemote,
        old(later)@.mode is EnteringRemote ==> confirmed is Ok,
        confirmed matches Ok(actions) ==> {
            &&& final(later)@.mode is Remote
            &&& final(later)@.session_id == Some(session_id)
            &&& final(later)@.pending_peer_id is None
            &&& actions@.len() == 0
        },
        confirmed is Err ==> *final(later) == *old(later),
{
    entry_is_asked_for_confirmed_and_ended(
        old(state)@,
        peer_id,
        session_id,
        RuntimeEvent::SystemResumed,
    );
    entry_is_asked_for_confirmed_and_ended(
        old(later)@,
        peer_id,
        session_id,
        RuntimeEvent::SystemResumed,
    );
}

/// Every recovery brings control home: everything is released, and a session that is not over is ended
/// under its name.
pub proof fn every_recovery_brings_control_home(
    state: &mut RuntimeInputState,
    recovery: RuntimeEvent,
    result: Result<Vec<CoreAction>, CoreTransitionError>,
)
    requires
        recovery is EmergencyRecoveryRequested || recovery is ScreenLayoutChanged
            || recovery is PermissionLost || recovery is SystemResumed,
        call_ensures(RuntimeInputState::apply_event, (state, recovery), result),
    ensures
        result is Ok,
        final(state)@.mode is Local,
        final(state)@.pending_peer_id is None,
        final(state)@.session_id is None,
        final(state)@.pressed_keys == old(state)@.pressed_keys,
        final(state)@.last_local_pointer == old(state)@.last_local_pointer,
        result->Ok_0@.len() >= 2,
        result->Ok_0@[0] is ReleaseLocalInputs,
        result->Ok_0@[1] is ReleaseAllInputs,
        old(state)@.mode is Local ==> result->Ok_0@.len() == 2,
        !(old(state)@.mode is Local) ==> result->Ok_0@.len() == 3 && result->Ok_0@[2]
            == (CoreAction::StopRemoteSession { session_id: old(state)@.session_id }),
{
}

/// The pointer crosses where it has left the desktop over an edge that is bound, to a peer that the edge
/// is bound to, over the edge that the binding names.
pub proof fn a_layout_crosses_where_an_edge_is_bound(
    layout: ScreenLayout,
    position: LogicalPoint,
    result: Option<EdgeCrossing>,
)
    requires
        call_ensures(ScreenLayout::crossing, (&layout, position), result),
    ensures
        result is Some <==> exists|i: int|
            0 <= i < layout.edge_bindings@.len() && has_left_over(
                layout.local_bounds,
                position,
                (#[trigger] layout.edge_bindings@[i]).local_edge,
            ),
        result matches Some(crossing) ==> {
            &&& has_left_over(layout.local_bounds, position, crossing.local_edge)
            &&& crossing.exit_position == position
            &&& exists|i: int|
                0 <= i < layout.edge_bindings@.len() && (
                #[trigger] layout.edge_bindings@[i]).local_edge == crossing.local_edge
                    && layout.edge_bindings@[i].remote_edge == crossing.remote_edge
                    && layout.edge_bindings@[i].peer_id == crossing.peer_id
        },
{
    a_crossing_follows_a_binding(layout.local_bounds, layout.edge_bindings@, position);
}

/// What is injected for a captured event is the same input, and a sum that does not fit ends at the
/// limit.
pub proof fn input_is_injected_as_it_was_captured(
    event: CapturedInputEvent,
    injected_event: InjectedInputEvent,
    a: i32,
    b: i32,
    sum: i32,
    hotkey: PhysicalKey,
)
    requires
        call_ensures(inject_event, (event,), injected_event),
        call_ensures(saturating_add_i32, (a, b), sum),
        call_ensures(default_panic_hotkey_key, (), hotkey),
    ensures
        is_same_input(event, injected_event),
        i32::MIN <= a + b <= i32::MAX ==> sum == a + b,
        a + b > i32::MAX ==> sum == i32::MAX,
        a + b < i32::MIN ==> sum == i32::MIN,
        hotkey == PhysicalKey::Code(1),
{
}

/// What is told of the state is what it is.
pub proof fn the_state_is_told_as_it_is(
    state: RuntimeInputState,
    mode: ControlMode,
    pending: Option<&PeerId>,
    pointer: Option<LogicalPoint>,
    modifiers: KeyboardModifiers,
)
    requires
        call_ensures(RuntimeInputState::mode, (&state,), mode),
        call_ensures(RuntimeInputState::pending_peer_id, (&state,), pending),
        call_ensures(RuntimeInputState::last_local_pointer, (&state,), pointer),
        call_ensures(RuntimeInputState::modifiers, (&state,), modifiers),
    ensures
        mode == state@.mode,
        pending is Some <==> state@.pending_peer_id is Some,
        pending matches Some(peer_id) ==> state@.pending_peer_id == Some(*peer_id),
        pointer == state@.last_local_pointer,
        modifiers.left_shift <==> state@.pressed_keys.contains(PhysicalKey::LeftShift),
        modifiers.right_shift <==> state@.pressed_keys.contains(PhysicalKey::RightShift),
        modifiers.left_control <==> state@.pressed_keys.contains(PhysicalKey::LeftControl),
        modifiers.right_control <==> state@.pressed_keys.contains(PhysicalKey::RightControl),
        modifiers.left_alt <==> state@.pressed_keys.contains(PhysicalKey::LeftAlt),
        modifiers.right_alt <==> state@.pressed_keys.contains(PhysicalKey::RightAlt),
        modifiers.left_meta <==> state@.pressed_keys.contains(PhysicalKey::LeftMeta),
        modifiers.right_meta <==> state@.pressed_keys.contains(PhysicalKey::RightMeta),
{
}

} // verus!
