//! Captured input: routing, watchdogs, recovery and the worker that ties them together.

use akraz::capture::{
    apply_routed_capture_event_to_state, dispatch_input_capture_idle_watchdog_action,
    drain_capture_events, inspect_runtime_environment_and_recover,
    required_input_capabilities_available, start_daemon_input_capture,
    start_daemon_input_capture_with_edge_bindings, start_daemon_input_capture_with_routing,
    start_monitored_daemon_input_capture_with_edge_bindings_dispatcher_and_logs,
    sync_capture_policy_with_state, CapturePoll, CapturedInputRouter, DaemonInputCaptureConfig, DaemonInputCaptureWorker,
    DaemonInputRoutingConfig, DaemonRuntime, InputCaptureIdleWatchdog, PowerResumeWatchdog,
    RuntimeEnvironmentWatchdog,
};
use akraz::logs::DaemonLogBuffer;
use akraz::managed::NANOS_PER_MILLI;
use akraz::platform::{
    input_capture_policy_for_control_mode, DesktopGeometry, DesktopMonitor, FakePlatformAdapter,
    InputCaptureConfig, InputCapturePolicy, InputCaptureSession, PlatformAdapter,
    PlatformCapabilities, PlatformError,
};
use akraz::recovery::{
    recover_local_control_and_release_inputs, recover_runtime_after_system_resume_and_dispatch,
    RuntimeRecoveryInterrupt,
};
use akraz::runtime::{
    default_panic_hotkey_key, saturating_add_i32, CapturedInputEvent, ControlMode, CoreAction,
    CoreTransitionError, EdgeCrossing, InjectedInputEvent, LogicalPoint, LogicalRect, LogicalSize,
    PeerId, PhysicalKey, PressState, RuntimeEvent, RuntimeInputState, ScreenEdge,
    ScreenEdgeBinding, ScreenLayout, SessionId,
};
use akraz::snapshot::{ControlModeSnapshot, DaemonLogLevel, InputReleaseAllResult};
use akraz::transport::{
    CoreActionDispatcher, DaemonTransportCommand, LocalPlatformCoreActionDispatcher,
    LoopbackPeerTransport, TransportCoreActionDispatcher,
};

const START: u64 = 7_000_000_000;

fn millis(count: u64) -> u64 {
    count * NANOS_PER_MILLI
}

#[derive(Debug, Default)]
struct RecordingCoreActionDispatcher {
    actions: Vec<CoreAction>,
}

impl CoreActionDispatcher for RecordingCoreActionDispatcher {
    fn dispatch_core_actions(&mut self, actions: &[CoreAction]) -> Result<(), PlatformError> {
        self.actions.extend_from_slice(actions);
        Ok(())
    }
}

#[derive(Debug)]
struct FailingCoreActionDispatcher;

impl CoreActionDispatcher for FailingCoreActionDispatcher {
    fn dispatch_core_actions(&mut self, _actions: &[CoreAction]) -> Result<(), PlatformError> {
        Err(PlatformError::new("dispatch unavailable"))
    }
}

fn right_edge_binding() -> ScreenEdgeBinding {
    ScreenEdgeBinding {
        local_edge: ScreenEdge::Right,
        peer_id: PeerId::new("right-peer"),
        remote_edge: ScreenEdge::Left,
    }
}

fn right_edge_layout() -> ScreenLayout {
    ScreenLayout::new(
        LogicalRect {
            origin: LogicalPoint { x: 0, y: 0 },
            size: LogicalSize { width: 1920, height: 1080 },
        },
        vec![right_edge_binding()],
    )
}

fn geometry(pointer: LogicalPoint, width: i32, height: i32) -> DesktopGeometry {
    let bounds = LogicalRect {
        origin: LogicalPoint { x: 0, y: 0 },
        size: LogicalSize { width, height },
    };
    DesktopGeometry {
        pointer_position: pointer,
        virtual_screen_bounds: bounds,
        monitors: vec![DesktopMonitor {
            id: "primary".to_string(),
            bounds,
            scale_factor_percent: Some(100),
            is_primary: true,
        }],
    }
}

fn desktop_geometry_at_right_edge() -> DesktopGeometry {
    geometry(LogicalPoint { x: 1919, y: 540 }, 1920, 1080)
}

fn routing_at_right_edge() -> DaemonInputRoutingConfig {
    DaemonInputRoutingConfig {
        screen_layout: right_edge_layout(),
        initial_pointer: LogicalPoint { x: 1919, y: 540 },
    }
}

fn right_edge_crossing() -> EdgeCrossing {
    EdgeCrossing {
        peer_id: PeerId::new("right-peer"),
        local_edge: ScreenEdge::Right,
        remote_edge: ScreenEdge::Left,
        exit_position: LogicalPoint { x: 1920, y: 540 },
        edge_offset: 540,
    }
}

fn remote_state(peer: &str, session: &str) -> RuntimeInputState {
    let mut state = RuntimeInputState::new();
    state
        .apply_event(RuntimeEvent::RemoteEntryRequested { peer_id: PeerId::new(peer) })
        .expect("remote entry request");
    state
        .apply_event(RuntimeEvent::RemoteEntryConfirmed { session_id: SessionId::new(session) })
        .expect("remote entry confirmed");
    state
}

fn recovery_actions(session: &str) -> Vec<CoreAction> {
    vec![
        CoreAction::ReleaseLocalInputs,
        CoreAction::ReleaseAllInputs,
        CoreAction::StopRemoteSession { session_id: Some(SessionId::new(session)) },
    ]
}

fn pointer_moved(delta_x: i32, delta_y: i32) -> CapturedInputEvent {
    CapturedInputEvent::PointerMoved { delta_x, delta_y }
}

fn pressed(key: PhysicalKey) -> CapturedInputEvent {
    CapturedInputEvent::Key { key, state: PressState::Pressed }
}

fn capture_config() -> DaemonInputCaptureConfig {
    DaemonInputCaptureConfig {
        input_capture: InputCaptureConfig { event_buffer_capacity: 8 },
        drain_batch_size: 8,
        idle_poll_interval: NANOS_PER_MILLI,
    }
}

/// Let a worker read everything that was captured.
fn run_worker<D: CoreActionDispatcher>(
    runtime: &mut DaemonRuntime<FakePlatformAdapter, D>,
    worker: Result<DaemonInputCaptureWorker, PlatformError>,
) -> DaemonInputCaptureWorker {
    let mut worker = match worker {
        Ok(worker) => worker,
        Err(error) => panic!("expected daemon capture worker: {}", error.message()),
    };
    let more = worker
        .run_daemon_input_capture_worker(runtime, CapturePoll::Started, START)
        .expect("capture start");
    assert!(more);
    while let Some(event) = worker.capture.try_recv() {
        let more = worker
            .run_daemon_input_capture_worker(runtime, CapturePoll::Event(event), START)
            .expect("capture step");
        assert!(more);
    }
    worker
}

fn runtime<D>(state: RuntimeInputState, dispatcher: D) -> DaemonRuntime<FakePlatformAdapter, D> {
    runtime_on(FakePlatformAdapter::default(), state, dispatcher)
}

fn runtime_on<D>(
    platform: FakePlatformAdapter,
    state: RuntimeInputState,
    dispatcher: D,
) -> DaemonRuntime<FakePlatformAdapter, D> {
    DaemonRuntime { state, platform, dispatcher, logs: Some(DaemonLogBuffer::new(8)) }
}

fn captures(events: Vec<CapturedInputEvent>) -> FakePlatformAdapter {
    FakePlatformAdapter::default().with_captured_events(events)
}

#[test]
fn drain_capture_events_applies_bounded_input_to_core_state() {
    let mut press_platform = captures(vec![CapturedInputEvent::Key {
        key: PhysicalKey::LeftShift,
        state: PressState::Pressed,
    }]);
    let mut release_platform = captures(vec![CapturedInputEvent::Key {
        key: PhysicalKey::LeftShift,
        state: PressState::Released,
    }]);
    let mut press_capture = press_platform
        .start_input_capture(InputCaptureConfig::default())
        .expect("fake press capture session");
    let mut release_capture = release_platform
        .start_input_capture(InputCaptureConfig::default())
        .expect("fake release capture session");
    let mut state = RuntimeInputState::new();

    let first_actions =
        drain_capture_events(&mut state, &mut press_capture, 1).expect("first capture drain");

    assert!(first_actions.is_empty());
    assert!(state.pressed_keys().contains(&PhysicalKey::LeftShift));
    assert!(state.modifiers().left_shift);

    let second_actions =
        drain_capture_events(&mut state, &mut release_capture, 1).expect("second capture drain");

    assert!(second_actions.is_empty());
    assert!(!state.pressed_keys().contains(&PhysicalKey::LeftShift));
    assert!(!state.modifiers().left_shift);
}

#[test]
fn a_drain_stops_at_its_bound() {
    let mut capture = InputCaptureSession::new(vec![
        pressed(PhysicalKey::LeftShift),
        pressed(PhysicalKey::LeftAlt),
    ]);
    let mut state = RuntimeInputState::new();

    drain_capture_events(&mut state, &mut capture, 1).expect("bounded drain");

    assert!(state.is_pressed(PhysicalKey::LeftShift));
    assert!(!state.is_pressed(PhysicalKey::LeftAlt));
    assert_eq!(capture.try_recv(), Some(pressed(PhysicalKey::LeftAlt)));
    assert_eq!(capture.try_recv(), None);
}

#[test]
fn routed_pointer_delta_updates_local_pointer_without_edge_crossing() {
    let mut state = RuntimeInputState::new();
    let mut router = CapturedInputRouter::new(DaemonInputRoutingConfig {
        screen_layout: right_edge_layout(),
        initial_pointer: LogicalPoint { x: 100, y: 100 },
    });

    let actions = apply_routed_capture_event_to_state(
        &mut state,
        &mut router,
        CapturedInputEvent::PointerMoved { delta_x: 5, delta_y: -3 },
    )
    .expect("routed pointer move");

    assert!(actions.is_empty());
    assert_eq!(state.mode(), ControlMode::Local);
    assert_eq!(state.last_local_pointer(), Some(LogicalPoint { x: 105, y: 97 }));
}

#[test]
fn routing_config_uses_platform_geometry_and_configured_edges() {
    let config = DaemonInputRoutingConfig::from_desktop_geometry(
        desktop_geometry_at_right_edge(),
        vec![right_edge_binding()],
    );

    assert_eq!(config.initial_pointer, LogicalPoint { x: 1919, y: 540 });
    assert_eq!(config.screen_layout, right_edge_layout());
}

#[test]
fn routed_pointer_delta_requests_remote_entry_on_edge_crossing() {
    let mut state = RuntimeInputState::new();
    let mut router = CapturedInputRouter::new(routing_at_right_edge());

    let actions = apply_routed_capture_event_to_state(
        &mut state,
        &mut router,
        CapturedInputEvent::PointerMoved { delta_x: 1, delta_y: 0 },
    )
    .expect("routed edge crossing");

    assert_eq!(state.mode(), ControlMode::EnteringRemote);
    assert_eq!(state.pending_peer_id(), Some(&PeerId::new("right-peer")));
    assert_eq!(state.last_local_pointer(), Some(LogicalPoint { x: 1920, y: 540 }));
    assert_eq!(
        actions,
        vec![CoreAction::StartRemoteSession {
            peer_id: PeerId::new("right-peer"),
            crossing: Some(EdgeCrossing {
                peer_id: PeerId::new("right-peer"),
                local_edge: ScreenEdge::Right,
                remote_edge: ScreenEdge::Left,
                exit_position: LogicalPoint { x: 1920, y: 540 },
                edge_offset: 540,
            }),
        }]
    );
}

#[test]
fn routed_pointer_delta_remains_forwardable_while_remote() {
    let mut state = remote_state("right-peer", "session-1");
    let mut router = CapturedInputRouter::new(routing_at_right_edge());

    let actions = apply_routed_capture_event_to_state(
        &mut state,
        &mut router,
        CapturedInputEvent::PointerMoved { delta_x: 8, delta_y: 2 },
    )
    .expect("routed remote pointer move");

    assert_eq!(
        actions,
        vec![CoreAction::ForwardInput {
            event: InjectedInputEvent::PointerMoved { delta_x: 8, delta_y: 2 },
        }]
    );
}

#[test]
fn input_capture_policy_consumes_only_remote_mode() {
    assert_eq!(
        input_capture_policy_for_control_mode(ControlMode::Local),
        InputCapturePolicy::PassThrough
    );
    assert_eq!(
        input_capture_policy_for_control_mode(ControlMode::EnteringRemote),
        InputCapturePolicy::PassThrough
    );
    assert_eq!(
        input_capture_policy_for_control_mode(ControlMode::Remote),
        InputCapturePolicy::ConsumeCapturedInput
    );
    assert_eq!(
        input_capture_policy_for_control_mode(ControlMode::LeavingRemote),
        InputCapturePolicy::PassThrough
    );
    assert_eq!(
        input_capture_policy_for_control_mode(ControlMode::Suspended),
        InputCapturePolicy::PassThrough
    );
}

#[test]
fn capture_idle_watchdog_reports_once_per_idle_period() {
    let now = START;
    let mut watchdog = InputCaptureIdleWatchdog::new(millis(20), now);

    assert_eq!(watchdog.record_idle_poll(now + millis(19)), None);
    assert_eq!(watchdog.record_idle_poll(now + millis(20)), Some(CoreAction::InputCaptureIdle));
    assert_eq!(watchdog.record_idle_poll(now + millis(40)), None);
}

#[test]
fn capture_idle_watchdog_rearms_after_progress() {
    let now = START;
    let mut watchdog = InputCaptureIdleWatchdog::new(millis(20), now);

    assert_eq!(watchdog.record_idle_poll(now + millis(20)), Some(CoreAction::InputCaptureIdle));

    watchdog.record_progress(now + millis(25));

    assert_eq!(watchdog.record_idle_poll(now + millis(44)), None);
    assert_eq!(watchdog.record_idle_poll(now + millis(45)), Some(CoreAction::InputCaptureIdle));
}

#[test]
fn power_resume_watchdog_reports_only_long_poll_gaps() {
    let now = START;
    let mut watchdog = PowerResumeWatchdog::new(millis(5_000), now);

    assert!(!watchdog.record_poll(now + millis(4_000)));
    assert!(watchdog.record_poll(now + millis(9_000)));
    assert!(!watchdog.record_poll(now + millis(10_000)));
}

#[test]
fn resume_recovery_logs_sanitized_watchdog_event() {
    let mut state = remote_state("secret-peer-id", "secret-session-id");
    let mut dispatcher = RecordingCoreActionDispatcher::default();
    let mut logs = Some(DaemonLogBuffer::new(8));

    recover_runtime_after_system_resume_and_dispatch(&mut state, &mut dispatcher, &mut logs)
        .expect("resume recovery");

    let entries = logs.expect("daemon logs").tail(8);
    let told = format!("{entries:?}");

    assert_eq!(entries.len(), 1);
    assert_eq!(entries[0].level, DaemonLogLevel::Warn);
    assert_eq!(entries[0].event, "input.capture.resume");
    assert!(dispatcher.actions.contains(&CoreAction::ReleaseLocalInputs));
    assert!(!told.contains("secret-peer-id"));
    assert!(!told.contains("secret-session-id"));
}

#[test]
fn a_recovery_is_logged_before_it_is_dispatched() {
    let mut state = remote_state("right-peer", "session-1");
    let mut logs = Some(DaemonLogBuffer::new(8));

    let error = recover_runtime_after_system_resume_and_dispatch(
        &mut state,
        &mut FailingCoreActionDispatcher,
        &mut logs,
    )
    .expect_err("dispatch fails");

    assert_eq!(error.message(), "dispatch unavailable");
    assert_eq!(state.mode(), ControlMode::Local);
    let entries = logs.expect("daemon logs").tail(8);
    assert_eq!(entries.len(), 1);
    assert_eq!(entries[0].event, RuntimeRecoveryInterrupt::SystemResumed.success_log_event());
}

#[test]
fn runtime_environment_watchdog_recovers_after_screen_layout_change() {
    let mut runtime = DaemonRuntime {
        state: remote_state("right-peer", "session-layout"),
        platform: FakePlatformAdapter::default().with_desktop_geometry(geometry(
            LogicalPoint { x: 2559, y: 720 },
            2560,
            1440,
        )),
        dispatcher: RecordingCoreActionDispatcher::default(),
        logs: Some(DaemonLogBuffer::new(8)),
    };
    let now = START;
    let mut watchdog = RuntimeEnvironmentWatchdog::new(millis(1), now);
    let mut router = CapturedInputRouter::new(routing_at_right_edge());

    inspect_runtime_environment_and_recover(
        &mut runtime,
        &mut router,
        &mut watchdog,
        now + millis(1),
    )
    .expect("runtime environment inspection");

    assert_eq!(runtime.state.mode(), ControlMode::Local);
    assert_eq!(runtime.dispatcher.actions, recovery_actions("session-layout"));
    assert_eq!(router.current_pointer, LogicalPoint { x: 2559, y: 720 });
    assert_eq!(router.screen_layout.local_bounds.size.width, 2560);
    assert_eq!(router.screen_layout.local_bounds.size.height, 1440);

    let entries = runtime.logs.expect("daemon logs").tail(8);
    assert_eq!(entries.len(), 1);
    assert_eq!(entries[0].level, DaemonLogLevel::Warn);
    assert_eq!(entries[0].event, "input.capture.layoutChanged");
}

#[test]
fn an_inspection_that_is_not_due_looks_at_nothing() {
    let mut runtime = runtime(
        remote_state("right-peer", "session-1"),
        RecordingCoreActionDispatcher::default(),
    );
    let mut watchdog = RuntimeEnvironmentWatchdog::new(millis(5), START);
    let mut router = CapturedInputRouter::new(DaemonInputRoutingConfig::default());
    assert!(watchdog.record_poll(START));

    inspect_runtime_environment_and_recover(
        &mut runtime,
        &mut router,
        &mut watchdog,
        START + millis(4),
    )
    .expect("no inspection");

    assert_eq!(runtime.state.mode(), ControlMode::Remote);
    assert!(runtime.dispatcher.actions.is_empty());
}

#[test]
fn capture_idle_recovery_logs_sanitized_watchdog_event() {
    let mut dispatcher = RecordingCoreActionDispatcher::default();
    let mut logs = Some(DaemonLogBuffer::new(8));

    dispatch_input_capture_idle_watchdog_action(
        &mut dispatcher,
        &mut logs,
        CoreAction::InputCaptureIdle,
    )
    .expect("idle watchdog dispatch");

    let entries = logs.expect("daemon logs").tail(8);
    let told = format!("{entries:?}");

    assert_eq!(entries.len(), 1);
    assert_eq!(entries[0].level, DaemonLogLevel::Warn);
    assert_eq!(entries[0].event, "input.capture.idle");
    assert!(dispatcher.actions.contains(&CoreAction::InputCaptureIdle));
    assert!(!told.contains("privateKey"));
    assert!(!told.contains("actualKeyInput"));
}

#[test]
fn capture_policy_sync_follows_shared_remote_state() {
    let mut capture = InputCaptureSession::new(Vec::new());
    let mut state = RuntimeInputState::new();

    sync_capture_policy_with_state(&mut capture, &state);

    assert_eq!(capture.policy(), InputCapturePolicy::PassThrough);

    state
        .apply_event(RuntimeEvent::RemoteEntryRequested { peer_id: PeerId::new("right-peer") })
        .expect("remote entry request");
    state
        .apply_event(RuntimeEvent::RemoteEntryConfirmed { session_id: SessionId::new("session-1") })
        .expect("remote entry confirmed");

    sync_capture_policy_with_state(&mut capture, &state);

    assert_eq!(capture.policy(), InputCapturePolicy::ConsumeCapturedInput);
}

#[test]
fn transport_dispatcher_maps_core_actions_in_order() {
    let mut dispatcher = TransportCoreActionDispatcher::new(LoopbackPeerTransport::default());
    let crossing = right_edge_crossing();

    dispatcher
        .dispatch_core_actions(&[
            CoreAction::StartRemoteSession {
                peer_id: PeerId::new("right-peer"),
                crossing: Some(crossing.clone()),
            },
            CoreAction::ForwardInput {
                event: InjectedInputEvent::PointerMoved { delta_x: 8, delta_y: 2 },
            },
            CoreAction::ReleaseAllInputs,
            CoreAction::StopRemoteSession { session_id: Some(SessionId::new("session-1")) },
        ])
        .expect("transport command dispatch");

    assert_eq!(
        dispatcher.transport().snapshot(),
        vec![
            DaemonTransportCommand::StartRemoteSession {
                peer_id: PeerId::new("right-peer"),
                crossing: Some(crossing),
            },
            DaemonTransportCommand::ForwardInput {
                event: InjectedInputEvent::PointerMoved { delta_x: 8, delta_y: 2 },
            },
            DaemonTransportCommand::ReleaseAllInputs,
            DaemonTransportCommand::StopRemoteSession {
                session_id: Some(SessionId::new("session-1")),
            },
        ]
    );
}

#[test]
fn transport_dispatcher_ignores_local_release_actions() {
    let mut dispatcher = TransportCoreActionDispatcher::new(LoopbackPeerTransport::default());

    dispatcher
        .dispatch_core_actions(&[
            CoreAction::InputCaptureIdle,
            CoreAction::ReleaseLocalInputs,
            CoreAction::ReleaseAllInputs,
        ])
        .expect("transport command dispatch");

    assert_eq!(
        dispatcher.transport().snapshot(),
        vec![DaemonTransportCommand::ReleaseAllInputs]
    );
}

#[test]
fn local_platform_dispatcher_delegates_idle_watchdog_without_local_release() {
    let mut dispatcher = LocalPlatformCoreActionDispatcher::new(
        FakePlatformAdapter::default(),
        RecordingCoreActionDispatcher::default(),
    );

    dispatcher
        .dispatch_core_actions(&[CoreAction::InputCaptureIdle])
        .expect("local platform dispatch");

    assert_eq!(dispatcher.platform().release_all_count(), 0);
    assert_eq!(dispatcher.next().actions, vec![CoreAction::InputCaptureIdle]);
}

#[test]
fn local_platform_dispatcher_releases_local_inputs_and_delegates_remote_actions() {
    let mut dispatcher = LocalPlatformCoreActionDispatcher::new(
        FakePlatformAdapter::default(),
        TransportCoreActionDispatcher::new(LoopbackPeerTransport::default()),
    );

    dispatcher
        .dispatch_core_actions(&[
            CoreAction::ReleaseLocalInputs,
            CoreAction::ReleaseAllInputs,
            CoreAction::StopRemoteSession { session_id: Some(SessionId::new("session-1")) },
        ])
        .expect("local platform dispatch");

    assert_eq!(dispatcher.platform().release_all_count(), 1);
    assert_eq!(
        dispatcher.next().transport().snapshot(),
        vec![
            DaemonTransportCommand::ReleaseAllInputs,
            DaemonTransportCommand::StopRemoteSession {
                session_id: Some(SessionId::new("session-1")),
            },
        ]
    );
}

#[test]
fn release_all_command_recovers_local_control_and_dispatches_release_actions() {
    let mut state = remote_state("right-peer", "session-cli");
    let mut dispatcher = RecordingCoreActionDispatcher::default();

    let result = recover_local_control_and_release_inputs(&mut state, &mut dispatcher)
        .expect("release all command");

    assert_eq!(
        result,
        InputReleaseAllResult { released: true, mode: ControlModeSnapshot::Local }
    );
    assert_eq!(state.mode(), ControlMode::Local);
    assert_eq!(dispatcher.actions, recovery_actions("session-cli"));
}

#[test]
fn daemon_input_capture_worker_drains_events_into_shared_state() {
    let mut runtime = runtime_on(
        captures(vec![CapturedInputEvent::Key {
            key: PhysicalKey::LeftShift,
            state: PressState::Pressed,
        }]),
        RuntimeInputState::new(),
        RecordingCoreActionDispatcher::default(),
    );

    let worker = start_daemon_input_capture(&mut runtime, capture_config(), START);
    run_worker(&mut runtime, worker);

    assert!(runtime.state.pressed_keys().contains(&PhysicalKey::LeftShift));
    assert!(runtime.state.modifiers().left_shift);
}

#[test]
fn daemon_input_capture_worker_uses_platform_geometry_for_initial_pointer() {
    let mut runtime = runtime_on(
        captures(vec![pointer_moved(1, 0)])
            .with_desktop_geometry(desktop_geometry_at_right_edge()),
        RuntimeInputState::new(),
        RecordingCoreActionDispatcher::default(),
    );

    let worker = start_daemon_input_capture(&mut runtime, capture_config(), START);
    run_worker(&mut runtime, worker);

    assert_eq!(runtime.state.last_local_pointer(), Some(LogicalPoint { x: 1920, y: 540 }));
    assert_eq!(runtime.state.mode(), ControlMode::Local);
}

#[test]
fn daemon_input_capture_worker_routes_pointer_crossing_into_shared_state() {
    let mut runtime =
        runtime(RuntimeInputState::new(), RecordingCoreActionDispatcher::default());

    runtime.platform = captures(vec![pointer_moved(1, 0)]);
    let worker = start_daemon_input_capture_with_routing(
        &mut runtime,
        capture_config(),
        routing_at_right_edge(),
        START,
    );
    run_worker(&mut runtime, worker);

    assert_eq!(runtime.state.mode(), ControlMode::EnteringRemote);
    assert_eq!(runtime.state.pending_peer_id(), Some(&PeerId::new("right-peer")));
    assert_eq!(runtime.state.last_local_pointer(), Some(LogicalPoint { x: 1920, y: 540 }));
}

#[test]
fn daemon_input_capture_worker_dispatches_edge_crossing_action() {
    let mut runtime =
        runtime(RuntimeInputState::new(), RecordingCoreActionDispatcher::default());
    let expected_action = CoreAction::StartRemoteSession {
        peer_id: PeerId::new("right-peer"),
        crossing: Some(right_edge_crossing()),
    };

    runtime.platform = captures(vec![pointer_moved(1, 0)]);
    let worker = start_daemon_input_capture_with_routing(
        &mut runtime,
        capture_config(),
        routing_at_right_edge(),
        START,
    );
    run_worker(&mut runtime, worker);

    assert!(runtime.dispatcher.actions.contains(&expected_action));
}

#[test]
fn daemon_input_capture_worker_dispatches_edge_crossing_transport_command() {
    let mut runtime = runtime(
        RuntimeInputState::new(),
        TransportCoreActionDispatcher::new(LoopbackPeerTransport::default()),
    );
    let expected_command = DaemonTransportCommand::StartRemoteSession {
        peer_id: PeerId::new("right-peer"),
        crossing: Some(right_edge_crossing()),
    };

    runtime.platform = captures(vec![pointer_moved(1, 0)]);
    let worker = start_daemon_input_capture_with_routing(
        &mut runtime,
        capture_config(),
        routing_at_right_edge(),
        START,
    );
    run_worker(&mut runtime, worker);

    assert!(runtime.dispatcher.transport().snapshot().contains(&expected_command));
}

#[test]
fn daemon_input_capture_worker_dispatches_panic_hotkey_recovery() {
    let mut runtime = runtime(
        remote_state("right-peer", "session-1"),
        LocalPlatformCoreActionDispatcher::new(
            FakePlatformAdapter::default(),
            TransportCoreActionDispatcher::new(LoopbackPeerTransport::default()),
        ),
    );
    let expected_release = DaemonTransportCommand::ReleaseAllInputs;
    let expected_stop = DaemonTransportCommand::StopRemoteSession {
        session_id: Some(SessionId::new("session-1")),
    };

    runtime.platform = captures(vec![
        pressed(PhysicalKey::LeftControl),
        pressed(PhysicalKey::LeftAlt),
        pressed(default_panic_hotkey_key()),
    ]);
    let worker = start_daemon_input_capture_with_routing(
        &mut runtime,
        capture_config(),
        routing_at_right_edge(),
        START,
    );
    run_worker(&mut runtime, worker);

    assert_eq!(runtime.dispatcher.platform().release_all_count(), 1);
    assert_eq!(runtime.state.mode(), ControlMode::Local);
    assert_eq!(
        runtime.dispatcher.next().transport().snapshot(),
        vec![
            DaemonTransportCommand::ForwardInput {
                event: InjectedInputEvent::Key {
                    key: PhysicalKey::LeftControl,
                    state: PressState::Pressed,
                },
            },
            DaemonTransportCommand::ForwardInput {
                event: InjectedInputEvent::Key {
                    key: PhysicalKey::LeftAlt,
                    state: PressState::Pressed,
                },
            },
            expected_release,
            expected_stop,
        ]
    );
}

#[test]
fn monitored_daemon_input_capture_worker_recovers_after_permission_loss() {
    let mut runtime = DaemonRuntime {
        state: remote_state("right-peer", "session-permission"),
        platform: FakePlatformAdapter::new(PlatformCapabilities {
            can_capture_pointer: true,
            can_capture_keyboard: false,
            can_inject_pointer: true,
            can_inject_keyboard: true,
        }),
        dispatcher: RecordingCoreActionDispatcher::default(),
        logs: Some(DaemonLogBuffer::new(8)),
    };
    let worker = start_monitored_daemon_input_capture_with_edge_bindings_dispatcher_and_logs(
        &mut runtime,
        capture_config(),
        vec![right_edge_binding()],
        START,
    );
    let mut worker = run_worker(&mut runtime, worker);

    let more = worker
        .run_daemon_input_capture_worker(
            &mut runtime,
            CapturePoll::Timeout,
            START + millis(250),
        )
        .expect("capture step");

    assert!(more);
    assert_eq!(runtime.dispatcher.actions[0..3], recovery_actions("session-permission")[..]);
    assert_eq!(runtime.state.mode(), ControlMode::Local);
    let entries = runtime.logs.expect("daemon logs").tail(8);
    assert_eq!(entries[0].level, DaemonLogLevel::Warn);
    assert_eq!(entries[0].event, "input.capture.permissionLost");
}

#[test]
fn monitored_daemon_input_capture_worker_recovers_after_screen_layout_change() {
    let mut runtime = DaemonRuntime {
        state: remote_state("right-peer", "session-layout"),
        platform: FakePlatformAdapter::default()
            .with_desktop_geometry(desktop_geometry_at_right_edge()),
        dispatcher: RecordingCoreActionDispatcher::default(),
        logs: Some(DaemonLogBuffer::new(8)),
    };
    let worker = start_monitored_daemon_input_capture_with_edge_bindings_dispatcher_and_logs(
        &mut runtime,
        capture_config(),
        vec![right_edge_binding()],
        START,
    );
    let mut worker = run_worker(&mut runtime, worker);
    runtime.platform = FakePlatformAdapter::default().with_desktop_geometry(geometry(
        LogicalPoint { x: 2559, y: 720 },
        2560,
        1440,
    ));

    worker
        .run_daemon_input_capture_worker(
            &mut runtime,
            CapturePoll::Timeout,
            START + millis(250),
        )
        .expect("capture step");

    let expected = recovery_actions("session-layout");
    assert!(runtime.dispatcher.actions.windows(expected.len()).any(|seen| seen == expected));
    assert_eq!(runtime.state.mode(), ControlMode::Local);
    let entries = runtime.logs.expect("daemon logs").tail(8);
    assert!(entries.iter().any(|entry| {
        entry.level == DaemonLogLevel::Warn && entry.event == "input.capture.layoutChanged"
    }));
}

#[test]
fn daemon_input_capture_worker_dispatches_remote_forward_action() {
    let mut runtime = runtime(
        remote_state("right-peer", "session-1"),
        RecordingCoreActionDispatcher::default(),
    );
    let expected_action = CoreAction::ForwardInput {
        event: InjectedInputEvent::PointerMoved { delta_x: 8, delta_y: 2 },
    };

    runtime.platform = captures(vec![pointer_moved(8, 2)]);
    let worker = start_daemon_input_capture_with_routing(
        &mut runtime,
        capture_config(),
        routing_at_right_edge(),
        START,
    );
    run_worker(&mut runtime, worker);

    assert!(runtime.dispatcher.actions.contains(&expected_action));
}

#[test]
fn daemon_input_capture_worker_routes_configured_edge_binding_from_platform_geometry() {
    let mut runtime = runtime_on(
        captures(vec![pointer_moved(1, 0)])
            .with_desktop_geometry(desktop_geometry_at_right_edge()),
        RuntimeInputState::new(),
        RecordingCoreActionDispatcher::default(),
    );

    let worker = start_daemon_input_capture_with_edge_bindings(
        &mut runtime,
        capture_config(),
        vec![right_edge_binding()],
        START,
    );
    run_worker(&mut runtime, worker);

    assert_eq!(runtime.state.mode(), ControlMode::EnteringRemote);
    assert_eq!(runtime.state.pending_peer_id(), Some(&PeerId::new("right-peer")));
    assert_eq!(runtime.state.last_local_pointer(), Some(LogicalPoint { x: 1920, y: 540 }));
}

#[test]
fn a_worker_ends_when_its_input_does() {
    let mut runtime =
        runtime(RuntimeInputState::new(), RecordingCoreActionDispatcher::default());
    let worker = start_daemon_input_capture_with_routing(
        &mut runtime,
        capture_config(),
        routing_at_right_edge(),
        START,
    );
    let mut worker = run_worker(&mut runtime, worker);

    let more = worker
        .run_daemon_input_capture_worker(&mut runtime, CapturePoll::Disconnected, START)
        .expect("capture step");

    assert!(!more);
}

#[test]
fn a_worker_that_waits_too_long_reports_it_once() {
    let mut runtime =
        runtime(RuntimeInputState::new(), RecordingCoreActionDispatcher::default());
    let worker = start_daemon_input_capture_with_routing(
        &mut runtime,
        capture_config(),
        routing_at_right_edge(),
        START,
    );
    let mut worker = run_worker(&mut runtime, worker);
    let timeout = worker.config.bounded_idle_watchdog_timeout();

    for later in [timeout - 1, timeout, timeout + 1] {
        worker
            .run_daemon_input_capture_worker(&mut runtime, CapturePoll::Timeout, START + later)
            .expect("capture step");
    }

    assert_eq!(runtime.dispatcher.actions, vec![CoreAction::InputCaptureIdle]);
}

#[test]
fn captured_input_leaves_no_trace_in_the_log() {
    let mut runtime = runtime_on(
        captures(vec![pressed(PhysicalKey::LeftShift), pointer_moved(7, -3)]),
        remote_state("right-peer", "session-1"),
        RecordingCoreActionDispatcher::default(),
    );
    let worker = start_daemon_input_capture_with_routing(
        &mut runtime,
        capture_config(),
        routing_at_right_edge(),
        START,
    );
    let mut worker = run_worker(&mut runtime, worker);
    assert_eq!(runtime.logs.as_ref().expect("daemon logs").tail(8), vec![]);

    worker
        .run_daemon_input_capture_worker(
            &mut runtime,
            CapturePoll::Event(pressed(PhysicalKey::LeftShift)),
            START + millis(60_000),
        )
        .expect("capture step");
    let entries = runtime.logs.expect("daemon logs").tail(8);
    assert_eq!(entries.len(), 1);
    assert_eq!(
        entries[0].message,
        RuntimeRecoveryInterrupt::SystemResumed.success_log_message()
    );
}

#[test]
fn a_monitored_worker_looks_around_before_it_waits() {
    let mut runtime = DaemonRuntime {
        state: remote_state("right-peer", "session-1"),
        platform: FakePlatformAdapter::new(PlatformCapabilities {
            can_capture_pointer: true,
            can_capture_keyboard: true,
            can_inject_pointer: true,
            can_inject_keyboard: false,
        }),
        dispatcher: RecordingCoreActionDispatcher::default(),
        logs: Some(DaemonLogBuffer::new(8)),
    };
    let mut worker = start_monitored_daemon_input_capture_with_edge_bindings_dispatcher_and_logs(
        &mut runtime,
        capture_config(),
        vec![right_edge_binding()],
        START,
    )
    .expect("capture worker");
    assert_eq!(runtime.state.mode(), ControlMode::Remote);
    assert_eq!(worker.capture.policy(), InputCapturePolicy::ConsumeCapturedInput);

    worker
        .run_daemon_input_capture_worker(&mut runtime, CapturePoll::Started, START)
        .expect("capture start");

    assert_eq!(runtime.state.mode(), ControlMode::Local);
    assert_eq!(worker.capture.policy(), InputCapturePolicy::PassThrough);
    assert_eq!(runtime.dispatcher.actions, recovery_actions("session-1"));
}

#[test]
fn a_late_wait_lets_input_through_again() {
    let mut runtime = runtime(
        remote_state("right-peer", "session-1"),
        RecordingCoreActionDispatcher::default(),
    );
    let worker = start_daemon_input_capture_with_routing(
        &mut runtime,
        capture_config(),
        routing_at_right_edge(),
        START,
    );
    let mut worker = run_worker(&mut runtime, worker);
    assert_eq!(worker.capture.policy(), InputCapturePolicy::ConsumeCapturedInput);

    worker
        .run_daemon_input_capture_worker(
            &mut runtime,
            CapturePoll::Timeout,
            START + millis(60_000),
        )
        .expect("capture step");

    assert_eq!(runtime.state.mode(), ControlMode::Local);
    assert_eq!(worker.capture.policy(), InputCapturePolicy::PassThrough);
}

#[test]
fn a_worker_takes_control_back_after_the_machine_slept() {
    let mut runtime = runtime(
        remote_state("right-peer", "session-1"),
        RecordingCoreActionDispatcher::default(),
    );
    let worker = start_daemon_input_capture_with_routing(
        &mut runtime,
        capture_config(),
        routing_at_right_edge(),
        START,
    );
    let mut worker = run_worker(&mut runtime, worker);

    worker
        .run_daemon_input_capture_worker(
            &mut runtime,
            CapturePoll::Timeout,
            START + millis(60_000),
        )
        .expect("capture step");

    assert_eq!(runtime.state.mode(), ControlMode::Local);
    assert_eq!(runtime.dispatcher.actions[0..3], recovery_actions("session-1")[..]);
}

#[test]
fn capture_settings_are_kept_within_their_bounds() {
    let nothing = DaemonInputCaptureConfig {
        input_capture: InputCaptureConfig { event_buffer_capacity: 0 },
        drain_batch_size: 0,
        idle_poll_interval: 0,
    };
    assert_eq!(nothing.bounded_drain_batch_size(), 1);
    assert_eq!(nothing.bounded_idle_poll_interval(), 25 * NANOS_PER_MILLI);
    assert_eq!(nothing.bounded_idle_watchdog_timeout(), 2_000 * NANOS_PER_MILLI);

    let usual = DaemonInputCaptureConfig::default();
    assert_eq!(usual.bounded_drain_batch_size(), 64);
    assert_eq!(usual.bounded_idle_poll_interval(), 25 * NANOS_PER_MILLI);
    assert_eq!(usual.bounded_idle_watchdog_timeout(), 2_000 * NANOS_PER_MILLI);
}

#[test]
fn control_can_only_be_entered_step_by_step() {
    let mut state = RuntimeInputState::new();

    let error = state
        .apply_event(RuntimeEvent::RemoteEntryConfirmed { session_id: SessionId::new("session") })
        .expect_err("nothing was requested");
    assert_eq!(error, CoreTransitionError::ConfirmationWithoutPendingEntry);
    assert_eq!(state.mode(), ControlMode::Local);

    let mut remote = remote_state("right-peer", "session");
    let error = remote
        .apply_event(RuntimeEvent::RemoteEntryRequested { peer_id: PeerId::new("left-peer") })
        .expect_err("control is remote already");
    assert_eq!(error, CoreTransitionError::RemoteEntryOutsideLocalMode);
    assert_eq!(remote.mode(), ControlMode::Remote);
}

#[test]
fn positions_never_leave_the_range_of_coordinates() {
    assert_eq!(saturating_add_i32(i32::MAX, 1), i32::MAX);
    assert_eq!(saturating_add_i32(i32::MIN, -1), i32::MIN);
    assert_eq!(saturating_add_i32(40, 2), 42);
}

#[test]
fn input_needs_every_permission() {
    let all = PlatformCapabilities {
        can_capture_pointer: true,
        can_capture_keyboard: true,
        can_inject_pointer: true,
        can_inject_keyboard: true,
    };
    assert!(required_input_capabilities_available(&all));
    assert!(!required_input_capabilities_available(&PlatformCapabilities {
        can_inject_pointer: false,
        ..all
    }));
}
