//! What the daemon tells about itself and the machine it runs on.

use vstd::prelude::*;

use crate::discovery::clone_text;
use crate::identity::{Ed25519PublicKey, TrustedPeer, TrustedPeerIdentity};
use crate::managed::ManagedPeerSessionTransport;
use crate::peers::{
    build_discovery_session_candidates, DiscoveredPeer, DiscoveryPeerFilter,
    DiscoverySessionCandidate,
};
use crate::platform::{
    DesktopGeometry, KeyboardLayoutSnapshot, PlatformAdapter, PlatformCall, PlatformCapabilities,
    PlatformError,
};
use crate::protocol::{peer_session_capabilities, ProtocolVersion};
use crate::runtime::{DeviceId, RuntimeInputState};
use crate::services::{NoSessionServices, SessionServices};
use crate::snapshot::{
    keyboard_layout_snapshot, monitor_snapshot, ControlModeSnapshot, DaemonStatus,
    DiagnosticsKeyboardLayout, DiagnosticsMonitorSnapshot, DiagnosticsScreenTopology,
    IpcPlatformCapabilities, LogicalPointSnapshot, LogicalRectSnapshot, PeerStatus,
    PermissionIssue, PermissionsProbe, ProtocolVersionSnapshot, SessionDiscoveryCandidate,
    SessionDiscoveryCandidatesResult,
};

verus! {

/// The version of the daemon.
pub const DAEMON_VERSION: &'static str = "0.5.6";

/// What is missing on a machine, by code and message.
pub open spec fn missing(
    issues: Seq<(Seq<char>, Seq<char>)>,
    available: bool,
    code: Seq<char>,
    message: Seq<char>,
) -> Seq<(Seq<char>, Seq<char>)> {
    if available {
        issues
    } else {
        issues.push((code, message))
    }
}

/// Everything that is missing on a machine.
pub open spec fn missing_capabilities(capabilities: PlatformCapabilities) -> Seq<
    (Seq<char>, Seq<char>),
> {
    missing(
        missing(
            missing(
                missing(
                    Seq::empty(),
                    capabilities.can_capture_pointer,
                    "capture_pointer_unavailable"@,
                    "Pointer capture is not available."@,
                ),
                capabilities.can_capture_keyboard,
                "capture_keyboard_unavailable"@,
                "Keyboard capture is not available."@,
            ),
            capabilities.can_inject_pointer,
            "inject_pointer_unavailable"@,
            "Pointer injection is not available."@,
        ),
        capabilities.can_inject_keyboard,
        "inject_keyboard_unavailable"@,
        "Keyboard injection is not available."@,
    )
}

/// What issues say.
pub open spec fn issue_models(issues: Seq<PermissionIssue>) -> Seq<(Seq<char>, Seq<char>)> {
    issues.map_values(|issue: PermissionIssue| (issue.code@, issue.message@))
}

/// Take note of what is missing.
fn push_missing_capability_issue(
    issues: &mut Vec<PermissionIssue>,
    available: bool,
    code: &'static str,
    message: &'static str,
)
    ensures
        issue_models(final(issues)@) == missing(
            issue_models(old(issues)@),
            available,
            code@,
            message@,
        ),
{
    if !available {
        issues.push(PermissionIssue { code: code.to_owned(), message: message.to_owned() });
        proof {
            assert(issue_models(issues@) =~= issue_models(old(issues)@).push((code@, message@)));
        }
    }
}

/// Whether a probe tells what a platform can do.
pub open spec fn is_probe(probe: PermissionsProbe, capabilities: PlatformCapabilities) -> bool {
    &&& probe.capabilities == (IpcPlatformCapabilities {
        can_capture_pointer: capabilities.can_capture_pointer,
        can_capture_keyboard: capabilities.can_capture_keyboard,
        can_inject_pointer: capabilities.can_inject_pointer,
        can_inject_keyboard: capabilities.can_inject_keyboard,
    })
    &&& issue_models(probe.issues@) == missing_capabilities(capabilities)
}

/// Whether an outcome is right for what a platform answered when it was asked what it can do, and for
/// a name that it goes by afterwards.
pub open spec fn probe_outcome<P: PlatformAdapter>(
    answer: Result<PlatformCapabilities, PlatformError>,
    outcome: Result<PermissionsProbe, PlatformError>,
    after: P,
) -> bool {
    match answer {
        Ok(capabilities) => {
            &&& outcome is Ok
            &&& is_probe(outcome->Ok_0, capabilities)
            &&& after.is_named(outcome->Ok_0.adapter_name@)
        },
        Err(error) => outcome == Err::<PermissionsProbe, PlatformError>(error),
    }
}

/// Ask the platform what it can do, and tell what is missing.
pub fn build_permissions_probe<P: PlatformAdapter>(platform: &mut P) -> (result: Result<
    PermissionsProbe,
    PlatformError,
>)
    ensures
        exists|answer: Result<PlatformCapabilities, PlatformError>|
            #[trigger] P::answers(
                *old(platform),
                PlatformCall::ProbeCapabilities { capabilities: answer },
                *final(platform),
            ) && probe_outcome(answer, result, *final(platform)),
{
    let answer = platform.probe_capabilities();
    let ghost answered = answer;
    assert(P::answers(
        *old(platform),
        PlatformCall::ProbeCapabilities { capabilities: answered },
        *platform,
    ));
    let capabilities = match answer {
        Ok(capabilities) => capabilities,
        Err(error) => return Err(error),
    };
    let mut issues: Vec<PermissionIssue> = Vec::new();
    proof {
        assert(issue_models(issues@) =~= Seq::empty());
    }
    push_missing_capability_issue(
        &mut issues,
        capabilities.can_capture_pointer,
        "capture_pointer_unavailable",
        "Pointer capture is not available.",
    );
    push_missing_capability_issue(
        &mut issues,
        capabilities.can_capture_keyboard,
        "capture_keyboard_unavailable",
        "Keyboard capture is not available.",
    );
    push_missing_capability_issue(
        &mut issues,
        capabilities.can_inject_pointer,
        "inject_pointer_unavailable",
        "Pointer injection is not available.",
    );
    push_missing_capability_issue(
        &mut issues,
        capabilities.can_inject_keyboard,
        "inject_keyboard_unavailable",
        "Keyboard injection is not available.",
    );
    Ok(
        PermissionsProbe {
            adapter_name: platform.name(),
            capabilities: IpcPlatformCapabilities::from(capabilities),
            issues,
        },
    )
}

/// Nothing is missing exactly where a platform can do everything.
pub proof fn issues_name_what_is_missing(capabilities: PlatformCapabilities)
    ensures
        missing_capabilities(capabilities).len() == 0 <==> (capabilities.can_capture_pointer
            && capabilities.can_capture_keyboard && capabilities.can_inject_pointer
            && capabilities.can_inject_keyboard),
{
}

/// Whether a status tells of an open session.
pub open spec fn is_peer_status<W>(
    status: PeerStatus,
    session: crate::managed::TcpPeerSessionTransport<W>,
    display_name: Seq<char>,
) -> bool {
    &&& status.peer_id@ == session.peer_id@
    &&& status.display_name@ == display_name
    &&& status.connected
    &&& crate::rpc::optional_view(status.local_device_id) == Some(session.local_device_id@)
    &&& crate::rpc::optional_view(status.address) == Some(
        crate::address::spell_socket(session.address@),
    )
}

/// What is told of the open session, if there is one. It goes by the name that its peer was paired
/// under, or by the peer's id where there is no store to look the name up in.
pub open spec fn peers_told<W, C, S: SessionServices<W>>(
    sessions: ManagedPeerSessionTransport<W, C>,
    services: S,
    result: Result<Vec<PeerStatus>, PlatformError>,
    later: S,
) -> bool {
    match sessions.active_session {
        None => result is Ok && result->Ok_0@.len() == 0 && later == services,
        Some(session) => match sessions.auth_config {
            None => {
                &&& later == services
                &&& result is Ok
                &&& result->Ok_0@.len() == 1
                &&& is_peer_status(result->Ok_0@[0], session, session.peer_id@)
            },
            Some(config) => exists|loaded: Result<TrustedPeer<Ed25519PublicKey>, String>| #[trigger]
                S::gives_peer(
                    services,
                    config.identity_store@,
                    session.peer_id@,
                    loaded,
                    later,
                ) && match loaded {
                    Ok(peer) => {
                        &&& result is Ok
                        &&& result->Ok_0@.len() == 1
                        &&& is_peer_status(
                            result->Ok_0@[0],
                            session,
                            peer.identity.display_name@,
                        )
                    },
                    Err(cause) => {
                        &&& result is Err
                        &&& result->Err_0@ == crate::managed::unloaded_peer(
                            session.peer_id@,
                            config.identity_store@,
                            cause@,
                        )
                    },
                },
        },
    }
}

/// Tell of the open session, if there is one.
pub fn active_peer_statuses<W, C, S: SessionServices<W>>(
    peer_sessions: &ManagedPeerSessionTransport<W, C>,
    services: &mut S,
) -> (result: Result<Vec<PeerStatus>, PlatformError>)
    ensures
        peers_told(*peer_sessions, *old(services), result, *final(services)),
{
    let session = match peer_sessions.active_session() {
        Some(session) => session,
        None => return Ok(Vec::new()),
    };
    let display_name = match &peer_sessions.auth_config {
        None => session.peer_id.as_str().to_owned(),
        Some(config) => {
            let loaded = services.load_trusted_peer(
                config.identity_store.as_str(),
                session.peer_id.as_str(),
            );
            let ghost found = loaded;
            assert(S::gives_peer(
                *old(services),
                config.identity_store@,
                session.peer_id@,
                found,
                *services,
            ));
            match peer_sessions.trusted_peer_display_name(&session.peer_id, loaded) {
                Ok(Some(name)) => name,
                Ok(None) => session.peer_id.as_str().to_owned(),
                Err(error) => return Err(error),
            }
        },
    };
    let mut statuses: Vec<PeerStatus> = Vec::new();
    statuses.push(
        PeerStatus {
            peer_id: session.peer_id.as_str().to_owned(),
            display_name,
            connected: true,
            local_device_id: Some(session.local_device_id.as_str().to_owned()),
            address: Some(session.address.text()),
        },
    );
    Ok(statuses)
}

/// Whether a status is right for a control mode and what a platform and the sessions told.
pub open spec fn is_daemon_status(
    status: DaemonStatus,
    mode: crate::runtime::ControlMode,
    capabilities: PlatformCapabilities,
    peers: Vec<PeerStatus>,
) -> bool {
    &&& status.daemon_version@ == DAEMON_VERSION@
    &&& status.mode == crate::snapshot::mode_snapshot(mode)
    &&& status.protocol == (ProtocolVersionSnapshot {
        major: crate::protocol::PROTOCOL_MAJOR,
        minor: crate::protocol::PROTOCOL_MINOR,
    })
    &&& status.peers == peers
    &&& status.capabilities == (IpcPlatformCapabilities {
        can_capture_pointer: capabilities.can_capture_pointer,
        can_capture_keyboard: capabilities.can_capture_keyboard,
        can_inject_pointer: capabilities.can_inject_pointer,
        can_inject_keyboard: capabilities.can_inject_keyboard,
    })
}

/// What asking for the status does: the platform is asked first, then the sessions.
pub open spec fn status_told<W, C, S: SessionServices<W>>(
    mode: crate::runtime::ControlMode,
    answer: Result<PlatformCapabilities, PlatformError>,
    sessions: ManagedPeerSessionTransport<W, C>,
    services: S,
    result: Result<DaemonStatus, PlatformError>,
    later: S,
) -> bool {
    match answer {
        Err(error) => result == Err::<DaemonStatus, PlatformError>(error) && later == services,
        Ok(capabilities) => exists|peers: Result<Vec<PeerStatus>, PlatformError>| #[trigger]
            peers_told(sessions, services, peers, later) && match peers {
                Ok(peers) => result is Ok && is_daemon_status(
                    result->Ok_0,
                    mode,
                    capabilities,
                    peers,
                ),
                Err(error) => result == Err::<DaemonStatus, PlatformError>(error),
            },
    }
}

/// Tell how the daemon is, with its session.
pub fn build_daemon_status_with_peer_sessions<P: PlatformAdapter, W, C, S: SessionServices<W>>(
    state: &RuntimeInputState,
    platform: &mut P,
    peer_sessions: &ManagedPeerSessionTransport<W, C>,
    services: &mut S,
) -> (result: Result<DaemonStatus, PlatformError>)
    ensures
        exists|answer: Result<PlatformCapabilities, PlatformError>|
            #[trigger] P::answers(
                *old(platform),
                PlatformCall::ProbeCapabilities { capabilities: answer },
                *final(platform),
            ) && status_told(
                state@.mode,
                answer,
                *peer_sessions,
                *old(services),
                result,
                *final(services),
            ),
{
    let answer = platform.probe_capabilities();
    let ghost answered = answer;
    assert(P::answers(
        *old(platform),
        PlatformCall::ProbeCapabilities { capabilities: answered },
        *platform,
    ));
    let capabilities = match answer {
        Ok(capabilities) => capabilities,
        Err(error) => return Err(error),
    };
    let told = active_peer_statuses(peer_sessions, services);
    let ghost heard = told;
    assert(peers_told(*peer_sessions, *old(services), heard, *services));
    let peers = match told {
        Ok(peers) => peers,
        Err(error) => return Err(error),
    };
    Ok(
        DaemonStatus {
            daemon_version: DAEMON_VERSION.to_owned(),
            mode: ControlModeSnapshot::from(state.mode()),
            protocol: ProtocolVersionSnapshot::from(ProtocolVersion::current()),
            peers,
            capabilities: IpcPlatformCapabilities::from(capabilities),
        },
    )
}

/// Tell how the daemon is, where it has no session.
pub fn build_daemon_status<P: PlatformAdapter>(state: &RuntimeInputState, platform: &mut P) -> (result:
    Result<DaemonStatus, PlatformError>)
    ensures
        exists|answer: Result<PlatformCapabilities, PlatformError>|
            #[trigger] P::answers(
                *old(platform),
                PlatformCall::ProbeCapabilities { capabilities: answer },
                *final(platform),
            ) && match answer {
                Err(error) => result == Err::<DaemonStatus, PlatformError>(error),
                Ok(capabilities) => result is Ok && result->Ok_0.peers@.len() == 0
                    && is_daemon_status(
                    result->Ok_0,
                    state@.mode,
                    capabilities,
                    result->Ok_0.peers,
                ),
            },
{
    let sessions: ManagedPeerSessionTransport<(), ()> = ManagedPeerSessionTransport::new(());
    let mut services = NoSessionServices;
    build_daemon_status_with_peer_sessions(state, platform, &sessions, &mut services)
}

/// Whether a topology tells what a platform told of its screens.
pub open spec fn is_topology(topology: DiagnosticsScreenTopology, geometry: DesktopGeometry) -> bool {
    &&& topology.pointer_position == (LogicalPointSnapshot {
        x: geometry.pointer_position.x,
        y: geometry.pointer_position.y,
    })
    &&& topology.virtual_screen_bounds == crate::snapshot::rect_snapshot(
        geometry.virtual_screen_bounds,
    )
    &&& topology.monitors@.len() == geometry.monitors@.len()
    &&& forall|i: int|
        0 <= i < topology.monitors@.len() ==> crate::snapshot::is_monitor_snapshot(
            #[trigger] topology.monitors@[i],
            geometry.monitors@[i],
        )
}

/// Whether an outcome is right for what a platform told of its screens.
pub open spec fn topology_outcome(
    answer: Result<DesktopGeometry, PlatformError>,
    outcome: Result<DiagnosticsScreenTopology, PlatformError>,
) -> bool {
    match answer {
        Ok(geometry) => outcome is Ok && is_topology(outcome->Ok_0, geometry),
        Err(error) => outcome == Err::<DiagnosticsScreenTopology, PlatformError>(error),
    }
}

/// Tell what the platform tells of its screens.
pub fn build_diagnostics_screen_topology<P: PlatformAdapter>(platform: &mut P) -> (result: Result<
    DiagnosticsScreenTopology,
    PlatformError,
>)
    ensures
        exists|answer: Result<DesktopGeometry, PlatformError>|
            #[trigger] P::answers(
                *old(platform),
                PlatformCall::ReadDesktopGeometry { geometry: answer },
                *final(platform),
            ) && topology_outcome(answer, result),
{
    let answer = platform.read_desktop_geometry();
    let ghost answered = answer;
    assert(P::answers(
        *old(platform),
        PlatformCall::ReadDesktopGeometry { geometry: answered },
        *platform,
    ));
    let geometry = match answer {
        Ok(geometry) => geometry,
        Err(error) => return Err(error),
    };
    let mut monitors: Vec<DiagnosticsMonitorSnapshot> = Vec::new();
    let mut i: usize = 0;
    while i < geometry.monitors.len()
        invariant
            i <= geometry.monitors@.len(),
            monitors@.len() == i,
            forall|k: int|
                0 <= k < i ==> crate::snapshot::is_monitor_snapshot(
                    #[trigger] monitors@[k],
                    geometry.monitors@[k],
                ),
        decreases geometry.monitors@.len() - i,
    {
        monitors.push(monitor_snapshot(&geometry.monitors[i]));
        i = i + 1;
    }
    Ok(
        DiagnosticsScreenTopology {
            pointer_position: LogicalPointSnapshot::from(geometry.pointer_position),
            virtual_screen_bounds: LogicalRectSnapshot::from(geometry.virtual_screen_bounds),
            monitors,
        },
    )
}

/// Whether an outcome is right for what a platform told of its keyboard.
pub open spec fn layout_outcome(
    answer: Result<KeyboardLayoutSnapshot, PlatformError>,
    outcome: Result<DiagnosticsKeyboardLayout, PlatformError>,
) -> bool {
    match answer {
        Ok(layout) => outcome == Ok::<DiagnosticsKeyboardLayout, PlatformError>(
            DiagnosticsKeyboardLayout {
                source: layout.source,
                layout_id: layout.layout_id,
                language_id: layout.language_id,
                layout_name: layout.layout_name,
            },
        ),
        Err(error) => outcome == Err::<DiagnosticsKeyboardLayout, PlatformError>(error),
    }
}

/// Tell what the platform tells of its keyboard.
pub fn build_diagnostics_keyboard_layout<P: PlatformAdapter>(platform: &mut P) -> (result: Result<
    DiagnosticsKeyboardLayout,
    PlatformError,
>)
    ensures
        exists|answer: Result<KeyboardLayoutSnapshot, PlatformError>|
            #[trigger] P::answers(
                *old(platform),
                PlatformCall::ReadKeyboardLayout { layout: answer },
                *final(platform),
            ) && layout_outcome(answer, result),
{
    let answer = platform.read_keyboard_layout();
    let ghost answered = answer;
    assert(P::answers(
        *old(platform),
        PlatformCall::ReadKeyboardLayout { layout: answered },
        *platform,
    ));
    match answer {
        Ok(layout) => Ok(keyboard_layout_snapshot(layout)),
        Err(error) => Err(error),
    }
}

/// Whether a filter holds back the device itself and every peer that cannot take part in a session.
pub open spec fn is_session_filter(filter: DiscoveryPeerFilter, local_device_id: Seq<char>) -> bool {
    &&& filter.local_device_id is Some
    &&& filter.local_device_id->Some_0@ == local_device_id
    &&& filter.required_capabilities == crate::protocol::session_capabilities()
    &&& filter.blocked_device_ids@.len() == 0
}

/// Offer the peers with which a session can be opened.
pub fn build_peer_session_discovery_candidates(
    local_device_id: &DeviceId,
    discovered_peers: &Vec<DiscoveredPeer>,
    trusted_peers: &Vec<TrustedPeerIdentity>,
) -> (result: Vec<DiscoverySessionCandidate>)
    ensures
        exists|filter: DiscoveryPeerFilter|
            is_session_filter(filter, local_device_id@) && crate::peers::candidate_models(result@)
                == #[trigger] crate::peers::offered(discovered_peers@, filter, trusted_peers@),
{
    let filter = DiscoveryPeerFilter {
        local_device_id: Some(local_device_id.as_str().to_owned()),
        required_capabilities: peer_session_capabilities(),
        blocked_device_ids: Vec::new(),
    };
    build_discovery_session_candidates(discovered_peers, &filter, trusted_peers)
}

/// Whether a candidate on the wire is one that is offered. The pairing document stays behind.
pub open spec fn is_wire_candidate(
    wire: SessionDiscoveryCandidate,
    candidate: DiscoverySessionCandidate,
) -> bool {
    &&& wire.peer_id == candidate.peer_id
    &&& wire.display_name == candidate.display_name
    &&& wire.fingerprint == candidate.fingerprint
    &&& wire.trusted == candidate.trusted
    &&& wire.address@ == crate::address::spell_socket(candidate.address@)
    &&& wire.build_version == candidate.build_version
    &&& wire.capabilities == candidate.capabilities
}

/// Put candidates on the wire, in order.
pub fn build_session_discovery_candidates_result(candidates: &Vec<DiscoverySessionCandidate>) -> (result:
    SessionDiscoveryCandidatesResult)
    ensures
        result.candidates@.len() == candidates@.len(),
        forall|i: int|
            0 <= i < candidates@.len() ==> is_wire_candidate(
                #[trigger] result.candidates@[i],
                candidates@[i],
            ),
{
    let mut list: Vec<SessionDiscoveryCandidate> = Vec::new();
    let mut i: usize = 0;
    while i < candidates.len()
        invariant
            i <= candidates@.len(),
            list@.len() == i,
            forall|k: int|
                0 <= k < i ==> is_wire_candidate(#[trigger] list@[k], candidates@[k]),
        decreases candidates@.len() - i,
    {
        let candidate = &candidates[i];
        list.push(
            SessionDiscoveryCandidate {
                peer_id: candidate.peer_id.clone(),
                display_name: candidate.display_name.clone(),
                fingerprint: clone_text(&candidate.fingerprint),
                trusted: candidate.trusted,
                address: candidate.address.text(),
                build_version: candidate.build_version.clone(),
                capabilities: candidate.capabilities,
            },
        );
        i = i + 1;
    }
    SessionDiscoveryCandidatesResult { candidates: list }
}

/// A status tells the mode that control is in, what the platform permits, one by one, the versions of
/// the daemon and of the protocol, and one peer just where a session is open: the peer of that session,
/// at its address, for its device.
pub proof fn a_status_tells_how_things_are<W, C, S: SessionServices<W>>(
    mode: crate::runtime::ControlMode,
    capabilities: PlatformCapabilities,
    sessions: ManagedPeerSessionTransport<W, C>,
    services: S,
    status: DaemonStatus,
    later: S,
)
    requires
        status_told(
            mode,
            Ok::<PlatformCapabilities, PlatformError>(capabilities),
            sessions,
            services,
            Ok::<DaemonStatus, PlatformError>(status),
            later,
        ),
    ensures
        status.mode is Local <==> mode is Local,
        status.mode is EnteringRemote <==> mode is EnteringRemote,
        status.mode is Remote <==> mode is Remote,
        status.mode is LeavingRemote <==> mode is LeavingRemote,
        status.mode is Suspended <==> mode is Suspended,
        status.capabilities.can_capture_pointer == capabilities.can_capture_pointer,
        status.capabilities.can_capture_keyboard == capabilities.can_capture_keyboard,
        status.capabilities.can_inject_pointer == capabilities.can_inject_pointer,
        status.capabilities.can_inject_keyboard == capabilities.can_inject_keyboard,
        status.daemon_version@ == "0.5.6"@,
        status.protocol.major == crate::protocol::PROTOCOL_MAJOR,
        status.protocol.minor == crate::protocol::PROTOCOL_MINOR,
        status.peers@.len() == (if sessions.active_session is Some {
            1nat
        } else {
            0
        }),
        sessions.active_session matches Some(session) ==> {
            let peer = status.peers@[0];
            &&& peer.connected
            &&& peer.peer_id@ == session.peer_id.value@
            &&& peer.local_device_id is Some
            &&& peer.local_device_id->Some_0@ == session.local_device_id.value@
            &&& peer.address is Some
            &&& peer.address->Some_0@ == crate::address::spell_socket(session.address@)
            &&& sessions.auth_config is None ==> peer.display_name@ == peer.peer_id@
        },
{
}

/// The status of a daemon tells the mode that its state machine is in.
pub proof fn the_status_names_the_mode<P: PlatformAdapter>(
    state: &RuntimeInputState,
    platform: &mut P,
    result: Result<DaemonStatus, PlatformError>,
)
    requires
        call_ensures(build_daemon_status::<P>, (state, platform), result),
        result is Ok,
    ensures
        result->Ok_0.mode is Local <==> state@.mode is Local,
        result->Ok_0.mode is EnteringRemote <==> state@.mode is EnteringRemote,
        result->Ok_0.mode is Remote <==> state@.mode is Remote,
        result->Ok_0.mode is LeavingRemote <==> state@.mode is LeavingRemote,
        result->Ok_0.mode is Suspended <==> state@.mode is Suspended,
        result->Ok_0.peers@.len() == 0,
{
}

/// Whether a list of issues names a code.
pub open spec fn names_issue(issues: Seq<PermissionIssue>, code: Seq<char>) -> bool {
    exists|i: int| 0 <= i < issues.len() && (#[trigger] issues[i]).code@ == code
}

/// A probe names an issue for each permission that is missing and for no other, and tells each permission
/// as it is.
pub proof fn a_probe_names_what_is_missing<P: PlatformAdapter>(
    capabilities: PlatformCapabilities,
    probe: PermissionsProbe,
    after: P,
)
    requires
        probe_outcome(
            Ok::<PlatformCapabilities, PlatformError>(capabilities),
            Ok::<PermissionsProbe, PlatformError>(probe),
            after,
        ),
    ensures
        probe.capabilities.can_capture_pointer == capabilities.can_capture_pointer,
        probe.capabilities.can_capture_keyboard == capabilities.can_capture_keyboard,
        probe.capabilities.can_inject_pointer == capabilities.can_inject_pointer,
        probe.capabilities.can_inject_keyboard == capabilities.can_inject_keyboard,
        names_issue(probe.issues@, "capture_pointer_unavailable"@)
            <==> !capabilities.can_capture_pointer,
        names_issue(probe.issues@, "capture_keyboard_unavailable"@)
            <==> !capabilities.can_capture_keyboard,
        names_issue(probe.issues@, "inject_pointer_unavailable"@)
            <==> !capabilities.can_inject_pointer,
        names_issue(probe.issues@, "inject_keyboard_unavailable"@)
            <==> !capabilities.can_inject_keyboard,
        after.is_named(probe.adapter_name@),
{
    reveal_strlit("capture_pointer_unavailable");
    reveal_strlit("capture_keyboard_unavailable");
    reveal_strlit("inject_pointer_unavailable");
    reveal_strlit("inject_keyboard_unavailable");
    let p = "capture_pointer_unavailable"@;
    let k = "capture_keyboard_unavailable"@;
    let q = "inject_pointer_unavailable"@;
    let l = "inject_keyboard_unavailable"@;
    assert(p.len() == 27 && p[0] == 'c');
    assert(k.len() == 28 && k[0] == 'c');
    assert(q.len() == 26 && q[0] == 'i');
    assert(l.len() == 27 && l[0] == 'i');
    let models = issue_models(probe.issues@);
    assert(models.len() == probe.issues@.len());
    assert forall|i: int| 0 <= i < models.len() implies (#[trigger] probe.issues@[i]).code@
        == models[i].0 by {}
    let a: int = if capabilities.can_capture_pointer {
        0
    } else {
        1
    };
    let b: int = a + if capabilities.can_capture_keyboard {
        0int
    } else {
        1
    };
    let c: int = b + if capabilities.can_inject_pointer {
        0int
    } else {
        1
    };
    let d: int = c + if capabilities.can_inject_keyboard {
        0int
    } else {
        1
    };
    assert(models.len() == d);
    if !capabilities.can_capture_pointer {
        assert(models[0].0 == p);
        assert(probe.issues@[0].code@ == p);
    }
    if !capabilities.can_capture_keyboard {
        assert(models[a].0 == k);
        assert(probe.issues@[a].code@ == k);
    }
    if !capabilities.can_inject_pointer {
        assert(models[b].0 == q);
        assert(probe.issues@[b].code@ == q);
    }
    if !capabilities.can_inject_keyboard {
        assert(models[c].0 == l);
        assert(probe.issues@[c].code@ == l);
    }
    assert forall|i: int| 0 <= i < models.len() implies (#[trigger] models[i]).0 == (if i < a {
        p
    } else if i < b {
        k
    } else if i < c {
        q
    } else {
        l
    }) by {}
}

/// The screens are told as the platform told them: the pointer, the whole desktop, and each monitor in
/// order.
pub proof fn screens_are_told_as_they_lie<P: PlatformAdapter>(
    platform: &mut P,
    result: Result<DiagnosticsScreenTopology, PlatformError>,
)
    requires
        call_ensures(build_diagnostics_screen_topology::<P>, (platform,), result),
        result is Ok,
    ensures
        exists|geometry: DesktopGeometry| #[trigger]
            P::answers(
                *old(platform),
                PlatformCall::ReadDesktopGeometry {
                    geometry: Ok::<DesktopGeometry, PlatformError>(geometry),
                },
                *final(platform),
            ) && result->Ok_0.pointer_position.x == geometry.pointer_position.x
                && result->Ok_0.pointer_position.y == geometry.pointer_position.y
                && result->Ok_0.virtual_screen_bounds.x == geometry.virtual_screen_bounds.origin.x
                && result->Ok_0.virtual_screen_bounds.y == geometry.virtual_screen_bounds.origin.y
                && result->Ok_0.virtual_screen_bounds.width
                == geometry.virtual_screen_bounds.size.width
                && result->Ok_0.virtual_screen_bounds.height
                == geometry.virtual_screen_bounds.size.height && result->Ok_0.monitors@.len()
                == geometry.monitors@.len() && forall|i: int|
                0 <= i < geometry.monitors@.len() ==> (#[trigger] result->Ok_0.monitors@[i]).id
                    == geometry.monitors@[i].id && result->Ok_0.monitors@[i].is_primary
                    == geometry.monitors@[i].is_primary && result->Ok_0.monitors@[i].bounds.x
                    == geometry.monitors@[i].bounds.origin.x && result->Ok_0.monitors@[i].bounds.y
                    == geometry.monitors@[i].bounds.origin.y && result->Ok_0.monitors@[i].bounds.width
                    == geometry.monitors@[i].bounds.size.width
                    && result->Ok_0.monitors@[i].bounds.height
                    == geometry.monitors@[i].bounds.size.height
                    && result->Ok_0.monitors@[i].scale_factor_percent
                    == geometry.monitors@[i].scale_factor_percent,
{
    let answer = choose|answer: Result<DesktopGeometry, PlatformError>| #[trigger]
        P::answers(
            *old(platform),
            PlatformCall::ReadDesktopGeometry { geometry: answer },
            *final(platform),
        ) && topology_outcome(answer, result);
    assert(answer == Ok::<DesktopGeometry, PlatformError>(answer->Ok_0));
}

/// The keyboard is told as the platform told it.
pub proof fn the_keyboard_is_told_as_it_is<P: PlatformAdapter>(
    platform: &mut P,
    result: Result<DiagnosticsKeyboardLayout, PlatformError>,
)
    requires
        call_ensures(build_diagnostics_keyboard_layout::<P>, (platform,), result),
        result is Ok,
    ensures
        exists|layout: KeyboardLayoutSnapshot| #[trigger]
            P::answers(
                *old(platform),
                PlatformCall::ReadKeyboardLayout {
                    layout: Ok::<KeyboardLayoutSnapshot, PlatformError>(layout),
                },
                *final(platform),
            ) && result->Ok_0.source == layout.source && result->Ok_0.layout_id == layout.layout_id
                && result->Ok_0.language_id == layout.language_id && result->Ok_0.layout_name
                == layout.layout_name,
{
    let answer = choose|answer: Result<KeyboardLayoutSnapshot, PlatformError>| #[trigger]
        P::answers(
            *old(platform),
            PlatformCall::ReadKeyboardLayout { layout: answer },
            *final(platform),
        ) && layout_outcome(answer, result);
    assert(answer == Ok::<KeyboardLayoutSnapshot, PlatformError>(answer->Ok_0));
}

/// The peers that are offered for a session are those that were discovered, are not this device, can take
/// part in a session and can be reached; each is trusted just where it was paired.
pub proof fn session_candidates_are_peers_that_can_take_part(
    local_device_id: &DeviceId,
    discovered: &Vec<DiscoveredPeer>,
    trusted: &Vec<TrustedPeerIdentity>,
    result: Vec<DiscoverySessionCandidate>,
    peer: int,
)
    requires
        call_ensures(
            build_peer_session_discovery_candidates,
            (local_device_id, discovered, trusted),
            result,
        ),
        0 <= peer < discovered@.len(),
    ensures
        (exists|i: int|
            0 <= i < result@.len() && crate::peers::is_offered_as(
                discovered@[peer],
                trusted@,
                #[trigger] result@[i],
            )) <== {
            &&& discovered@[peer].txt.device_id@ != local_device_id.value@
            &&& discovered@[peer].txt.capabilities.has(crate::protocol::session_capabilities())
            &&& crate::text::trim(discovered@[peer].host_name@).len() > 0
            &&& discovered@[peer].port != 0
            &&& discovered@[peer].addresses@.len() > 0
        },
        forall|i: int|
            0 <= i < result@.len() ==> (#[trigger] result@[i]).peer_id@ != local_device_id.value@
                && exists|k: int|
                0 <= k < discovered@.len() && crate::peers::is_offered_as(
                    #[trigger] discovered@[k],
                    trusted@,
                    result@[i],
                ),
{
    let filter = choose|filter: DiscoveryPeerFilter|
        is_session_filter(filter, local_device_id@) && crate::peers::candidate_models(result@)
            == #[trigger] crate::peers::offered(discovered@, filter, trusted@);
    crate::peers::offered_peers_are_the_accepted_ones(discovered@, filter, trusted@, result@);
    assert(filter.accepts(discovered@[peer]) <== {
        &&& discovered@[peer].txt.device_id@ != local_device_id.value@
        &&& discovered@[peer].txt.capabilities.has(crate::protocol::session_capabilities())
        &&& crate::text::trim(discovered@[peer].host_name@).len() > 0
        &&& discovered@[peer].port != 0
        &&& discovered@[peer].addresses@.len() > 0
    });
    assert forall|i: int| 0 <= i < result@.len() implies (#[trigger] result@[i]).peer_id@
        != local_device_id.value@ && exists|k: int|
        0 <= k < discovered@.len() && crate::peers::is_offered_as(
            #[trigger] discovered@[k],
            trusted@,
            result@[i],
        ) by {
        assert(crate::peers::is_offered_from(discovered@, filter, trusted@, result@[i]));
        let k = choose|k: int|
            0 <= k < discovered@.len() && filter.accepts(#[trigger] discovered@[k])
                && crate::peers::is_offered_as(discovered@[k], trusted@, result@[i]);
        assert(!filter.is_local(discovered@[k]));
    }
}

/// Candidates are told one for one, in order, each as it is offered.
pub proof fn candidates_are_told_one_for_one(
    candidates: &Vec<DiscoverySessionCandidate>,
    result: SessionDiscoveryCandidatesResult,
)
    requires
        call_ensures(build_session_discovery_candidates_result, (candidates,), result),
    ensures
        result.candidates@.len() == candidates@.len(),
        forall|i: int|
            0 <= i < candidates@.len() ==> (#[trigger] result.candidates@[i]).peer_id@
                == candidates@[i].peer_id@ && result.candidates@[i].display_name@
                == candidates@[i].display_name@ && result.candidates@[i].fingerprint
                == candidates@[i].fingerprint && result.candidates@[i].trusted
                == candidates@[i].trusted && result.candidates@[i].address@
                == crate::address::spell_socket(candidates@[i].address@)
                && result.candidates@[i].build_version@ == candidates@[i].build_version@
                && result.candidates@[i].capabilities == candidates@[i].capabilities,
{
}

/// A probe that is asked of the platform tells each permission as the platform answers, and names an
/// issue for each one that is missing and for no other.
pub proof fn a_probe_tells_what_the_platform_answers<P: PlatformAdapter>(
    platform: &mut P,
    result: Result<PermissionsProbe, PlatformError>,
)
    requires
        call_ensures(build_permissions_probe::<P>, (platform,), result),
        result is Ok,
    ensures
        exists|capabilities: PlatformCapabilities| #[trigger]
            P::answers(
                *old(platform),
                PlatformCall::ProbeCapabilities {
                    capabilities: Ok::<PlatformCapabilities, PlatformError>(capabilities),
                },
                *final(platform),
            ) && result->Ok_0.capabilities.can_capture_pointer == capabilities.can_capture_pointer
                && result->Ok_0.capabilities.can_capture_keyboard
                == capabilities.can_capture_keyboard
                && result->Ok_0.capabilities.can_inject_pointer == capabilities.can_inject_pointer
                && result->Ok_0.capabilities.can_inject_keyboard == capabilities.can_inject_keyboard
                && (names_issue(result->Ok_0.issues@, "capture_pointer_unavailable"@)
                <==> !capabilities.can_capture_pointer) && (names_issue(
                result->Ok_0.issues@,
                "capture_keyboard_unavailable"@,
            ) <==> !capabilities.can_capture_keyboard) && (names_issue(
                result->Ok_0.issues@,
                "inject_pointer_unavailable"@,
            ) <==> !capabilities.can_inject_pointer) && (names_issue(
                result->Ok_0.issues@,
                "inject_keyboard_unavailable"@,
            ) <==> !capabilities.can_inject_keyboard),
{
    let answer = choose|answer: Result<PlatformCapabilities, PlatformError>|
        #[trigger] P::answers(
            *old(platform),
            PlatformCall::ProbeCapabilities { capabilities: answer },
            *final(platform),
        ) && probe_outcome(answer, result, *final(platform));
    let capabilities = answer->Ok_0;
    assert(answer == Ok::<PlatformCapabilities, PlatformError>(capabilities));
    assert(result == Ok::<PermissionsProbe, PlatformError>(result->Ok_0));
    a_probe_names_what_is_missing(capabilities, result->Ok_0, *final(platform));
}

/// The status of a daemon with sessions tells the mode that its state machine is in, the permissions as
/// the platform answers, and the peer of the open session, where there is one.
pub proof fn the_status_tells_mode_and_session<P: PlatformAdapter, W, C, S: SessionServices<W>>(
    state: &RuntimeInputState,
    platform: &mut P,
    sessions: &ManagedPeerSessionTransport<W, C>,
    services: &mut S,
    result: Result<DaemonStatus, PlatformError>,
)
    requires
        call_ensures(
            build_daemon_status_with_peer_sessions::<P, W, C, S>,
            (state, platform, sessions, services),
            result,
        ),
        result is Ok,
    ensures
        result->Ok_0.mode is Local <==> state@.mode is Local,
        result->Ok_0.mode is EnteringRemote <==> state@.mode is EnteringRemote,
        result->Ok_0.mode is Remote <==> state@.mode is Remote,
        result->Ok_0.mode is LeavingRemote <==> state@.mode is LeavingRemote,
        result->Ok_0.mode is Suspended <==> state@.mode is Suspended,
        result->Ok_0.peers@.len() == (if sessions.active_session is Some {
            1nat
        } else {
            0
        }),
        sessions.active_session matches Some(session) ==> result->Ok_0.peers@[0].connected
            && result->Ok_0.peers@[0].peer_id@ == session.peer_id.value@
            && result->Ok_0.peers@[0].local_device_id is Some
            && result->Ok_0.peers@[0].local_device_id->Some_0@ == session.local_device_id.value@,
        exists|capabilities: PlatformCapabilities| #[trigger]
            P::answers(
                *old(platform),
                PlatformCall::ProbeCapabilities {
                    capabilities: Ok::<PlatformCapabilities, PlatformError>(capabilities),
                },
                *final(platform),
            ) && result->Ok_0.capabilities.can_capture_pointer == capabilities.can_capture_pointer
                && result->Ok_0.capabilities.can_capture_keyboard
                == capabilities.can_capture_keyboard
                && result->Ok_0.capabilities.can_inject_pointer == capabilities.can_inject_pointer
                && result->Ok_0.capabilities.can_inject_keyboard == capabilities.can_inject_keyboard,
{
    let answer = choose|answer: Result<PlatformCapabilities, PlatformError>|
        #[trigger] P::answers(
            *old(platform),
            PlatformCall::ProbeCapabilities { capabilities: answer },
            *final(platform),
        ) && status_told(state@.mode, answer, *sessions, *old(services), result, *final(services));
    let capabilities = answer->Ok_0;
    assert(answer == Ok::<PlatformCapabilities, PlatformError>(capabilities));
    assert(result == Ok::<DaemonStatus, PlatformError>(result->Ok_0));
    a_status_tells_how_things_are(
        state@.mode,
        capabilities,
        *sessions,
        *old(services),
        result->Ok_0,
        *final(services),
    );
}

/// What is told of the peers is the open session: its peer, connected, for its device; nothing where no
/// session is open.
pub proof fn the_open_session_is_told_of<W, C, S: SessionServices<W>>(
    sessions: &ManagedPeerSessionTransport<W, C>,
    services: &mut S,
    result: Result<Vec<PeerStatus>, PlatformError>,
)
    requires
        call_ensures(active_peer_statuses::<W, C, S>, (sessions, services), result),
    ensures
        sessions.active_session is None ==> result is Ok && result->Ok_0@.len() == 0,
        sessions.active_session is Some && sessions.auth_config is None ==> result is Ok
            && result->Ok_0@[0].display_name@ == sessions.active_session->Some_0.peer_id.value@,
        sessions.active_session is Some && result is Ok ==> result->Ok_0@.len() == 1
            && result->Ok_0@[0].connected && result->Ok_0@[0].peer_id@
            == sessions.active_session->Some_0.peer_id.value@
            && result->Ok_0@[0].local_device_id is Some
            && result->Ok_0@[0].local_device_id->Some_0@
            == sessions.active_session->Some_0.local_device_id.value@
            && result->Ok_0@[0].address is Some && result->Ok_0@[0].address->Some_0@
            == crate::address::spell_socket(sessions.active_session->Some_0.address@),
{
}

} // verus!
