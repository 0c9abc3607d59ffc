//! Finding peers on the local network.

use akraz::address::{parse_socket_address, IpAddress};
use akraz::discovery::{
    build_discovery_txt_record, parse_discovery_txt_record, DiscoveryTxtError, DiscoveryTxtRecord,
    AKRAZ_DISCOVERY_SERVICE_TYPE, AKRAZ_DISCOVERY_TXT_VERSION,
};
use akraz::identity::{
    fingerprint_for_public_key, DeviceIdentity, Ed25519IdentityKey, TrustedPeerIdentity,
};
use akraz::mdns::{
    build_mdns_service_info, discovered_peer_from_resolved_service, mdns_txt_properties,
    sanitize_dns_label,
    sanitize_mdns_instance_name, shutdown_outcome, truncate_utf8_bytes, MdnsDiscoveryConfig,
    MdnsDiscoveryError, MdnsDiscoveryRuntime, MdnsEvent, ResolvedService, SharedDiscoveredPeers,
};
use akraz::peers::{
    build_discovery_session_candidates, discovery_instance_label, filter_discovered_peers,
    DiscoveredPeer, DiscoveryPeerFilter, DiscoveryPeerRejectReason, DiscoverySessionCandidate,
};
use akraz::protocol::CapabilityFlags;
use akraz::store::PairingIdentityDocument;

fn pointer_and_keyboard() -> CapabilityFlags {
    CapabilityFlags::pointer().union(CapabilityFlags::keyboard())
}

fn txt_record() -> DiscoveryTxtRecord {
    DiscoveryTxtRecord {
        version: AKRAZ_DISCOVERY_TXT_VERSION,
        device_id: "linux-laptop".to_string(),
        display_name: None,
        identity_public_key: None,
        fingerprint: None,
        capabilities: pointer_and_keyboard().union(CapabilityFlags::screen_layout()),
        build_version: "0.5.7".to_string(),
    }
}

fn loopback() -> IpAddress {
    IpAddress::V4 { octets: [127, 0, 0, 1] }
}

fn peer(device_id: &str, capabilities: CapabilityFlags) -> DiscoveredPeer {
    DiscoveredPeer {
        instance_name: format!("{device_id}.{AKRAZ_DISCOVERY_SERVICE_TYPE}"),
        host_name: format!("{device_id}.local."),
        addresses: vec![loopback()],
        port: 4455,
        txt: DiscoveryTxtRecord {
            device_id: device_id.to_string(),
            capabilities,
            ..txt_record()
        },
    }
}

fn identity_fixture(device_id: &str, display_name: &str) -> DeviceIdentity {
    let public_key = Ed25519IdentityKey::generate().public_key_bytes();
    DeviceIdentity::new(
        device_id,
        display_name,
        public_key.to_vec(),
        &fingerprint_for_public_key(&public_key),
    )
}

fn public_pairing_document(device_id: &str, display_name: &str) -> PairingIdentityDocument {
    PairingIdentityDocument::from_device_identity(
        &identity_fixture(device_id, display_name),
        pointer_and_keyboard(),
    )
}

fn resolved(service: &mdns_sd::ResolvedService) -> ResolvedService {
    ResolvedService {
        fullname: service.fullname.clone(),
        host_name: service.host.clone(),
        addresses: service
            .addresses
            .iter()
            .filter_map(|address| parse_socket_address(&format!("{address}:0")))
            .map(|socket| socket.ip)
            .collect(),
        port: service.port,
        properties: service
            .txt_properties
            .iter()
            .map(|property| (property.key().to_string(), property.val_str().to_string()))
            .collect(),
    }
}

fn device_ids(peers: Vec<DiscoveredPeer>) -> Vec<String> {
    peers.into_iter().map(|peer| peer.txt.device_id).collect()
}

#[test]
fn shared_discovered_peers_returns_owned_snapshots() {
    let source =
        SharedDiscoveredPeers::from_peers(vec![peer("linux-laptop", pointer_and_keyboard())]);

    let mut snapshot = source.snapshot().expect("discovery snapshot");
    snapshot[0].txt.device_id = "mutated-copy".to_string();

    assert_eq!(
        device_ids(source.snapshot().expect("second discovery snapshot")),
        vec!["linux-laptop"]
    );
}

#[test]
fn shared_discovered_peers_replaces_current_snapshot() {
    let mut source = SharedDiscoveredPeers::new();

    source
        .replace(vec![peer("linux-laptop", pointer_and_keyboard())])
        .expect("replace discovery snapshot");
    source
        .replace(vec![peer("keyboard-only", CapabilityFlags::keyboard())])
        .expect("replace discovery snapshot again");

    assert_eq!(
        device_ids(source.snapshot().expect("current discovery snapshot")),
        vec!["keyboard-only"]
    );
}

#[test]
fn parses_dns_sd_txt_record_contract() {
    let record = parse_discovery_txt_record(&[
        "v=1",
        "device_id=linux-laptop",
        "caps=pointer,keyboard,screen-layout",
        "build=0.5.7",
    ])
    .expect("parse TXT record");

    assert_eq!(record, txt_record());
}

#[test]
fn parses_optional_public_pairing_txt_fields() {
    let document = public_pairing_document("linux-laptop", "Linux Laptop");
    let record = parse_discovery_txt_record(&[
        "v=1",
        "device_id=linux-laptop",
        "display_name=Linux Laptop",
        &format!("identity_public_key={}", document.identity_public_key()),
        &format!("fingerprint={}", document.fingerprint()),
        "caps=pointer,keyboard",
        "build=0.5.7",
    ])
    .expect("parse TXT record");

    assert_eq!(record.display_name.as_deref(), Some("Linux Laptop"));
    assert_eq!(record.identity_public_key.as_deref(), Some(document.identity_public_key()));
    assert_eq!(record.fingerprint.as_deref(), Some(document.fingerprint()));
}

#[test]
fn builds_deterministic_txt_records_for_publishers() {
    assert_eq!(
        build_discovery_txt_record(&txt_record()),
        vec![
            "v=1",
            "device_id=linux-laptop",
            "caps=pointer,keyboard,screen-layout",
            "build=0.5.7",
        ]
    );
}

#[test]
fn builds_optional_public_pairing_txt_records_for_publishers() {
    let document = public_pairing_document("linux-laptop", "Linux Laptop");
    let record = DiscoveryTxtRecord {
        display_name: Some("Linux Laptop".to_string()),
        identity_public_key: Some(document.identity_public_key().to_string()),
        fingerprint: Some(document.fingerprint().to_string()),
        capabilities: pointer_and_keyboard(),
        ..txt_record()
    };

    assert_eq!(
        build_discovery_txt_record(&record),
        vec![
            "v=1".to_string(),
            "device_id=linux-laptop".to_string(),
            "caps=pointer,keyboard".to_string(),
            "build=0.5.7".to_string(),
            "display_name=Linux Laptop".to_string(),
            format!("identity_public_key={}", document.identity_public_key()),
            format!("fingerprint={}", document.fingerprint()),
        ]
    );
}

#[test]
fn builds_advertised_txt_record_from_local_identity() {
    let identity = identity_fixture("linux-laptop", "Linux Laptop");
    let document = PairingIdentityDocument::from_device_identity(&identity, pointer_and_keyboard());

    let record =
        DiscoveryTxtRecord::from_device_identity(&identity, pointer_and_keyboard(), "0.8.0");

    assert_eq!(record.version, AKRAZ_DISCOVERY_TXT_VERSION);
    assert_eq!(record.device_id, "linux-laptop");
    assert_eq!(record.display_name.as_deref(), Some("Linux Laptop"));
    assert_eq!(record.identity_public_key.as_deref(), Some(document.identity_public_key()));
    assert_eq!(record.fingerprint.as_deref(), Some(document.fingerprint()));
    assert_eq!(record.capabilities, pointer_and_keyboard());
    assert_eq!(record.build_version, "0.8.0");
    assert_eq!(
        build_discovery_txt_record(&record),
        vec![
            "v=1".to_string(),
            "device_id=linux-laptop".to_string(),
            "caps=pointer,keyboard".to_string(),
            "build=0.8.0".to_string(),
            "display_name=Linux Laptop".to_string(),
            format!("identity_public_key={}", document.identity_public_key()),
            format!("fingerprint={}", document.fingerprint()),
        ]
    );
}

#[test]
fn announcements_read_back_as_they_were_made() {
    let record = DiscoveryTxtRecord::from_device_identity(
        &identity_fixture("linux-laptop", "Linux Laptop"),
        pointer_and_keyboard().union(CapabilityFlags::clipboard()),
        "0.8.0",
    );
    let entries = build_discovery_txt_record(&record);
    let entries: Vec<&str> = entries.iter().map(|entry| entry.as_str()).collect();
    assert_eq!(parse_discovery_txt_record(&entries), Ok(record));
}

#[test]
fn builds_mdns_service_info_from_discovery_txt_record() {
    let config = MdnsDiscoveryConfig::from_txt_record(
        DiscoveryTxtRecord {
            display_name: Some("Linux Laptop".to_string()),
            capabilities: pointer_and_keyboard(),
            ..txt_record()
        },
        4455,
        vec![IpAddress::V4 { octets: [192, 168, 1, 23] }],
    );

    let service = match build_mdns_service_info(&config) {
        Ok(service) => service,
        Err(error) => panic!("expected mDNS service info: {}", error.message()),
    };

    assert_eq!(config.instance_name, "linux-laptop");
    assert_eq!(config.host_name, "linux-laptop.local.");
    assert_eq!(service.fullname, "linux-laptop._akraz._tcp.local.");
    assert_eq!(service.info.get_fullname(), "linux-laptop._akraz._tcp.local.");
    assert_eq!(service.info.get_hostname(), "linux-laptop.local.");
    assert_eq!(service.info.get_port(), 4455);
    assert_eq!(
        service.info.get_addresses().iter().map(|ip| ip.to_string()).collect::<Vec<_>>(),
        vec!["192.168.1.23"]
    );

    let discovered =
        discovered_peer_from_resolved_service(&resolved(&service.info.as_resolved_service()))
            .expect("discovered peer");

    assert_eq!(discovered.instance_name, "linux-laptop._akraz._tcp.local.");
    assert_eq!(discovered.host_name, "linux-laptop.local.");
    assert_eq!(discovered.port, 4455);
    assert_eq!(discovered.addresses, vec![IpAddress::V4 { octets: [192, 168, 1, 23] }]);
    assert_eq!(discovered.txt.capabilities, pointer_and_keyboard());
    assert_eq!(discovered.txt.display_name.as_deref(), Some("Linux Laptop"));
}

#[test]
fn mdns_service_info_uses_auto_addresses_for_unspecified_listener() {
    let config = MdnsDiscoveryConfig::from_txt_record(
        txt_record(),
        4455,
        vec![IpAddress::V4 { octets: [0, 0, 0, 0] }],
    );

    let service = match build_mdns_service_info(&config) {
        Ok(service) => service,
        Err(error) => panic!("expected mDNS service info: {}", error.message()),
    };

    assert!(service.addr_auto);
    assert!(service.info.get_addresses().is_empty());
    assert!(service.info.is_addr_auto());
}

#[test]
fn mdns_service_info_rejects_zero_port() {
    let config = MdnsDiscoveryConfig::from_txt_record(txt_record(), 0, Vec::new());

    assert_eq!(
        build_mdns_service_info(&config).map(|_| ()),
        Err(MdnsDiscoveryError::InvalidConfig { reason: "port must be non-zero" })
    );
}

#[test]
fn announced_services_hold_what_was_configured() {
    let config = MdnsDiscoveryConfig {
        instance_name: "desk.left".to_string(),
        host_name: "desk.local.local.".to_string(),
        addresses: vec![
            IpAddress::V6 { segments: [0xfe80, 0, 0, 0, 0, 0, 0, 0x17] },
            IpAddress::V4 { octets: [10, 0, 0, 7] },
            IpAddress::V4 { octets: [0, 0, 0, 0] },
            IpAddress::V6 { segments: [0, 0, 0, 0, 0, 0xffff, 0x0a00, 8] },
        ],
        port: 1234,
        txt: txt_record(),
    };
    let service = match build_mdns_service_info(&config) {
        Ok(service) => service,
        Err(error) => panic!("expected mDNS service info: {}", error.message()),
    };

    assert_eq!(service.info.get_fullname(), "desk\\.left._akraz._tcp.local.");
    assert_eq!(service.info.get_type(), AKRAZ_DISCOVERY_SERVICE_TYPE);
    assert_eq!(service.info.get_hostname(), "desk.local.");
    let mut addresses: Vec<String> =
        service.info.get_addresses().iter().map(|ip| ip.to_string()).collect();
    addresses.sort();
    assert_eq!(addresses, vec!["10.0.0.7", "::ffff:10.0.0.8", "fe80::17"]);
    assert_eq!(service.info.get_port(), 1234);
    let properties: Vec<(String, String)> = service
        .info
        .get_properties()
        .iter()
        .map(|property| (property.key().to_string(), property.val_str().to_string()))
        .collect();
    assert_eq!(properties, mdns_txt_properties(&config.txt));
    assert!(!properties.is_empty());
    assert!(!service.info.is_addr_auto());
}

#[test]
fn services_with_too_long_a_property_are_refused() {
    let config = |display_name: String| {
        MdnsDiscoveryConfig::from_txt_record(
            DiscoveryTxtRecord { display_name: Some(display_name), ..txt_record() },
            4455,
            Vec::new(),
        )
    };
    assert!(build_mdns_service_info(&config("\u{e4}".repeat(121))).is_ok());
    assert_eq!(
        build_mdns_service_info(&config("\u{e4}".repeat(122))).map(|_| ()),
        Err(MdnsDiscoveryError::Backend {
            action: "build service info",
            message: "TXT property 'display_name' has length 257 bytes, exceeding the 255-byte limit"
                .to_string(),
        })
    );
}

#[test]
fn malformed_mdns_resolved_service_is_ignored() {
    let service_info = mdns_sd::ServiceInfo::new(
        AKRAZ_DISCOVERY_SERVICE_TYPE,
        "Broken Peer",
        "broken-peer.local.",
        "192.168.1.44",
        4455,
        &[("v", "1"), ("device_id", "broken-peer"), ("build", "0.8.0")][..],
    )
    .expect("broken mDNS service info");

    assert!(
        discovered_peer_from_resolved_service(&resolved(&service_info.as_resolved_service()))
            .is_none()
    );
}

#[test]
fn resolved_peers_are_known_until_they_are_removed() {
    let service = |device_id: &str, port: u16| ResolvedService {
        fullname: format!("{device_id}.{AKRAZ_DISCOVERY_SERVICE_TYPE}"),
        host_name: format!("{device_id}.local."),
        addresses: vec![loopback()],
        port,
        properties: vec![
            ("v".to_string(), "1".to_string()),
            ("device_id".to_string(), device_id.to_string()),
            ("caps".to_string(), "pointer".to_string()),
            ("build".to_string(), "0.8.0".to_string()),
        ],
    };
    let mut runtime = MdnsDiscoveryRuntime::new(format!("own.{AKRAZ_DISCOVERY_SERVICE_TYPE}"));
    runtime.apply_event(MdnsEvent::Resolved(service("b", 1)));
    runtime.apply_event(MdnsEvent::Resolved(service("a", 2)));
    runtime.apply_event(MdnsEvent::Other);
    assert_eq!(device_ids(runtime.peer_snapshot()), vec!["a", "b"]);
    runtime.apply_event(MdnsEvent::Resolved(service("b", 3)));
    let snapshot = runtime.peer_snapshot();
    assert_eq!(snapshot.len(), 2);
    assert_eq!(snapshot[1].port, 3);
    runtime.apply_event(MdnsEvent::Removed(format!("b.{AKRAZ_DISCOVERY_SERVICE_TYPE}")));
    assert_eq!(device_ids(runtime.peer_snapshot()), vec!["a"]);
}

#[test]
fn shutdowns_report_the_first_failure() {
    assert_eq!(shutdown_outcome(None, None, None), Ok(()));
    assert_eq!(
        shutdown_outcome(None, Some("u".to_string()), Some("s".to_string())),
        Err(MdnsDiscoveryError::Backend { action: "unregister", message: "u".to_string() })
    );
}

#[test]
fn names_are_fit_for_the_network() {
    assert_eq!(sanitize_dns_label(" Lin\u{fc}x Laptop "), sanitize_dns_label("Lin\u{dc}x Laptop"));
    assert_eq!(sanitize_dns_label("Linux Laptop"), "linux-laptop");
    assert_eq!(truncate_utf8_bytes("a\u{e4}b", 2), "a");
    assert_eq!(truncate_utf8_bytes("a\u{e4}b", 3), "a\u{e4}");
    assert!(sanitize_mdns_instance_name(&"x".repeat(80)).len() <= 63);
}

fn is_host_label(label: &str) -> bool {
    (1..=63).contains(&label.len())
        && label.chars().all(|c| c.is_ascii_lowercase() || c.is_ascii_digit() || c == '-')
        && !label.starts_with('-')
        && !label.ends_with('-')
        && !label.contains("--")
}

#[test]
fn every_text_gives_the_label_of_a_host() {
    for value in ["", "--", " - ", "A--b", "-x-", "\u{130}stanbul", "\u{212a}elvin"] {
        let label = sanitize_dns_label(value);
        assert!(is_host_label(&label), "{value:?} gave {label:?}");
        assert_eq!(sanitize_dns_label(&label), label);
    }
    assert_eq!(sanitize_dns_label("\u{4e16}\u{754c}!"), "akraz-peer");
    assert_eq!(sanitize_dns_label("\u{212a}elvin"), "kelvin");
    let long = format!("{}-{}", "a".repeat(62), "b".repeat(9));
    assert_eq!(sanitize_dns_label(&long), "a".repeat(62));
}

#[test]
fn every_character_may_stand_in_a_text_that_gives_a_label() {
    for c in '\0'..=char::MAX {
        let label = sanitize_dns_label(&format!("q{c}Q"));
        assert!(is_host_label(&label), "{c:?} gave {label:?}");
        assert_eq!(sanitize_dns_label(&label), label);
    }
}

#[test]
fn rejects_missing_duplicate_unsupported_and_unknown_txt_fields() {
    assert_eq!(
        parse_discovery_txt_record(&["v=1", "device_id=linux-laptop", "build=0.5.7"]),
        Err(DiscoveryTxtError::MissingField { key: "caps" })
    );
    assert_eq!(
        parse_discovery_txt_record(&[
            "v=1",
            "V=1",
            "device_id=linux-laptop",
            "caps=pointer",
            "build=0.5.7",
        ]),
        Err(DiscoveryTxtError::DuplicateField { key: "v".to_string() })
    );
    assert_eq!(
        parse_discovery_txt_record(&[
            "v=2",
            "device_id=linux-laptop",
            "caps=pointer",
            "build=0.5.7",
        ]),
        Err(DiscoveryTxtError::UnsupportedVersion { version: 2 })
    );
    assert_eq!(
        parse_discovery_txt_record(&[
            "v=1",
            "device_id=linux-laptop",
            "caps=pointer,text",
            "build=0.5.7",
        ]),
        Err(DiscoveryTxtError::InvalidCapability { value: "text".to_string() })
    );
}

#[test]
fn rejects_device_ids_that_cannot_flow_into_session_contracts() {
    assert_eq!(
        parse_discovery_txt_record(&[
            "v=1",
            "device_id=linux laptop",
            "caps=pointer",
            "build=0.5.7",
        ]),
        Err(DiscoveryTxtError::InvalidDeviceId {
            value: "linux laptop".to_string(),
            reason: "field cannot contain whitespace",
        })
    );
    assert_eq!(
        parse_discovery_txt_record(&[
            "v=1",
            "device_id=linux:laptop",
            "caps=pointer",
            "build=0.5.7",
        ]),
        Err(DiscoveryTxtError::InvalidDeviceId {
            value: "linux:laptop".to_string(),
            reason: "device_id cannot contain ':' or '@'",
        })
    );
}

#[test]
fn announcements_that_make_no_sense_say_why() {
    let refused = |entries: &[&str]| parse_discovery_txt_record(entries).unwrap_err().message();
    assert_eq!(
        parse_discovery_txt_record(&["nothing"]),
        Err(DiscoveryTxtError::MalformedEntry { entry: "nothing".to_string() })
    );
    assert_eq!(
        parse_discovery_txt_record(&["=1"]),
        Err(DiscoveryTxtError::EmptyKey { entry: "=1".to_string() })
    );
    assert_eq!(
        parse_discovery_txt_record(&["v=one", "device_id=a", "caps=pointer", "build=1"]),
        Err(DiscoveryTxtError::InvalidVersion { value: "one".to_string() })
    );
    assert_eq!(
        parse_discovery_txt_record(&["v=1", "device_id=a", "caps=,", "build=1"]).is_err(),
        true
    );
    assert!(refused(&["no\"quote"]).contains("no\\\"quote"));
}

#[test]
fn filters_local_blocked_incapable_and_invalid_endpoint_peers() {
    let filter = DiscoveryPeerFilter {
        local_device_id: Some("windows-desktop".to_string()),
        required_capabilities: pointer_and_keyboard(),
        blocked_device_ids: vec!["blocked-laptop".to_string()],
    };

    assert_eq!(
        filter.accept(&peer("windows-desktop", pointer_and_keyboard())),
        Err(DiscoveryPeerRejectReason::LocalDevice { device_id: "windows-desktop".to_string() })
    );
    assert_eq!(
        filter.accept(&peer("blocked-laptop", pointer_and_keyboard())),
        Err(DiscoveryPeerRejectReason::BlockedDevice { device_id: "blocked-laptop".to_string() })
    );
    assert_eq!(
        filter.accept(&peer("keyboard-only", CapabilityFlags::keyboard())),
        Err(DiscoveryPeerRejectReason::MissingRequiredCapability {
            required: pointer_and_keyboard(),
            actual: CapabilityFlags::keyboard(),
        })
    );

    let mut invalid_endpoint = peer("linux-laptop", pointer_and_keyboard());
    invalid_endpoint.addresses.clear();
    assert_eq!(
        filter.accept(&invalid_endpoint),
        Err(DiscoveryPeerRejectReason::InvalidEndpoint)
    );
}

#[test]
fn returns_accepted_discovered_peers_in_original_order() {
    let local = peer("windows-desktop", pointer_and_keyboard());
    let accepted = peer("linux-laptop", pointer_and_keyboard());
    let incapable = peer("keyboard-only", CapabilityFlags::keyboard());
    let filter = DiscoveryPeerFilter {
        local_device_id: Some("windows-desktop".to_string()),
        required_capabilities: pointer_and_keyboard(),
        blocked_device_ids: Vec::new(),
    };
    let peers = vec![local, accepted, incapable];

    let accepted_peers = filter_discovered_peers(&peers, &filter);

    assert_eq!(accepted_peers, vec![&peers[1]]);
}

#[test]
fn builds_session_candidates_with_trusted_peer_metadata() {
    let trusted = TrustedPeerIdentity::new(
        "linux-laptop",
        "Linux Laptop",
        b"public-key".to_vec(),
        "AKRZ-TRUSTED",
        pointer_and_keyboard(),
    );
    let discovered = peer("linux-laptop", pointer_and_keyboard());
    let filter = DiscoveryPeerFilter {
        required_capabilities: pointer_and_keyboard(),
        ..DiscoveryPeerFilter::default()
    };

    let candidates =
        build_discovery_session_candidates(&vec![discovered], &filter, &vec![trusted]);

    assert_eq!(
        candidates,
        vec![DiscoverySessionCandidate {
            peer_id: "linux-laptop".to_string(),
            display_name: "Linux Laptop".to_string(),
            fingerprint: Some("AKRZ-TRUSTED".to_string()),
            peer_document_json: None,
            trusted: true,
            address: parse_socket_address("127.0.0.1:4455").expect("candidate address"),
            build_version: "0.5.7".to_string(),
            capabilities: pointer_and_keyboard(),
        }]
    );
}

#[test]
fn keeps_unpaired_discovery_candidates_explicitly_untrusted() {
    let discovered = peer("new-laptop", pointer_and_keyboard());

    let candidates = build_discovery_session_candidates(
        &vec![discovered],
        &DiscoveryPeerFilter::default(),
        &Vec::new(),
    );

    assert_eq!(
        candidates,
        vec![DiscoverySessionCandidate {
            peer_id: "new-laptop".to_string(),
            display_name: "new-laptop".to_string(),
            fingerprint: None,
            peer_document_json: None,
            trusted: false,
            address: parse_socket_address("127.0.0.1:4455").expect("candidate address"),
            build_version: "0.5.7".to_string(),
            capabilities: pointer_and_keyboard(),
        }]
    );
}

#[test]
fn builds_registerable_discovery_candidates_from_public_pairing_txt_fields() {
    let document = public_pairing_document("new-laptop", "New Laptop");
    let mut discovered = peer("new-laptop", pointer_and_keyboard());
    discovered.txt.display_name = Some("New Laptop".to_string());
    discovered.txt.identity_public_key = Some(document.identity_public_key().to_string());
    discovered.txt.fingerprint = Some(document.fingerprint().to_string());

    let candidates = build_discovery_session_candidates(
        &vec![discovered],
        &DiscoveryPeerFilter::default(),
        &Vec::new(),
    );

    assert_eq!(candidates.len(), 1);
    let candidate = &candidates[0];
    assert_eq!(candidate.display_name, "New Laptop");
    assert_eq!(candidate.fingerprint.as_deref(), Some(document.fingerprint()));
    assert!(!candidate.trusted);
    let peer_document_json = candidate.peer_document_json.as_deref().expect("peer document JSON");
    let decoded: serde_json::Value =
        serde_json::from_str(peer_document_json).expect("candidate document JSON");
    assert_eq!(decoded["deviceId"], "new-laptop");
    assert_eq!(decoded["displayName"], "New Laptop");
    assert_eq!(decoded["identityPublicKey"], document.identity_public_key());
    assert_eq!(decoded["fingerprint"], document.fingerprint());
}

#[test]
fn instance_labels_name_peers_without_a_name() {
    assert_eq!(discovery_instance_label("desk._akraz._tcp.local."), "desk");
    assert_eq!(discovery_instance_label("."), "Akraz Peer");
}
