//! The peers that were found: which of them can be connected to, and as what they are offered.

use vstd::prelude::*;

use crate::address::{IpAddress, SocketAddress};
use crate::discovery::{clone_text, DiscoveryTxtRecord};
use crate::identity::TrustedPeerIdentity;
use crate::json::{encode_json, ToJson};
use crate::protocol::CapabilityFlags;
use crate::store::PairingIdentityDocument;
use crate::text::{decimal_text, ends_with, same, trim_end_char, trimmed};

verus! {

/// A peer whose announcement was read and whose addresses are known.
#[derive(Debug, PartialEq, Eq)]
pub struct DiscoveredPeer {
    pub instance_name: String,
    pub host_name: String,
    pub addresses: Vec<IpAddress>,
    pub port: u16,
    pub txt: DiscoveryTxtRecord,
}

/// A copy of a list of addresses.
pub fn copy_addresses(addresses: &Vec<IpAddress>) -> (result: Vec<IpAddress>)
    ensures
        result@ == addresses@,
{
    let mut result: Vec<IpAddress> = Vec::new();
    let mut i: usize = 0;
    while i < addresses.len()
        invariant
            i <= addresses@.len(),
            result@ == addresses@.subrange(0, i as int),
        decreases addresses@.len() - i,
    {
        result.push(addresses[i]);
        i = i + 1;
    }
    result
}

/// Whether two peers are the same in everything that is known of them.
pub open spec fn same_peer(a: DiscoveredPeer, b: DiscoveredPeer) -> bool {
    &&& a.instance_name == b.instance_name
    &&& a.host_name == b.host_name
    &&& a.addresses@ == b.addresses@
    &&& a.port == b.port
    &&& a.txt == b.txt
}

impl Clone for DiscoveredPeer {
    fn clone(&self) -> (result: Self)
        ensures
            same_peer(result, *self),
    {
        DiscoveredPeer {
            instance_name: self.instance_name.clone(),
            host_name: self.host_name.clone(),
            addresses: copy_addresses(&self.addresses),
            port: self.port,
            txt: self.txt.clone(),
        }
    }
}

impl DiscoveredPeer {
    /// Where a session with the peer is opened: at the first of its addresses.
    pub open spec fn endpoint(&self) -> Option<SocketAddress> {
        if self.addresses@.len() == 0 {
            None
        } else {
            Some(SocketAddress { ip: self.addresses@[0], scope_id: 0, port: self.port })
        }
    }

    /// Where a session with the peer is opened: at the first of its addresses.
    pub fn primary_socket_addr(&self) -> (result: Option<SocketAddress>)
        ensures
            result == self.endpoint(),
    {
        if self.addresses.len() == 0 {
            None
        } else {
            Some(SocketAddress { ip: self.addresses[0], scope_id: 0, port: self.port })
        }
    }
}

/// Why a peer is not offered.
#[allow(inconsistent_fields)]
#[derive(Debug, PartialEq, Eq)]
pub enum DiscoveryPeerRejectReason {
    LocalDevice { device_id: String },
    BlockedDevice { device_id: String },
    MissingRequiredCapability { required: CapabilityFlags, actual: CapabilityFlags },
    InvalidEndpoint,
}

impl DiscoveryPeerRejectReason {
    pub open spec fn text(&self) -> Seq<char> {
        match self {
            DiscoveryPeerRejectReason::LocalDevice { device_id } => {
                "discovered peer "@ + device_id@ + " is the local device"@
            },
            DiscoveryPeerRejectReason::BlockedDevice { device_id } => {
                "discovered peer "@ + device_id@ + " is blocked"@
            },
            DiscoveryPeerRejectReason::MissingRequiredCapability { required, actual } => {
                "discovered peer is missing required capabilities: required "@
                    + crate::text::decimal(required.bits as nat) + ", actual "@
                    + crate::text::decimal(actual.bits as nat)
            },
            DiscoveryPeerRejectReason::InvalidEndpoint => {
                "discovered peer endpoint is invalid"@
            },
        }
    }

    pub fn message(&self) -> (result: String)
        ensures
            result@ == self.text(),
    {
        match self {
            DiscoveryPeerRejectReason::LocalDevice { device_id } => {
                "discovered peer ".to_owned().concat(device_id.as_str()).concat(
                    " is the local device",
                )
            },
            DiscoveryPeerRejectReason::BlockedDevice { device_id } => {
                "discovered peer ".to_owned().concat(device_id.as_str()).concat(" is blocked")
            },
            DiscoveryPeerRejectReason::MissingRequiredCapability { required, actual } => {
                "discovered peer is missing required capabilities: required ".to_owned().concat(
                    decimal_text(required.bits as u64).as_str(),
                ).concat(", actual ").concat(decimal_text(actual.bits as u64).as_str())
            },
            DiscoveryPeerRejectReason::InvalidEndpoint => {
                "discovered peer endpoint is invalid".to_owned()
            },
        }
    }
}

/// Which peers are offered.
#[derive(Debug, PartialEq, Eq)]
pub struct DiscoveryPeerFilter {
    pub local_device_id: Option<String>,
    pub required_capabilities: CapabilityFlags,
    pub blocked_device_ids: Vec<String>,
}

impl Default for DiscoveryPeerFilter {
    fn default() -> (result: Self)
        ensures
            result.local_device_id is None,
            result.required_capabilities.bits == 0,
            result.blocked_device_ids@.len() == 0,
    {
        DiscoveryPeerFilter {
            local_device_id: None,
            required_capabilities: CapabilityFlags::empty(),
            blocked_device_ids: Vec::new(),
        }
    }
}

impl DiscoveryPeerFilter {
    /// Whether a peer is the device itself.
    pub open spec fn is_local(&self, peer: DiscoveredPeer) -> bool {
        self.local_device_id matches Some(id) && id@ == peer.txt.device_id@
    }

    /// Whether a peer is blocked.
    pub open spec fn is_blocked(&self, peer: DiscoveredPeer) -> bool {
        exists|i: int|
            0 <= i < self.blocked_device_ids@.len() && (#[trigger] self.blocked_device_ids@[i])@
                == peer.txt.device_id@
    }

    /// Whether a peer can do what is required.
    pub open spec fn is_capable(&self, peer: DiscoveredPeer) -> bool {
        self.required_capabilities.bits == 0 || peer.txt.capabilities.has(
            self.required_capabilities,
        )
    }

    /// Whether a peer can be reached.
    pub open spec fn is_reachable(&self, peer: DiscoveredPeer) -> bool {
        &&& crate::text::trim(peer.host_name@).len() > 0
        &&& peer.port != 0
        &&& peer.addresses@.len() > 0
    }

    /// Whether a peer is offered.
    pub open spec fn accepts(&self, peer: DiscoveredPeer) -> bool {
        !self.is_local(peer) && !self.is_blocked(peer) && self.is_capable(peer)
            && self.is_reachable(peer)
    }

    /// Whether a reason is the one for which a peer is not offered: the device itself comes first,
    /// then blocked devices, missing capabilities and endpoints that cannot be reached.
    pub open spec fn rejects(
        &self,
        peer: DiscoveredPeer,
        reason: DiscoveryPeerRejectReason,
    ) -> bool {
        if self.is_local(peer) {
            reason matches DiscoveryPeerRejectReason::LocalDevice { device_id } && device_id@
                == peer.txt.device_id@
        } else if self.is_blocked(peer) {
            reason matches DiscoveryPeerRejectReason::BlockedDevice { device_id } && device_id@
                == peer.txt.device_id@
        } else if !self.is_capable(peer) {
            reason == (DiscoveryPeerRejectReason::MissingRequiredCapability {
                required: self.required_capabilities,
                actual: peer.txt.capabilities,
            })
        } else {
            !self.is_reachable(peer) && reason == DiscoveryPeerRejectReason::InvalidEndpoint
        }
    }

    /// Whether a device is blocked.
    fn blocks(&self, device_id: &str) -> (result: bool)
        ensures
            result == exists|i: int|
                0 <= i < self.blocked_device_ids@.len() && (
                #[trigger] self.blocked_device_ids@[i])@ == device_id@,
    {
        let mut i: usize = 0;
        while i < self.blocked_device_ids.len()
            invariant
                i <= self.blocked_device_ids@.len(),
                forall|k: int|
                    0 <= k < i ==> (#[trigger] self.blocked_device_ids@[k])@ != device_id@,
            decreases self.blocked_device_ids@.len() - i,
        {
            if same(self.blocked_device_ids[i].as_str(), device_id) {
                proof {
                    assert(self.blocked_device_ids@[i as int]@ == device_id@);
                }
                return true;
            }
            i = i + 1;
        }
        false
    }

    /// Say whether a peer is offered, or why not.
    pub fn accept(&self, peer: &DiscoveredPeer) -> (result: Result<(), DiscoveryPeerRejectReason>)
        ensures
            match result {
                Ok(_) => self.accepts(*peer),
                Err(reason) => !self.accepts(*peer) && self.rejects(*peer, reason),
            },
    {
        match &self.local_device_id {
            Some(id) => {
                if same(id.as_str(), peer.txt.device_id.as_str()) {
                    return Err(
                        DiscoveryPeerRejectReason::LocalDevice {
                            device_id: peer.txt.device_id.clone(),
                        },
                    );
                }
            },
            None => {},
        }
        if self.blocks(peer.txt.device_id.as_str()) {
            return Err(
                DiscoveryPeerRejectReason::BlockedDevice { device_id: peer.txt.device_id.clone() },
            );
        }
        if !self.required_capabilities.is_empty() && !peer.txt.capabilities.contains(
            self.required_capabilities,
        ) {
            return Err(
                DiscoveryPeerRejectReason::MissingRequiredCapability {
                    required: self.required_capabilities,
                    actual: peer.txt.capabilities,
                },
            );
        }
        if trimmed(peer.host_name.as_str()).is_empty() || peer.port == 0 || peer.addresses.len()
            == 0 {
            return Err(DiscoveryPeerRejectReason::InvalidEndpoint);
        }
        Ok(())
    }
}

/// The peers of a list that are offered, in order.
pub open spec fn accepted(peers: Seq<DiscoveredPeer>, filter: DiscoveryPeerFilter) -> Seq<
    DiscoveredPeer,
> {
    peers.filter(|peer: DiscoveredPeer| filter.accepts(peer))
}

/// The peers that a list of references stands for.
pub open spec fn referred(peers: Seq<&DiscoveredPeer>) -> Seq<DiscoveredPeer> {
    peers.map_values(|peer: &DiscoveredPeer| *peer)
}

/// The peers of a list that are offered, in order.
pub fn filter_discovered_peers<'a>(
    peers: &'a Vec<DiscoveredPeer>,
    filter: &DiscoveryPeerFilter,
) -> (result: Vec<&'a DiscoveredPeer>)
    ensures
        referred(result@) == accepted(peers@, *filter),
{
    let mut result: Vec<&'a DiscoveredPeer> = Vec::new();
    let mut i: usize = 0;
    let ghost keep = |peer: DiscoveredPeer| filter.accepts(peer);
    proof {
        reveal(Seq::filter);
        assert(referred(result@) =~= peers@.subrange(0, 0).filter(keep));
    }
    while i < peers.len()
        invariant
            i <= peers@.len(),
            keep == (|peer: DiscoveredPeer| filter.accepts(peer)),
            referred(result@) == peers@.subrange(0, i as int).filter(keep),
        decreases peers@.len() - i,
    {
        let peer = &peers[i];
        proof {
            reveal(Seq::filter);
            assert(peers@.subrange(0, i + 1).drop_last() =~= peers@.subrange(0, i as int));
            assert(peers@.subrange(0, i + 1).last() == *peer);
        }
        let ghost before = result@;
        if filter.accept(peer).is_ok() {
            result.push(peer);
            proof {
                assert(referred(result@) =~= referred(before).push(*peer));
            }
        }
        i = i + 1;
    }
    proof {
        assert(peers@.subrange(0, i as int) =~= peers@);
    }
    result
}

/// A peer that can be handed to the session surface.
#[derive(Debug, PartialEq, Eq)]
pub struct DiscoverySessionCandidate {
    pub peer_id: String,
    pub display_name: String,
    pub fingerprint: Option<String>,
    pub peer_document_json: Option<String>,
    pub trusted: bool,
    pub address: SocketAddress,
    pub build_version: String,
    pub capabilities: CapabilityFlags,
}

/// What is offered of a peer.
pub struct CandidateModel {
    pub peer_id: Seq<char>,
    pub display_name: Seq<char>,
    pub fingerprint: Option<Seq<char>>,
    pub peer_document_json: Option<Seq<char>>,
    pub trusted: bool,
    pub address: SocketAddress,
    pub build_version: Seq<char>,
    pub capabilities: CapabilityFlags,
}

impl View for DiscoverySessionCandidate {
    type V = CandidateModel;

    open spec fn view(&self) -> CandidateModel {
        CandidateModel {
            peer_id: self.peer_id@,
            display_name: self.display_name@,
            fingerprint: crate::rpc::optional_view(self.fingerprint),
            peer_document_json: crate::rpc::optional_view(self.peer_document_json),
            trusted: self.trusted,
            address: self.address,
            build_version: self.build_version@,
            capabilities: self.capabilities,
        }
    }
}

/// What is known of a paired peer. Where an id was paired more than once, the last one counts.
pub open spec fn trusted_as(trusted: Seq<TrustedPeerIdentity>, id: Seq<char>) -> Option<
    TrustedPeerIdentity,
>
    decreases trusted.len(),
{
    if trusted.len() == 0 {
        None
    } else if trusted.last().peer_id@ == id {
        Some(trusted.last())
    } else {
        trusted_as(trusted.drop_last(), id)
    }
}

/// What is known of a paired peer.
pub fn find_trusted<'a>(trusted: &'a Vec<TrustedPeerIdentity>, id: &str) -> (result: Option<
    &'a TrustedPeerIdentity,
>)
    ensures
        match result {
            Some(peer) => trusted_as(trusted@, id@) == Some(*peer),
            None => trusted_as(trusted@, id@) is None,
        },
{
    let mut i: usize = trusted.len();
    proof {
        assert(trusted@.subrange(0, i as int) =~= trusted@);
    }
    while i > 0
        invariant
            i <= trusted@.len(),
            trusted_as(trusted@, id@) == trusted_as(trusted@.subrange(0, i as int), id@),
        decreases i,
    {
        proof {
            assert(trusted@.subrange(0, i as int).drop_last() =~= trusted@.subrange(0, i - 1));
        }
        i = i - 1;
        if same(trusted[i].peer_id(), id) {
            return Some(&trusted[i]);
        }
    }
    None
}

/// The first part of a service's full name, or a name for peers that have none.
pub open spec fn instance_label(instance_name: Seq<char>) -> Seq<char> {
    let name = crate::text::strip_trailing(crate::text::trim(instance_name), '.');
    let service = crate::text::strip_trailing(crate::discovery::AKRAZ_DISCOVERY_SERVICE_TYPE@, '.');
    let head = if crate::text::has_suffix(name, service) {
        name.subrange(0, name.len() - service.len())
    } else {
        name
    };
    let label = crate::text::strip_trailing(head, '.');
    if label.len() == 0 {
        "Akraz Peer"@
    } else {
        label
    }
}

/// The first part of a service's full name, or a name for peers that have none.
pub fn discovery_instance_label(instance_name: &str) -> (result: String)
    ensures
        result@ == instance_label(instance_name@),
{
    let name = trim_end_char(trimmed(instance_name), '.');
    let service = trim_end_char(crate::discovery::AKRAZ_DISCOVERY_SERVICE_TYPE, '.');
    let head = if ends_with(name, service) {
        name.substring_char(0, name.unicode_len() - service.unicode_len())
    } else {
        name
    };
    let label = trim_end_char(head, '.');
    if label.is_empty() {
        "Akraz Peer".to_owned()
    } else {
        label.to_owned()
    }
}

/// The name under which a peer is offered: the one it was paired under, else the one it announces,
/// else that of its service.
pub open spec fn offered_name(peer: DiscoveredPeer, trusted: Option<TrustedPeerIdentity>) -> Seq<
    char,
> {
    match trusted {
        Some(known) => known.display_name@,
        None => match peer.txt.display_name {
            Some(name) => name@,
            None => instance_label(peer.instance_name@),
        },
    }
}

/// The key and the fingerprint of a peer, where it announces both and they fit together.
pub open spec fn pairing_fields(peer: DiscoveredPeer) -> Option<(Seq<char>, Seq<char>)> {
    match (peer.txt.identity_public_key, peer.txt.fingerprint) {
        (Some(key), Some(fingerprint)) => if crate::store::document_verdict(
            crate::store::PAIRING_DOCUMENT_KIND@,
            peer.txt.device_id@,
            key@,
            fingerprint@,
            None,
        ) {
            Some((key@, fingerprint@))
        } else {
            None
        },
        _ => None,
    }
}

/// The document with which a peer can be paired.
pub open spec fn is_offered_document(
    document: PairingIdentityDocument,
    peer: DiscoveredPeer,
    display_name: Seq<char>,
) -> bool {
    &&& pairing_fields(peer) == Some((document.identity_public_key@, document.fingerprint@))
    &&& document.kind@ == crate::store::PAIRING_DOCUMENT_KIND@
    &&& document.device_id@ == peer.txt.device_id@
    &&& document.display_name@ == crate::text::trim(display_name)
    &&& document.capabilities == peer.txt.capabilities
}

/// The document with which a peer can be paired.
pub fn discovery_pairing_document(peer: &DiscoveredPeer, display_name: &str) -> (result: Option<
    PairingIdentityDocument,
>)
    ensures
        match result {
            Some(document) => is_offered_document(document, *peer, display_name@),
            None => pairing_fields(*peer) is None,
        },
{
    match (&peer.txt.identity_public_key, &peer.txt.fingerprint) {
        (Some(key), Some(fingerprint)) => match PairingIdentityDocument::from_public_wire_fields(
            peer.txt.device_id.as_str(),
            trimmed(display_name),
            key.as_str(),
            fingerprint.as_str(),
            peer.txt.capabilities,
        ) {
            Ok(document) => Some(document),
            Err(_) => None,
        },
        _ => None,
    }
}

/// A pairing document as JSON, by what it says.
pub open spec fn pairing_json(
    device_id: Seq<char>,
    display_name: Seq<char>,
    public_key: Seq<char>,
    fingerprint: Seq<char>,
    capabilities: CapabilityFlags,
) -> crate::json::JsonModel {
    crate::json::JsonModel::Object(
        seq![
            ("kind"@, crate::json::JsonModel::Text(crate::store::PAIRING_DOCUMENT_KIND@)),
            ("deviceId"@, crate::json::JsonModel::Text(device_id)),
            ("displayName"@, crate::json::JsonModel::Text(display_name)),
            ("identityPublicKey"@, crate::json::JsonModel::Text(public_key)),
            ("fingerprint"@, crate::json::JsonModel::Text(fingerprint)),
            ("capabilities"@, crate::json::JsonModel::Unsigned(capabilities.bits as u64)),
        ],
    )
}

/// What is offered of a peer. A paired peer is offered with what it was paired under; one that is
/// not comes with the document it can be paired with, where it announces one that holds together.
pub open spec fn candidate(peer: DiscoveredPeer, trusted: Seq<TrustedPeerIdentity>) -> CandidateModel {
    let known = trusted_as(trusted, peer.txt.device_id@);
    let name = offered_name(peer, known);
    CandidateModel {
        peer_id: peer.txt.device_id@,
        display_name: name,
        fingerprint: match known {
            Some(known) => Some(known.fingerprint@),
            None => match pairing_fields(peer) {
                Some((_, fingerprint)) => Some(fingerprint),
                None => None,
            },
        },
        peer_document_json: match known {
            Some(_) => None,
            None => match pairing_fields(peer) {
                Some((key, fingerprint)) => Some(
                    crate::json::json_text(
                        pairing_json(
                            peer.txt.device_id@,
                            crate::text::trim(name),
                            key,
                            fingerprint,
                            peer.txt.capabilities,
                        ),
                    ),
                ),
                None => None,
            },
        },
        trusted: known is Some,
        address: peer.endpoint()->Some_0,
        build_version: peer.txt.build_version@,
        capabilities: peer.txt.capabilities,
    }
}

/// What is offered of a peer, where it has an address.
pub fn discovery_session_candidate(
    peer: &DiscoveredPeer,
    trusted_peers: &Vec<TrustedPeerIdentity>,
) -> (result: Option<DiscoverySessionCandidate>)
    ensures
        match result {
            Some(offered) => peer.endpoint() is Some && offered@ == candidate(
                *peer,
                trusted_peers@,
            ),
            None => peer.endpoint() is None,
        },
{
    let address = match peer.primary_socket_addr() {
        Some(address) => address,
        None => return None,
    };
    let peer_id = peer.txt.device_id.clone();
    match find_trusted(trusted_peers, peer_id.as_str()) {
        Some(known) => Some(
            DiscoverySessionCandidate {
                peer_id,
                display_name: known.display_name().to_owned(),
                fingerprint: Some(known.fingerprint().to_owned()),
                peer_document_json: None,
                trusted: true,
                address,
                build_version: peer.txt.build_version.clone(),
                capabilities: peer.txt.capabilities,
            },
        ),
        None => {
            let display_name = match clone_text(&peer.txt.display_name) {
                Some(name) => name,
                None => discovery_instance_label(peer.instance_name.as_str()),
            };
            let (fingerprint, peer_document_json) = match discovery_pairing_document(
                peer,
                display_name.as_str(),
            ) {
                Some(document) => {
                    let value = document.to_json();
                    proof {
                        assert(value@->Object_0 =~= pairing_json(
                            peer.txt.device_id@,
                            crate::text::trim(display_name@),
                            document.identity_public_key@,
                            document.fingerprint@,
                            peer.txt.capabilities,
                        )->Object_0);
                    }
                    (Some(document.fingerprint().to_owned()), Some(encode_json(&value)))
                },
                None => (None, None),
            };
            Some(
                DiscoverySessionCandidate {
                    peer_id,
                    display_name,
                    fingerprint,
                    peer_document_json,
                    trusted: false,
                    address,
                    build_version: peer.txt.build_version.clone(),
                    capabilities: peer.txt.capabilities,
                },
            )
        },
    }
}

/// What a list of candidates offers.
pub open spec fn candidate_models(candidates: Seq<DiscoverySessionCandidate>) -> Seq<
    CandidateModel,
> {
    candidates.map_values(|candidate: DiscoverySessionCandidate| candidate@)
}

/// What is offered of a list of peers.
pub open spec fn offered(
    peers: Seq<DiscoveredPeer>,
    filter: DiscoveryPeerFilter,
    trusted: Seq<TrustedPeerIdentity>,
) -> Seq<CandidateModel> {
    accepted(peers, filter).map_values(|peer: DiscoveredPeer| candidate(peer, trusted))
}

/// Offer the peers of a list that the filter lets through, in order.
pub fn build_discovery_session_candidates(
    peers: &Vec<DiscoveredPeer>,
    filter: &DiscoveryPeerFilter,
    trusted_peers: &Vec<TrustedPeerIdentity>,
) -> (result: Vec<DiscoverySessionCandidate>)
    ensures
        candidate_models(result@) == offered(peers@, *filter, trusted_peers@),
{
    let mut result: Vec<DiscoverySessionCandidate> = Vec::new();
    let mut i: usize = 0;
    proof {
        reveal(Seq::filter);
        assert(candidate_models(result@) =~= offered(
            peers@.subrange(0, 0),
            *filter,
            trusted_peers@,
        ));
    }
    while i < peers.len()
        invariant
            i <= peers@.len(),
            candidate_models(result@) == offered(
                peers@.subrange(0, i as int),
                *filter,
                trusted_peers@,
            ),
        decreases peers@.len() - i,
    {
        let peer = &peers[i];
        let ghost before = result@;
        let ghost shorter = peers@.subrange(0, i as int);
        proof {
            reveal(Seq::filter);
            assert(peers@.subrange(0, i + 1).drop_last() =~= shorter);
            assert(peers@.subrange(0, i + 1).last() == *peer);
        }
        if filter.accept(peer).is_ok() {
            match discovery_session_candidate(peer, trusted_peers) {
                Some(found) => {
                    result.push(found);
                    proof {
                        assert(accepted(peers@.subrange(0, i + 1), *filter) == accepted(
                            shorter,
                            *filter,
                        ).push(*peer));
                        assert(candidate_models(result@) =~= candidate_models(before).push(
                            candidate(*peer, trusted_peers@),
                        ));
                        assert(offered(peers@.subrange(0, i + 1), *filter, trusted_peers@)
                            =~= offered(shorter, *filter, trusted_peers@).push(
                            candidate(*peer, trusted_peers@),
                        ));
                    }
                },
                None => {},
            }
        }
        i = i + 1;
    }
    proof {
        assert(peers@.subrange(0, i as int) =~= peers@);
    }
    result
}

/// Nothing is offered that the filter holds back, and an unpaired peer is never offered as trusted.
pub proof fn only_accepted_peers_are_offered(
    peers: Seq<DiscoveredPeer>,
    filter: DiscoveryPeerFilter,
    trusted: Seq<TrustedPeerIdentity>,
    i: int,
)
    requires
        0 <= i < offered(peers, filter, trusted).len(),
    ensures
        exists|peer: DiscoveredPeer| #[trigger]
            peers.contains(peer) && filter.accepts(peer) && offered(peers, filter, trusted)[i]
                == candidate(peer, trusted),
        offered(peers, filter, trusted)[i].trusted ==> exists|k: int|
            0 <= k < trusted.len() && (#[trigger] trusted[k]).peer_id@ == offered(
                peers,
                filter,
                trusted,
            )[i].peer_id,
{
    let keep = |peer: DiscoveredPeer| filter.accepts(peer);
    let kept = accepted(peers, filter);
    peers.lemma_filter_contains_rev(keep, kept[i]);
    assert(keep(kept[i]));
    assert(peers.contains(kept[i]));
    lemma_trusted(trusted, kept[i].txt.device_id@);
}

/// What is known of a paired peer stands in the list.
proof fn lemma_trusted(trusted: Seq<TrustedPeerIdentity>, id: Seq<char>)
    ensures
        trusted_as(trusted, id) matches Some(peer) ==> exists|k: int|
            0 <= k < trusted.len() && (#[trigger] trusted[k]).peer_id@ == id,
    decreases trusted.len(),
{
    if trusted.len() > 0 {
        if trusted.last().peer_id@ == id {
            assert(trusted[trusted.len() - 1].peer_id@ == id);
        } else {
            lemma_trusted(trusted.drop_last(), id);
            if trusted_as(trusted, id) is Some {
                let shorter = trusted.drop_last();
                let k = choose|k: int|
                    0 <= k < shorter.len() && (#[trigger] shorter[k]).peer_id@ == id;
                assert(trusted[k].peer_id@ == id);
            }
        }
    }
}

/// A peer counts as trusted where its id stands in the list of trusted peers, at any place, and is known
/// by an entry of that id; where no id stands in the list twice, by the only one.
pub proof fn a_peer_is_trusted_where_it_was_paired(trusted: Seq<TrustedPeerIdentity>, id: Seq<char>)
    ensures
        trusted_as(trusted, id) is Some <==> exists|k: int|
            0 <= k < trusted.len() && (#[trigger] trusted[k]).peer_id@ == id,
        trusted_as(trusted, id) matches Some(known) ==> exists|k: int|
            0 <= k < trusted.len() && #[trigger] trusted[k] == known && known.peer_id@ == id
                && forall|later: int|
                k < later < trusted.len() ==> (#[trigger] trusted[later]).peer_id@ != id,
        forall|k: int|
            0 <= k < trusted.len() && (#[trigger] trusted[k]).peer_id@ == id && (forall|other: int|
                0 <= other < trusted.len() && other != k ==> (#[trigger] trusted[other]).peer_id@
                    != id) ==> trusted_as(trusted, id) == Some(trusted[k]),
    decreases trusted.len(),
{
    if trusted.len() > 0 {
        let shorter = trusted.drop_last();
        let end = trusted.len() - 1;
        assert(trusted[end] == trusted.last());
        if trusted.last().peer_id@ != id {
            a_peer_is_trusted_where_it_was_paired(shorter, id);
            if trusted_as(trusted, id) is Some {
                let known = trusted_as(trusted, id)->Some_0;
                let k = choose|k: int|
                    0 <= k < shorter.len() && #[trigger] shorter[k] == known && known.peer_id@ == id
                        && forall|later: int|
                        k < later < shorter.len() ==> (#[trigger] shorter[later]).peer_id@ != id;
                assert(trusted[k] == known);
                assert forall|later: int| k < later < trusted.len() implies (
                #[trigger] trusted[later]).peer_id@ != id by {
                    if later < end {
                        assert(shorter[later] == trusted[later]);
                    }
                }
            }
            assert forall|k: int|
                0 <= k < trusted.len() && (#[trigger] trusted[k]).peer_id@ == id implies trusted_as(
                trusted,
                id,
            ) is Some by {
                assert(shorter[k].peer_id@ == id);
            }
            assert forall|k: int|
                0 <= k < trusted.len() && (#[trigger] trusted[k]).peer_id@ == id && (forall|
                    other: int,
                |
                    0 <= other < trusted.len() && other != k ==> (
                    #[trigger] trusted[other]).peer_id@ != id) implies trusted_as(trusted, id)
                == Some(trusted[k]) by {
                assert(shorter[k] == trusted[k]);
                assert forall|other: int| 0 <= other < shorter.len() && other != k implies (
                #[trigger] shorter[other]).peer_id@ != id by {
                    assert(shorter[other] == trusted[other]);
                }
            }
        }
    }
}

/// Whether a candidate is what is offered of a discovered peer: under its own id, at the first of its
/// addresses and at its port, with what it announces; trusted just where it was paired, and then under
/// the name and the fingerprint it was paired with and without a document to pair with.
pub open spec fn is_offered_as(
    peer: DiscoveredPeer,
    trusted: Seq<TrustedPeerIdentity>,
    candidate: DiscoverySessionCandidate,
) -> bool {
    &&& candidate.peer_id@ == peer.txt.device_id@
    &&& candidate.build_version@ == peer.txt.build_version@
    &&& candidate.capabilities == peer.txt.capabilities
    &&& peer.addresses@.len() > 0
    &&& candidate.address.ip == peer.addresses@[0]
    &&& candidate.address.port == peer.port
    &&& candidate.trusted <==> exists|k: int|
        0 <= k < trusted.len() && (#[trigger] trusted[k]).peer_id@ == peer.txt.device_id@
    &&& candidate.trusted ==> {
        &&& candidate.peer_document_json is None
        &&& candidate.fingerprint is Some
        &&& exists|k: int|
            0 <= k < trusted.len() && (#[trigger] trusted[k]).peer_id@ == peer.txt.device_id@
                && candidate.display_name@ == trusted[k].display_name@
                && candidate.fingerprint->Some_0@ == trusted[k].fingerprint@
    }
    &&& !candidate.trusted ==> {
        &&& peer.txt.display_name matches Some(name) ==> candidate.display_name@ == name@
        &&& candidate.peer_document_json is Some <==> candidate.fingerprint is Some
        &&& candidate.fingerprint is Some ==> peer.txt.fingerprint is Some
            && candidate.fingerprint->Some_0@ == peer.txt.fingerprint->Some_0@
    }
}

/// Whether a candidate is one of the peers of a list that a filter lets through.
pub open spec fn is_offered_from(
    peers: Seq<DiscoveredPeer>,
    filter: DiscoveryPeerFilter,
    trusted: Seq<TrustedPeerIdentity>,
    candidate: DiscoverySessionCandidate,
) -> bool {
    exists|k: int|
        0 <= k < peers.len() && filter.accepts(#[trigger] peers[k]) && is_offered_as(
            peers[k],
            trusted,
            candidate,
        )
}

/// A candidate that looks like what is offered of a peer is offered as that peer.
proof fn lemma_is_offered_as(
    peer: DiscoveredPeer,
    trusted: Seq<TrustedPeerIdentity>,
    offered: DiscoverySessionCandidate,
)
    requires
        offered@ == candidate(peer, trusted),
        peer.endpoint() is Some,
    ensures
        is_offered_as(peer, trusted, offered),
{
    a_peer_is_trusted_where_it_was_paired(trusted, peer.txt.device_id@);
}

/// A discovered peer is offered just where it can be reached at an address, as what it announces, and as
/// trusted just where it was paired.
pub proof fn a_candidate_is_the_peer_that_was_discovered(
    peer: &DiscoveredPeer,
    trusted: &Vec<TrustedPeerIdentity>,
    result: Option<DiscoverySessionCandidate>,
)
    requires
        call_ensures(discovery_session_candidate, (peer, trusted), result),
    ensures
        result is Some <==> peer.addresses@.len() > 0,
        result matches Some(offered) ==> is_offered_as(*peer, trusted@, offered),
{
    if let Some(offered) = result {
        lemma_is_offered_as(*peer, trusted@, offered);
    }
}

/// The candidates that are offered are the peers that the filter lets through, each of them and no other,
/// in the order in which they were discovered.
pub proof fn offered_peers_are_the_accepted_ones(
    peers: Seq<DiscoveredPeer>,
    filter: DiscoveryPeerFilter,
    trusted: Seq<TrustedPeerIdentity>,
    result: Seq<DiscoverySessionCandidate>,
)
    requires
        candidate_models(result) == offered(peers, filter, trusted),
    ensures
        result.len() == accepted(peers, filter).len(),
        forall|i: int|
            0 <= i < result.len() ==> is_offered_as(
                accepted(peers, filter)[i],
                trusted,
                #[trigger] result[i],
            ),
        forall|k: int|
            0 <= k < peers.len() && filter.accepts(#[trigger] peers[k]) ==> exists|i: int|
                0 <= i < result.len() && is_offered_as(peers[k], trusted, #[trigger] result[i]),
        forall|i: int|
            0 <= i < result.len() ==> #[trigger] is_offered_from(
                peers,
                filter,
                trusted,
                result[i],
            ),
{
    let keep = |peer: DiscoveredPeer| filter.accepts(peer);
    let kept = accepted(peers, filter);
    assert(candidate_models(result).len() == result.len());
    assert forall|i: int| 0 <= i < result.len() implies is_offered_as(
        kept[i],
        trusted,
        #[trigger] result[i],
    ) && is_offered_from(peers, filter, trusted, result[i]) by {
        assert(candidate_models(result)[i] == result[i]@);
        assert(offered(peers, filter, trusted)[i] == candidate(kept[i], trusted));
        peers.lemma_filter_contains_rev(keep, kept[i]);
        assert(keep(kept[i]));
        lemma_is_offered_as(kept[i], trusted, result[i]);
        let k = choose|k: int| 0 <= k < peers.len() && peers[k] == kept[i];
        assert(filter.accepts(peers[k]));
    }
    assert forall|k: int| 0 <= k < peers.len() && filter.accepts(#[trigger] peers[k]) implies exists|
        i: int,
    | 0 <= i < result.len() && is_offered_as(peers[k], trusted, #[trigger] result[i]) by {
        assert(keep(peers[k]));
        peers.lemma_filter_contains(keep, k);
        let i = choose|i: int| 0 <= i < kept.len() && kept[i] == peers[k];
        assert(is_offered_as(kept[i], trusted, result[i]));
    }
}

/// A peer is let through where it is another device, is not blocked, can do all that is required, and
/// has a host, a port and an address; the first of these that fails is the reason why it is not.
pub proof fn a_filter_says_why_it_holds_back(
    filter: &DiscoveryPeerFilter,
    peer: &DiscoveredPeer,
    result: Result<(), DiscoveryPeerRejectReason>,
)
    requires
        call_ensures(DiscoveryPeerFilter::accept, (filter, peer), result),
    ensures
        ({
            let own = filter.local_device_id is Some && filter.local_device_id->Some_0@
                == peer.txt.device_id@;
            let blocked = exists|i: int|
                0 <= i < filter.blocked_device_ids@.len() && (
                #[trigger] filter.blocked_device_ids@[i])@ == peer.txt.device_id@;
            let able = filter.required_capabilities.bits & peer.txt.capabilities.bits
                == filter.required_capabilities.bits;
            let reachable = crate::text::trim(peer.host_name@).len() > 0 && peer.port != 0
                && peer.addresses@.len() > 0;
            &&& result is Ok <==> !own && !blocked && able && reachable
            &&& result is Err && result->Err_0 is LocalDevice <==> own
            &&& result is Err && result->Err_0 is BlockedDevice <==> !own && blocked
            &&& result is Err && result->Err_0 is MissingRequiredCapability <==> !own && !blocked
                && !able
            &&& result is Err && result->Err_0 is InvalidEndpoint <==> !own && !blocked && able
                && !reachable
        }),
{
    let required = filter.required_capabilities.bits;
    let actual = peer.txt.capabilities.bits;
    assert(required & actual == actual & required) by (bit_vector);
    assert(0u32 & actual == 0u32) by (bit_vector);
}

/// A peer that was not paired can be paired with just what it announces, where the announced key and
/// fingerprint fit together.
pub proof fn a_pairing_document_is_the_peer_itself(
    peer: &DiscoveredPeer,
    display_name: &str,
    result: Option<PairingIdentityDocument>,
)
    requires
        call_ensures(discovery_pairing_document, (peer, display_name), result),
    ensures
        result matches Some(document) ==> {
            &&& document.device_id@ == peer.txt.device_id@
            &&& document.capabilities == peer.txt.capabilities
            &&& crate::text::is_without_space_around(display_name@, document.display_name@)
            &&& peer.txt.identity_public_key is Some
            &&& document.identity_public_key@ == peer.txt.identity_public_key->Some_0@
            &&& peer.txt.fingerprint is Some
            &&& document.fingerprint@ == peer.txt.fingerprint->Some_0@
        },
{
    crate::text::trimming_takes_off_space_only(display_name@);
}

/// The label of a service is the part of its name in front of the type, and never empty.
pub proof fn a_label_is_the_name_before_the_type(label: Seq<char>)
    requires
        label.len() > 0,
        label.last() != '.',
        !crate::text::is_whitespace(label[0]),
        !crate::text::is_whitespace(label.last()),
        !crate::text::has_suffix(
            label,
            crate::text::strip_trailing(crate::discovery::AKRAZ_DISCOVERY_SERVICE_TYPE@, '.'),
        ),
    ensures
        instance_label(label) == label,
        instance_label(Seq::<char>::empty()) == "Akraz Peer"@,
        forall|name: Seq<char>| (#[trigger] instance_label(name)).len() > 0,
{
    crate::text::lemma_trimmed(label);
    reveal_strlit("Akraz Peer");
    let service = crate::text::strip_trailing(crate::discovery::AKRAZ_DISCOVERY_SERVICE_TYPE@, '.');
    let none = Seq::<char>::empty();
    assert(crate::text::strip_trailing(crate::text::trim(none), '.') =~= none);
    crate::text::stripping_leaves_the_middle(label, '.');
    assert(none.subrange(0, none.len() as int) =~= none);
    if crate::text::has_suffix(none, service) {
        assert(none.subrange(0, none.len() - service.len()) =~= none);
    }
}

/// A session with a peer is opened at the first of its addresses and at its port, and nowhere where it
/// has none.
pub proof fn a_peer_is_reached_at_its_first_address(
    peer: DiscoveredPeer,
    address: Option<SocketAddress>,
)
    requires
        call_ensures(DiscoveredPeer::primary_socket_addr, (&peer,), address),
    ensures
        address is Some <==> peer.addresses@.len() > 0,
        address matches Some(at) ==> at.ip == peer.addresses@[0] && at.port == peer.port
            && at.scope_id == 0,
{
}

/// The peers that a filter leaves are those that it accepts, in their order: each of them was there and
/// is accepted, and each that is accepted is left.
pub proof fn a_filter_leaves_the_peers_it_accepts(
    peers: Vec<DiscoveredPeer>,
    filter: DiscoveryPeerFilter,
    left: Vec<&DiscoveredPeer>,
    k: int,
)
    requires
        call_ensures(filter_discovered_peers, (&peers, &filter), left),
    ensures
        left@.len() <= peers@.len(),
        forall|i: int|
            0 <= i < left@.len() ==> filter.accepts(*(#[trigger] left@[i])) && peers@.contains(
                *left@[i],
            ),
        0 <= k < peers@.len() && filter.accepts(peers@[k]) ==> exists|i: int|
            0 <= i < left@.len() && *(#[trigger] left@[i]) == peers@[k],
{
    let keep = |peer: DiscoveredPeer| filter.accepts(peer);
    let kept = accepted(peers@, filter);
    let seen = referred(left@);
    assert(seen.len() == left@.len());
    peers@.lemma_filter_len(keep);
    assert forall|i: int| 0 <= i < left@.len() implies filter.accepts(*(#[trigger] left@[i]))
        && peers@.contains(*left@[i]) by {
        assert(seen[i] == *left@[i]);
        peers@.lemma_filter_pred(keep, i);
        peers@.lemma_filter_contains_rev(keep, seen[i]);
    }
    if 0 <= k < peers@.len() && filter.accepts(peers@[k]) {
        peers@.filter_lemma(keep);
        assert(kept.contains(peers@[k]));
        let i = choose|i: int| 0 <= i < kept.len() && kept[i] == peers@[k];
        assert(seen[i] == *left@[i]);
    }
}

/// The peers that are offered for a session are those that the filter accepts, each as it was found and
/// trusted where it was paired.
pub proof fn the_offered_peers_are_those_that_were_found(
    peers: Vec<DiscoveredPeer>,
    filter: DiscoveryPeerFilter,
    trusted: Vec<TrustedPeerIdentity>,
    offered_peers: Vec<DiscoverySessionCandidate>,
    k: int,
)
    requires
        call_ensures(build_discovery_session_candidates, (&peers, &filter, &trusted), offered_peers),
    ensures
        forall|i: int|
            0 <= i < offered_peers@.len() ==> #[trigger] is_offered_from(
                peers@,
                filter,
                trusted@,
                offered_peers@[i],
            ),
        0 <= k < peers@.len() && filter.accepts(peers@[k]) ==> exists|i: int|
            0 <= i < offered_peers@.len() && is_offered_as(
                peers@[k],
                trusted@,
                #[trigger] offered_peers@[i],
            ),
{
    offered_peers_are_the_accepted_ones(peers@, filter, trusted@, offered_peers@);
}

/// A peer's label is the name of its service, and never empty.
pub proof fn a_peer_has_a_label(name: &str, label: String)
    requires
        call_ensures(discovery_instance_label, (name,), label),
    ensures
        label@.len() > 0,
        name@.len() == 0 ==> label@ == "Akraz Peer"@,
{
    reveal_strlit("Akraz Peer");
    let none = Seq::<char>::empty();
    if name@.len() == 0 {
        assert(name@ =~= none);
        let service = crate::text::strip_trailing(
            crate::discovery::AKRAZ_DISCOVERY_SERVICE_TYPE@,
            '.',
        );
        assert(crate::text::strip_trailing(crate::text::trim(none), '.') =~= none);
        assert(none.subrange(0, none.len() as int) =~= none);
        if crate::text::has_suffix(none, service) {
            assert(none.subrange(0, none.len() - service.len()) =~= none);
        }
    }
}

/// A peer is found among the trusted ones where its id stands in the list, at any place, and by an entry
/// of that id; it is found in a longer list wherever it was found before.
pub proof fn a_trusted_peer_is_found_at_any_place(
    trusted: &Vec<TrustedPeerIdentity>,
    id: &str,
    result: Option<&TrustedPeerIdentity>,
    longer: &Vec<TrustedPeerIdentity>,
    again: Option<&TrustedPeerIdentity>,
)
    requires
        call_ensures(find_trusted, (trusted, id), result),
        call_ensures(find_trusted, (longer, id), again),
        forall|k: int| 0 <= k < trusted@.len() ==> longer@.contains(#[trigger] trusted@[k]),
    ensures
        result is Some <==> exists|k: int|
            0 <= k < trusted@.len() && (#[trigger] trusted@[k]).peer_id@ == id@,
        result is Some ==> result->Some_0.peer_id@ == id@ && trusted@.contains(*result->Some_0),
        result is Some ==> again is Some,
{
    a_peer_is_trusted_where_it_was_paired(trusted@, id@);
    a_peer_is_trusted_where_it_was_paired(longer@, id@);
    if result is Some {
        let k = choose|k: int| 0 <= k < trusted@.len() && (#[trigger] trusted@[k]).peer_id@ == id@;
        assert(longer@.contains(trusted@[k]));
        let j = choose|j: int| 0 <= j < longer@.len() && longer@[j] == trusted@[k];
        assert(longer@[j].peer_id@ == id@);
    }
}

} // verus!
