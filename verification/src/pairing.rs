//! Showing the application's identity, and trusting and forgetting peers.

use vstd::prelude::*;

use crate::identity::{DeviceIdentity, TrustedPeerIdentity};
use crate::json::{encode_json_pretty, JsonModel, ToJson};
use crate::protocol::CapabilityFlags;
use crate::store::{
    IdentityStoreError, PairingDocumentError, PairingIdentityDocument, StoredLocalIdentity,
};
use crate::text::trimmed;

verus! {

/// What the application offers to a peer: its pointer and its keyboard.
pub fn default_pairing_capabilities() -> (result: CapabilityFlags)
    ensures
        result.bits == 3,
        result.has(CapabilityFlags { bits: crate::protocol::POINTER_BIT }),
        result.has(CapabilityFlags { bits: crate::protocol::KEYBOARD_BIT }),
{
    proof {
        assert(1u32 | 2u32 == 3u32 && 3u32 & 1u32 == 1u32 && 3u32 & 2u32 == 2u32) by (bit_vector);
    }
    CapabilityFlags::pointer().union(CapabilityFlags::keyboard())
}

/// The application's identity, as it is shown.
#[derive(Debug, PartialEq, Eq)]
pub struct IdentityShowResult {
    pub device_id: String,
    pub display_name: String,
    pub fingerprint: String,
    pub capabilities: CapabilityFlags,
    pub document: PairingIdentityDocument,
    pub document_json: String,
}

/// A peer that is trusted, as it is shown.
#[derive(Debug, PartialEq, Eq)]
pub struct IdentityTrustedPeer {
    pub peer_id: String,
    pub display_name: String,
    pub fingerprint: String,
    pub capabilities: CapabilityFlags,
}

/// The peers that are trusted.
#[derive(Debug, PartialEq, Eq)]
pub struct IdentityTrustedPeersResult {
    pub peers: Vec<IdentityTrustedPeer>,
}

/// A peer that is trusted from now on.
#[derive(Debug, PartialEq, Eq)]
pub struct IdentityTrustResult {
    pub trusted: bool,
    pub peer_id: String,
    pub display_name: String,
    pub fingerprint: String,
    pub capabilities: CapabilityFlags,
}

/// A peer that is no longer trusted.
#[derive(Debug, PartialEq, Eq)]
pub struct IdentityForgetTrustedResult {
    pub forgotten: bool,
    pub peer_id: String,
}

/// Whether a result shows an identity. What it prints reads back as the public document, which holds
/// no secret.
pub open spec fn shows(result: IdentityShowResult, identity: DeviceIdentity) -> bool {
    &&& result.device_id@ == identity.device_id@
    &&& result.display_name@ == identity.display_name@
    &&& result.fingerprint@ == identity.fingerprint@
    &&& result.capabilities.bits == 3
    &&& crate::store::documents(result.document, identity, result.capabilities)
    &&& crate::json::json_pretty(result.document.json()) == Ok::<Seq<char>, Seq<char>>(
        result.document_json@,
    )
    &&& crate::json::json_parsed(result.document_json@) == Ok::<JsonModel, Seq<char>>(
        result.document.json(),
    )
}

/// A document is spelled in one way only.
proof fn lemma_document_is_plain(document: PairingIdentityDocument)
    ensures
        crate::json::is_plain(document.json(), 64),
{
    reveal_strlit("kind");
    reveal_strlit("deviceId");
    reveal_strlit("displayName");
    reveal_strlit("identityPublicKey");
    reveal_strlit("fingerprint");
    reveal_strlit("capabilities");
    reveal_with_fuel(crate::json::is_plain, 2);
    let entries = document.json()->Object_0;
    assert(entries[0].0.len() == 4 && entries[1].0.len() == 8 && entries[3].0.len() == 17);
    assert(entries[2].0.len() == 11 && entries[4].0.len() == 11 && entries[5].0.len() == 12);
    assert(entries[2].0[0] == 'd' && entries[4].0[0] == 'f');
    assert forall|i: int, j: int| 0 <= i < j < entries.len() implies (#[trigger] entries[i]).0 != (
    #[trigger] entries[j]).0 by {
        assert(entries.len() == 6);
    }
}

/// An identity as it is shown.
pub fn build_identity_show_result(identity: &DeviceIdentity) -> (result: Result<
    IdentityShowResult,
    String,
>)
    requires
        identity.identity_public_key@.len() <= usize::MAX / 512,
    ensures
        match result {
            Ok(shown) => shows(shown, *identity),
            Err(message) => exists|document: PairingIdentityDocument, error: Seq<char>|
                #![trigger crate::store::documents(
                    document,
                    *identity,
                    CapabilityFlags { bits: 3 },
                ), "failed to encode Akraz identity: "@ + error]
                crate::store::documents(document, *identity, CapabilityFlags { bits: 3 })
                    && crate::json::json_pretty(document.json()) == Err::<Seq<char>, Seq<char>>(
                    error,
                ) && message@ == "failed to encode Akraz identity: "@ + error,
        },
{
    let document = PairingIdentityDocument::from_device_identity(
        identity,
        default_pairing_capabilities(),
    );
    proof {
        lemma_document_is_plain(document);
        assert(document.capabilities == CapabilityFlags { bits: 3 });
    }
    match encode_json_pretty(&document.to_json()) {
        Ok(document_json) => Ok(
            IdentityShowResult {
                device_id: document.device_id().to_owned(),
                display_name: document.display_name().to_owned(),
                fingerprint: document.fingerprint().to_owned(),
                capabilities: document.capabilities(),
                document,
                document_json,
            },
        ),
        Err(error) => {
            let message = "failed to encode Akraz identity: ".to_owned().concat(error.as_str());
            proof {
                assert(crate::store::documents(
                    document,
                    *identity,
                    CapabilityFlags { bits: 3 },
                ));
                assert(message@ == "failed to encode Akraz identity: "@ + error@);
            }
            Err(message)
        },
    }
}

/// Whether a trusted peer is shown as it is.
pub open spec fn shows_peer(shown: IdentityTrustedPeer, peer: TrustedPeerIdentity) -> bool {
    &&& shown.peer_id@ == peer.peer_id@
    &&& shown.display_name@ == peer.display_name@
    &&& shown.fingerprint@ == peer.fingerprint@
    &&& shown.capabilities == peer.capabilities
}

/// Whether trusted peers are shown as they are, in their order.
pub open spec fn shows_peers(
    shown: Seq<IdentityTrustedPeer>,
    peers: Seq<TrustedPeerIdentity>,
) -> bool {
    shown.len() == peers.len() && forall|i: int|
        0 <= i < peers.len() ==> shows_peer(#[trigger] shown[i], peers[i])
}

/// Trusted peers as they are shown.
pub fn show_trusted_peers(peers: &Vec<TrustedPeerIdentity>) -> (result: IdentityTrustedPeersResult)
    ensures
        shows_peers(result.peers@, peers@),
{
    let mut shown: Vec<IdentityTrustedPeer> = Vec::new();
    let mut i: usize = 0;
    while i < peers.len()
        invariant
            i <= peers@.len(),
            shown@.len() == i,
            forall|k: int| 0 <= k < i ==> shows_peer(#[trigger] shown@[k], peers@[k]),
        decreases peers@.len() - i,
    {
        shown.push(
            IdentityTrustedPeer {
                peer_id: peers[i].peer_id().to_owned(),
                display_name: peers[i].display_name().to_owned(),
                fingerprint: peers[i].fingerprint().to_owned(),
                capabilities: peers[i].capabilities(),
            },
        );
        i = i + 1;
    }
    IdentityTrustedPeersResult { peers: shown }
}

/// What went wrong in a store, in words.
pub open spec fn store_failure(operation: Seq<char>, path: Seq<char>, cause: Seq<char>) -> Seq<char> {
    operation + " at "@ + path + ": "@ + cause
}

/// What went wrong in a store, in words.
pub fn format_identity_store_error(operation: &str, path: &str, cause: &str) -> (result: String)
    ensures
        result@ == store_failure(operation@, path@, cause@),
{
    operation.to_owned().concat(" at ").concat(path).concat(": ").concat(cause)
}

/// What is to be done with identities.
#[derive(Debug, PartialEq, Eq)]
pub enum PairingTask {
    Show,
    ListTrusted,
    Trust { document: String },
    Forget { peer_id: String },
}

/// What was asked of the application.
#[derive(Debug, PartialEq, Eq)]
pub enum PairingStage {
    Loading { task: PairingTask },
    Listing,
    Decoding,
    Saving { result: IdentityTrustResult },
    Removing { peer_id: String },
    Done,
}

/// What came of it.
pub enum PairingEvent {
    Loaded(Result<StoredLocalIdentity, IdentityStoreError>),
    Listed(Result<Vec<TrustedPeerIdentity>, String>),
    Decoded(Result<PairingIdentityDocument, String>),
    Saved(Result<(), String>),
    Removed(Result<(), String>),
}

/// What a user gets.
#[derive(Debug, PartialEq, Eq)]
pub enum PairingOutcome {
    Shown(IdentityShowResult),
    Listed(IdentityTrustedPeersResult),
    Trusted(IdentityTrustResult),
    Forgotten(IdentityForgetTrustedResult),
}

/// What the application is to do.
pub enum PairingAction {
    LoadIdentity,
    ListTrusted,
    DecodeDocument(String),
    SaveTrusted(TrustedPeerIdentity),
    RemoveTrusted(String),
    Finish(Result<PairingOutcome, String>),
}

/// Work on the identities that are kept at a path.
#[derive(Debug, PartialEq, Eq)]
pub struct Pairing {
    pub path: String,
    pub stage: PairingStage,
}

/// Whether such an event is waited for.
pub open spec fn pairing_awaits(stage: PairingStage, event: PairingEvent) -> bool {
    match event {
        PairingEvent::Loaded(loaded) => stage is Loading && (loaded matches Ok(stored)
            ==> stored.wf()),
        PairingEvent::Listed(_) => stage is Listing,
        PairingEvent::Decoded(_) => stage is Decoding,
        PairingEvent::Saved(_) => stage is Saving,
        PairingEvent::Removed(_) => stage is Removing,
    }
}

/// Whether the work ends with a message.
pub open spec fn pairing_fails(action: PairingAction, after: Pairing, wanted: Seq<char>) -> bool {
    &&& after.stage is Done
    &&& action matches PairingAction::Finish(Err(message)) && message@ == wanted
}

/// Whether a result tells of a peer.
pub open spec fn trusts(result: IdentityTrustResult, peer: TrustedPeerIdentity) -> bool {
    &&& result.trusted
    &&& result.peer_id@ == peer.peer_id@
    &&& result.display_name@ == peer.display_name@
    &&& result.fingerprint@ == peer.fingerprint@
    &&& result.capabilities == peer.capabilities
}

/// Whether a peer is the one that a document introduces.
pub open spec fn introduces(document: PairingIdentityDocument, peer: TrustedPeerIdentity) -> bool {
    &&& crate::store::document_verdict(
        document.kind@,
        document.device_id@,
        document.identity_public_key@,
        document.fingerprint@,
        None,
    )
    &&& peer.peer_id@ == document.device_id@
    &&& peer.display_name@ == document.display_name@
    &&& Some(peer.identity_public_key@) == crate::crypto::base64_value(
        document.identity_public_key@,
    )
    &&& peer.fingerprint@ == document.fingerprint@
    &&& peer.capabilities == document.capabilities
}

/// What is done once the identity is there.
pub open spec fn loaded_step(
    task: PairingTask,
    stored: StoredLocalIdentity,
    action: PairingAction,
    after: PairingStage,
) -> bool {
    match task {
        PairingTask::Show => {
            &&& after is Done
            &&& action matches PairingAction::Finish(result) && (match result {
                Ok(outcome) => outcome matches PairingOutcome::Shown(shown) && shows(
                    shown,
                    stored.identity,
                ),
                Err(message) => exists|document: PairingIdentityDocument, error: Seq<char>|
                    #![trigger crate::store::documents(
                        document,
                        stored.identity,
                        CapabilityFlags { bits: 3 },
                    ), "failed to encode Akraz identity: "@ + error]
                    crate::store::documents(
                        document,
                        stored.identity,
                        CapabilityFlags { bits: 3 },
                    ) && crate::json::json_pretty(document.json()) == Err::<Seq<char>, Seq<char>>(
                        error,
                    ) && message@ == "failed to encode Akraz identity: "@ + error,
            })
        },
        PairingTask::ListTrusted => action is ListTrusted && after is Listing,
        PairingTask::Trust { document } => action == PairingAction::DecodeDocument(document)
            && after is Decoding,
        PairingTask::Forget { peer_id } => action == PairingAction::RemoveTrusted(peer_id) && after
            == (PairingStage::Removing { peer_id }),
    }
}

/// Whether a document is refused for this.
pub open spec fn refuses(
    document: PairingIdentityDocument,
    error: PairingDocumentError,
) -> bool {
    crate::store::document_verdict(
        document.kind@,
        document.device_id@,
        document.identity_public_key@,
        document.fingerprint@,
        Some(error),
    )
}

/// What is done once the document is read: its peer is trusted, or it is refused.
pub open spec fn decoded_step(
    document: PairingIdentityDocument,
    action: PairingAction,
    after: Pairing,
) -> bool {
    match action {
        PairingAction::SaveTrusted(peer) => introduces(document, peer) && after.stage is Saving
            && trusts(after.stage->result, peer),
        _ => exists|error: PairingDocumentError| #[trigger]
            refuses(document, error) && pairing_fails(
                action,
                after,
                "invalid peer identity: "@ + error.text(),
            ),
    }
}

/// One step of the work. Nothing is done before the application's own identity is there.
pub open spec fn pairing_step(
    before: Pairing,
    event: PairingEvent,
    action: PairingAction,
    after: Pairing,
) -> bool {
    &&& after.path == before.path
    &&& match event {
        PairingEvent::Loaded(Err(error)) => pairing_fails(
            action,
            after,
            store_failure("failed to load Akraz identity"@, before.path@, error.text()),
        ),
        PairingEvent::Loaded(Ok(stored)) => loaded_step(
            before.stage->task,
            stored,
            action,
            after.stage,
        ),
        PairingEvent::Listed(Err(cause)) => pairing_fails(
            action,
            after,
            store_failure("failed to list trusted peers"@, before.path@, cause@),
        ),
        PairingEvent::Listed(Ok(peers)) => {
            &&& after.stage is Done
            &&& action matches PairingAction::Finish(Ok(PairingOutcome::Listed(shown)))
                && shows_peers(shown.peers@, peers@)
        },
        PairingEvent::Decoded(Err(cause)) => pairing_fails(
            action,
            after,
            "failed to decode peer identity: "@ + cause@,
        ),
        PairingEvent::Decoded(Ok(document)) => decoded_step(document, action, after),
        PairingEvent::Saved(Err(cause)) => pairing_fails(
            action,
            after,
            store_failure("failed to save trusted peer"@, before.path@, cause@),
        ),
        PairingEvent::Saved(Ok(_)) => after.stage is Done && action == PairingAction::Finish(
            Ok::<PairingOutcome, String>(PairingOutcome::Trusted(before.stage->result)),
        ),
        PairingEvent::Removed(Err(cause)) => pairing_fails(
            action,
            after,
            store_failure("failed to remove trusted peer"@, before.path@, cause@),
        ),
        PairingEvent::Removed(Ok(_)) => {
            &&& after.stage is Done
            &&& action == PairingAction::Finish(
                Ok::<PairingOutcome, String>(
                    PairingOutcome::Forgotten(
                        IdentityForgetTrustedResult {
                            forgotten: true,
                            peer_id: before.stage->Removing_peer_id,
                        },
                    ),
                ),
            )
        },
    }
}

/// Take a task up.
fn start(path: &str, task: PairingTask) -> (result: (Pairing, PairingAction))
    ensures
        result.0.path@ == path@,
        result.0.stage == (PairingStage::Loading { task }),
        result.1 is LoadIdentity,
{
    (
        Pairing { path: path.to_owned(), stage: PairingStage::Loading { task } },
        PairingAction::LoadIdentity,
    )
}

impl Pairing {
    /// Begin to show the application's identity.
    pub fn show_identity(path: &str) -> (result: (Pairing, PairingAction))
        ensures
            result.0.path@ == path@,
            result.0.stage == (PairingStage::Loading { task: PairingTask::Show }),
            result.1 is LoadIdentity,
    {
        start(path, PairingTask::Show)
    }

    /// Begin to list the trusted peers.
    pub fn list_trusted_identities(path: &str) -> (result: (Pairing, PairingAction))
        ensures
            result.0.path@ == path@,
            result.0.stage == (PairingStage::Loading { task: PairingTask::ListTrusted }),
            result.1 is LoadIdentity,
    {
        start(path, PairingTask::ListTrusted)
    }

    /// Begin to trust the peer that a document introduces.
    pub fn trust_identity_document(path: &str, peer_document_json: &str) -> (result: Result<
        (Pairing, PairingAction),
        String,
    >)
        ensures
            match result {
                Ok((run, action)) => {
                    &&& crate::text::trim(peer_document_json@).len() > 0
                    &&& run.path@ == path@
                    &&& action is LoadIdentity
                    &&& run.stage matches PairingStage::Loading { task } && (
                    task matches PairingTask::Trust { document } && document@ == crate::text::trim(
                        peer_document_json@,
                    ))
                },
                Err(message) => crate::text::trim(peer_document_json@).len() == 0 && message@
                    == "peer identity is required."@,
            },
    {
        let document = trimmed(peer_document_json);
        if document.is_empty() {
            return Err("peer identity is required.".to_owned());
        }
        Ok(start(path, PairingTask::Trust { document: document.to_owned() }))
    }

    /// Begin to forget a trusted peer.
    pub fn forget_trusted_identity(path: &str, peer_id: &str) -> (result: Result<
        (Pairing, PairingAction),
        String,
    >)
        ensures
            match result {
                Ok((run, action)) => {
                    &&& crate::text::trim(peer_id@).len() > 0
                    &&& run.path@ == path@
                    &&& action is LoadIdentity
                    &&& run.stage matches PairingStage::Loading { task } && (
                    task matches PairingTask::Forget { peer_id: named } && named@
                        == crate::text::trim(peer_id@))
                },
                Err(message) => crate::text::trim(peer_id@).len() == 0 && message@
                    == "trusted peer id is required."@,
            },
    {
        let peer_id = trimmed(peer_id);
        if peer_id.is_empty() {
            return Err("trusted peer id is required.".to_owned());
        }
        Ok(start(path, PairingTask::Forget { peer_id: peer_id.to_owned() }))
    }

    /// Give up.
    fn fail(&mut self, message: String) -> (action: PairingAction)
        ensures
            final(self).path == old(self).path,
            pairing_fails(action, *final(self), message@),
    {
        self.stage = PairingStage::Done;
        PairingAction::Finish(Err(message))
    }

    /// Go on once the identity is there.
    fn on_loaded(&mut self, stored: StoredLocalIdentity) -> (action: PairingAction)
        requires
            old(self).stage is Loading,
            stored.wf(),
        ensures
            final(self).path == old(self).path,
            loaded_step(old(self).stage->task, stored, action, final(self).stage),
    {
        match &self.stage {
            PairingStage::Loading { task } => match task {
                PairingTask::Show => {
                    let shown = build_identity_show_result(&stored.identity);
                    self.stage = PairingStage::Done;
                    match shown {
                        Ok(shown) => PairingAction::Finish(Ok(PairingOutcome::Shown(shown))),
                        Err(message) => PairingAction::Finish(Err(message)),
                    }
                },
                PairingTask::ListTrusted => {
                    self.stage = PairingStage::Listing;
                    PairingAction::ListTrusted
                },
                PairingTask::Trust { document } => {
                    let document = document.clone();
                    self.stage = PairingStage::Decoding;
                    PairingAction::DecodeDocument(document)
                },
                PairingTask::Forget { peer_id } => {
                    let peer_id = peer_id.clone();
                    self.stage = PairingStage::Removing { peer_id: peer_id.clone() };
                    PairingAction::RemoveTrusted(peer_id)
                },
            },
            _ => PairingAction::LoadIdentity,
        }
    }

    /// Go on once the document is read.
    fn on_decoded(&mut self, document: PairingIdentityDocument) -> (action: PairingAction)
        requires
            old(self).stage is Decoding,
        ensures
            final(self).path == old(self).path,
            decoded_step(document, action, *final(self)),
    {
        match document.into_trusted_peer_identity() {
            Ok(peer) => {
                let result = IdentityTrustResult {
                    trusted: true,
                    peer_id: peer.peer_id().to_owned(),
                    display_name: peer.display_name().to_owned(),
                    fingerprint: peer.fingerprint().to_owned(),
                    capabilities: peer.capabilities(),
                };
                self.stage = PairingStage::Saving { result };
                PairingAction::SaveTrusted(peer)
            },
            Err(error) => {
                let message = "invalid peer identity: ".to_owned().concat(
                    error.message().as_str(),
                );
                let action = self.fail(message);
                proof {
                    assert(refuses(document, error));
                    assert(pairing_fails(
                        action,
                        *self,
                        "invalid peer identity: "@ + error.text(),
                    ));
                }
                action
            },
        }
    }

    /// Go on after a step of the work.
    pub fn proceed(&mut self, event: PairingEvent) -> (action: PairingAction)
        requires
            pairing_awaits(old(self).stage, event),
        ensures
            pairing_step(*old(self), event, action, *final(self)),
    {
        match event {
            PairingEvent::Loaded(Ok(stored)) => self.on_loaded(stored),
            PairingEvent::Loaded(Err(error)) => {
                let message = format_identity_store_error(
                    "failed to load Akraz identity",
                    self.path.as_str(),
                    error.message().as_str(),
                );
                self.fail(message)
            },
            PairingEvent::Listed(Ok(peers)) => {
                self.stage = PairingStage::Done;
                PairingAction::Finish(Ok(PairingOutcome::Listed(show_trusted_peers(&peers))))
            },
            PairingEvent::Listed(Err(cause)) => {
                let message = format_identity_store_error(
                    "failed to list trusted peers",
                    self.path.as_str(),
                    cause.as_str(),
                );
                self.fail(message)
            },
            PairingEvent::Decoded(Ok(document)) => self.on_decoded(document),
            PairingEvent::Decoded(Err(cause)) => {
                let message = "failed to decode peer identity: ".to_owned().concat(cause.as_str());
                self.fail(message)
            },
            PairingEvent::Saved(Ok(_)) => {
                let mut stage = PairingStage::Done;
                std::mem::swap(&mut stage, &mut self.stage);
                match stage {
                    PairingStage::Saving { result } => PairingAction::Finish(
                        Ok(PairingOutcome::Trusted(result)),
                    ),
                    _ => PairingAction::LoadIdentity,
                }
            },
            PairingEvent::Saved(Err(cause)) => {
                let message = format_identity_store_error(
                    "failed to save trusted peer",
                    self.path.as_str(),
                    cause.as_str(),
                );
                self.fail(message)
            },
            PairingEvent::Removed(Ok(_)) => {
                let mut stage = PairingStage::Done;
                std::mem::swap(&mut stage, &mut self.stage);
                match stage {
                    PairingStage::Removing { peer_id } => PairingAction::Finish(
                        Ok(
                            PairingOutcome::Forgotten(
                                IdentityForgetTrustedResult { forgotten: true, peer_id },
                            ),
                        ),
                    ),
                    _ => PairingAction::LoadIdentity,
                }
            },
            PairingEvent::Removed(Err(cause)) => {
                let message = format_identity_store_error(
                    "failed to remove trusted peer",
                    self.path.as_str(),
                    cause.as_str(),
                );
                self.fail(message)
            },
        }
    }
}

/// An identity that one device shows, another trusts: under the device's id, with its name, its key,
/// its fingerprint and what it offers.
pub proof fn a_shown_identity_is_trusted(
    stored: StoredLocalIdentity,
    shown: IdentityShowResult,
    action: PairingAction,
    after: Pairing,
)
    requires
        stored.wf(),
        shows(shown, stored.identity),
        decoded_step(shown.document, action, after),
    ensures
        action matches PairingAction::SaveTrusted(peer) && peer.peer_id@
            == stored.identity.device_id@ && peer.display_name@ == stored.identity.display_name@
            && peer.identity_public_key@ == stored.identity.identity_public_key@
            && peer.fingerprint@ == stored.identity.fingerprint@ && peer.capabilities.bits == 3,
{
    crate::store::own_document_is_accepted(stored, shown.document, shown.capabilities);
}

/// Every task begins with the application's own identity, and is the one that was asked for. A document
/// or a peer id is taken without the space around it, and one that holds nothing else is refused.
pub proof fn pairing_does_what_was_asked(
    path: &str,
    text: &str,
    show: (Pairing, PairingAction),
    list: (Pairing, PairingAction),
    trust: Result<(Pairing, PairingAction), String>,
    forget: Result<(Pairing, PairingAction), String>,
)
    requires
        call_ensures(Pairing::show_identity, (path,), show),
        call_ensures(Pairing::list_trusted_identities, (path,), list),
        call_ensures(Pairing::trust_identity_document, (path, text), trust),
        call_ensures(Pairing::forget_trusted_identity, (path, text), forget),
    ensures
        show.1 is LoadIdentity && show.0.stage is Loading && show.0.stage->task is Show,
        list.1 is LoadIdentity && list.0.stage is Loading && list.0.stage->task is ListTrusted,
        show.0.path@ == path@ && list.0.path@ == path@,
        trust is Ok <==> crate::text::trim(text@).len() > 0,
        forget is Ok <==> crate::text::trim(text@).len() > 0,
        trust matches Ok(begun) ==> {
            &&& begun.1 is LoadIdentity
            &&& begun.0.path@ == path@
            &&& begun.0.stage is Loading
            &&& begun.0.stage->task is Trust
            &&& begun.0.stage->task->document@ == crate::text::trim(text@)
        },
        forget matches Ok(begun) ==> {
            &&& begun.1 is LoadIdentity
            &&& begun.0.path@ == path@
            &&& begun.0.stage is Loading
            &&& begun.0.stage->task is Forget
            &&& begun.0.stage->task->peer_id@ == crate::text::trim(text@)
        },
        trust matches Err(message) ==> message@ == "peer identity is required."@,
        forget matches Err(message) ==> message@ == "trusted peer id is required."@,
{
}

/// Each task goes on as it should once the identity is there: showing shows that identity, listing
/// lists, a document is decoded as it was given, and the peer that was named is removed.
pub proof fn each_task_goes_on_its_way(
    run: &mut Pairing,
    stored: StoredLocalIdentity,
    action: PairingAction,
)
    requires
        old(run).stage is Loading,
        stored.wf(),
        call_ensures(
            Pairing::proceed,
            (run, PairingEvent::Loaded(Ok::<StoredLocalIdentity, IdentityStoreError>(stored))),
            action,
        ),
    ensures
        final(run).path == old(run).path,
        old(run).stage->task is Show ==> {
            &&& action is Finish
            &&& action->Finish_0 matches Ok(outcome) ==> {
                &&& outcome is Shown
                &&& outcome->Shown_0.device_id@ == stored.identity.device_id@
                &&& outcome->Shown_0.display_name@ == stored.identity.display_name@
                &&& outcome->Shown_0.fingerprint@ == stored.identity.fingerprint@
                &&& outcome->Shown_0.document.device_id@ == stored.identity.device_id@
                &&& outcome->Shown_0.document.fingerprint@ == stored.identity.fingerprint@
                &&& crate::crypto::base64_value(outcome->Shown_0.document.identity_public_key@)
                    == Some(stored.identity.identity_public_key@)
                &&& crate::json::json_parsed(outcome->Shown_0.document_json@) == Ok::<
                    JsonModel,
                    Seq<char>,
                >(outcome->Shown_0.document.json())
            }
        },
        old(run).stage->task is ListTrusted ==> action is ListTrusted,
        old(run).stage->task is Trust ==> action is DecodeDocument && action->DecodeDocument_0
            == old(run).stage->task->document,
        old(run).stage->task is Forget ==> action is RemoveTrusted && action->RemoveTrusted_0
            == old(run).stage->task->peer_id,
{
}

/// What is kept of a peer is what its document introduces, and what the user hears of it is that. A
/// document that is no good is not kept.
pub proof fn the_introduced_peer_is_kept(
    run: &mut Pairing,
    document: PairingIdentityDocument,
    action: PairingAction,
    later: &mut Pairing,
    told: PairingAction,
)
    requires
        old(run).stage is Decoding,
        call_ensures(
            Pairing::proceed,
            (run, PairingEvent::Decoded(Ok::<PairingIdentityDocument, String>(document))),
            action,
        ),
        *old(later) == *final(run),
        action is SaveTrusted ==> call_ensures(
            Pairing::proceed,
            (later, PairingEvent::Saved(Ok::<(), String>(()))),
            told,
        ),
    ensures
        action is SaveTrusted || action is Finish,
        action matches PairingAction::SaveTrusted(peer) ==> {
            &&& document.kind@ == "akraz.peerIdentity"@
            &&& peer.peer_id@ == document.device_id@
            &&& peer.display_name@ == document.display_name@
            &&& peer.fingerprint@ == document.fingerprint@
            &&& peer.fingerprint@ == crate::identity::fingerprint(peer.identity_public_key@)
            &&& peer.capabilities == document.capabilities
            &&& told is Finish
            &&& told->Finish_0 is Ok
            &&& told->Finish_0->Ok_0 is Trusted
            &&& told->Finish_0->Ok_0->Trusted_0.trusted
            &&& told->Finish_0->Ok_0->Trusted_0.peer_id@ == peer.peer_id@
            &&& told->Finish_0->Ok_0->Trusted_0.display_name@ == peer.display_name@
            &&& told->Finish_0->Ok_0->Trusted_0.fingerprint@ == peer.fingerprint@
            &&& told->Finish_0->Ok_0->Trusted_0.capabilities == peer.capabilities
        },
        action matches PairingAction::Finish(result) ==> result is Err,
{
}

/// What the user hears at the end is what came of it: the peers that are trusted, one for one and in
/// their order, or the peer that was forgotten, and in every other case why not.
pub proof fn the_user_hears_what_came_of_it(
    run: &mut Pairing,
    event: PairingEvent,
    action: PairingAction,
)
    requires
        pairing_awaits(old(run).stage, event),
        call_ensures(Pairing::proceed, (run, event), action),
    ensures
        event matches PairingEvent::Listed(Ok(peers)) ==> {
            &&& action is Finish
            &&& action->Finish_0 is Ok
            &&& action->Finish_0->Ok_0 is Listed
            &&& action->Finish_0->Ok_0->Listed_0.peers@.len() == peers@.len()
            &&& forall|i: int|
                0 <= i < peers@.len() ==> {
                    let shown = #[trigger] action->Finish_0->Ok_0->Listed_0.peers@[i];
                    &&& shown.peer_id@ == peers@[i].peer_id@
                    &&& shown.display_name@ == peers@[i].display_name@
                    &&& shown.fingerprint@ == peers@[i].fingerprint@
                    &&& shown.capabilities == peers@[i].capabilities
                }
        },
        event matches PairingEvent::Removed(Ok(_)) ==> {
            &&& action is Finish
            &&& action->Finish_0 is Ok
            &&& action->Finish_0->Ok_0 is Forgotten
            &&& action->Finish_0->Ok_0->Forgotten_0.forgotten
            &&& action->Finish_0->Ok_0->Forgotten_0.peer_id == old(run).stage->Removing_peer_id
        },
        event matches PairingEvent::Loaded(Err(_)) ==> action is Finish && action->Finish_0 is Err,
        event matches PairingEvent::Listed(Err(cause)) ==> action is Finish && action->Finish_0
            is Err && action->Finish_0->Err_0@ == "failed to list trusted peers"@ + " at "@
            + old(run).path@ + ": "@ + cause@,
        event matches PairingEvent::Decoded(Err(cause)) ==> action is Finish && action->Finish_0
            is Err && action->Finish_0->Err_0@ == "failed to decode peer identity: "@ + cause@,
        event matches PairingEvent::Saved(Err(cause)) ==> action is Finish && action->Finish_0
            is Err && action->Finish_0->Err_0@ == "failed to save trusted peer"@ + " at "@
            + old(run).path@ + ": "@ + cause@,
        event matches PairingEvent::Removed(Err(cause)) ==> action is Finish && action->Finish_0
            is Err && action->Finish_0->Err_0@ == "failed to remove trusted peer"@ + " at "@
            + old(run).path@ + ": "@ + cause@,
        final(run).path == old(run).path,
{
}

/// Trusted peers are shown one for one and in their order; a device offers pointer and keyboard to
/// those that it is paired with.
pub proof fn trusted_peers_are_shown_as_they_are(
    peers: Vec<TrustedPeerIdentity>,
    shown: IdentityTrustedPeersResult,
    offered: CapabilityFlags,
)
    requires
        call_ensures(show_trusted_peers, (&peers,), shown),
        call_ensures(default_pairing_capabilities, (), offered),
    ensures
        shown.peers@.len() == peers@.len(),
        forall|i: int|
            0 <= i < peers@.len() ==> {
                &&& (#[trigger] shown.peers@[i]).peer_id@ == peers@[i].peer_id@
                &&& shown.peers@[i].display_name@ == peers@[i].display_name@
                &&& shown.peers@[i].fingerprint@ == peers@[i].fingerprint@
                &&& shown.peers@[i].capabilities == peers@[i].capabilities
            },
        offered.bits == 1 + 2,
{
}

/// An identity is shown as it is, with what it offers, and its document reads as what it says.
pub proof fn an_identity_is_shown_as_it_is(
    identity: &DeviceIdentity,
    result: Result<IdentityShowResult, String>,
)
    requires
        call_ensures(build_identity_show_result, (identity,), result),
        result is Ok,
    ensures
        result->Ok_0.device_id@ == identity.device_id@,
        result->Ok_0.display_name@ == identity.display_name@,
        result->Ok_0.fingerprint@ == identity.fingerprint@,
        result->Ok_0.capabilities.bits == 1 + 2,
        result->Ok_0.document.device_id@ == identity.device_id@,
        result->Ok_0.document.display_name@ == identity.display_name@,
        result->Ok_0.document.fingerprint@ == identity.fingerprint@,
        crate::json::json_parsed(result->Ok_0.document_json@) == Ok::<JsonModel, Seq<char>>(
            result->Ok_0.document.json(),
        ),
{
}

} // verus!
