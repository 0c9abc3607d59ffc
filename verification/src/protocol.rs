//! The terms that two peers agree on: versions, capabilities and authentication.

use vstd::prelude::*;

verus! {

/// Bytes of a handshake nonce.
pub const HANDSHAKE_NONCE_LEN: usize = 32;

/// Bytes of keying material exported from a secure channel.
pub const TLS_EXPORTER_LEN: usize = 32;

/// Major version of the peer protocol that this build speaks.
pub const PROTOCOL_MAJOR: u16 = 1;

/// Minor version of the peer protocol that this build speaks.
pub const PROTOCOL_MINOR: u16 = 4;

/// A version of the peer protocol.
#[derive(Debug, Clone, Copy, PartialEq, Eq, Structural)]
pub struct ProtocolVersion {
    pub major: u16,
    pub minor: u16,
}

/// No version is common to this build and the peer.
#[derive(Debug, Clone, Copy, PartialEq, Eq, Structural)]
pub struct ProtocolVersionMismatch {
    pub offered: ProtocolVersion,
}

/// The version that this build speaks.
pub open spec fn current_version() -> ProtocolVersion {
    ProtocolVersion { major: PROTOCOL_MAJOR, minor: PROTOCOL_MINOR }
}

/// The version to speak with a peer that offers `offered`: the same major, and the lower minor.
pub open spec fn negotiated(offered: ProtocolVersion) -> Option<ProtocolVersion> {
    if offered.major != PROTOCOL_MAJOR {
        None
    } else if offered.minor < PROTOCOL_MINOR {
        Some(offered)
    } else {
        Some(current_version())
    }
}

impl ProtocolVersion {
    /// The version that this build speaks.
    pub fn current() -> (result: Self)
        ensures
            result == current_version(),
    {
        ProtocolVersion { major: PROTOCOL_MAJOR, minor: PROTOCOL_MINOR }
    }

    /// The version to speak with a peer.
    pub fn negotiate_with_current(offered: ProtocolVersion) -> (result: Result<
        ProtocolVersion,
        ProtocolVersionMismatch,
    >)
        ensures
            match result {
                Ok(version) => negotiated(offered) == Some(version),
                Err(mismatch) => negotiated(offered) is None && mismatch.offered == offered,
            },
    {
        if offered.major != PROTOCOL_MAJOR {
            Err(ProtocolVersionMismatch { offered })
        } else if offered.minor < PROTOCOL_MINOR {
            Ok(offered)
        } else {
            Ok(ProtocolVersion::current())
        }
    }
}

/// What a device offers to its peers, one bit for each capability.
#[derive(Debug, Clone, Copy, PartialEq, Eq, Structural)]
pub struct CapabilityFlags {
    pub bits: u32,
}

pub const POINTER_BIT: u32 = 1;

pub const KEYBOARD_BIT: u32 = 2;

pub const CLIPBOARD_BIT: u32 = 4;

pub const SCREEN_LAYOUT_BIT: u32 = 8;

impl CapabilityFlags {
    pub fn empty() -> (result: Self)
        ensures
            result.bits == 0,
    {
        CapabilityFlags { bits: 0 }
    }

    pub fn pointer() -> (result: Self)
        ensures
            result.bits == POINTER_BIT,
    {
        CapabilityFlags { bits: POINTER_BIT }
    }

    pub fn keyboard() -> (result: Self)
        ensures
            result.bits == KEYBOARD_BIT,
    {
        CapabilityFlags { bits: KEYBOARD_BIT }
    }

    pub fn clipboard() -> (result: Self)
        ensures
            result.bits == CLIPBOARD_BIT,
    {
        CapabilityFlags { bits: CLIPBOARD_BIT }
    }

    pub fn screen_layout() -> (result: Self)
        ensures
            result.bits == SCREEN_LAYOUT_BIT,
    {
        CapabilityFlags { bits: SCREEN_LAYOUT_BIT }
    }

    pub open spec fn has(self, other: CapabilityFlags) -> bool {
        self.bits & other.bits == other.bits
    }

    /// Whether every capability of `other` is among these.
    pub fn contains(self, other: CapabilityFlags) -> (result: bool)
        ensures
            result == self.has(other),
    {
        self.bits & other.bits == other.bits
    }

    /// The capabilities of either.
    pub fn union(self, other: CapabilityFlags) -> (result: Self)
        ensures
            result.bits == self.bits | other.bits,
    {
        CapabilityFlags { bits: self.bits | other.bits }
    }

    /// The capabilities of both.
    pub fn intersection(self, other: CapabilityFlags) -> (result: Self)
        ensures
            result.bits == self.bits & other.bits,
    {
        CapabilityFlags { bits: self.bits & other.bits }
    }

    pub fn is_empty(self) -> (result: bool)
        ensures
            result == (self.bits == 0),
    {
        self.bits == 0
    }

    pub fn bits(self) -> (result: u32)
        ensures
            result == self.bits,
    {
        self.bits
    }
}

/// What two devices both offer, each of them offers.
pub proof fn intersection_is_offered_by_both(a: CapabilityFlags, b: CapabilityFlags)
    ensures
        a.has(CapabilityFlags { bits: a.bits & b.bits }),
        b.has(CapabilityFlags { bits: a.bits & b.bits }),
{
    let x: u32 = a.bits;
    let y: u32 = b.bits;
    assert(x & (x & y) == x & y) by (bit_vector);
    assert(y & (x & y) == x & y) by (bit_vector);
}

/// The capabilities that a peer session needs: pointer and keyboard.
pub open spec fn session_capabilities() -> CapabilityFlags {
    CapabilityFlags { bits: 3 }
}

/// The capabilities that a peer session needs.
pub fn peer_session_capabilities() -> (result: CapabilityFlags)
    ensures
        result == session_capabilities(),
{
    proof {
        assert(1u32 | 2u32 == 3u32) by (bit_vector);
    }
    CapabilityFlags::pointer().union(CapabilityFlags::keyboard())
}

/// Who opened the connection.
#[derive(Debug, Clone, Copy, PartialEq, Eq, Structural)]
pub enum PeerRole {
    Initiator,
    Responder,
}

/// Everything that an authentication proof covers.
#[derive(Debug, PartialEq, Eq)]
pub struct AuthTranscript {
    pub local_device_id: String,
    pub remote_device_id: String,
    pub local_nonce: [u8; HANDSHAKE_NONCE_LEN],
    pub remote_nonce: [u8; HANDSHAKE_NONCE_LEN],
    pub protocol: ProtocolVersion,
    pub local_capabilities: CapabilityFlags,
    pub remote_capabilities: CapabilityFlags,
    pub role: PeerRole,
    pub tls_exporter: [u8; TLS_EXPORTER_LEN],
}

/// Eight bytes of a number, most significant first.
pub open spec fn be8(n: u64) -> Seq<u8> {
    seq![
        (n >> 56) as u8,
        (n >> 48) as u8,
        (n >> 40) as u8,
        (n >> 32) as u8,
        (n >> 24) as u8,
        (n >> 16) as u8,
        (n >> 8) as u8,
        n as u8,
    ]
}

/// A text's length in bytes, then its bytes.
pub open spec fn framed_text(s: Seq<char>) -> Seq<u8> {
    be8(vstd::utf8::encode_utf8(s).len() as u64) + vstd::utf8::encode_utf8(s)
}

pub open spec fn role_number(role: PeerRole) -> u64 {
    match role {
        PeerRole::Initiator => 0,
        PeerRole::Responder => 1,
    }
}

/// The part of the canonical form that has the same length in every transcript.
pub open spec fn fixed_part(t: AuthTranscript) -> Seq<u8> {
    t.local_nonce@ + t.remote_nonce@ + be8(t.protocol.major as u64) + be8(t.protocol.minor as u64)
        + be8(t.local_capabilities.bits as u64) + be8(t.remote_capabilities.bits as u64) + be8(
        role_number(t.role),
    ) + t.tls_exporter@
}

/// The canonical form of a transcript: what is signed.
pub open spec fn canonical(t: AuthTranscript) -> Seq<u8> {
    framed_text(t.local_device_id@) + framed_text(t.remote_device_id@) + fixed_part(t)
}

fn push_be8(bytes: &mut Vec<u8>, n: u64)
    ensures
        final(bytes)@ == old(bytes)@ + be8(n),
{
    bytes.push((n >> 56) as u8);
    bytes.push((n >> 48) as u8);
    bytes.push((n >> 40) as u8);
    bytes.push((n >> 32) as u8);
    bytes.push((n >> 24) as u8);
    bytes.push((n >> 16) as u8);
    bytes.push((n >> 8) as u8);
    bytes.push(n as u8);
    proof {
        assert(bytes@ =~= old(bytes)@ + be8(n));
    }
}

fn push_bytes(bytes: &mut Vec<u8>, more: &[u8])
    ensures
        final(bytes)@ == old(bytes)@ + more@,
{
    let mut i: usize = 0;
    while i < more.len()
        invariant
            i <= more@.len(),
            bytes@ =~= old(bytes)@ + more@.subrange(0, i as int),
        decreases more@.len() - i,
    {
        bytes.push(more[i]);
        i = i + 1;
    }
    proof {
        assert(more@.subrange(0, i as int) =~= more@);
    }
}

impl AuthTranscript {
    /// The canonical form of this transcript.
    pub fn canonical_bytes(&self) -> (result: Vec<u8>)
        ensures
            result@ == canonical(*self),
    {
        let mut bytes: Vec<u8> = Vec::new();
        let local: &[u8] = self.local_device_id.as_str().as_bytes();
        let remote: &[u8] = self.remote_device_id.as_str().as_bytes();
        push_be8(&mut bytes, local.len() as u64);
        push_bytes(&mut bytes, local);
        push_be8(&mut bytes, remote.len() as u64);
        push_bytes(&mut bytes, remote);
        push_bytes(&mut bytes, self.local_nonce.as_slice());
        push_bytes(&mut bytes, self.remote_nonce.as_slice());
        push_be8(&mut bytes, self.protocol.major as u64);
        push_be8(&mut bytes, self.protocol.minor as u64);
        push_be8(&mut bytes, self.local_capabilities.bits as u64);
        push_be8(&mut bytes, self.remote_capabilities.bits as u64);
        push_be8(
            &mut bytes,
            match self.role {
                PeerRole::Initiator => 0,
                PeerRole::Responder => 1,
            },
        );
        push_bytes(&mut bytes, self.tls_exporter.as_slice());
        proof {
            assert(bytes@ =~= canonical(*self));
        }
        bytes
    }
}


proof fn lemma_be8_injective(m: u64, n: u64)
    requires
        be8(m) == be8(n),
    ensures
        m == n,
{
    let a = be8(m);
    let b = be8(n);
    assert(a[0] == b[0] && a[1] == b[1] && a[2] == b[2] && a[3] == b[3]);
    assert(a[4] == b[4] && a[5] == b[5] && a[6] == b[6] && a[7] == b[7]);
    assert(m == n) by (bit_vector)
        requires
            (m >> 56) as u8 == (n >> 56) as u8,
            (m >> 48) as u8 == (n >> 48) as u8,
            (m >> 40) as u8 == (n >> 40) as u8,
            (m >> 32) as u8 == (n >> 32) as u8,
            (m >> 24) as u8 == (n >> 24) as u8,
            (m >> 16) as u8 == (n >> 16) as u8,
            (m >> 8) as u8 == (n >> 8) as u8,
            m as u8 == n as u8,
    ;
}

/// Two framed texts that start the same bytes are the same text, and the same bytes follow.
proof fn lemma_framed_text(a: Seq<char>, b: Seq<char>, after_a: Seq<u8>, after_b: Seq<u8>)
    requires
        vstd::utf8::encode_utf8(a).len() <= u64::MAX,
        vstd::utf8::encode_utf8(b).len() <= u64::MAX,
        framed_text(a) + after_a == framed_text(b) + after_b,
    ensures
        a == b,
        after_a == after_b,
{
    let left = framed_text(a) + after_a;
    let right = framed_text(b) + after_b;
    let m = vstd::utf8::encode_utf8(a).len();
    let n = vstd::utf8::encode_utf8(b).len();
    assert(be8(m as u64) =~= left.subrange(0, 8));
    assert(be8(n as u64) =~= right.subrange(0, 8));
    lemma_be8_injective(m as u64, n as u64);
    assert(vstd::utf8::encode_utf8(a) =~= left.subrange(8, 8 + m as int));
    assert(vstd::utf8::encode_utf8(b) =~= right.subrange(8, 8 + n as int));
    vstd::utf8::encode_utf8_decode_utf8(a);
    vstd::utf8::encode_utf8_decode_utf8(b);
    assert(after_a =~= left.subrange(8 + m as int, left.len() as int));
    assert(after_b =~= right.subrange(8 + n as int, right.len() as int));
}

proof fn lemma_fixed_part(a: AuthTranscript, b: AuthTranscript)
    requires
        fixed_part(a) == fixed_part(b),
    ensures
        a.local_nonce@ == b.local_nonce@,
        a.remote_nonce@ == b.remote_nonce@,
        a.protocol == b.protocol,
        a.local_capabilities == b.local_capabilities,
        a.remote_capabilities == b.remote_capabilities,
        a.role == b.role,
        a.tls_exporter@ == b.tls_exporter@,
{
    let left = fixed_part(a);
    let right = fixed_part(b);
    assert(a.local_nonce@ =~= left.subrange(0, 32));
    assert(b.local_nonce@ =~= right.subrange(0, 32));
    assert(a.remote_nonce@ =~= left.subrange(32, 64));
    assert(b.remote_nonce@ =~= right.subrange(32, 64));
    assert(be8(a.protocol.major as u64) =~= left.subrange(64, 72));
    assert(be8(b.protocol.major as u64) =~= right.subrange(64, 72));
    assert(be8(a.protocol.minor as u64) =~= left.subrange(72, 80));
    assert(be8(b.protocol.minor as u64) =~= right.subrange(72, 80));
    assert(be8(a.local_capabilities.bits as u64) =~= left.subrange(80, 88));
    assert(be8(b.local_capabilities.bits as u64) =~= right.subrange(80, 88));
    assert(be8(a.remote_capabilities.bits as u64) =~= left.subrange(88, 96));
    assert(be8(b.remote_capabilities.bits as u64) =~= right.subrange(88, 96));
    assert(be8(role_number(a.role)) =~= left.subrange(96, 104));
    assert(be8(role_number(b.role)) =~= right.subrange(96, 104));
    assert(a.tls_exporter@ =~= left.subrange(104, 136));
    assert(b.tls_exporter@ =~= right.subrange(104, 136));
    lemma_be8_injective(a.protocol.major as u64, b.protocol.major as u64);
    lemma_be8_injective(a.protocol.minor as u64, b.protocol.minor as u64);
    lemma_be8_injective(a.local_capabilities.bits as u64, b.local_capabilities.bits as u64);
    lemma_be8_injective(a.remote_capabilities.bits as u64, b.remote_capabilities.bits as u64);
    lemma_be8_injective(role_number(a.role), role_number(b.role));
}

/// Two transcripts with the same canonical form agree in everything they hold: a signature over one
/// says nothing about any other.
pub proof fn canonical_form_is_unambiguous(a: AuthTranscript, b: AuthTranscript)
    requires
        vstd::utf8::encode_utf8(a.local_device_id@).len() <= u64::MAX,
        vstd::utf8::encode_utf8(a.remote_device_id@).len() <= u64::MAX,
        vstd::utf8::encode_utf8(b.local_device_id@).len() <= u64::MAX,
        vstd::utf8::encode_utf8(b.remote_device_id@).len() <= u64::MAX,
        canonical(a) == canonical(b),
    ensures
        a.local_device_id@ == b.local_device_id@,
        a.remote_device_id@ == b.remote_device_id@,
        a.local_nonce@ == b.local_nonce@,
        a.remote_nonce@ == b.remote_nonce@,
        a.protocol == b.protocol,
        a.local_capabilities == b.local_capabilities,
        a.remote_capabilities == b.remote_capabilities,
        a.role == b.role,
        a.tls_exporter@ == b.tls_exporter@,
{
    let rest_a = framed_text(a.remote_device_id@) + fixed_part(a);
    let rest_b = framed_text(b.remote_device_id@) + fixed_part(b);
    assert(canonical(a) =~= framed_text(a.local_device_id@) + rest_a);
    assert(canonical(b) =~= framed_text(b.local_device_id@) + rest_b);
    lemma_framed_text(a.local_device_id@, b.local_device_id@, rest_a, rest_b);
    lemma_framed_text(a.remote_device_id@, b.remote_device_id@, fixed_part(a), fixed_part(b));
    lemma_fixed_part(a, b);
}

/// Two builds agree on a version where they have the same major version, and nowhere else. It is the
/// lower of the two that they offer.
pub proof fn the_lower_version_is_spoken(
    offered: ProtocolVersion,
    result: Result<ProtocolVersion, ProtocolVersionMismatch>,
    current: ProtocolVersion,
)
    requires
        call_ensures(ProtocolVersion::negotiate_with_current, (offered,), result),
        call_ensures(ProtocolVersion::current, (), current),
    ensures
        current.major == 1,
        current.minor == 4,
        result is Ok <==> offered.major == current.major,
        result matches Ok(version) ==> {
            &&& version.major == current.major
            &&& version.minor <= offered.minor
            &&& version.minor <= current.minor
            &&& version.minor == offered.minor || version.minor == current.minor
        },
        result matches Err(mismatch) ==> mismatch.offered == offered,
{
}

/// Each capability is a bit of its own, and flags hold a capability where they have its bit. Together
/// flags hold what either of them holds, and what is common to them is what both hold.
pub proof fn capabilities_are_told_apart(
    pointer: CapabilityFlags,
    keyboard: CapabilityFlags,
    clipboard: CapabilityFlags,
    screen_layout: CapabilityFlags,
    nothing: CapabilityFlags,
    session: CapabilityFlags,
)
    requires
        call_ensures(CapabilityFlags::pointer, (), pointer),
        call_ensures(CapabilityFlags::keyboard, (), keyboard),
        call_ensures(CapabilityFlags::clipboard, (), clipboard),
        call_ensures(CapabilityFlags::screen_layout, (), screen_layout),
        call_ensures(CapabilityFlags::empty, (), nothing),
        call_ensures(peer_session_capabilities, (), session),
    ensures
        nothing.bits == 0,
        pointer.bits == 1,
        keyboard.bits == 2,
        clipboard.bits == 4,
        screen_layout.bits == 8,
        session.bits == pointer.bits + keyboard.bits,
{
}

/// Flags hold a capability where they have its bit, whatever else they have.
pub proof fn a_capability_is_held_by_its_bit(
    flags: CapabilityFlags,
    other: CapabilityFlags,
    pointer: bool,
    keyboard: bool,
    clipboard: bool,
    screen_layout: bool,
    nothing: bool,
    bits: u32,
)
    requires
        call_ensures(CapabilityFlags::contains, (flags, CapabilityFlags { bits: 1 }), pointer),
        call_ensures(CapabilityFlags::contains, (flags, CapabilityFlags { bits: 2 }), keyboard),
        call_ensures(CapabilityFlags::contains, (flags, CapabilityFlags { bits: 4 }), clipboard),
        call_ensures(CapabilityFlags::contains, (flags, CapabilityFlags { bits: 8 }), screen_layout),
        call_ensures(CapabilityFlags::is_empty, (flags,), nothing),
        call_ensures(CapabilityFlags::bits, (flags,), bits),
    ensures
        pointer <==> flags.bits % 2 == 1,
        keyboard <==> (flags.bits / 2) % 2 == 1,
        clipboard <==> (flags.bits / 4) % 2 == 1,
        screen_layout <==> (flags.bits / 8) % 2 == 1,
        nothing <==> flags.bits == 0,
        bits == flags.bits,
{
    let b = flags.bits;
    assert((b & 1 == 1 <==> b % 2 == 1) && (b & 2 == 2 <==> (b / 2) % 2 == 1) && (b & 4 == 4 <==> (b
        / 4) % 2 == 1) && (b & 8 == 8 <==> (b / 8) % 2 == 1)) by (bit_vector);
}

/// What two devices offer together is what either offers, and what they have in common is what both
/// offer.
pub proof fn flags_are_joined_bit_by_bit(
    a: CapabilityFlags,
    b: CapabilityFlags,
    joined: CapabilityFlags,
    common: CapabilityFlags,
    capability: CapabilityFlags,
    by_a: bool,
    by_b: bool,
    by_either: bool,
    by_both: bool,
    k: u32,
)
    requires
        call_ensures(CapabilityFlags::union, (a, b), joined),
        call_ensures(CapabilityFlags::intersection, (a, b), common),
        k < 32,
        capability.bits == 1u32 << k,
        call_ensures(CapabilityFlags::contains, (a, capability), by_a),
        call_ensures(CapabilityFlags::contains, (b, capability), by_b),
        call_ensures(CapabilityFlags::contains, (joined, capability), by_either),
        call_ensures(CapabilityFlags::contains, (common, capability), by_both),
    ensures
        by_either <==> by_a || by_b,
        by_both <==> by_a && by_b,
{
    let x = a.bits;
    let y = b.bits;
    let c = capability.bits;
    assert((((x | y) & c) == c <==> (x & c) == c || (y & c) == c) && (((x & y) & c) == c <==> (x & c)
        == c && (y & c) == c)) by (bit_vector)
        requires
            k < 32,
            c == 1u32 << k,
    ;
}

/// What is signed of a handshake holds everything that the two sides said: first the two devices, each
/// behind the length of its name, then the nonces, the version, what each side offers, who opened the
/// connection, and what is exported from the channel.
pub proof fn what_is_signed_holds_the_handshake(transcript: AuthTranscript, bytes: Vec<u8>)
    requires
        call_ensures(AuthTranscript::canonical_bytes, (&transcript,), bytes),
    ensures
        ({
            let here = vstd::utf8::encode_utf8(transcript.local_device_id@);
            let there = vstd::utf8::encode_utf8(transcript.remote_device_id@);
            let fixed: int = 16 + here.len() as int + there.len();
            &&& bytes@.len() == fixed + 136
            &&& bytes@.subrange(8, (8 + here.len()) as int) == here
            &&& bytes@.subrange((16 + here.len()) as int, fixed) == there
            &&& bytes@.subrange(fixed, fixed + 32) == transcript.local_nonce@
            &&& bytes@.subrange(fixed + 32, fixed + 64) == transcript.remote_nonce@
            &&& bytes@[fixed + 71] == transcript.protocol.major as u8
            &&& bytes@[fixed + 79] == transcript.protocol.minor as u8
            &&& bytes@[fixed + 87] == transcript.local_capabilities.bits as u8
            &&& bytes@[fixed + 95] == transcript.remote_capabilities.bits as u8
            &&& bytes@[fixed + 103] == (if transcript.role is Initiator {
                0u8
            } else {
                1u8
            })
            &&& bytes@.subrange(fixed + 104, fixed + 136) == transcript.tls_exporter@
        }),
{
    let here = vstd::utf8::encode_utf8(transcript.local_device_id@);
    let there = vstd::utf8::encode_utf8(transcript.remote_device_id@);
    let fixed: int = 16 + here.len() as int + there.len();
    let t = transcript;
    assert(t.local_nonce@.len() == 32 && t.remote_nonce@.len() == 32 && t.tls_exporter@.len()
        == 32);
    assert(bytes@.subrange(8, (8 + here.len()) as int) =~= here);
    assert(bytes@.subrange((16 + here.len()) as int, fixed) =~= there);
    assert(bytes@.subrange(fixed, fixed + 32) =~= t.local_nonce@);
    assert(bytes@.subrange(fixed + 32, fixed + 64) =~= t.remote_nonce@);
    assert(bytes@.subrange(fixed + 104, fixed + 136) =~= t.tls_exporter@);
    let major = t.protocol.major;
    let minor = t.protocol.minor;
    let ours = t.local_capabilities.bits;
    let theirs = t.remote_capabilities.bits;
    assert((major as u64) as u8 == major as u8 && (minor as u64) as u8 == minor as u8 && (
    ours as u64) as u8 == ours as u8 && (theirs as u64) as u8 == theirs as u8) by (bit_vector);
}

/// Two handshakes of which the same is signed are the same handshake.
pub proof fn what_is_signed_names_one_handshake(
    a: AuthTranscript,
    b: AuthTranscript,
    signed_a: Vec<u8>,
    signed_b: Vec<u8>,
)
    requires
        call_ensures(AuthTranscript::canonical_bytes, (&a,), signed_a),
        call_ensures(AuthTranscript::canonical_bytes, (&b,), signed_b),
        vstd::utf8::encode_utf8(a.local_device_id@).len() <= u64::MAX,
        vstd::utf8::encode_utf8(a.remote_device_id@).len() <= u64::MAX,
        vstd::utf8::encode_utf8(b.local_device_id@).len() <= u64::MAX,
        vstd::utf8::encode_utf8(b.remote_device_id@).len() <= u64::MAX,
        signed_a@ == signed_b@,
    ensures
        a.local_device_id@ == b.local_device_id@,
        a.remote_device_id@ == b.remote_device_id@,
        a.local_nonce@ == b.local_nonce@,
        a.remote_nonce@ == b.remote_nonce@,
        a.protocol == b.protocol,
        a.local_capabilities == b.local_capabilities,
        a.remote_capabilities == b.remote_capabilities,
        a.role == b.role,
        a.tls_exporter@ == b.tls_exporter@,
{
    canonical_form_is_unambiguous(a, b);
}

} // verus!
