//! Internet addresses: how they are spelled and read.

use vstd::prelude::*;

use crate::text::{decimal_text, parse_number, position_of, split};

verus! {

/// An internet address.
#[derive(Debug, Clone, Copy, PartialEq, Eq)]
pub enum IpAddress {
    V4 { octets: [u8; 4] },
    V6 { segments: [u16; 8] },
}

/// An internet address with a port. The scope is that of an address that is valid on one link only;
/// it is zero for all others.
#[derive(Debug, Clone, Copy, PartialEq, Eq)]
pub struct SocketAddress {
    pub ip: IpAddress,
    pub scope_id: u32,
    pub port: u16,
}

/// The numbers of an address.
pub enum IpModel {
    V4 { octets: Seq<u8> },
    V6 { segments: Seq<u16> },
}

impl View for IpAddress {
    type V = IpModel;

    open spec fn view(&self) -> IpModel {
        match self {
            IpAddress::V4 { octets } => IpModel::V4 { octets: octets@ },
            IpAddress::V6 { segments } => IpModel::V6 { segments: segments@ },
        }
    }
}

/// The numbers of an address with a port.
pub struct SocketModel {
    pub ip: IpModel,
    pub scope_id: u32,
    pub port: u16,
}

impl View for SocketAddress {
    type V = SocketModel;

    open spec fn view(&self) -> SocketModel {
        SocketModel { ip: self.ip@, scope_id: self.scope_id, port: self.port }
    }
}

/// A number of an address: digits alone, with a value of at most `max`.
pub open spec fn plain_number(s: Seq<char>, max: nat) -> Option<nat> {
    if s.len() > 0 && crate::text::all_digits(s) && crate::text::digits_value(s) <= max {
        Some(crate::text::digits_value(s))
    } else {
        None
    }
}

/// One of the four numbers of an address: at most three digits, the first of several not zero.
pub open spec fn octet(s: Seq<char>) -> Option<nat> {
    if s.len() <= 3 && (s.len() > 1 ==> s[0] != '0') {
        plain_number(s, 255)
    } else {
        None
    }
}

/// Four numbers with dots between them.
pub open spec fn read_v4(s: Seq<char>) -> Option<Seq<u8>> {
    let parts = crate::text::pieces(s, '.');
    if parts.len() == 4 && octet(parts[0]) is Some && octet(parts[1]) is Some && octet(
        parts[2],
    ) is Some && octet(parts[3]) is Some {
        Some(
            seq![
                octet(parts[0])->Some_0 as u8,
                octet(parts[1])->Some_0 as u8,
                octet(parts[2])->Some_0 as u8,
                octet(parts[3])->Some_0 as u8,
            ],
        )
    } else {
        None
    }
}

/// The value of a hexadecimal digit.
pub open spec fn hex_digit(c: char) -> Option<nat> {
    if '0' <= c <= '9' {
        Some((c as int - 48) as nat)
    } else if 'a' <= c <= 'f' {
        Some((c as int - 87) as nat)
    } else if 'A' <= c <= 'F' {
        Some((c as int - 55) as nat)
    } else {
        None
    }
}

/// The value of hexadecimal digits.
pub open spec fn hex_value(s: Seq<char>) -> nat
    decreases s.len(),
{
    if s.len() == 0 {
        0
    } else {
        hex_value(s.drop_last()) * 16 + hex_digit(s.last())->Some_0
    }
}

pub open spec fn all_hex(s: Seq<char>) -> bool {
    forall|i: int| 0 <= i < s.len() ==> hex_digit(#[trigger] s[i]) is Some
}

/// One group of an address: one to four hexadecimal digits.
pub open spec fn hex_group(s: Seq<char>) -> Option<u16> {
    if 1 <= s.len() <= 4 && all_hex(s) {
        Some(hex_value(s) as u16)
    } else {
        None
    }
}

/// The two groups that four octets stand for.
pub open spec fn v4_groups(octets: Seq<u8>) -> Seq<u16> {
    seq![(octets[0] * 256 + octets[1]) as u16, (octets[2] * 256 + octets[3]) as u16]
}

/// The groups in a list of pieces. The last piece may be four octets, which are two groups, where
/// that is allowed.
pub open spec fn read_groups(parts: Seq<Seq<char>>, v4_allowed: bool) -> Option<Seq<u16>>
    decreases parts.len(),
{
    if parts.len() == 0 {
        Some(Seq::empty())
    } else if parts.len() == 1 && v4_allowed && read_v4(parts[0]) is Some {
        Some(v4_groups(read_v4(parts[0])->Some_0))
    } else {
        match (hex_group(parts[0]), read_groups(parts.drop_first(), v4_allowed)) {
            (Some(group), Some(rest)) => Some(seq![group] + rest),
            _ => None,
        }
    }
}

/// The groups with colons between them; none in an empty text.
pub open spec fn read_group_text(s: Seq<char>, v4_allowed: bool) -> Option<Seq<u16>> {
    if s.len() == 0 {
        Some(Seq::empty())
    } else {
        read_groups(crate::text::pieces(s, ':'), v4_allowed)
    }
}

/// Where two colons first stand side by side, or the text's length.
pub open spec fn gap_position(s: Seq<char>) -> int
    decreases s.len(),
{
    if s.len() < 2 {
        s.len() as int
    } else if s[0] == ':' && s[1] == ':' {
        0
    } else {
        1 + gap_position(s.drop_first())
    }
}

/// Eight groups; one run of at least one zero group may be left out between two colons.
pub open spec fn read_v6(s: Seq<char>) -> Option<Seq<u16>> {
    let gap = gap_position(s);
    if gap < s.len() {
        match (
            read_group_text(s.subrange(0, gap), false),
            read_group_text(s.subrange(gap + 2, s.len() as int), true),
        ) {
            (Some(head), Some(tail)) => if head.len() + tail.len() <= 7 {
                Some(head + Seq::new((8 - head.len() - tail.len()) as nat, |i: int| 0u16) + tail)
            } else {
                None
            },
            _ => None,
        }
    } else {
        match read_group_text(s, true) {
            Some(groups) => if groups.len() == 8 {
                Some(groups)
            } else {
                None
            },
            None => None,
        }
    }
}

/// An address between brackets: eight groups, and a scope behind a percent sign where there is one.
pub open spec fn read_scoped_v6(s: Seq<char>) -> Option<(Seq<u16>, u32)> {
    let percent = crate::text::first_position(s, '%');
    let scope = if percent < s.len() {
        plain_number(s.subrange(percent + 1, s.len() as int), u32::MAX as nat)
    } else {
        Some(0)
    };
    match (read_v6(s.subrange(0, percent)), scope) {
        (Some(segments), Some(scope)) => Some((segments, scope as u32)),
        _ => None,
    }
}

/// The address and port that a text spells, if it spells any: `1.2.3.4:80` or `[1::2]:80`.
pub open spec fn read_socket(s: Seq<char>) -> Option<SocketModel> {
    if s.len() > 0 && s[0] == '[' {
        let close = crate::text::first_position(s, ']');
        if close + 1 < s.len() && s[close + 1] == ':' {
            match (
                read_scoped_v6(s.subrange(1, close)),
                plain_number(s.subrange(close + 2, s.len() as int), 65535),
            ) {
                (Some((segments, scope_id)), Some(port)) => Some(
                    SocketModel { ip: IpModel::V6 { segments }, scope_id, port: port as u16 },
                ),
                _ => None,
            }
        } else {
            None
        }
    } else {
        let colon = crate::text::first_position(s, ':');
        if colon < s.len() {
            match (
                read_v4(s.subrange(0, colon)),
                plain_number(s.subrange(colon + 1, s.len() as int), 65535),
            ) {
                (Some(octets), Some(port)) => Some(
                    SocketModel { ip: IpModel::V4 { octets }, scope_id: 0, port: port as u16 },
                ),
                _ => None,
            }
        } else {
            None
        }
    }
}

/// Parse digits alone, with a value of at most `max`.
fn parse_plain_number(s: &str, max: u32) -> (result: Option<u32>)
    ensures
        match result {
            Some(value) => plain_number(s@, max as nat) == Some(value as nat),
            None => plain_number(s@, max as nat) is None,
        },
{
    if s.unicode_len() > 0 && s.get_char(0) == '+' {
        proof {
            assert(!crate::text::is_digit(s@[0]));
        }
        return None;
    }
    match parse_number(s, max) {
        Ok(value) => Some(value),
        Err(_) => None,
    }
}

/// Parse one of the four numbers of an address.
fn parse_octet(s: &str) -> (result: Option<u8>)
    ensures
        match result {
            Some(value) => octet(s@) == Some(value as nat),
            None => octet(s@) is None,
        },
{
    let n: usize = s.unicode_len();
    if n > 3 || (n > 1 && s.get_char(0) == '0') {
        return None;
    }
    match parse_plain_number(s, 255) {
        Some(value) => Some(value as u8),
        None => None,
    }
}

/// Parse four numbers with dots between them.
fn parse_v4(s: &str) -> (result: Option<[u8; 4]>)
    ensures
        match result {
            Some(octets) => read_v4(s@) == Some(octets@),
            None => read_v4(s@) is None,
        },
{
    let parts: Vec<&str> = split(s, '.');
    let ghost views = crate::text::views(parts@);
    if parts.len() != 4 {
        return None;
    }
    proof {
        assert(views[0] == parts@[0]@);
        assert(views[1] == parts@[1]@);
        assert(views[2] == parts@[2]@);
        assert(views[3] == parts@[3]@);
    }
    match (
        parse_octet(parts[0]),
        parse_octet(parts[1]),
        parse_octet(parts[2]),
        parse_octet(parts[3]),
    ) {
        (Some(a), Some(b), Some(c), Some(d)) => {
            let octets: [u8; 4] = [a, b, c, d];
            proof {
                assert(octets@ =~= seq![a, b, c, d]);
            }
            Some(octets)
        },
        _ => None,
    }
}

/// Parse one hexadecimal digit.
fn parse_hex_digit(c: char) -> (result: Option<u32>)
    ensures
        match result {
            Some(value) => hex_digit(c) == Some(value as nat) && value < 16,
            None => hex_digit(c) is None,
        },
{
    if '0' <= c && c <= '9' {
        Some(c as u32 - 48)
    } else if 'a' <= c && c <= 'f' {
        Some(c as u32 - 87)
    } else if 'A' <= c && c <= 'F' {
        Some(c as u32 - 55)
    } else {
        None
    }
}

/// Parse one group of an address.
fn parse_hex_group(s: &str) -> (result: Option<u16>)
    ensures
        result == hex_group(s@),
{
    let n: usize = s.unicode_len();
    if n == 0 || n > 4 {
        return None;
    }
    let mut value: u32 = 0;
    let mut i: usize = 0;
    while i < n
        invariant
            i <= n <= 4,
            n == s@.len(),
            n > 0,
            value == hex_value(s@.subrange(0, i as int)),
            i == 0 ==> value < 1,
            i == 1 ==> value < 16,
            i == 2 ==> value < 256,
            i == 3 ==> value < 4096,
            i == 4 ==> value < 65536,
            forall|j: int| 0 <= j < i ==> hex_digit(#[trigger] s@[j]) is Some,
        decreases n - i,
    {
        match parse_hex_digit(s.get_char(i)) {
            Some(digit) => {
                proof {
                    let longer = s@.subrange(0, i + 1);
                    assert(longer.drop_last() =~= s@.subrange(0, i as int));
                }
                value = value * 16 + digit;
            },
            None => {
                assert(hex_digit(s@[i as int]) is None);
                return None;
            },
        }
        i = i + 1;
    }
    proof {
        assert(s@.subrange(0, i as int) =~= s@);
    }
    Some(value as u16)
}

/// Parse groups with colons between them.
fn parse_group_text(s: &str, v4_allowed: bool) -> (result: Option<Vec<u16>>)
    ensures
        match result {
            Some(groups) => read_group_text(s@, v4_allowed) == Some(groups@),
            None => read_group_text(s@, v4_allowed) is None,
        },
{
    let mut groups: Vec<u16> = Vec::new();
    if s.is_empty() {
        proof {
            assert(groups@ =~= Seq::empty());
        }
        return Some(groups);
    }
    let parts: Vec<&str> = split(s, ':');
    let ghost views = crate::text::views(parts@);
    let mut i: usize = 0;
    proof {
        assert(views.subrange(0, views.len() as int) =~= views);
        assert forall|rest: Seq<u16>| #[trigger] (groups@ + rest) =~= rest by {}
    }
    while i < parts.len()
        invariant
            i <= parts@.len(),
            views == crate::text::views(parts@),
            views.len() == parts@.len(),
            s@.len() > 0,
            views == crate::text::pieces(s@, ':'),
            match read_groups(views.subrange(i as int, views.len() as int), v4_allowed) {
                Some(rest) => read_group_text(s@, v4_allowed) == Some(groups@ + rest),
                None => read_group_text(s@, v4_allowed) is None,
            },
        decreases parts@.len() - i,
    {
        let ghost rest = views.subrange(i as int, views.len() as int);
        let ghost before = groups@;
        proof {
            assert(rest[0] == parts@[i as int]@);
            assert(rest.drop_first() =~= views.subrange(i + 1, views.len() as int));
        }
        if i + 1 == parts.len() && v4_allowed {
            match parse_v4(parts[i]) {
                Some(octets) => {
                    groups.push(octets[0] as u16 * 256 + octets[1] as u16);
                    groups.push(octets[2] as u16 * 256 + octets[3] as u16);
                    proof {
                        assert(groups@ =~= before + v4_groups(octets@));
                    }
                    return Some(groups);
                },
                None => {},
            }
        }
        match parse_hex_group(parts[i]) {
            Some(group) => {
                groups.push(group);
                proof {
                    assert forall|tail: Seq<u16>| #[trigger] (groups@ + tail) =~= before + (
                    seq![group] + tail) by {}
                }
            },
            None => {
                return None;
            },
        }
        i = i + 1;
    }
    proof {
        assert(views.subrange(i as int, views.len() as int).len() == 0);
        assert(groups@ + Seq::<u16>::empty() =~= groups@);
    }
    Some(groups)
}

/// Where two colons first stand side by side, or the text's length.
fn find_gap(s: &str) -> (result: usize)
    ensures
        result == gap_position(s@),
        result <= s@.len(),
        result < s@.len() ==> result + 2 <= s@.len(),
{
    let n: usize = s.unicode_len();
    let mut i: usize = 0;
    proof {
        assert(s@.subrange(0, n as int) =~= s@);
    }
    while n - i > 1
        invariant
            i <= n,
            n == s@.len(),
            gap_position(s@) == i + gap_position(s@.subrange(i as int, n as int)),
        decreases n - i,
    {
        let ghost rest = s@.subrange(i as int, n as int);
        proof {
            assert(rest.drop_first() =~= s@.subrange(i + 1, n as int));
        }
        if s.get_char(i) == ':' && s.get_char(i + 1) == ':' {
            return i;
        }
        i = i + 1;
    }
    n
}

/// Eight groups as an array.
fn eight_groups(head: &Vec<u16>, tail: &Vec<u16>) -> (result: [u16; 8])
    requires
        head@.len() + tail@.len() <= 8,
    ensures
        result@ == head@ + Seq::new((8 - head@.len() - tail@.len()) as nat, |i: int| 0u16) + tail@,
{
    let mut segments: [u16; 8] = [0; 8];
    let mut i: usize = 0;
    let zeros: usize = 8 - head.len() - tail.len();
    while i < 8
        invariant
            i <= 8,
            head@.len() + tail@.len() + zeros == 8,
            segments@.len() == 8,
            forall|j: int|
                0 <= j < i ==> #[trigger] segments@[j] == (if j < head@.len() {
                    head@[j]
                } else if j < head@.len() + zeros {
                    0
                } else {
                    tail@[j - head@.len() - zeros]
                }),
        decreases 8 - i,
    {
        let value: u16 = if i < head.len() {
            head[i]
        } else if i < head.len() + zeros {
            0
        } else {
            tail[i - head.len() - zeros]
        };
        segments[i] = value;
        i = i + 1;
    }
    proof {
        assert(segments@ =~= head@ + Seq::new(
            (8 - head@.len() - tail@.len()) as nat,
            |i: int| 0u16,
        ) + tail@);
    }
    segments
}

/// Parse eight groups, one run of which may be left out.
fn parse_v6(s: &str) -> (result: Option<[u16; 8]>)
    ensures
        match result {
            Some(segments) => read_v6(s@) == Some(segments@),
            None => read_v6(s@) is None,
        },
{
    let n: usize = s.unicode_len();
    let gap: usize = find_gap(s);
    if gap < n {
        match (
            parse_group_text(s.substring_char(0, gap), false),
            parse_group_text(s.substring_char(gap + 2, n), true),
        ) {
            (Some(head), Some(tail)) => if head.len() <= 7 && tail.len() <= 7 - head.len() {
                Some(eight_groups(&head, &tail))
            } else {
                None
            },
            _ => None,
        }
    } else {
        match parse_group_text(s, true) {
            Some(groups) => if groups.len() == 8 {
                let none: Vec<u16> = Vec::new();
                let segments = eight_groups(&groups, &none);
                proof {
                    assert(segments@ =~= groups@);
                }
                Some(segments)
            } else {
                None
            },
            None => None,
        }
    }
}

/// Parse what stands between the brackets of an address.
fn parse_scoped_v6(s: &str) -> (result: Option<([u16; 8], u32)>)
    ensures
        match result {
            Some((segments, scope)) => read_scoped_v6(s@) == Some((segments@, scope)),
            None => read_scoped_v6(s@) is None,
        },
{
    let n: usize = s.unicode_len();
    let percent: usize = position_of(s, '%');
    let scope: Option<u32> = if percent < n {
        parse_plain_number(s.substring_char(percent + 1, n), u32::MAX)
    } else {
        Some(0)
    };
    match (parse_v6(s.substring_char(0, percent)), scope) {
        (Some(segments), Some(scope)) => Some((segments, scope)),
        _ => None,
    }
}

/// Parse an address with a port.
pub fn parse_socket_address(s: &str) -> (result: Option<SocketAddress>)
    ensures
        match result {
            Some(address) => read_socket(s@) == Some(address@),
            None => read_socket(s@) is None,
        },
{
    let n: usize = s.unicode_len();
    if n > 0 && s.get_char(0) == '[' {
        let close: usize = position_of(s, ']');
        proof {
            crate::text::lemma_first_position(s@, ']');
        }
        if n >= 2 && close < n - 1 && s.get_char(close + 1) == ':' {
            match (
                parse_scoped_v6(s.substring_char(1, close)),
                parse_plain_number(s.substring_char(close + 2, n), 65535),
            ) {
                (Some((segments, scope_id)), Some(port)) => Some(
                    SocketAddress { ip: IpAddress::V6 { segments }, scope_id, port: port as u16 },
                ),
                _ => None,
            }
        } else {
            None
        }
    } else {
        let colon: usize = position_of(s, ':');
        if colon < n {
            match (
                parse_v4(s.substring_char(0, colon)),
                parse_plain_number(s.substring_char(colon + 1, n), 65535),
            ) {
                (Some(octets), Some(port)) => Some(
                    SocketAddress { ip: IpAddress::V4 { octets }, scope_id: 0, port: port as u16 },
                ),
                _ => None,
            }
        } else {
            None
        }
    }
}

/// A hexadecimal digit in lower case.
pub open spec fn hex_char(digit: nat) -> char {
    if digit < 10 {
        (48 + digit) as char
    } else {
        (87 + digit) as char
    }
}

/// A number in hexadecimal, without leading zeros.
pub open spec fn hex(n: nat) -> Seq<char>
    decreases n,
{
    if n < 16 {
        seq![hex_char(n)]
    } else {
        hex(n / 16).push(hex_char(n % 16))
    }
}

/// Groups with colons between them.
pub open spec fn joined_groups(groups: Seq<u16>) -> Seq<char>
    decreases groups.len(),
{
    if groups.len() == 0 {
        Seq::empty()
    } else if groups.len() == 1 {
        hex(groups[0] as nat)
    } else {
        joined_groups(groups.drop_last()) + seq![':'] + hex(groups.last() as nat)
    }
}

/// How many zero groups stand side by side from a place on.
pub open spec fn zeros_from(groups: Seq<u16>, i: int) -> nat
    decreases groups.len() - i,
{
    if 0 <= i < groups.len() && groups[i] == 0 {
        1 + zeros_from(groups, i + 1)
    } else {
        0
    }
}

/// Where the longest run of zero groups starts, the first of several, among the first `k` places.
pub open spec fn longest_run(groups: Seq<u16>, k: nat) -> int
    decreases k,
{
    if k == 0 {
        0
    } else {
        let best = longest_run(groups, (k - 1) as nat);
        if zeros_from(groups, k - 1) > zeros_from(groups, best) {
            k - 1
        } else {
            best
        }
    }
}

/// Four numbers with dots between them.
pub open spec fn spell_v4(octets: Seq<u8>) -> Seq<char> {
    crate::text::decimal(octets[0] as nat) + "."@ + crate::text::decimal(octets[1] as nat) + "."@
        + crate::text::decimal(octets[2] as nat) + "."@ + crate::text::decimal(octets[3] as nat)
}

/// Whether eight groups stand for four octets.
pub open spec fn is_mapped(segments: Seq<u16>) -> bool {
    &&& forall|i: int| 0 <= i < 5 ==> #[trigger] segments[i] == 0
    &&& segments[5] == 0xffff
}

/// The four octets in the last two groups.
pub open spec fn mapped_octets(segments: Seq<u16>) -> Seq<u8> {
    seq![
        (segments[6] / 256) as u8,
        (segments[6] % 256) as u8,
        (segments[7] / 256) as u8,
        (segments[7] % 256) as u8,
    ]
}

/// Eight groups as they are usually spelled: the longest run of two or more zero groups is left out,
/// and four mapped octets are spelled as such.
pub open spec fn spell_v6(segments: Seq<u16>) -> Seq<char> {
    let start = longest_run(segments, 8);
    let length = zeros_from(segments, start);
    if is_mapped(segments) {
        "::ffff:"@ + spell_v4(mapped_octets(segments))
    } else if length > 1 {
        joined_groups(segments.subrange(0, start)) + "::"@ + joined_groups(
            segments.subrange(start + length, 8),
        )
    } else {
        joined_groups(segments)
    }
}

/// An address with a port, spelled.
pub open spec fn spell_socket(address: SocketModel) -> Seq<char> {
    match address.ip {
        IpModel::V4 { octets } => spell_v4(octets) + ":"@ + crate::text::decimal(
            address.port as nat,
        ),
        IpModel::V6 { segments } => if address.scope_id == 0 {
            "["@ + spell_v6(segments) + "]:"@ + crate::text::decimal(address.port as nat)
        } else {
            "["@ + spell_v6(segments) + "%"@ + crate::text::decimal(address.scope_id as nat)
                + "]:"@ + crate::text::decimal(address.port as nat)
        },
    }
}

/// A hexadecimal digit in lower case.
fn hex_digit_text(digit: u16) -> (result: char)
    requires
        digit < 16,
    ensures
        result == hex_char(digit as nat),
{
    if digit < 10 {
        (48u8 + digit as u8) as char
    } else {
        (87u8 + digit as u8) as char
    }
}

/// A number in hexadecimal.
fn hex_text(n: u16) -> (result: String)
    ensures
        result@ == hex(n as nat),
    decreases n,
{
    if n < 16 {
        let mut result = String::new();
        result.push(hex_digit_text(n));
        proof {
            assert(result@ =~= hex(n as nat));
        }
        result
    } else {
        let mut result = hex_text(n / 16);
        result.push(hex_digit_text(n % 16));
        result
    }
}

/// The groups from one place up to another, with colons between them.
fn groups_text(segments: &[u16; 8], from: usize, to: usize) -> (result: String)
    requires
        from <= to <= 8,
    ensures
        result@ == joined_groups(segments@.subrange(from as int, to as int)),
{
    let mut result = String::new();
    let mut i: usize = from;
    proof {
        assert(segments@.subrange(from as int, from as int).len() == 0);
        assert(result@ =~= joined_groups(segments@.subrange(from as int, from as int)));
    }
    while i < to
        invariant
            from <= i <= to <= 8,
            result@ == joined_groups(segments@.subrange(from as int, i as int)),
        decreases to - i,
    {
        let group = hex_text(segments[i]);
        let ghost longer = segments@.subrange(from as int, i + 1);
        proof {
            assert(longer.drop_last() =~= segments@.subrange(from as int, i as int));
        }
        if i > from {
            result.push(':');
            result.append(group.as_str());
            proof {
                assert(result@ =~= joined_groups(longer.drop_last()) + seq![':'] + hex(
                    longer.last() as nat,
                ));
            }
        } else {
            result.append(group.as_str());
            proof {
                assert(result@ =~= hex(longer[0] as nat));
            }
        }
        i = i + 1;
    }
    result
}

/// How many zero groups stand side by side from a place on.
fn count_zeros(segments: &[u16; 8], from: usize) -> (result: usize)
    requires
        from <= 8,
    ensures
        result == zeros_from(segments@, from as int),
        from + result <= 8,
    decreases 8 - from,
{
    if from < 8 && segments[from] == 0 {
        1 + count_zeros(segments, from + 1)
    } else {
        0
    }
}

/// Four numbers with dots between them.
fn v4_text(octets: &[u8; 4]) -> (result: String)
    ensures
        result@ == spell_v4(octets@),
{
    decimal_text(octets[0] as u64).concat(".").concat(
        decimal_text(octets[1] as u64).as_str(),
    ).concat(".").concat(decimal_text(octets[2] as u64).as_str()).concat(".").concat(
        decimal_text(octets[3] as u64).as_str(),
    )
}

/// Eight groups as they are usually spelled.
fn v6_text(segments: &[u16; 8]) -> (result: String)
    ensures
        result@ == spell_v6(segments@),
{
    if segments[0] == 0 && segments[1] == 0 && segments[2] == 0 && segments[3] == 0 && segments[4]
        == 0 && segments[5] == 0xffff {
        let octets: [u8; 4] = [
            (segments[6] / 256) as u8,
            (segments[6] % 256) as u8,
            (segments[7] / 256) as u8,
            (segments[7] % 256) as u8,
        ];
        proof {
            assert(octets@ =~= mapped_octets(segments@));
            assert(is_mapped(segments@));
        }
        return "::ffff:".to_owned().concat(v4_text(&octets).as_str());
    }
    let mut best: usize = 0;
    let mut k: usize = 0;
    while k < 8
        invariant
            k <= 8,
            best < 8,
            best == longest_run(segments@, k as nat),
        decreases 8 - k,
    {
        if count_zeros(segments, k) > count_zeros(segments, best) {
            best = k;
        }
        k = k + 1;
    }
    let length: usize = count_zeros(segments, best);
    proof {
        assert(!is_mapped(segments@));
        assert(segments@.subrange(0, 8) =~= segments@);
    }
    if length > 1 {
        groups_text(segments, 0, best).concat("::").concat(
            groups_text(segments, best + length, 8).as_str(),
        )
    } else {
        groups_text(segments, 0, 8)
    }
}

/// An address as it is usually spelled.
pub open spec fn spell_ip(ip: IpModel) -> Seq<char> {
    match ip {
        IpModel::V4 { octets } => spell_v4(octets),
        IpModel::V6 { segments } => spell_v6(segments),
    }
}

impl IpAddress {
    /// The address in words.
    pub fn text(&self) -> (result: String)
        ensures
            result@ == spell_ip(self@),
    {
        match self {
            IpAddress::V4 { octets } => v4_text(octets),
            IpAddress::V6 { segments } => v6_text(segments),
        }
    }

    /// Whether all the numbers of the address are zero, so that it stands for every local address.
    pub open spec fn unspecified(&self) -> bool {
        match self {
            IpAddress::V4 { octets } => forall|i: int| 0 <= i < 4 ==> octets@[i] == 0,
            IpAddress::V6 { segments } => forall|i: int| 0 <= i < 8 ==> segments@[i] == 0,
        }
    }

    /// Whether all the numbers of the address are zero, so that it stands for every local address.
    pub fn is_unspecified(&self) -> (result: bool)
        ensures
            result == self.unspecified(),
    {
        match self {
            IpAddress::V4 { octets } => octets[0] == 0 && octets[1] == 0 && octets[2] == 0
                && octets[3] == 0,
            IpAddress::V6 { segments } => segments[0] == 0 && segments[1] == 0 && segments[2] == 0
                && segments[3] == 0 && segments[4] == 0 && segments[5] == 0 && segments[6] == 0
                && segments[7] == 0,
        }
    }
}

impl SocketAddress {
    /// The address in words.
    pub fn text(&self) -> (result: String)
        ensures
            result@ == spell_socket(self@),
    {
        let port = decimal_text(self.port as u64);
        match &self.ip {
            IpAddress::V4 { octets } => v4_text(octets).concat(":").concat(port.as_str()),
            IpAddress::V6 { segments } => if self.scope_id == 0 {
                "[".to_owned().concat(v6_text(segments).as_str()).concat("]:").concat(
                    port.as_str(),
                )
            } else {
                "[".to_owned().concat(v6_text(segments).as_str()).concat("%").concat(
                    decimal_text(self.scope_id as u64).as_str(),
                ).concat("]:").concat(port.as_str())
            },
        }
    }
}

proof fn lemma_found_at(s: Seq<char>, c: char, at: int)
    requires
        0 <= at < s.len(),
        s[at] == c,
        forall|i: int| 0 <= i < at ==> #[trigger] s[i] != c,
    ensures
        crate::text::first_position(s, c) == at,
    decreases at,
{
    if at > 0 {
        assert(s[0] != c);
        let rest = s.drop_first();
        assert forall|i: int| 0 <= i < at - 1 implies #[trigger] rest[i] != c by {
            assert(rest[i] == s[i + 1]);
        }
        lemma_found_at(rest, c, at - 1);
    }
}

proof fn lemma_not_found(s: Seq<char>, c: char)
    requires
        forall|i: int| 0 <= i < s.len() ==> #[trigger] s[i] != c,
    ensures
        crate::text::first_position(s, c) == s.len(),
        crate::text::pieces(s, c) == seq![s],
    decreases s.len(),
{
    if s.len() > 0 {
        assert(s[0] != c);
        let rest = s.drop_first();
        assert forall|i: int| 0 <= i < rest.len() implies #[trigger] rest[i] != c by {
            assert(rest[i] == s[i + 1]);
        }
        lemma_not_found(rest, c);
    }
}

proof fn lemma_first_piece(piece: Seq<char>, c: char, rest: Seq<char>)
    requires
        forall|i: int| 0 <= i < piece.len() ==> #[trigger] piece[i] != c,
    ensures
        crate::text::pieces(piece + seq![c] + rest, c) == seq![piece] + crate::text::pieces(rest, c),
{
    let s = piece + seq![c] + rest;
    let at = piece.len() as int;
    assert forall|i: int| 0 <= i < at implies #[trigger] s[i] != c by {
        assert(s[i] == piece[i]);
    }
    lemma_found_at(s, c, at);
    assert(s.subrange(0, at) =~= piece);
    assert(s.subrange(at + 1, s.len() as int) =~= rest);
}

proof fn lemma_spelled_octet(n: nat)
    requires
        n < 256,
    ensures
        octet(crate::text::decimal(n)) == Some(n),
        crate::text::decimal(n).len() > 0,
{
    crate::text::lemma_decimal_value(n);
    crate::text::numbers_are_spelled_digit_by_digit(n, 0, 255);
    reveal_with_fuel(crate::text::decimal, 3);
}

/// Four numbers with dots between them, and a port behind a colon.
pub open spec fn dotted(a: u8, b: u8, c: u8, d: u8, port: u16) -> Seq<char> {
    crate::text::decimal(a as nat) + seq!['.'] + crate::text::decimal(b as nat) + seq!['.']
        + crate::text::decimal(c as nat) + seq!['.'] + crate::text::decimal(d as nat) + seq![':']
        + crate::text::decimal(port as nat)
}

proof fn lemma_dotted_octets(a: u8, b: u8, c: u8, d: u8)
    ensures
        ({
            let text = crate::text::decimal(a as nat) + seq!['.'] + crate::text::decimal(b as nat)
                + seq!['.'] + crate::text::decimal(c as nat) + seq!['.'] + crate::text::decimal(
                d as nat,
            );
            &&& read_v4(text) == Some(seq![a, b, c, d])
            &&& text.len() > 0
            &&& forall|i: int|
                0 <= i < text.len() ==> crate::text::is_digit(#[trigger] text[i]) || text[i] == '.'
            &&& crate::text::is_digit(text[0])
        }),
{
    let w = crate::text::decimal(a as nat);
    let x = crate::text::decimal(b as nat);
    let y = crate::text::decimal(c as nat);
    let z = crate::text::decimal(d as nat);
    crate::text::lemma_decimal_value(a as nat);
    crate::text::lemma_decimal_value(b as nat);
    crate::text::lemma_decimal_value(c as nat);
    crate::text::lemma_decimal_value(d as nat);
    lemma_spelled_octet(a as nat);
    lemma_spelled_octet(b as nat);
    lemma_spelled_octet(c as nat);
    lemma_spelled_octet(d as nat);
    let dot = seq!['.'];
    let text = w + dot + x + dot + y + dot + z;
    assert(crate::text::is_digit(w[0]));
    assert(text[0] == w[0]);
    assert(text =~= w + dot + (x + dot + (y + dot + z)));
    assert forall|i: int| 0 <= i < text.len() implies crate::text::is_digit(#[trigger] text[i])
        || text[i] == '.' by {
        let one = w.len() as int;
        let two = one + 1 + x.len();
        let three = two + 1 + y.len();
        if i < one {
            assert(crate::text::is_digit(w[i]));
        } else if one < i < two {
            assert(crate::text::is_digit(x[i - one - 1]));
        } else if two < i < three {
            assert(crate::text::is_digit(y[i - two - 1]));
        } else if three < i {
            assert(crate::text::is_digit(z[i - three - 1]));
        }
    }
    assert forall|i: int| 0 <= i < w.len() implies #[trigger] w[i] != '.' by {
        assert(crate::text::is_digit(w[i]));
    }
    assert forall|i: int| 0 <= i < x.len() implies #[trigger] x[i] != '.' by {
        assert(crate::text::is_digit(x[i]));
    }
    assert forall|i: int| 0 <= i < y.len() implies #[trigger] y[i] != '.' by {
        assert(crate::text::is_digit(y[i]));
    }
    assert forall|i: int| 0 <= i < z.len() implies #[trigger] z[i] != '.' by {
        assert(crate::text::is_digit(z[i]));
    }
    lemma_not_found(z, '.');
    lemma_first_piece(y, '.', z);
    lemma_first_piece(x, '.', y + dot + z);
    lemma_first_piece(w, '.', x + dot + (y + dot + z));
    let parts = crate::text::pieces(text, '.');
    assert(parts =~= seq![w, x, y, z]);
    assert(read_v4(text)->Some_0 =~= seq![a, b, c, d]);
}

/// Four numbers with dots between them and a port behind a colon are read as that address: each number
/// at its place, and the port.
pub proof fn a_dotted_address_is_read_number_by_number(
    a: u8,
    b: u8,
    c: u8,
    d: u8,
    port: u16,
    text: &str,
    read: Option<SocketAddress>,
)
    requires
        text@ == dotted(a, b, c, d, port),
        call_ensures(parse_socket_address, (text,), read),
    ensures
        read is Some,
        read->Some_0.ip is V4,
        read->Some_0.ip->octets@ == seq![a, b, c, d],
        read->Some_0.port == port,
        read->Some_0.scope_id == 0,
{
    lemma_dotted_socket(a, b, c, d, port);
}

proof fn lemma_dotted_socket(a: u8, b: u8, c: u8, d: u8, port: u16)
    ensures
        read_socket(dotted(a, b, c, d, port)) == Some(
            SocketModel { ip: IpModel::V4 { octets: seq![a, b, c, d] }, scope_id: 0, port },
        ),
{
    let s = dotted(a, b, c, d, port);
    let host = crate::text::decimal(a as nat) + seq!['.'] + crate::text::decimal(b as nat) + seq![
        '.',
    ] + crate::text::decimal(c as nat) + seq!['.'] + crate::text::decimal(d as nat);
    let digits = crate::text::decimal(port as nat);
    lemma_dotted_octets(a, b, c, d);
    crate::text::lemma_decimal_value(port as nat);
    let at = host.len() as int;
    assert forall|i: int| 0 <= i < at implies #[trigger] s[i] != ':' by {
        assert(s[i] == host[i]);
    }
    assert(s[0] == host[0]);
    assert(crate::text::is_digit(s[0]));
    lemma_found_at(s, ':', at);
    assert(s.subrange(0, at) =~= host);
    assert(s.subrange(at + 1, s.len() as int) =~= digits);
    assert(plain_number(digits, 65535) == Some(port as nat));
}

/// An address of four numbers is spelled number by number, and what is spelled is read as that address.
pub proof fn a_short_address_is_spelled_as_it_is_read(
    address: SocketAddress,
    text: String,
    line: &str,
    read: Option<SocketAddress>,
    plain: String,
)
    requires
        address.ip is V4,
        address.scope_id == 0,
        call_ensures(SocketAddress::text, (&address,), text),
        call_ensures(IpAddress::text, (&address.ip,), plain),
        line@ == text@,
        call_ensures(parse_socket_address, (line,), read),
    ensures
        text@ == dotted(
            address.ip->octets@[0],
            address.ip->octets@[1],
            address.ip->octets@[2],
            address.ip->octets@[3],
            address.port,
        ),
        text@ == plain@ + seq![':'] + crate::text::decimal(address.port as nat),
        read is Some,
        read->Some_0@ == address@,
{
    reveal_strlit(".");
    reveal_strlit(":");
    let octets = address.ip->octets@;
    assert("."@ =~= seq!['.']);
    assert(":"@ =~= seq![':']);
    lemma_dotted_socket(octets[0], octets[1], octets[2], octets[3], address.port);
    assert(seq![octets[0], octets[1], octets[2], octets[3]] =~= octets);
}

/// An address stands for every address of the machine where all its numbers are zero.
pub proof fn only_zeros_stand_for_every_address(ip: IpAddress, unspecified: bool)
    requires
        call_ensures(IpAddress::is_unspecified, (&ip,), unspecified),
    ensures
        ip is V4 ==> (unspecified <==> ip->octets@ == seq![0u8, 0u8, 0u8, 0u8]),
        ip is V6 ==> (unspecified <==> ip->segments@ == seq![
            0u16,
            0u16,
            0u16,
            0u16,
            0u16,
            0u16,
            0u16,
            0u16,
        ]),
{
    if ip is V4 {
        if unspecified {
            assert(ip->octets@ =~= seq![0u8, 0u8, 0u8, 0u8]);
        }
    } else {
        let zeros = seq![0u16, 0u16, 0u16, 0u16, 0u16, 0u16, 0u16, 0u16];
        if unspecified {
            assert(ip->segments@ =~= zeros);
        }
        if ip->segments@ == zeros {
            assert forall|i: int| 0 <= i < 8 implies ip->segments@[i] == 0 by {
                assert(zeros[i] == 0);
            }
        }
    }
}

proof fn lemma_hex_spelled(n: nat)
    ensures
        hex(n).len() >= 1,
        all_hex(hex(n)),
        hex_value(hex(n)) == n,
        n < 16 ==> hex(n).len() == 1,
        n < 256 ==> hex(n).len() <= 2,
        n < 4096 ==> hex(n).len() <= 3,
        n < 65536 ==> hex(n).len() <= 4,
    decreases n,
{
    assert(hex_digit(hex_char(n % 16)) == Some(n % 16));
    if n < 16 {
        assert(n % 16 == n);
        assert(hex(n).drop_last() =~= Seq::<char>::empty());
        assert(hex_value(hex(n).drop_last()) == 0);
    } else {
        lemma_hex_spelled(n / 16);
        let shorter = hex(n / 16);
        assert(hex(n).drop_last() =~= shorter);
        assert forall|i: int| 0 <= i < hex(n).len() implies hex_digit(#[trigger] hex(n)[i])
            is Some by {
            if i < shorter.len() {
                assert(hex(n)[i] == shorter[i]);
            }
        }
    }
}

proof fn lemma_group_spelled(group: u16)
    ensures
        hex_group(hex(group as nat)) == Some(group),
        hex(group as nat).len() >= 1,
        all_hex(hex(group as nat)),
{
    lemma_hex_spelled(group as nat);
}

/// Whether a character can stand in groups with colons between them.
spec fn is_group_char(c: char) -> bool {
    hex_digit(c) is Some || c == ':'
}

/// Whether no two colons stand side by side.
spec fn has_no_gap(s: Seq<char>) -> bool {
    forall|i: int| #![trigger s[i]] 0 <= i < s.len() - 1 && s[i] == ':' ==> s[i + 1] != ':'
}

proof fn lemma_joined_shape(groups: Seq<u16>)
    ensures
        forall|i: int|
            0 <= i < joined_groups(groups).len() ==> is_group_char(
                #[trigger] joined_groups(groups)[i],
            ),
        has_no_gap(joined_groups(groups)),
        groups.len() > 0 ==> joined_groups(groups).len() > 0 && hex_digit(joined_groups(groups)[0])
            is Some && hex_digit(joined_groups(groups).last()) is Some,
        groups.len() == 0 ==> joined_groups(groups).len() == 0,
    decreases groups.len(),
{
    let s = joined_groups(groups);
    if groups.len() == 1 {
        lemma_group_spelled(groups[0]);
        assert(hex_digit(s[0]) is Some);
    } else if groups.len() > 1 {
        let first = groups.drop_last();
        let front = joined_groups(first);
        let last = hex(groups.last() as nat);
        lemma_joined_shape(first);
        lemma_group_spelled(groups.last());
        let n = front.len() as int;
        assert(s == front + seq![':'] + last);
        assert forall|i: int| 0 <= i < s.len() implies is_group_char(#[trigger] s[i]) by {
            if i < n {
                assert(s[i] == front[i]);
            } else if i > n {
                assert(s[i] == last[i - n - 1]);
            }
        }
        assert forall|i: int|
            #![trigger s[i]]
            0 <= i < s.len() - 1 && s[i] == ':' implies s[i + 1] != ':' by {
            if i < n - 1 {
                assert(s[i] == front[i] && s[i + 1] == front[i + 1]);
            } else if i == n - 1 {
                assert(s[i] == front.last());
            } else if i >= n {
                assert(s[i + 1] == last[i - n]);
                assert(hex_digit(last[i - n]) is Some);
            }
        }
        assert(s[0] == front[0]);
        assert(s.last() == last.last());
        assert(hex_digit(last[last.len() - 1]) is Some);
    }
}

proof fn lemma_joined_pieces(groups: Seq<u16>)
    requires
        groups.len() > 0,
    ensures
        crate::text::pieces(joined_groups(groups), ':') == groups.map_values(
            |group: u16| hex(group as nat),
        ),
    decreases groups.len(),
{
    let spelled = groups.map_values(|group: u16| hex(group as nat));
    let last = hex(groups.last() as nat);
    lemma_group_spelled(groups.last());
    assert forall|i: int| 0 <= i < last.len() implies #[trigger] last[i] != ':' by {
        assert(hex_digit(last[i]) is Some);
    }
    if groups.len() == 1 {
        lemma_not_found(last, ':');
        assert(spelled =~= seq![last]);
    } else {
        let first = groups.drop_last();
        lemma_joined_pieces(first);
        crate::text::lemma_one_more_piece(joined_groups(first), ':', last);
        assert(spelled =~= first.map_values(|group: u16| hex(group as nat)).push(last));
    }
}

proof fn lemma_groups_read(groups: Seq<u16>, v4_allowed: bool)
    ensures
        read_groups(groups.map_values(|group: u16| hex(group as nat)), v4_allowed) == Some(groups),
    decreases groups.len(),
{
    let spelled = groups.map_values(|group: u16| hex(group as nat));
    if groups.len() == 0 {
        assert(groups =~= Seq::<u16>::empty());
    } else {
        let rest = groups.drop_first();
        lemma_groups_read(rest, v4_allowed);
        lemma_group_spelled(groups[0]);
        let piece = hex(groups[0] as nat);
        assert forall|i: int| 0 <= i < piece.len() implies #[trigger] piece[i] != '.' by {
            assert(hex_digit(piece[i]) is Some);
        }
        lemma_not_found(piece, '.');
        assert(read_v4(piece) is None);
        assert(spelled[0] == piece);
        assert(spelled.drop_first() =~= rest.map_values(|group: u16| hex(group as nat)));
        assert(seq![groups[0]] + rest =~= groups);
    }
}

proof fn lemma_group_text_read(groups: Seq<u16>, v4_allowed: bool)
    ensures
        read_group_text(joined_groups(groups), v4_allowed) == Some(groups),
{
    lemma_joined_shape(groups);
    if groups.len() == 0 {
        assert(groups =~= Seq::<u16>::empty());
    } else {
        lemma_joined_pieces(groups);
        lemma_groups_read(groups, v4_allowed);
    }
}

proof fn lemma_no_gap_found(s: Seq<char>)
    requires
        has_no_gap(s),
    ensures
        gap_position(s) == s.len(),
    decreases s.len(),
{
    if s.len() >= 2 {
        let rest = s.drop_first();
        assert(s[0] == ':' ==> s[0int + 1] != ':');
        assert forall|i: int|
            #![trigger rest[i]]
            0 <= i < rest.len() - 1 && rest[i] == ':' implies rest[i + 1] != ':' by {
            assert(rest[i] == s[i + 1]);
        }
        lemma_no_gap_found(rest);
    }
}

proof fn lemma_gap_found(front: Seq<char>, back: Seq<char>)
    requires
        has_no_gap(front),
        front.len() > 0 ==> front.last() != ':',
    ensures
        gap_position(front + seq![':', ':'] + back) == front.len(),
    decreases front.len(),
{
    let s = front + seq![':', ':'] + back;
    if front.len() == 0 {
        assert(s[0] == ':' && s[1] == ':');
    } else {
        let rest = front.drop_first();
        assert forall|i: int|
            #![trigger rest[i]]
            0 <= i < rest.len() - 1 && rest[i] == ':' implies rest[i + 1] != ':' by {
            assert(rest[i] == front[i + 1]);
        }
        lemma_gap_found(rest, back);
        assert(s.drop_first() =~= rest + seq![':', ':'] + back);
        assert(s[0] == front[0]);
        if front.len() > 1 {
            assert(s[1] == front[1]);
            assert(front[0] == ':' ==> front[0int + 1] != ':');
        }
    }
}

proof fn lemma_zero_run(groups: Seq<u16>, i: int)
    requires
        0 <= i <= groups.len(),
    ensures
        i + zeros_from(groups, i) <= groups.len(),
        forall|k: int| i <= k < i + zeros_from(groups, i) ==> #[trigger] groups[k] == 0,
    decreases groups.len() - i,
{
    if i < groups.len() && groups[i] == 0 {
        lemma_zero_run(groups, i + 1);
    }
}

proof fn lemma_run_starts(groups: Seq<u16>, k: nat)
    ensures
        0 <= longest_run(groups, k) <= k,
    decreases k,
{
    if k > 0 {
        lemma_run_starts(groups, (k - 1) as nat);
    }
}

/// Whether a character can stand in a spelled address of eight groups.
spec fn is_spelled_char(c: char) -> bool {
    hex_digit(c) is Some || c == ':' || c == '.'
}

proof fn lemma_mapped_read(segments: Seq<u16>)
    requires
        segments.len() == 8,
        is_mapped(segments),
    ensures
        read_v6(spell_v6(segments)) == Some(segments),
        forall|i: int|
            0 <= i < spell_v6(segments).len() ==> is_spelled_char(#[trigger] spell_v6(segments)[i]),
{
    reveal_strlit("::ffff:");
    reveal_strlit(".");
    let octets = mapped_octets(segments);
    let s = spell_v6(segments);
    let host = spell_v4(octets);
    assert("."@ =~= seq!['.']);
    lemma_dotted_octets(octets[0], octets[1], octets[2], octets[3]);
    assert(seq![octets[0], octets[1], octets[2], octets[3]] =~= octets);
    assert(read_v4(host) == Some(octets));
    assert(s == "::ffff:"@ + host);
    assert(s[0] == ':' && s[1] == ':');
    assert(gap_position(s) == 0);
    let group = seq!['f', 'f', 'f', 'f'];
    let tail = s.subrange(2, s.len() as int);
    assert(tail =~= group + seq![':'] + host);
    assert(s.subrange(0, 0) =~= Seq::<char>::empty());
    assert forall|i: int| 0 <= i < host.len() implies #[trigger] host[i] != ':' by {
        assert(crate::text::is_digit(host[i]) || host[i] == '.');
    }
    lemma_not_found(host, ':');
    lemma_first_piece(group, ':', host);
    let parts = crate::text::pieces(tail, ':');
    assert(parts =~= seq![group, host]);
    assert(hex_value(group) == 0xffff) by {
        reveal_with_fuel(hex_value, 5);
        assert(group.drop_last() =~= seq!['f', 'f', 'f']);
        assert(group.drop_last().drop_last() =~= seq!['f', 'f']);
        assert(group.drop_last().drop_last().drop_last() =~= seq!['f']);
        assert(group.drop_last().drop_last().drop_last().drop_last() =~= Seq::<char>::empty());
    }
    assert(hex_group(group) == Some(0xffffu16));
    assert(parts.drop_first() =~= seq![host]);
    assert(read_groups(seq![host], true) == Some(v4_groups(octets)));
    assert(read_groups(parts, true) == Some(seq![0xffffu16] + v4_groups(octets)));
    let read = seq![0xffffu16] + v4_groups(octets);
    assert(v4_groups(octets) =~= seq![segments[6], segments[7]]);
    assert(Seq::<u16>::empty() + Seq::new(5, |i: int| 0u16) + read =~= segments);
    assert forall|i: int| 0 <= i < s.len() implies is_spelled_char(#[trigger] s[i]) by {
        if i < 7 {
            assert(s[i] == "::ffff:"@[i]);
        } else {
            assert(s[i] == host[i - 7]);
            assert(crate::text::is_digit(host[i - 7]) || host[i - 7] == '.');
        }
    }
}

proof fn lemma_v6_read(segments: Seq<u16>)
    requires
        segments.len() == 8,
    ensures
        read_v6(spell_v6(segments)) == Some(segments),
        forall|i: int|
            0 <= i < spell_v6(segments).len() ==> is_spelled_char(#[trigger] spell_v6(segments)[i]),
{
    let start = longest_run(segments, 8);
    let length = zeros_from(segments, start);
    let s = spell_v6(segments);
    lemma_run_starts(segments, 8);
    lemma_zero_run(segments, start);
    if is_mapped(segments) {
        lemma_mapped_read(segments);
    } else if length > 1 {
        reveal_strlit("::");
        let head = segments.subrange(0, start);
        let tail = segments.subrange(start + length, 8);
        let front = joined_groups(head);
        let back = joined_groups(tail);
        lemma_joined_shape(head);
        lemma_joined_shape(tail);
        lemma_group_text_read(head, false);
        lemma_group_text_read(tail, true);
        lemma_gap_found(front, back);
        assert("::"@ =~= seq![':', ':']);
        assert(s == front + seq![':', ':'] + back);
        assert(s.subrange(0, front.len() as int) =~= front);
        assert(s.subrange(front.len() as int + 2, s.len() as int) =~= back);
        assert(head + Seq::new((8 - head.len() - tail.len()) as nat, |i: int| 0u16) + tail
            =~= segments);
        assert forall|i: int| 0 <= i < s.len() implies is_spelled_char(#[trigger] s[i]) by {
            if i < front.len() {
                assert(is_group_char(front[i]));
            } else if i >= front.len() + 2 {
                assert(is_group_char(back[i - front.len() - 2]));
            }
        }
    } else {
        lemma_joined_shape(segments);
        lemma_group_text_read(segments, true);
        lemma_no_gap_found(s);
        assert forall|i: int| 0 <= i < s.len() implies is_spelled_char(#[trigger] s[i]) by {
            assert(is_group_char(joined_groups(segments)[i]));
        }
    }
}

/// What is spelled between the brackets.
spec fn between_brackets(segments: Seq<u16>, scope_id: u32) -> Seq<char> {
    if scope_id == 0 {
        spell_v6(segments)
    } else {
        spell_v6(segments) + seq!['%'] + crate::text::decimal(scope_id as nat)
    }
}

proof fn lemma_scoped_read(segments: Seq<u16>, scope_id: u32)
    requires
        segments.len() == 8,
    ensures
        read_scoped_v6(between_brackets(segments, scope_id)) == Some((segments, scope_id)),
        forall|i: int|
            0 <= i < between_brackets(segments, scope_id).len() ==> #[trigger] between_brackets(
                segments,
                scope_id,
            )[i] != ']',
{
    let s = spell_v6(segments);
    let digits = crate::text::decimal(scope_id as nat);
    lemma_v6_read(segments);
    crate::text::lemma_decimal_value(scope_id as nat);
    assert forall|i: int| 0 <= i < s.len() implies #[trigger] s[i] != '%' by {
        assert(is_spelled_char(s[i]));
    }
    if scope_id == 0 {
        lemma_not_found(s, '%');
        assert(s.subrange(0, s.len() as int) =~= s);
        assert forall|i: int| 0 <= i < s.len() implies #[trigger] s[i] != ']' by {
            assert(is_spelled_char(s[i]));
        }
    } else {
        let inner = s + seq!['%'] + digits;
        let at = s.len() as int;
        assert forall|i: int| 0 <= i < at implies #[trigger] inner[i] != '%' by {
            assert(inner[i] == s[i]);
        }
        lemma_found_at(inner, '%', at);
        assert(inner.subrange(0, at) =~= s);
        assert(inner.subrange(at + 1, inner.len() as int) =~= digits);
        assert(plain_number(digits, u32::MAX as nat) == Some(scope_id as nat));
        assert forall|i: int| 0 <= i < inner.len() implies #[trigger] inner[i] != ']' by {
            if i < at {
                assert(is_spelled_char(s[i]));
            } else if i > at {
                assert(crate::text::is_digit(digits[i - at - 1]));
            }
        }
    }
}

/// What is spelled of an address is read as that address, whatever its numbers, its scope and its port.
pub proof fn a_spelled_address_is_read_as_it_was(
    address: SocketAddress,
    text: String,
    line: &str,
    read: Option<SocketAddress>,
)
    requires
        address.ip is V4 ==> address.scope_id == 0,
        call_ensures(SocketAddress::text, (&address,), text),
        line@ == text@,
        call_ensures(parse_socket_address, (line,), read),
    ensures
        read is Some,
        read->Some_0@ == address@,
{
    reveal_strlit(".");
    reveal_strlit(":");
    reveal_strlit("[");
    reveal_strlit("]:");
    reveal_strlit("%");
    assert("."@ =~= seq!['.']);
    assert(":"@ =~= seq![':']);
    assert("["@ =~= seq!['[']);
    assert("]:"@ =~= seq![']', ':']);
    assert("%"@ =~= seq!['%']);
    match address.ip {
        IpAddress::V4 { octets } => {
            let o = octets@;
            lemma_dotted_socket(o[0], o[1], o[2], o[3], address.port);
            assert(seq![o[0], o[1], o[2], o[3]] =~= o);
        },
        IpAddress::V6 { segments } => {
            let digits = crate::text::decimal(address.port as nat);
            let inner = between_brackets(segments@, address.scope_id);
            lemma_scoped_read(segments@, address.scope_id);
            crate::text::lemma_decimal_value(address.port as nat);
            let s = text@;
            assert(s =~= seq!['['] + inner + seq![']', ':'] + digits);
            let close = 1 + inner.len() as int;
            assert forall|i: int| 0 <= i < close implies #[trigger] s[i] != ']' by {
                if i > 0 {
                    assert(s[i] == inner[i - 1]);
                }
            }
            assert(s[close] == ']');
            lemma_found_at(s, ']', close);
            assert(s[close + 1] == ':');
            assert(s.subrange(1, close) =~= inner);
            assert(s.subrange(close + 2, s.len() as int) =~= digits);
            assert(plain_number(digits, 65535) == Some(address.port as nat));
        },
    }
}

/// Eight groups with colons between them, between brackets and with a port, are read group by group.
pub proof fn a_long_address_is_read_group_by_group(
    segments: Seq<u16>,
    port: u16,
    text: &str,
    read: Option<SocketAddress>,
)
    requires
        segments.len() == 8,
        text@ == seq!['['] + joined_groups(segments) + seq![']', ':'] + crate::text::decimal(
            port as nat,
        ),
        call_ensures(parse_socket_address, (text,), read),
    ensures
        read is Some,
        read->Some_0.ip is V6,
        read->Some_0.ip->segments@ == segments,
        read->Some_0.port == port,
        read->Some_0.scope_id == 0,
{
    let inner = joined_groups(segments);
    let digits = crate::text::decimal(port as nat);
    let s = text@;
    lemma_joined_shape(segments);
    lemma_group_text_read(segments, true);
    lemma_no_gap_found(inner);
    crate::text::lemma_decimal_value(port as nat);
    assert forall|i: int| 0 <= i < inner.len() implies #[trigger] inner[i] != '%' by {
        assert(is_group_char(inner[i]));
    }
    lemma_not_found(inner, '%');
    assert(inner.subrange(0, inner.len() as int) =~= inner);
    let close = 1 + inner.len() as int;
    assert forall|i: int| 0 <= i < close implies #[trigger] s[i] != ']' by {
        if i > 0 {
            assert(s[i] == inner[i - 1]);
            assert(is_group_char(inner[i - 1]));
        }
    }
    assert(s[close] == ']');
    lemma_found_at(s, ']', close);
    assert(s[close + 1] == ':');
    assert(s.subrange(1, close) =~= inner);
    assert(s.subrange(close + 2, s.len() as int) =~= digits);
    assert(plain_number(digits, 65535) == Some(port as nat));
}

/// A group is spelled in hexadecimal, digit by digit and without zeros in front.
pub proof fn groups_are_spelled_digit_by_digit(n: nat, digit: nat)
    requires
        digit < 16,
    ensures
        digit < 10 ==> hex(digit) == seq![((48 + digit) as char)],
        digit >= 10 ==> hex(digit) == seq![((87 + digit) as char)],
        n > 0 ==> hex(16 * n + digit) == hex(n) + hex(digit),
{
    if n > 0 {
        assert((16 * n + digit) / 16 == n && (16 * n + digit) % 16 == digit);
        assert(hex(n).push(hex_char(digit)) =~= hex(n) + hex(digit));
    }
}

} // verus!
