//! The order in which names and addresses are listed.

use vstd::prelude::*;

use crate::address::IpAddress;

verus! {

/// Where one value stands to another.
#[derive(Debug, Clone, Copy, PartialEq, Eq, Structural)]
pub enum Place {
    Before,
    Same,
    After,
}

/// Whether one list of numbers comes before another: at the first place where they differ it has the
/// smaller number, or it ends there.
pub open spec fn before(a: Seq<int>, b: Seq<int>) -> bool
    decreases a.len(),
{
    if b.len() == 0 {
        false
    } else if a.len() == 0 {
        true
    } else if a[0] != b[0] {
        a[0] < b[0]
    } else {
        before(a.drop_first(), b.drop_first())
    }
}

/// The order is strict and total.
pub proof fn lemma_total(a: Seq<int>, b: Seq<int>)
    ensures
        before(a, b) ==> a != b && !before(b, a),
        a != b ==> before(a, b) || before(b, a),
    decreases a.len(),
{
    if a.len() > 0 && b.len() > 0 && a[0] == b[0] {
        lemma_total(a.drop_first(), b.drop_first());
        if a.drop_first() == b.drop_first() {
            assert(a =~= seq![a[0]] + a.drop_first());
            assert(b =~= seq![b[0]] + b.drop_first());
        }
    } else if a.len() == 0 && b.len() == 0 {
        assert(a =~= b);
    }
}

/// The order is transitive.
pub proof fn lemma_transitive(a: Seq<int>, b: Seq<int>, c: Seq<int>)
    requires
        before(a, b),
        before(b, c),
    ensures
        before(a, c),
    decreases a.len(),
{
    if a.len() > 0 && b.len() > 0 && c.len() > 0 && a[0] == b[0] && b[0] == c[0] {
        lemma_transitive(a.drop_first(), b.drop_first(), c.drop_first());
    }
}

/// What two lists have in common at their start does not matter.
proof fn lemma_common(a: Seq<int>, b: Seq<int>, count: nat)
    requires
        count <= a.len(),
        count <= b.len(),
        forall|k: int| 0 <= k < count ==> a[k] == b[k],
    ensures
        before(a, b) == before(
            a.subrange(count as int, a.len() as int),
            b.subrange(count as int, b.len() as int),
        ),
    decreases count,
{
    if count == 0 {
        assert(a.subrange(0, a.len() as int) =~= a);
        assert(b.subrange(0, b.len() as int) =~= b);
    } else {
        let shorter = (count - 1) as nat;
        lemma_common(a, b, shorter);
        let x = a.subrange(shorter as int, a.len() as int);
        let y = b.subrange(shorter as int, b.len() as int);
        assert(x[0] == y[0]);
        assert(x.drop_first() =~= a.subrange(count as int, a.len() as int));
        assert(y.drop_first() =~= b.subrange(count as int, b.len() as int));
    }
}

/// The characters of a text as numbers.
pub open spec fn text_rank(s: Seq<char>) -> Seq<int> {
    s.map_values(|c: char| c as int)
}

/// Where one text stands to another.
pub fn text_place(a: &str, b: &str) -> (result: Place)
    ensures
        match result {
            Place::Before => before(text_rank(a@), text_rank(b@)),
            Place::Same => a@ == b@,
            Place::After => before(text_rank(b@), text_rank(a@)),
        },
{
    let n: usize = a.unicode_len();
    let m: usize = b.unicode_len();
    let ghost x = text_rank(a@);
    let ghost y = text_rank(b@);
    let mut i: usize = 0;
    while i < n && i < m
        invariant
            i <= n,
            i <= m,
            n == a@.len(),
            m == b@.len(),
            x == text_rank(a@),
            y == text_rank(b@),
            forall|k: int| 0 <= k < i ==> a@[k] == b@[k],
        decreases n - i,
    {
        let c = a.get_char(i);
        let d = b.get_char(i);
        if c != d {
            proof {
                assert(forall|k: int| 0 <= k < i ==> x[k] == y[k]);
                lemma_common(x, y, i as nat);
                lemma_common(y, x, i as nat);
                assert(x.subrange(i as int, x.len() as int)[0] == c as int);
                assert(y.subrange(i as int, y.len() as int)[0] == d as int);
            }
            return if (c as u32) < (d as u32) {
                Place::Before
            } else {
                Place::After
            };
        }
        i = i + 1;
    }
    proof {
        assert(forall|k: int| 0 <= k < i ==> x[k] == y[k]);
        lemma_common(x, y, i as nat);
        lemma_common(y, x, i as nat);
    }
    if n == m {
        proof {
            assert(a@ =~= b@);
        }
        Place::Same
    } else if n < m {
        Place::Before
    } else {
        Place::After
    }
}

/// The numbers of an address, with those of the shorter kind in front.
pub open spec fn ip_rank(ip: IpAddress) -> Seq<int> {
    match ip {
        IpAddress::V4 { octets } => seq![
            0,
            octets@[0] as int,
            octets@[1] as int,
            octets@[2] as int,
            octets@[3] as int,
        ],
        IpAddress::V6 { segments } => seq![
            1,
            segments@[0] as int,
            segments@[1] as int,
            segments@[2] as int,
            segments@[3] as int,
            segments@[4] as int,
            segments@[5] as int,
            segments@[6] as int,
            segments@[7] as int,
        ],
    }
}

/// The numbers of an address, with those of the shorter kind in front.
fn ip_numbers(ip: &IpAddress) -> (result: Vec<u16>)
    ensures
        numbers(result@) == ip_rank(*ip),
{
    let mut result: Vec<u16> = Vec::new();
    match ip {
        IpAddress::V4 { octets } => {
            result.push(0);
            result.push(octets[0] as u16);
            result.push(octets[1] as u16);
            result.push(octets[2] as u16);
            result.push(octets[3] as u16);
        },
        IpAddress::V6 { segments } => {
            result.push(1);
            result.push(segments[0]);
            result.push(segments[1]);
            result.push(segments[2]);
            result.push(segments[3]);
            result.push(segments[4]);
            result.push(segments[5]);
            result.push(segments[6]);
            result.push(segments[7]);
        },
    }
    proof {
        assert(numbers(result@) =~= ip_rank(*ip));
    }
    result
}

/// Numbers as such.
pub open spec fn numbers(list: Seq<u16>) -> Seq<int> {
    list.map_values(|n: u16| n as int)
}

/// Where one address stands to another.
pub fn ip_place(a: &IpAddress, b: &IpAddress) -> (result: Place)
    ensures
        match result {
            Place::Before => before(ip_rank(*a), ip_rank(*b)),
            Place::Same => ip_rank(*a) == ip_rank(*b),
            Place::After => before(ip_rank(*b), ip_rank(*a)),
        },
{
    let p = ip_numbers(a);
    let q = ip_numbers(b);
    let ghost x = numbers(p@);
    let ghost y = numbers(q@);
    let mut i: usize = 0;
    while i < p.len() && i < q.len()
        invariant
            i <= p@.len(),
            i <= q@.len(),
            x == numbers(p@),
            y == numbers(q@),
            x == ip_rank(*a),
            y == ip_rank(*b),
            forall|k: int| 0 <= k < i ==> p@[k] == q@[k],
        decreases p@.len() - i,
    {
        if p[i] != q[i] {
            proof {
                assert(forall|k: int| 0 <= k < i ==> x[k] == y[k]);
                lemma_common(x, y, i as nat);
                lemma_common(y, x, i as nat);
                assert(x.subrange(i as int, x.len() as int)[0] == p@[i as int] as int);
                assert(y.subrange(i as int, y.len() as int)[0] == q@[i as int] as int);
            }
            return if p[i] < q[i] {
                Place::Before
            } else {
                Place::After
            };
        }
        i = i + 1;
    }
    proof {
        assert(forall|k: int| 0 <= k < i ==> x[k] == y[k]);
        lemma_common(x, y, i as nat);
        lemma_common(y, x, i as nat);
    }
    if p.len() == q.len() {
        proof {
            assert(x =~= y);
        }
        Place::Same
    } else if p.len() < q.len() {
        Place::Before
    } else {
        Place::After
    }
}

/// Whether each address comes before all that follow it, so that none occurs twice.
pub open spec fn listed(addresses: Seq<IpAddress>) -> bool {
    forall|i: int, j: int|
        0 <= i < j < addresses.len() ==> before(
            #[trigger] ip_rank(addresses[i]),
            #[trigger] ip_rank(addresses[j]),
        )
}

/// Whether an address with these numbers is in a list.
pub open spec fn holds(addresses: Seq<IpAddress>, rank: Seq<int>) -> bool {
    exists|i: int| 0 <= i < addresses.len() && #[trigger] ip_rank(addresses[i]) == rank
}

/// Put an address where it belongs in a list, unless it is there.
fn list_address(list: &mut Vec<IpAddress>, address: IpAddress)
    requires
        listed(old(list)@),
    ensures
        listed(final(list)@),
        forall|rank: Seq<int>| #[trigger]
            holds(final(list)@, rank) <==> holds(old(list)@, rank) || rank == ip_rank(address),
{
    let ghost known = list@;
    let mut i: usize = 0;
    while i < list.len()
        invariant
            i <= list@.len(),
            list@ == known,
            listed(known),
            known == old(list)@,
            forall|k: int| 0 <= k < i ==> before(#[trigger] ip_rank(known[k]), ip_rank(address)),
        decreases list@.len() - i,
    {
        match ip_place(&list[i], &address) {
            Place::Before => {},
            Place::Same => {
                proof {
                    assert(holds(known, ip_rank(address)));
                }
                return ;
            },
            Place::After => {
                let ghost at = i as int;
                list.insert(i, address);
                proof {
                    lemma_inserted(known, at, address);
                }
                return ;
            },
        }
        i = i + 1;
    }
    list.push(address);
    proof {
        assert(known.push(address) =~= known.insert(known.len() as int, address));
        lemma_inserted(known, known.len() as int, address);
    }
}

/// An address put between smaller and larger ones keeps the order.
proof fn lemma_inserted(known: Seq<IpAddress>, at: int, address: IpAddress)
    requires
        listed(known),
        0 <= at <= known.len(),
        forall|k: int| 0 <= k < at ==> before(#[trigger] ip_rank(known[k]), ip_rank(address)),
        at < known.len() ==> before(ip_rank(address), ip_rank(known[at])),
    ensures
        listed(known.insert(at, address)),
        forall|rank: Seq<int>| #[trigger]
            holds(known.insert(at, address), rank) <==> holds(known, rank) || rank == ip_rank(
                address,
            ),
{
    let longer = known.insert(at, address);
    assert forall|i: int, j: int| 0 <= i < j < longer.len() implies before(
        #[trigger] ip_rank(longer[i]),
        #[trigger] ip_rank(longer[j]),
    ) by {
        let a = if i < at {
            i
        } else {
            i - 1
        };
        let b = if j < at {
            j
        } else {
            j - 1
        };
        if i == at {
            assert(longer[j] == known[b]);
            if b > at {
                assert(before(ip_rank(known[at]), ip_rank(known[b])));
                lemma_transitive(ip_rank(address), ip_rank(known[at]), ip_rank(known[b]));
            }
        } else if j == at {
            assert(longer[i] == known[i]);
        } else {
            assert(longer[i] == known[a]);
            assert(longer[j] == known[b]);
            assert(before(ip_rank(known[a]), ip_rank(known[b])));
        }
    }
    assert forall|rank: Seq<int>| #[trigger] holds(longer, rank) == (holds(known, rank) || rank
        == ip_rank(address)) by {
        if holds(known, rank) {
            let k = choose|k: int| 0 <= k < known.len() && #[trigger] ip_rank(known[k]) == rank;
            let moved = if k < at {
                k
            } else {
                k + 1
            };
            assert(longer[moved] == known[k]);
            assert(ip_rank(longer[moved]) == rank);
        }
        if rank == ip_rank(address) {
            assert(longer[at] == address);
            assert(ip_rank(longer[at]) == rank);
        }
        if holds(longer, rank) {
            let k = choose|k: int| 0 <= k < longer.len() && #[trigger] ip_rank(longer[k]) == rank;
            if k < at {
                assert(longer[k] == known[k]);
                assert(ip_rank(known[k]) == rank);
            } else if k > at {
                assert(longer[k] == known[k - 1]);
                assert(ip_rank(known[k - 1]) == rank);
            }
        }
    }
}

/// The addresses in order, each of them once.
pub fn sort_addresses(addresses: &Vec<IpAddress>) -> (result: Vec<IpAddress>)
    ensures
        listed(result@),
        forall|rank: Seq<int>| #[trigger] holds(result@, rank) <==> holds(addresses@, rank),
        result@.len() == 0 <==> addresses@.len() == 0,
{
    let mut result: Vec<IpAddress> = Vec::new();
    let mut i: usize = 0;
    while i < addresses.len()
        invariant
            i <= addresses@.len(),
            listed(result@),
            forall|rank: Seq<int>| #[trigger]
                holds(result@, rank) <==> holds(addresses@.subrange(0, i as int), rank),
        decreases addresses@.len() - i,
    {
        let ghost shorter = addresses@.subrange(0, i as int);
        list_address(&mut result, addresses[i]);
        proof {
            let longer = addresses@.subrange(0, i + 1);
            assert(shorter.push(addresses@[i as int]) =~= longer);
            lemma_pushed(shorter, addresses@[i as int]);
        }
        i = i + 1;
    }
    proof {
        assert(addresses@.subrange(0, i as int) =~= addresses@);
        if addresses@.len() > 0 {
            assert(holds(addresses@, ip_rank(addresses@[0])));
            assert(holds(result@, ip_rank(addresses@[0])));
        }
        if result@.len() > 0 {
            assert(holds(result@, ip_rank(result@[0])));
            assert(holds(addresses@, ip_rank(result@[0])));
        }
    }
    result
}

/// What a list holds with one more address at its end.
proof fn lemma_pushed(list: Seq<IpAddress>, address: IpAddress)
    ensures
        forall|rank: Seq<int>| #[trigger]
            holds(list.push(address), rank) <==> holds(list, rank) || rank == ip_rank(address),
{
    let longer = list.push(address);
    assert forall|rank: Seq<int>| #[trigger] holds(longer, rank) == (holds(list, rank) || rank
        == ip_rank(address)) by {
        if holds(list, rank) {
            let k = choose|k: int| 0 <= k < list.len() && #[trigger] ip_rank(list[k]) == rank;
            assert(longer[k] == list[k]);
            assert(ip_rank(longer[k]) == rank);
        }
        if rank == ip_rank(address) {
            assert(longer[list.len() as int] == address);
            assert(ip_rank(longer[list.len() as int]) == rank);
        }
        if holds(longer, rank) {
            let k = choose|k: int| 0 <= k < longer.len() && #[trigger] ip_rank(longer[k]) == rank;
            if k < list.len() {
                assert(longer[k] == list[k]);
                assert(ip_rank(list[k]) == rank);
            }
        }
    }
}

/// Whether one list of numbers comes first: they agree up to some place, and there it has the smaller
/// number or has ended.
pub open spec fn comes_first(a: Seq<int>, b: Seq<int>) -> bool {
    exists|k: int| #[trigger] parts_at(a, b, k)
}

/// Whether two lists agree up to a place, and there the first one has the smaller number or has ended.
pub open spec fn parts_at(a: Seq<int>, b: Seq<int>, k: int) -> bool {
    &&& 0 <= k <= a.len()
    &&& k < b.len()
    &&& forall|j: int| 0 <= j < k ==> a[j] == #[trigger] b[j]
    &&& k == a.len() || a[k] < b[k]
}

/// A list of numbers is before another exactly where it comes first.
pub proof fn lists_are_ordered_at_the_first_difference(a: Seq<int>, b: Seq<int>)
    ensures
        before(a, b) <==> comes_first(a, b),
    decreases a.len(),
{
    if b.len() == 0 {
    } else if a.len() == 0 {
        assert(parts_at(a, b, 0));
    } else if a[0] != b[0] {
        if a[0] < b[0] {
            assert(parts_at(a, b, 0));
        }
        if comes_first(a, b) {
            let k = choose|k: int| #[trigger] parts_at(a, b, k);
            if k > 0 {
                assert(a[0] == b[0]);
            }
        }
    } else {
        let rest = a.drop_first();
        let other = b.drop_first();
        lists_are_ordered_at_the_first_difference(rest, other);
        if comes_first(rest, other) {
            let k = choose|k: int| #[trigger] parts_at(rest, other, k);
            assert forall|j: int| 0 <= j < k + 1 implies a[j] == #[trigger] b[j] by {
                if j > 0 {
                    assert(rest[j - 1] == other[j - 1]);
                }
            }
            assert(parts_at(a, b, k + 1));
        }
        if comes_first(a, b) {
            let k = choose|k: int| #[trigger] parts_at(a, b, k);
            assert forall|j: int| 0 <= j < k - 1 implies rest[j] == #[trigger] other[j] by {
                assert(a[j + 1] == b[j + 1]);
            }
            assert(parts_at(rest, other, k - 1));
        }
    }
}

/// Texts are placed as their characters are: the one with the smaller character at the first difference
/// comes before, and so does one that the other goes on from. The other way round the place is the
/// opposite one.
pub proof fn texts_are_placed_by_their_characters(
    a: &str,
    b: &str,
    place: Place,
    back: Place,
    k: int,
)
    requires
        call_ensures(text_place, (a, b), place),
        call_ensures(text_place, (b, a), back),
    ensures
        place is Same <==> a@ == b@,
        place is Before <==> back is After,
        place is After <==> back is Before,
        0 <= k < a@.len() && k < b@.len() && (forall|j: int| 0 <= j < k ==> a@[j] == #[trigger] b@[j])
            && a@[k] < b@[k] ==> place is Before,
        k == a@.len() && k < b@.len() && (forall|j: int| 0 <= j < k ==> a@[j] == #[trigger] b@[j])
            ==> place is Before,
{
    let x = text_rank(a@);
    let y = text_rank(b@);
    lemma_total(x, y);
    lemma_total(y, x);
    if x == y {
        assert forall|j: int| 0 <= j < a@.len() implies a@[j] == b@[j] by {
            assert(x[j] == y[j]);
        }
        assert(a@ =~= b@);
    }
    lists_are_ordered_at_the_first_difference(x, y);
    if 0 <= k <= a@.len() && k < b@.len() && (forall|j: int|
        0 <= j < k ==> a@[j] == #[trigger] b@[j]) && (k == a@.len() || a@[k] < b@[k]) {
        assert forall|j: int| 0 <= j < k implies x[j] == #[trigger] y[j] by {
            assert(a@[j] == b@[j]);
        }
        assert(parts_at(x, y, k));
    }
}

/// Addresses are placed by their numbers, those of the shorter kind before those of the longer one, and
/// the other way round the place is the opposite one.
pub proof fn addresses_are_placed_by_their_numbers(
    a: IpAddress,
    b: IpAddress,
    place: Place,
    back: Place,
    k: int,
)
    requires
        call_ensures(ip_place, (&a, &b), place),
        call_ensures(ip_place, (&b, &a), back),
    ensures
        place is Before <==> back is After,
        place is After <==> back is Before,
        a is V4 && b is V6 ==> place is Before,
        a is V4 && b is V4 && 0 <= k < 4 && (forall|j: int|
            0 <= j < k ==> a->octets@[j] == #[trigger] b->octets@[j]) && a->octets@[k]
            < b->octets@[k] ==> place is Before,
        a is V6 && b is V6 && 0 <= k < 8 && (forall|j: int|
            0 <= j < k ==> a->segments@[j] == #[trigger] b->segments@[j]) && a->segments@[k]
            < b->segments@[k] ==> place is Before,
        a is V4 && b is V4 ==> (place is Same <==> a->octets@ == b->octets@),
        a is V6 && b is V6 ==> (place is Same <==> a->segments@ == b->segments@),
{
    let x = ip_rank(a);
    let y = ip_rank(b);
    lemma_total(x, y);
    lemma_total(y, x);
    lists_are_ordered_at_the_first_difference(x, y);
    if a is V4 && b is V6 {
        assert(parts_at(x, y, 0));
    }
    if a is V4 && b is V4 {
        if 0 <= k < 4 && (forall|j: int| 0 <= j < k ==> a->octets@[j] == #[trigger] b->octets@[j])
            && a->octets@[k] < b->octets@[k] {
            assert forall|j: int| 0 <= j < k + 1 implies x[j] == #[trigger] y[j] by {
                if j > 0 {
                    assert(a->octets@[j - 1] == b->octets@[j - 1]);
                }
            }
            assert(parts_at(x, y, k + 1));
        }
        if x == y {
            assert forall|j: int| 0 <= j < 4 implies a->octets@[j] == b->octets@[j] by {
                assert(x[j + 1] == y[j + 1]);
            }
            assert(a->octets@ =~= b->octets@);
        }
    }
    if a is V6 && b is V6 {
        if 0 <= k < 8 && (forall|j: int|
            0 <= j < k ==> a->segments@[j] == #[trigger] b->segments@[j]) && a->segments@[k]
            < b->segments@[k] {
            assert forall|j: int| 0 <= j < k + 1 implies x[j] == #[trigger] y[j] by {
                if j > 0 {
                    assert(a->segments@[j - 1] == b->segments@[j - 1]);
                }
            }
            assert(parts_at(x, y, k + 1));
        }
        if x == y {
            assert forall|j: int| 0 <= j < 8 implies a->segments@[j] == b->segments@[j] by {
                assert(x[j + 1] == y[j + 1]);
            }
            assert(a->segments@ =~= b->segments@);
        }
    }
}

/// Sorted addresses stand one behind the other, none twice, and they are the addresses that were given.
pub proof fn sorted_addresses_stand_in_order(
    addresses: &Vec<IpAddress>,
    result: Vec<IpAddress>,
    i: int,
    j: int,
    place: Place,
)
    requires
        call_ensures(sort_addresses, (addresses,), result),
        0 <= i < j < result@.len(),
        call_ensures(ip_place, (&result@[i], &result@[j]), place),
    ensures
        place is Before,
        exists|k: int|
            0 <= k < addresses@.len() && #[trigger] ip_rank(addresses@[k]) == ip_rank(result@[i]),
{
    let a = ip_rank(result@[i]);
    let b = ip_rank(result@[j]);
    assert(before(a, b));
    lemma_total(a, b);
    lemma_total(b, a);
    assert(holds(result@, a));
    assert(holds(addresses@, a));
}

/// Every address that is given is among the sorted ones.
pub proof fn no_address_is_lost_in_sorting(
    addresses: &Vec<IpAddress>,
    result: Vec<IpAddress>,
    k: int,
)
    requires
        call_ensures(sort_addresses, (addresses,), result),
        0 <= k < addresses@.len(),
    ensures
        exists|i: int|
            0 <= i < result@.len() && #[trigger] ip_rank(result@[i]) == ip_rank(addresses@[k]),
{
    assert(holds(addresses@, ip_rank(addresses@[k])));
    assert(holds(result@, ip_rank(addresses@[k])));
}

} // verus!
