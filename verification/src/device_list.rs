use vstd::prelude::*;

use crate::devices::{text_bytes, DeviceState};
use crate::text::{lower_bytes, to_ascii_lower};

verus! {

broadcast use vstd::seq_lib::group_to_multiset_ensures;

/// A BLE device as listed by the inspector.
#[derive(Clone, Debug)]
pub struct Device {
    pub id: String,
    pub name: String,
    pub address: String,
    pub rssi: Option<i16>,
    pub likely_xbox: bool,
    pub state: DeviceState,
}

/// Byte-wise lexicographic "less than".
pub open spec fn bytes_lt(a: Seq<u8>, b: Seq<u8>) -> bool
    decreases a.len(),
{
    if a.len() == 0 {
        b.len() > 0
    } else if b.len() == 0 {
        false
    } else if a[0] != b[0] {
        a[0] < b[0]
    } else {
        bytes_lt(a.drop_first(), b.drop_first())
    }
}

/// Byte-wise lexicographic order is transitive.
pub proof fn lemma_bytes_lt_transitive(a: Seq<u8>, b: Seq<u8>, c: Seq<u8>)
    requires
        bytes_lt(a, b),
        bytes_lt(b, c),
    ensures
        bytes_lt(a, c),
    decreases a.len(),
{
    if a.len() > 0 && b.len() > 0 && c.len() > 0 && a[0] == b[0] && b[0] == c[0] {
        lemma_bytes_lt_transitive(a.drop_first(), b.drop_first(), c.drop_first());
    }
}

/// No byte string sorts before itself.
pub proof fn lemma_bytes_lt_irreflexive(a: Seq<u8>)
    ensures
        !bytes_lt(a, a),
    decreases a.len(),
{
    if a.len() > 0 {
        lemma_bytes_lt_irreflexive(a.drop_first());
    }
}

/// Any two different byte strings are ordered one way or the other.
pub proof fn lemma_bytes_lt_total(a: Seq<u8>, b: Seq<u8>)
    ensures
        a == b || bytes_lt(a, b) || bytes_lt(b, a),
    decreases a.len(),
{
    if a.len() > 0 && b.len() > 0 && a[0] == b[0] {
        lemma_bytes_lt_total(a.drop_first(), b.drop_first());
        if a.drop_first() == b.drop_first() {
            assert(a =~= seq![a[0]] + a.drop_first());
            assert(b =~= seq![b[0]] + b.drop_first());
        }
    } else if a.len() == 0 && b.len() == 0 {
        assert(a =~= b);
    }
}

/// After a common prefix of length `k`, comparison continues on the rests.
proof fn lemma_bytes_lt_skip(a: Seq<u8>, b: Seq<u8>, k: int)
    requires
        0 <= k <= a.len(),
        k <= b.len(),
        a.take(k) == b.take(k),
    ensures
        bytes_lt(a, b) == bytes_lt(a.skip(k), b.skip(k)),
    decreases k,
{
    if k > 0 {
        assert(a[0] == a.take(k)[0]);
        assert(b[0] == b.take(k)[0]);
        assert(a.drop_first().take(k - 1) =~= a.take(k).drop_first());
        assert(b.drop_first().take(k - 1) =~= b.take(k).drop_first());
        lemma_bytes_lt_skip(a.drop_first(), b.drop_first(), k - 1);
        assert(a.drop_first().skip(k - 1) =~= a.skip(k));
        assert(b.drop_first().skip(k - 1) =~= b.skip(k));
    } else {
        assert(a.skip(0) =~= a);
        assert(b.skip(0) =~= b);
    }
}

/// Likely Xbox controllers sort first.
pub open spec fn xbox_rank(d: Device) -> int {
    if d.likely_xbox {
        0
    } else {
        1
    }
}

/// Connected, then disconnected, then not set up.
pub open spec fn state_rank(s: DeviceState) -> int {
    match s {
        DeviceState::Connected => 0,
        DeviceState::Disconnected => 1,
        DeviceState::NotSetUp => 2,
    }
}

/// The lowercased name bytes by which devices are ordered.
pub open spec fn sort_name(d: Device) -> Seq<u8> {
    lower_bytes(text_bytes(d.name@))
}

/// Whether `a` sorts strictly before `b`: by likely-Xbox first, then state,
/// then lowercased name.
pub open spec fn device_lt(a: Device, b: Device) -> bool {
    xbox_rank(a) < xbox_rank(b) || (xbox_rank(a) == xbox_rank(b) && (state_rank(a.state)
        < state_rank(b.state) || (state_rank(a.state) == state_rank(b.state) && bytes_lt(
        sort_name(a),
        sort_name(b),
    ))))
}

/// The device order is transitive.
pub proof fn lemma_device_lt_transitive(a: Device, b: Device, c: Device)
    requires
        device_lt(a, b),
        device_lt(b, c),
    ensures
        device_lt(a, c),
{
    if xbox_rank(a) == xbox_rank(b) && xbox_rank(b) == xbox_rank(c) && state_rank(a.state)
        == state_rank(b.state) && state_rank(b.state) == state_rank(c.state) {
        lemma_bytes_lt_transitive(sort_name(a), sort_name(b), sort_name(c));
    }
}

/// Whether two devices sort equally: same rank, same state, same lowercased name.
pub open spec fn sorts_equal(a: Device, b: Device) -> bool {
    xbox_rank(a) == xbox_rank(b) && state_rank(a.state) == state_rank(b.state) && sort_name(a)
        == sort_name(b)
}

/// Devices that do not sort before one another sort equally, and a device
/// sorting before one of two equal devices sorts before the other too.
pub proof fn lemma_device_order_is_weak(a: Device, b: Device, c: Device)
    ensures
        !device_lt(a, b) && !device_lt(b, a) ==> sorts_equal(a, b),
        device_lt(a, b) && sorts_equal(b, c) ==> device_lt(a, c),
        !device_lt(a, a),
{
    lemma_bytes_lt_total(sort_name(a), sort_name(b));
    lemma_bytes_lt_irreflexive(sort_name(a));
}

/// `perm` places the input: output position `i` holds input `perm[i]`, each
/// input position is used once, and devices that sort equally keep their
/// input order.
pub open spec fn stable_arrangement(input: Seq<Device>, output: Seq<Device>, perm: Seq<int>) -> bool {
    &&& perm.len() == output.len() == input.len()
    &&& forall|i: int| 0 <= i < output.len() ==> 0 <= #[trigger] perm[i] < input.len() && output[i]
        == input[perm[i]]
    &&& forall|i: int, j: int| 0 <= i < j < output.len() ==> #[trigger] perm[i] != #[trigger] perm[j]
    &&& forall|i: int, j: int|
        0 <= i < j < output.len() && sorts_equal(#[trigger] output[i], #[trigger] output[j]) ==> perm[i]
            < perm[j]
}

/// Whether a list is in display order.
pub open spec fn is_listed_in_order(s: Seq<Device>) -> bool {
    forall|i: int, j: int| 0 <= i < j < s.len() ==> !device_lt(#[trigger] s[j], #[trigger] s[i])
}

fn name_lt(a: &str, b: &str) -> (r: bool)
    ensures
        r == bytes_lt(lower_bytes(text_bytes(a@)), lower_bytes(text_bytes(b@))),
{
    let x = a.as_bytes();
    let y = b.as_bytes();
    let ghost lx = lower_bytes(x@);
    let ghost ly = lower_bytes(y@);
    let mut k: usize = 0;
    while k < x.len() && k < y.len()
        invariant
            0 <= k <= x@.len(),
            k <= y@.len(),
            lx == lower_bytes(x@),
            ly == lower_bytes(y@),
            x@ == text_bytes(a@),
            y@ == text_bytes(b@),
            lx.take(k as int) == ly.take(k as int),
        decreases x@.len() - k,
    {
        let cx = to_ascii_lower(x[k]);
        let cy = to_ascii_lower(y[k]);
        if cx != cy {
            proof {
                lemma_bytes_lt_skip(lx, ly, k as int);
                assert(lx.skip(k as int).len() > 0 && ly.skip(k as int).len() > 0);
                assert(lx.skip(k as int)[0] == cx);
                assert(ly.skip(k as int)[0] == cy);
                assert(bytes_lt(lx.skip(k as int), ly.skip(k as int)) == (cx < cy));
            }
            return cx < cy;
        }
        assert(lx.take(k + 1) =~= lx.take(k as int).push(cx));
        assert(ly.take(k + 1) =~= ly.take(k as int).push(cy));
        k = k + 1;
    }
    proof {
        lemma_bytes_lt_skip(lx, ly, k as int);
    }
    k < y.len()
}

/// Whether device `a` is listed strictly before device `b`.
pub fn device_precedes(a: &Device, b: &Device) -> (r: bool)
    ensures
        r == device_lt(*a, *b),
{
    if a.likely_xbox != b.likely_xbox {
        return a.likely_xbox;
    }
    let ra: u8 = match a.state {
        DeviceState::Connected => 0,
        DeviceState::Disconnected => 1,
        DeviceState::NotSetUp => 2,
    };
    let rb: u8 = match b.state {
        DeviceState::Connected => 0,
        DeviceState::Disconnected => 1,
        DeviceState::NotSetUp => 2,
    };
    if ra != rb {
        return ra < rb;
    }
    name_lt(a.name.as_str(), b.name.as_str())
}

/// Sorts devices for display: likely Xbox controllers first, then connected,
/// disconnected and not-set-up devices, then by lowercased name. Devices that
/// compare equal keep their relative order.
pub fn sort_devices(devices: Vec<Device>) -> (sorted: Vec<Device>)
    ensures
        sorted@.to_multiset() == devices@.to_multiset(),
        is_listed_in_order(sorted@),
        exists|perm: Seq<int>| #[trigger] stable_arrangement(devices@, sorted@, perm),
{
    let ghost input = devices@;
    let mut rest = devices;
    let mut sorted: Vec<Device> = Vec::new();
    let ghost mut perm: Seq<int> = Seq::empty();
    let ghost mut k: int = 0;
    while rest.len() > 0
        invariant
            0 <= k <= input.len(),
            rest@ == input.skip(k),
            sorted@.len() == k,
            sorted@.to_multiset().add(rest@.to_multiset()) == input.to_multiset(),
            is_listed_in_order(sorted@),
            perm.len() == k,
            forall|i: int| 0 <= i < k ==> 0 <= #[trigger] perm[i] < k && sorted@[i] == input[perm[i]],
            forall|i: int, j: int| 0 <= i < j < k ==> #[trigger] perm[i] != #[trigger] perm[j],
            forall|i: int, j: int|
                0 <= i < j < k && sorts_equal(#[trigger] sorted@[i], #[trigger] sorted@[j]) ==> perm[i]
                    < perm[j],
        decreases rest@.len(),
    {
        let ghost rest_before = rest@;
        let d = rest.remove(0);
        assert(d == input[k]);
        let mut p: usize = 0;
        while p < sorted.len() && !device_precedes(&d, &sorted[p])
            invariant
                0 <= p <= sorted@.len(),
                forall|i: int| 0 <= i < p ==> !device_lt(d, #[trigger] sorted@[i]),
            decreases sorted@.len() - p,
        {
            p = p + 1;
        }
        let ghost before = sorted@;
        let ghost perm_before = perm;
        sorted.insert(p, d);
        proof {
            perm = perm_before.insert(p as int, k);
            assert(sorted@ == before.insert(p as int, d));
            assert forall|q: int| p <= q < before.len() implies device_lt(d, #[trigger] before[q]) by {
                assert(device_lt(d, before[p as int]));
                if q > p {
                    assert(!device_lt(before[q], before[p as int]));
                    lemma_device_order_is_weak(before[p as int], before[q], d);
                    if !device_lt(before[p as int], before[q]) {
                        lemma_device_order_is_weak(d, before[p as int], before[q]);
                    } else {
                        lemma_device_lt_transitive(d, before[p as int], before[q]);
                    }
                }
            }
            assert forall|i: int, j: int| 0 <= i < j < sorted@.len() implies !device_lt(
                #[trigger] sorted@[j],
                #[trigger] sorted@[i],
            ) by {
                if j < p {
                    assert(sorted@[i] == before[i] && sorted@[j] == before[j]);
                } else if j == p {
                    assert(sorted@[i] == before[i]);
                } else if i == p {
                    assert(sorted@[j] == before[j - 1]);
                    assert(device_lt(d, before[j - 1]));
                    if device_lt(before[j - 1], d) {
                        lemma_device_lt_transitive(before[j - 1], d, before[j - 1]);
                        lemma_device_order_is_weak(before[j - 1], d, d);
                    }
                } else if i < p {
                    assert(sorted@[i] == before[i] && sorted@[j] == before[j - 1]);
                } else {
                    assert(sorted@[i] == before[i - 1] && sorted@[j] == before[j - 1]);
                }
            }
            assert forall|i: int| 0 <= i < k + 1 implies 0 <= #[trigger] perm[i] < k + 1
                && sorted@[i] == input[perm[i]] by {
                if i < p {
                    assert(perm[i] == perm_before[i]);
                } else if i > p {
                    assert(perm[i] == perm_before[i - 1]);
                }
            }
            assert forall|i: int, j: int| 0 <= i < j < k + 1 implies #[trigger] perm[i]
                != #[trigger] perm[j] by {
                if i < p && j < p {
                    assert(perm[i] == perm_before[i] && perm[j] == perm_before[j]);
                } else if i < p && j > p {
                    assert(perm[i] == perm_before[i] && perm[j] == perm_before[j - 1]);
                } else if i > p {
                    assert(perm[i] == perm_before[i - 1] && perm[j] == perm_before[j - 1]);
                } else if i == p {
                    assert(perm[j] == perm_before[j - 1]);
                } else {
                    assert(perm[i] == perm_before[i]);
                }
            }
            assert forall|i: int, j: int|
                0 <= i < j < k + 1 && sorts_equal(
                    #[trigger] sorted@[i],
                    #[trigger] sorted@[j],
                ) implies perm[i] < perm[j] by {
                if i < p && j < p {
                    assert(perm[i] == perm_before[i] && perm[j] == perm_before[j]);
                    assert(sorted@[i] == before[i] && sorted@[j] == before[j]);
                } else if i < p && j > p {
                    assert(perm[i] == perm_before[i] && perm[j] == perm_before[j - 1]);
                    assert(sorted@[i] == before[i] && sorted@[j] == before[j - 1]);
                } else if i > p {
                    assert(perm[i] == perm_before[i - 1] && perm[j] == perm_before[j - 1]);
                    assert(sorted@[i] == before[i - 1] && sorted@[j] == before[j - 1]);
                } else if i == p {
                    assert(sorted@[j] == before[j - 1]);
                    assert(device_lt(d, before[j - 1]));
                    lemma_device_order_is_weak(d, before[j - 1], d);
                    lemma_bytes_lt_irreflexive(sort_name(d));
                } else {
                    assert(perm[i] == perm_before[i]);
                }
            }
            vstd::seq_lib::to_multiset_insert(before, p as int, d);
            vstd::seq_lib::to_multiset_remove(rest_before, 0);
            assert(rest@ =~= input.skip(k + 1));
            k = k + 1;
            assert(sorted@.to_multiset().add(rest@.to_multiset()) =~= input.to_multiset());
        }
    }
    assert(rest@ =~= Seq::<Device>::empty());
    assert(stable_arrangement(input, sorted@, perm));
    sorted
}

/// What display order means for the list: a likely Xbox controller never
/// follows a device that is not one; among devices alike in that, a
/// connected device never follows one that is not connected, and a
/// disconnected (paired) device never follows one that is not set up.
pub proof fn lemma_display_order(s: Seq<Device>, i: int, j: int)
    requires
        is_listed_in_order(s),
        0 <= i < j < s.len(),
    ensures
        s[j].likely_xbox ==> s[i].likely_xbox,
        s[i].likely_xbox == s[j].likely_xbox && s[j].state == DeviceState::Connected ==> s[i].state
            == DeviceState::Connected,
        s[i].likely_xbox == s[j].likely_xbox && s[j].state == DeviceState::Disconnected
            ==> s[i].state != DeviceState::NotSetUp,
{
    assert(!device_lt(s[j], s[i]));
}

} // verus!
