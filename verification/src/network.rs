//! Active-interface selection, address resolution and traffic totals.

use vstd::prelude::*;

use crate::sample::{AddrEntry, InterfaceSample, IpFamily, TextValue};

verus! {

/// An interface qualifies as active when its cumulative counters show any
/// traffic at all.
pub open spec fn has_traffic(i: InterfaceSample) -> bool {
    i.total_rx > 0 || i.total_tx > 0
}

/// `i` is the first interface, in provider enumeration order, with traffic.
pub open spec fn is_first_active(s: Seq<InterfaceSample>, i: int) -> bool {
    &&& 0 <= i < s.len()
    &&& has_traffic(s[i])
    &&& forall|j: int| 0 <= j < i ==> !has_traffic(s[j])
}

/// Picks the interface shown as "active": the first, in enumeration order,
/// whose cumulative counters are nonzero; none when all are silent.
pub fn select_active(ifaces: &Vec<InterfaceSample>) -> (r: Option<usize>)
    ensures
        r matches Some(i) ==> is_first_active(ifaces@, i as int),
        r is None ==> forall|j: int| 0 <= j < ifaces@.len() ==> !has_traffic(ifaces@[j]),
{
    let mut n: usize = 0;
    while n < ifaces.len()
        invariant
            n <= ifaces@.len(),
            forall|j: int| 0 <= j < n ==> !has_traffic(ifaces@[j]),
        decreases ifaces@.len() - n,
    {
        let iface = &ifaces[n];
        if iface.total_rx > 0 || iface.total_tx > 0 {
            return Some(n);
        }
        n = n + 1;
    }
    None
}

/// The address shown for `name` under `family`: the last matching record
/// from the address enumeration, a later record for the same interface and
/// family silently overwriting an earlier one.
pub open spec fn resolved_address(
    addrs: Seq<AddrEntry>,
    name: Seq<char>,
    family: IpFamily,
) -> Option<Seq<char>>
    decreases addrs.len(),
{
    if addrs.len() == 0 {
        None
    } else if addrs.last().interface@ == name && addrs.last().family == family {
        Some(addrs.last().address@)
    } else {
        resolved_address(addrs.drop_last(), name, family)
    }
}

/// Looks `name` up in the address enumeration for one family; unavailable
/// when no record matches.
pub fn resolve_address(addrs: &Vec<AddrEntry>, name: &String, family: IpFamily) -> (r: TextValue)
    ensures
        crate::sample::text_matches(r, resolved_address(addrs@, name@, family)),
{
    let mut found: TextValue = TextValue::Unavailable;
    let mut n: usize = 0;
    while n < addrs.len()
        invariant
            n <= addrs@.len(),
            crate::sample::text_matches(found, resolved_address(addrs@.subrange(0, n as int), name@, family)),
        decreases addrs@.len() - n,
    {
        let ghost prefix = addrs@.subrange(0, n as int);
        let entry = &addrs[n];
        proof {
            assert(addrs@.subrange(0, n + 1).drop_last() =~= prefix);
            assert(addrs@.subrange(0, n + 1).last() == addrs@[n as int]);
        }
        if entry.interface == *name && entry.family == family {
            found = TextValue::Known(entry.address.clone());
        }
        n = n + 1;
    }
    proof {
        assert(addrs@.subrange(0, addrs@.len() as int) =~= addrs@);
    }
    found
}

/// `a + b` clamped to the largest representable total.
pub open spec fn sat_add64(a: u64, b: u64) -> u64 {
    if a + b > u64::MAX {
        u64::MAX
    } else {
        (a + b) as u64
    }
}

/// The interfaces' cumulative received bytes, summed with saturation.
pub open spec fn sum_rx(s: Seq<InterfaceSample>) -> u64
    decreases s.len(),
{
    if s.len() == 0 {
        0
    } else {
        sat_add64(sum_rx(s.drop_last()), s.last().total_rx)
    }
}

/// The interfaces' cumulative transmitted bytes, summed with saturation.
pub open spec fn sum_tx(s: Seq<InterfaceSample>) -> u64
    decreases s.len(),
{
    if s.len() == 0 {
        0
    } else {
        sat_add64(sum_tx(s.drop_last()), s.last().total_tx)
    }
}

/// Sums the cumulative counters over all interfaces: `(received,
/// transmitted)`.  The sums saturate instead of wrapping, so a pathological
/// provider cannot make the tick fail.
pub fn total_traffic(ifaces: &Vec<InterfaceSample>) -> (t: (u64, u64))
    ensures
        t.0 == sum_rx(ifaces@),
        t.1 == sum_tx(ifaces@),
{
    let mut rx: u64 = 0;
    let mut tx: u64 = 0;
    let mut n: usize = 0;
    while n < ifaces.len()
        invariant
            n <= ifaces@.len(),
            rx == sum_rx(ifaces@.subrange(0, n as int)),
            tx == sum_tx(ifaces@.subrange(0, n as int)),
        decreases ifaces@.len() - n,
    {
        let ghost prefix = ifaces@.subrange(0, n as int);
        let iface = &ifaces[n];
        proof {
            assert(ifaces@.subrange(0, n + 1).drop_last() =~= prefix);
            assert(ifaces@.subrange(0, n + 1).last() == ifaces@[n as int]);
        }
        rx = if u64::MAX - rx < iface.total_rx {
            u64::MAX
        } else {
            rx + iface.total_rx
        };
        tx = if u64::MAX - tx < iface.total_tx {
            u64::MAX
        } else {
            tx + iface.total_tx
        };
        n = n + 1;
    }
    proof {
        assert(ifaces@.subrange(0, ifaces@.len() as int) =~= ifaces@);
    }
    (rx, tx)
}

} // verus!
