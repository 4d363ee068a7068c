//! Fixed-point unit conversions and chart scaling.
//!
//! Display quantities are integers in fixed-point units: hundredths for
//! two-decimal values, tenths for one-decimal values.  Division always
//! rounds to the nearest representable value, ties away from zero.

use vstd::prelude::*;

verus! {

/// Bytes in one binary gigabyte.
pub const GIB_BYTES: u64 = 1073741824;

/// Bytes in one binary megabyte.
pub const MIB_BYTES: u64 = 1048576;

/// Bytes in one decimal gigabyte.
pub const GB_BYTES: u64 = 1000000000;

/// `n / d` rounded to the nearest integer, ties upward.
pub open spec fn rounded_div(n: int, d: int) -> int
    recommends
        d > 0,
{
    (n + d / 2) / d
}

/// Binary gigabytes in hundredths (two decimal places): used by the memory
/// gauge, whose bound is the machine's total memory in GiB.
pub fn gib_hundredths(bytes: u64) -> (r: u64)
    ensures
        r == rounded_div(bytes as int * 100, GIB_BYTES as int),
{
    let wide: u128 = (bytes as u128) * 100 + 536870912;
    let q: u128 = wide / 1073741824;
    proof {
        assert(q <= 0xffff_ffff_ffff_ffffu128);
    }
    q as u64
}

/// Binary megabytes in hundredths (two decimal places): used for the
/// per-interface cumulative traffic columns.
pub fn mib_hundredths(bytes: u64) -> (r: u64)
    ensures
        r == rounded_div(bytes as int * 100, MIB_BYTES as int),
{
    let wide: u128 = (bytes as u128) * 100 + 524288;
    let q: u128 = wide / 1048576;
    proof {
        assert(q <= 0xffff_ffff_ffff_ffffu128);
    }
    q as u64
}

/// Binary megabytes in tenths (one decimal place): used for the process
/// table's resident-memory column.
pub fn mib_tenths(bytes: u64) -> (r: u64)
    ensures
        r == rounded_div(bytes as int * 10, MIB_BYTES as int),
{
    let wide: u128 = (bytes as u128) * 10 + 524288;
    let q: u128 = wide / 1048576;
    proof {
        assert(q <= 0xffff_ffff_ffff_ffffu128);
    }
    q as u64
}

/// Decimal gigabytes in tenths (one decimal place): used for installed and
/// in-use memory sizes.
pub fn gb_tenths(bytes: u64) -> (r: u64)
    ensures
        r == rounded_div(bytes as int * 10, GB_BYTES as int),
{
    let wide: u128 = (bytes as u128) * 10 + 500000000;
    let q: u128 = wide / 1000000000;
    proof {
        assert(q <= 0xffff_ffff_ffff_ffffu128);
    }
    q as u64
}

/// `used / total` as a percentage in hundredths (two decimal places); a zero
/// total degrades to zero rather than failing.
pub fn ratio_percent_hundredths(used: u64, total: u64) -> (r: u64)
    requires
        used <= total,
    ensures
        total > 0 ==> r == rounded_div(used as int * 10000, total as int),
        total == 0 ==> r == 0,
        r <= 10000,
    {
    if total == 0 {
        return 0;
    }
    let wide: u128 = (used as u128) * 10000 + (total as u128) / 2;
    let q: u128 = wide / (total as u128);
    proof {
        assert(q <= 10000) by (nonlinear_arith)
            requires
                used <= total,
                total > 0,
                wide == used as u128 * 10000 + total as u128 / 2,
                q == wide / (total as u128),
        ;
    }
    q as u64
}

/// The largest element of `s`, or `floor` when every element is below it.
pub open spec fn seq_max_or(s: Seq<u64>, floor: u64) -> u64
    decreases s.len(),
{
    if s.len() == 0 {
        floor
    } else {
        let rest = seq_max_or(s.drop_last(), floor);
        if s.last() > rest {
            s.last()
        } else {
            rest
        }
    }
}

/// The y-axis bound for a history chart: the largest value in the series,
/// clamped upward to `floor` so that an all-zero history still gets a
/// non-degenerate axis.
pub fn chart_y_max(values: &Vec<u64>, floor: u64) -> (r: u64)
    ensures
        r == seq_max_or(values@, floor),
        r >= floor,
        forall|i: int| 0 <= i < values@.len() ==> values@[i] <= r,
{
    let mut acc: u64 = floor;
    let mut n: usize = 0;
    while n < values.len()
        invariant
            n <= values@.len(),
            acc == seq_max_or(values@.subrange(0, n as int), floor),
            acc >= floor,
            forall|j: int| 0 <= j < n ==> values@[j] <= acc,
        decreases values@.len() - n,
    {
        let ghost prefix = values@.subrange(0, n as int);
        let v = values[n];
        proof {
            assert(values@.subrange(0, n + 1).drop_last() =~= prefix);
            assert(values@.subrange(0, n + 1).last() == values@[n as int]);
        }
        if v > acc {
            acc = v;
        }
        n = n + 1;
    }
    proof {
        assert(values@.subrange(0, values@.len() as int) =~= values@);
    }
    acc
}

} // verus!
