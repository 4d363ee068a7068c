//! Per-tick network throughput derived from cumulative byte counters.

use vstd::prelude::*;

verus! {

/// Saturating difference: a counter that moved backwards (interface reset,
/// wraparound) yields a delta of zero, never a negative value.
pub open spec fn delta_or_zero(now: u64, before: u64) -> u64 {
    if now >= before {
        (now - before) as u64
    } else {
        0
    }
}

/// One tick's worth of network traffic, in bytes transferred during the tick.
/// With the fixed one-second tick period these are bytes per second; a
/// presentation layer divides by 1024 to display KiB per second.
#[derive(Clone, Copy, PartialEq, Eq, Structural, Debug)]
pub struct NetworkSample {
    pub upload_bytes: u64,
    pub download_bytes: u64,
}

impl NetworkSample {
    /// The zero sample used to pre-fill history buffers.
    pub fn zero() -> (s: Self)
        ensures
            s.upload_bytes == 0,
            s.download_bytes == 0,
    {
        NetworkSample { upload_bytes: 0, download_bytes: 0 }
    }
}

/// Converts monotonically non-decreasing cumulative byte counters into
/// per-tick deltas.  The very first observation only primes the stored
/// totals and yields no sample: the cumulative totals at that point cover
/// the whole time from provider start and would show up as a spurious spike.
/// Whether the counter has been primed is tracked by an explicit flag, so a
/// legitimately zero first reading is still recognised as the first one.
pub struct RateCounter {
    pub last_rx: u64,
    pub last_tx: u64,
    pub primed: bool,
}

impl RateCounter {
    /// A counter that has not yet seen any observation.
    pub fn new() -> (c: Self)
        ensures
            !c.primed,
            c.last_rx == 0,
            c.last_tx == 0,
    {
        RateCounter { last_rx: 0, last_tx: 0, primed: false }
    }

    /// Feeds one tick's cumulative totals.  The first call stores them and
    /// returns `None`; every later call returns the saturating deltas against
    /// the previous totals and stores the new ones.  A counter regression
    /// clamps the affected delta to zero.
    pub fn observe(&mut self, total_rx: u64, total_tx: u64) -> (r: Option<NetworkSample>)
        ensures
            final(self).last_rx == total_rx,
            final(self).last_tx == total_tx,
            final(self).primed,
            !old(self).primed ==> r is None,
            old(self).primed ==> r == Some(
                NetworkSample {
                    upload_bytes: delta_or_zero(total_tx, old(self).last_tx),
                    download_bytes: delta_or_zero(total_rx, old(self).last_rx),
                },
            ),
    {
        let was_primed = self.primed;
        let down = if total_rx >= self.last_rx {
            total_rx - self.last_rx
        } else {
            0
        };
        let up = if total_tx >= self.last_tx {
            total_tx - self.last_tx
        } else {
            0
        };
        self.last_rx = total_rx;
        self.last_tx = total_tx;
        self.primed = true;
        if was_primed {
            Some(NetworkSample { upload_bytes: up, download_bytes: down })
        } else {
            None
        }
    }
}

} // verus!
