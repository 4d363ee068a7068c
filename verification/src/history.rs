//! The long-lived aggregate of rolling histories and the rate counter.

use vstd::prelude::*;

use crate::buffer::RollingBuffer;
use crate::rate::{NetworkSample, RateCounter};

verus! {

/// The engine's only long-lived state: one rolling history per charted
/// metric, plus the rate counter holding the last observed cumulative
/// network totals.  Created once at startup with all buffers zero-filled,
/// mutated exclusively by the tick handler.
pub struct SystemHistory {
    /// Global CPU usage history, hundredths of a percent.
    pub cpu_history: RollingBuffer<u64>,
    /// Memory usage history, hundredths of a percent.
    pub memory_history: RollingBuffer<u64>,
    /// Per-tick network throughput history.
    pub net_history: RollingBuffer<NetworkSample>,
    /// Last observed cumulative network byte counters.
    pub rate: RateCounter,
}

impl SystemHistory {
    /// All three buffers hold exactly `size` slots; push never changes that.
    pub open spec fn wf(&self, size: int) -> bool {
        &&& self.cpu_history@.len() == size
        &&& self.memory_history@.len() == size
        &&& self.net_history@.len() == size
    }

    /// Zero-filled histories of `size` slots each and an unprimed counter.
    pub fn new(size: usize) -> (h: Self)
        ensures
            h.wf(size as int),
            forall|i: int| 0 <= i < size ==> h.cpu_history@[i] == 0,
            forall|i: int| 0 <= i < size ==> h.memory_history@[i] == 0,
            forall|i: int|
                0 <= i < size ==> h.net_history@[i] == (NetworkSample {
                    upload_bytes: 0,
                    download_bytes: 0,
                }),
            !h.rate.primed,
            h.rate.last_rx == 0,
            h.rate.last_tx == 0,
    {
        SystemHistory {
            cpu_history: RollingBuffer::new(size, 0),
            memory_history: RollingBuffer::new(size, 0),
            net_history: RollingBuffer::new(size, NetworkSample::zero()),
            rate: RateCounter::new(),
        }
    }

    /// Appends the newest CPU reading, evicting the oldest.
    pub fn push_cpu(&mut self, v: u64)
        requires
            old(self).cpu_history@.len() >= 1,
        ensures
            final(self).cpu_history@ == old(self).cpu_history@.subrange(
                1,
                old(self).cpu_history@.len() as int,
            ).push(v),
            final(self).memory_history == old(self).memory_history,
            final(self).net_history == old(self).net_history,
            final(self).rate == old(self).rate,
    {
        self.cpu_history.push(v);
    }

    /// Appends the newest memory reading, evicting the oldest.
    pub fn push_mem(&mut self, v: u64)
        requires
            old(self).memory_history@.len() >= 1,
        ensures
            final(self).memory_history@ == old(self).memory_history@.subrange(
                1,
                old(self).memory_history@.len() as int,
            ).push(v),
            final(self).cpu_history == old(self).cpu_history,
            final(self).net_history == old(self).net_history,
            final(self).rate == old(self).rate,
    {
        self.memory_history.push(v);
    }

    /// Appends the newest throughput sample, evicting the oldest.
    pub fn push_net(&mut self, up_bytes: u64, down_bytes: u64)
        requires
            old(self).net_history@.len() >= 1,
        ensures
            final(self).net_history@ == old(self).net_history@.subrange(
                1,
                old(self).net_history@.len() as int,
            ).push(NetworkSample { upload_bytes: up_bytes, download_bytes: down_bytes }),
            final(self).cpu_history == old(self).cpu_history,
            final(self).memory_history == old(self).memory_history,
            final(self).rate == old(self).rate,
    {
        self.net_history.push(NetworkSample { upload_bytes: up_bytes, download_bytes: down_bytes });
    }
}

} // verus!
