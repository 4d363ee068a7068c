//! The per-tick sampling cycle: refresh inputs in, snapshots out.

use vstd::prelude::*;

use crate::history::SystemHistory;
use crate::network::{sum_rx, sum_tx, total_traffic};
use crate::rate::{delta_or_zero, NetworkSample};
use crate::sample::RawSample;
use crate::snapshot::{
    active_info_ok, gather_cpu_data, gather_home_data, gather_memory_data, gather_network_data,
    gather_process_table_data, CpuData, HomeData, MemoryData, NetworkData, ProcessRow,
};
use crate::units::rounded_div;

verus! {

/// Everything one tick publishes to the presentation layer.
pub struct TickSnapshots {
    pub home: HomeData,
    pub cpu: CpuData,
    pub memory: MemoryData,
    pub network: NetworkData,
    pub processes: Vec<ProcessRow>,
}

/// The memory-usage percentage a tick records, in hundredths of a percent;
/// a machine reporting zero total memory records zero.
pub open spec fn memory_percent_hundredths(raw: RawSample) -> u64 {
    if raw.total_memory_bytes > 0 {
        rounded_div(raw.used_memory_bytes as int * 10000, raw.total_memory_bytes as int) as u64
    } else {
        0
    }
}

/// One full sampling cycle over values already read from the providers.
///
/// The process wrapper drives this on a fixed one-second timer while the
/// presentation handle is alive; when the handle is gone the whole tick is
/// skipped (a normal no-op, not an error), and ticking ends only at process
/// exit.  Each call pushes the newest CPU and memory readings into the
/// rolling histories, feeds the summed cumulative network counters to the
/// rate counter — pushing a throughput sample only from the second
/// observation on — and assembles the five display records from the updated
/// state.
pub fn tick(h: &mut SystemHistory, raw: &RawSample) -> (s: TickSnapshots)
    requires
        old(h).cpu_history@.len() >= 1,
        old(h).memory_history@.len() >= 1,
        old(h).net_history@.len() >= 1,
        raw.used_memory_bytes <= raw.total_memory_bytes,
    ensures
        final(h).cpu_history@ == old(h).cpu_history@.subrange(
            1,
            old(h).cpu_history@.len() as int,
        ).push(raw.global_cpu_hundredths),
        final(h).memory_history@ == old(h).memory_history@.subrange(
            1,
            old(h).memory_history@.len() as int,
        ).push(memory_percent_hundredths(*raw)),
        final(h).rate.primed,
        final(h).rate.last_rx == sum_rx(raw.interfaces@),
        final(h).rate.last_tx == sum_tx(raw.interfaces@),
        !old(h).rate.primed ==> final(h).net_history@ == old(h).net_history@,
        old(h).rate.primed ==> final(h).net_history@ == old(h).net_history@.subrange(
            1,
            old(h).net_history@.len() as int,
        ).push(
            NetworkSample {
                upload_bytes: delta_or_zero(sum_tx(raw.interfaces@), old(h).rate.last_tx),
                download_bytes: delta_or_zero(sum_rx(raw.interfaces@), old(h).rate.last_rx),
            },
        ),
        s.home.chart@ == final(h).cpu_history@,
        s.home.metric.cpu.curr_hundredths == raw.global_cpu_hundredths,
        s.cpu.consumption_chart.points@ == final(h).cpu_history@,
        s.cpu.total_consumption_hundredths == raw.global_cpu_hundredths,
        s.memory.usage_chart.points@ == final(h).memory_history@,
        s.memory.total_consumption_hundredths == memory_percent_hundredths(*raw),
        s.network.upload_chart.points@.len() == final(h).net_history@.len(),
        forall|i: int|
            0 <= i < final(h).net_history@.len() ==> s.network.upload_chart.points@[i]
                == final(h).net_history@[i].upload_bytes,
        forall|i: int|
            0 <= i < final(h).net_history@.len() ==> s.network.download_chart.points@[i]
                == final(h).net_history@[i].download_bytes,
        active_info_ok(s.network.active_info, raw.interfaces@, raw.addresses@),
        s.network.active_stat.total_received_bytes == sum_rx(raw.interfaces@),
        s.network.active_stat.total_sent_bytes == sum_tx(raw.interfaces@),
        s.processes@.len() == raw.processes@.len(),
{
    let mem_pct = crate::units::ratio_percent_hundredths(
        raw.used_memory_bytes,
        raw.total_memory_bytes,
    );
    h.push_cpu(raw.global_cpu_hundredths);
    h.push_mem(mem_pct);

    let totals = total_traffic(&raw.interfaces);
    let total_rx = totals.0;
    let total_tx = totals.1;
    let observed = h.rate.observe(total_rx, total_tx);
    match observed {
        Some(sample) => h.push_net(sample.upload_bytes, sample.download_bytes),
        None => (),
    }

    let home = gather_home_data(raw, &h.cpu_history);
    let cpu = gather_cpu_data(raw, &h.cpu_history);
    let memory = gather_memory_data(raw, &h.memory_history);
    let network = gather_network_data(
        &raw.interfaces,
        &raw.addresses,
        &h.net_history,
        total_tx,
        total_rx,
    );
    let processes = gather_process_table_data(&raw.processes);

    TickSnapshots { home, cpu, memory, network, processes }
}

} // verus!
