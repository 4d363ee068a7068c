//! Sampling-and-aggregation engine for a desktop telemetry dashboard.
//!
//! The crate keeps fixed-length rolling histories of host metrics, derives
//! per-tick network throughput from cumulative byte counters, and assembles
//! display-ready snapshot records once per sampling tick.  All quantities are
//! held as plain integers in fixed-point units (hundredths of a percent,
//! hundredths of a GiB, and so on); the thin process wrapper that reads the
//! operating system's counters converts to and from these units.

mod buffer;
mod history;
mod network;
mod rate;
mod sample;
mod scheduler;
mod snapshot;
mod units;

pub use buffer::RollingBuffer;
pub use history::SystemHistory;
pub use network::{
    has_traffic, is_first_active, resolve_address, resolved_address, sat_add64, select_active,
    sum_rx, sum_tx, total_traffic,
};
pub use scheduler::{memory_percent_hundredths, tick, TickSnapshots};
pub use snapshot::{
    active_info_ok, gather_cpu_data, gather_home_data, gather_memory_data, gather_network_data,
    gather_process_table_data, row_ok, ActiveInterfaceInfo, ChartSeries, CpuData, CpuDynamicInfo,
    GaugeData, HomeData, HomeMetrics, HostInfo, InterfaceRow, MemoryData, NetworkData,
    NetworkTotals, PageInfo, PhysicalMemoryInfo, ProcessorInfo, ProcessRow, RuntimeInfo,
    VirtualMemoryInfo, NET_CHART_FLOOR, PERCENT_CHART_FLOOR,
};
pub use sample::{
    spec_text_from, text_from, text_matches, AddrEntry, InterfaceSample, IpFamily, ProcessSample,
    RawSample, TextValue,
};
pub use rate::{delta_or_zero, NetworkSample, RateCounter};
pub use units::{
    chart_y_max, gb_tenths, gib_hundredths, mib_hundredths, mib_tenths, ratio_percent_hundredths,
    rounded_div, seq_max_or, GB_BYTES, GIB_BYTES, MIB_BYTES,
};
