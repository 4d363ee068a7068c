//! Display-ready snapshot records, rebuilt from scratch every tick.
//!
//! Each gather function is a pure derivation from the raw sample and the
//! rolling histories to one view's record; the records are immutable and
//! handed to the presentation layer by value.

use vstd::prelude::*;

use crate::buffer::RollingBuffer;
use crate::network::{
    has_traffic, is_first_active, resolve_address, resolved_address, select_active,
};
use crate::rate::NetworkSample;
use crate::sample::{
    spec_text_from, text_from, text_matches, AddrEntry, InterfaceSample, IpFamily, ProcessSample,
    RawSample, TextValue,
};
use crate::units::{
    chart_y_max, gb_tenths, gib_hundredths, mib_hundredths, mib_tenths, ratio_percent_hundredths,
    rounded_div, seq_max_or, GB_BYTES, GIB_BYTES, MIB_BYTES,
};

verus! {

/// One gauge of the home view; all three values share one fixed-point unit,
/// hundredths (percent for CPU, disk and network, GiB for memory).
pub struct GaugeData {
    pub lower_hundredths: u64,
    pub upper_hundredths: u64,
    pub curr_hundredths: u64,
}

/// The four home-view gauges.  Disk and network are placeholders: the
/// provider exposes no suitable metric, so they stay at zero on a 0–100
/// scale.
pub struct HomeMetrics {
    pub cpu: GaugeData,
    pub memory: GaugeData,
    pub disk: GaugeData,
    pub network: GaugeData,
}

/// Static host facts for the home view's left panel.
pub struct HostInfo {
    pub hostname: TextValue,
    pub os: TextValue,
    pub kernel: TextValue,
    pub cpu_name: TextValue,
    pub gpu_model: TextValue,
    /// Installed memory in tenths of a decimal gigabyte.
    pub total_ram_gb_tenths: u64,
    pub motherboard: TextValue,
}

/// Runtime facts for the home view's right panel.
pub struct RuntimeInfo {
    pub uptime_hours: u64,
    pub boot_time_seconds: u64,
    pub process_count: usize,
    pub local_ip: String,
}

/// The home view: gauges, host info and the CPU history chart.
pub struct HomeData {
    pub metric: HomeMetrics,
    pub left_info: HostInfo,
    pub right_info: RuntimeInfo,
    pub chart: Vec<u64>,
}

/// A history chart: the series oldest-to-newest and its y-axis bound.
pub struct ChartSeries {
    pub y_max: u64,
    pub points: Vec<u64>,
}

/// Per-tick CPU facts for the CPU view.
pub struct CpuDynamicInfo {
    pub clock_speed_mhz: u64,
    pub core_temp: TextValue,
    /// One-minute load average, hundredths.
    pub avg_load_hundredths: u64,
    pub frequency_mhz: u64,
    pub freq_base: TextValue,
    pub threads_used: usize,
}

/// Static processor facts for the CPU view.
pub struct ProcessorInfo {
    pub model: TextValue,
    pub cores: u64,
    pub threads: usize,
    pub speed_base: TextValue,
    pub architecture: String,
    pub cache_l1: TextValue,
    pub cache_l2: TextValue,
    pub cache_l3: TextValue,
}

/// The CPU view.
pub struct CpuData {
    /// Global CPU usage, hundredths of a percent.
    pub total_consumption_hundredths: u64,
    pub cpu_info: CpuDynamicInfo,
    pub processor_info: ProcessorInfo,
    pub consumption_chart: ChartSeries,
    /// Per-core usage, hundredths of a percent.
    pub core_usage_hundredths: Vec<u64>,
}

/// Physical-memory panel, sizes in tenths of a decimal gigabyte.
pub struct PhysicalMemoryInfo {
    pub installed_gb_tenths: u64,
    pub in_use_gb_tenths: u64,
    pub compressed: TextValue,
    pub available_gb_tenths: u64,
    pub reserved: TextValue,
}

/// Virtual-memory panel, sizes in tenths of a decimal gigabyte.
pub struct VirtualMemoryInfo {
    pub commit_charge_gb_tenths: u64,
    pub commit_limit_gb_tenths: u64,
    pub commit_percent: TextValue,
    pub paged_pool: TextValue,
    pub non_paged_pool: TextValue,
}

/// Paging panel; the provider exposes none of these, so all stay placeholders.
pub struct PageInfo {
    pub page_faults: TextValue,
    pub hard_faults: TextValue,
    pub cache_standby: TextValue,
    pub modified: TextValue,
}

/// The memory view.
pub struct MemoryData {
    /// Used memory as a share of total, hundredths of a percent.
    pub total_consumption_hundredths: u64,
    pub physical_info: PhysicalMemoryInfo,
    pub virtual_info: VirtualMemoryInfo,
    pub page_info: PageInfo,
    pub usage_chart: ChartSeries,
}

/// The interface shown as "active", with its resolved addresses.
pub struct ActiveInterfaceInfo {
    pub interface_name: TextValue,
    pub ipv4: TextValue,
    pub ipv6: TextValue,
    pub mac: TextValue,
}

/// Aggregate traffic statistics across all interfaces.
pub struct NetworkTotals {
    pub total_sent_bytes: u64,
    pub total_received_bytes: u64,
    pub interface_count: usize,
    pub link_status: String,
}

/// One row of the per-interface table; traffic in hundredths of a binary
/// megabyte.
pub struct InterfaceRow {
    pub name: String,
    pub ipv4: TextValue,
    pub ipv6: TextValue,
    pub mac: String,
    pub sent_mib_hundredths: u64,
    pub received_mib_hundredths: u64,
}

/// The network view.
pub struct NetworkData {
    pub current_speed: NetworkSample,
    pub upload_chart: ChartSeries,
    pub download_chart: ChartSeries,
    pub active_info: ActiveInterfaceInfo,
    pub active_stat: NetworkTotals,
    pub all_interfaces: Vec<InterfaceRow>,
}

/// One row of the process table: CPU usage in tenths of a percent, resident
/// memory in tenths of a binary megabyte.
pub struct ProcessRow {
    pub pid: u64,
    pub name: String,
    pub cpu_tenths: u64,
    pub memory_mib_tenths: u64,
}

/// The y-axis floor of the percentage charts: one percent, in hundredths.
pub const PERCENT_CHART_FLOOR: u64 = 100;

/// The y-axis floor of the throughput charts: one KiB per tick, in bytes.
pub const NET_CHART_FLOOR: u64 = 1024;

fn copy_points(v: &Vec<u64>) -> (r: Vec<u64>)
    ensures
        r@ == v@,
{
    let mut r: Vec<u64> = Vec::new();
    let mut n: usize = 0;
    while n < v.len()
        invariant
            n <= v@.len(),
            r@ == v@.subrange(0, n as int),
        decreases v@.len() - n,
    {
        r.push(v[n]);
        proof {
            assert(r@ =~= v@.subrange(0, n + 1));
        }
        n = n + 1;
    }
    proof {
        assert(r@ =~= v@);
    }
    r
}

/// Builds the home view: CPU and memory gauges, static host facts, runtime
/// facts and the CPU history chart.  The memory gauge is scaled in
/// hundredths of a GiB, bounded by the machine's total memory; disk and
/// network gauges are placeholders pinned to a 0–100 scale at zero.
pub fn gather_home_data(raw: &RawSample, cpu_hist: &RollingBuffer<u64>) -> (d: HomeData)
    ensures
        d.metric.cpu.lower_hundredths == 0,
        d.metric.cpu.upper_hundredths == 10000,
        d.metric.cpu.curr_hundredths == raw.global_cpu_hundredths,
        d.metric.memory.lower_hundredths == 0,
        d.metric.memory.upper_hundredths == rounded_div(
            raw.total_memory_bytes as int * 100,
            GIB_BYTES as int,
        ),
        d.metric.memory.curr_hundredths == rounded_div(
            raw.used_memory_bytes as int * 100,
            GIB_BYTES as int,
        ),
        d.metric.disk == (GaugeData { lower_hundredths: 0, upper_hundredths: 10000, curr_hundredths: 0 }),
        d.metric.network == (GaugeData { lower_hundredths: 0, upper_hundredths: 10000, curr_hundredths: 0 }),
        d.left_info.hostname == spec_text_from(raw.host_name),
        d.left_info.os == spec_text_from(raw.os_name),
        d.left_info.kernel == spec_text_from(raw.kernel_version),
        d.left_info.cpu_name == spec_text_from(raw.cpu_brand),
        d.left_info.gpu_model is Unavailable,
        d.left_info.motherboard is Unavailable,
        d.left_info.total_ram_gb_tenths == rounded_div(
            raw.total_memory_bytes as int * 10,
            GB_BYTES as int,
        ),
        d.right_info.uptime_hours == raw.uptime_seconds / 3600,
        d.right_info.boot_time_seconds == raw.boot_time_seconds,
        d.right_info.process_count == raw.processes@.len(),
        d.right_info.local_ip@ == "127.0.0.1"@,
        d.chart@ == cpu_hist@,
{
    HomeData {
        metric: HomeMetrics {
            cpu: GaugeData {
                lower_hundredths: 0,
                upper_hundredths: 10000,
                curr_hundredths: raw.global_cpu_hundredths,
            },
            memory: GaugeData {
                lower_hundredths: 0,
                upper_hundredths: gib_hundredths(raw.total_memory_bytes),
                curr_hundredths: gib_hundredths(raw.used_memory_bytes),
            },
            disk: GaugeData { lower_hundredths: 0, upper_hundredths: 10000, curr_hundredths: 0 },
            network: GaugeData { lower_hundredths: 0, upper_hundredths: 10000, curr_hundredths: 0 },
        },
        left_info: HostInfo {
            hostname: text_from(&raw.host_name),
            os: text_from(&raw.os_name),
            kernel: text_from(&raw.kernel_version),
            cpu_name: text_from(&raw.cpu_brand),
            gpu_model: TextValue::Unavailable,
            total_ram_gb_tenths: gb_tenths(raw.total_memory_bytes),
            motherboard: TextValue::Unavailable,
        },
        right_info: RuntimeInfo {
            uptime_hours: raw.uptime_seconds / 3600,
            boot_time_seconds: raw.boot_time_seconds,
            process_count: raw.processes.len(),
            local_ip: "127.0.0.1".to_owned(),
        },
        chart: cpu_hist.to_vec(),
    }
}

/// Builds the CPU view: global usage, per-tick CPU facts, static processor
/// facts, the usage history chart with its clamped y-axis, and the per-core
/// usage series.
pub fn gather_cpu_data(raw: &RawSample, cpu_hist: &RollingBuffer<u64>) -> (d: CpuData)
    ensures
        d.total_consumption_hundredths == raw.global_cpu_hundredths,
        d.cpu_info.clock_speed_mhz == raw.frequency_mhz,
        d.cpu_info.core_temp is Unavailable,
        d.cpu_info.avg_load_hundredths == raw.load_avg_hundredths,
        d.cpu_info.frequency_mhz == raw.frequency_mhz,
        d.cpu_info.freq_base is Unavailable,
        d.cpu_info.threads_used == raw.processes@.len(),
        d.processor_info.model == spec_text_from(raw.cpu_brand),
        d.processor_info.cores == (match raw.physical_cores {
            Some(n) => n,
            None => 0u64,
        }),
        d.processor_info.threads == raw.core_usage_hundredths@.len(),
        d.processor_info.speed_base is Unavailable,
        d.processor_info.architecture@ == raw.arch@,
        d.processor_info.cache_l1 is Unavailable,
        d.processor_info.cache_l2 is Unavailable,
        d.processor_info.cache_l3 is Unavailable,
        d.consumption_chart.points@ == cpu_hist@,
        d.consumption_chart.y_max == seq_max_or(cpu_hist@, PERCENT_CHART_FLOOR),
        d.consumption_chart.y_max >= PERCENT_CHART_FLOOR,
        d.core_usage_hundredths@ == raw.core_usage_hundredths@,
{
    let points = cpu_hist.to_vec();
    let y_max = chart_y_max(&points, PERCENT_CHART_FLOOR);
    let cores = match &raw.physical_cores {
        Some(n) => *n,
        None => 0u64,
    };
    CpuData {
        total_consumption_hundredths: raw.global_cpu_hundredths,
        cpu_info: CpuDynamicInfo {
            clock_speed_mhz: raw.frequency_mhz,
            core_temp: TextValue::Unavailable,
            avg_load_hundredths: raw.load_avg_hundredths,
            frequency_mhz: raw.frequency_mhz,
            freq_base: TextValue::Unavailable,
            threads_used: raw.processes.len(),
        },
        processor_info: ProcessorInfo {
            model: text_from(&raw.cpu_brand),
            cores,
            threads: raw.core_usage_hundredths.len(),
            speed_base: TextValue::Unavailable,
            architecture: raw.arch.clone(),
            cache_l1: TextValue::Unavailable,
            cache_l2: TextValue::Unavailable,
            cache_l3: TextValue::Unavailable,
        },
        consumption_chart: ChartSeries { y_max, points },
        core_usage_hundredths: copy_points(&raw.core_usage_hundredths),
    }
}

/// Builds the memory view: the used-over-total percentage, the size panels
/// in tenths of a gigabyte, and the usage history chart with its clamped
/// y-axis.  Panels the provider cannot fill stay unavailable.
pub fn gather_memory_data(raw: &RawSample, mem_hist: &RollingBuffer<u64>) -> (d: MemoryData)
    requires
        raw.used_memory_bytes <= raw.total_memory_bytes,
    ensures
        raw.total_memory_bytes > 0 ==> d.total_consumption_hundredths == rounded_div(
            raw.used_memory_bytes as int * 10000,
            raw.total_memory_bytes as int,
        ),
        raw.total_memory_bytes == 0 ==> d.total_consumption_hundredths == 0,
        d.physical_info.installed_gb_tenths == rounded_div(
            raw.total_memory_bytes as int * 10,
            GB_BYTES as int,
        ),
        d.physical_info.in_use_gb_tenths == rounded_div(
            raw.used_memory_bytes as int * 10,
            GB_BYTES as int,
        ),
        d.physical_info.available_gb_tenths == rounded_div(
            (raw.total_memory_bytes - raw.used_memory_bytes) as int * 10,
            GB_BYTES as int,
        ),
        d.physical_info.compressed is Unavailable,
        d.physical_info.reserved is Unavailable,
        d.virtual_info.commit_charge_gb_tenths == rounded_div(
            raw.used_swap_bytes as int * 10,
            GB_BYTES as int,
        ),
        d.virtual_info.commit_limit_gb_tenths == rounded_div(
            raw.total_swap_bytes as int * 10,
            GB_BYTES as int,
        ),
        d.virtual_info.commit_percent is Unavailable,
        d.virtual_info.paged_pool is Unavailable,
        d.virtual_info.non_paged_pool is Unavailable,
        d.page_info.page_faults is Unavailable,
        d.page_info.hard_faults is Unavailable,
        d.page_info.cache_standby is Unavailable,
        d.page_info.modified is Unavailable,
        d.usage_chart.points@ == mem_hist@,
        d.usage_chart.y_max == seq_max_or(mem_hist@, PERCENT_CHART_FLOOR),
        d.usage_chart.y_max >= PERCENT_CHART_FLOOR,
{
    let points = mem_hist.to_vec();
    let y_max = chart_y_max(&points, PERCENT_CHART_FLOOR);
    MemoryData {
        total_consumption_hundredths: ratio_percent_hundredths(
            raw.used_memory_bytes,
            raw.total_memory_bytes,
        ),
        physical_info: PhysicalMemoryInfo {
            installed_gb_tenths: gb_tenths(raw.total_memory_bytes),
            in_use_gb_tenths: gb_tenths(raw.used_memory_bytes),
            compressed: TextValue::Unavailable,
            available_gb_tenths: gb_tenths(raw.total_memory_bytes - raw.used_memory_bytes),
            reserved: TextValue::Unavailable,
        },
        virtual_info: VirtualMemoryInfo {
            commit_charge_gb_tenths: gb_tenths(raw.used_swap_bytes),
            commit_limit_gb_tenths: gb_tenths(raw.total_swap_bytes),
            commit_percent: TextValue::Unavailable,
            paged_pool: TextValue::Unavailable,
            non_paged_pool: TextValue::Unavailable,
        },
        page_info: PageInfo {
            page_faults: TextValue::Unavailable,
            hard_faults: TextValue::Unavailable,
            cache_standby: TextValue::Unavailable,
            modified: TextValue::Unavailable,
        },
        usage_chart: ChartSeries { y_max, points },
    }
}

/// Everything `row` must show of `iface`: the name and MAC verbatim, the
/// addresses resolved from the enumeration, and the cumulative traffic in
/// hundredths of a MiB.
pub open spec fn row_ok(row: InterfaceRow, iface: InterfaceSample, addrs: Seq<AddrEntry>) -> bool {
    &&& row.name@ == iface.name@
    &&& row.mac@ == iface.mac@
    &&& text_matches(row.ipv4, resolved_address(addrs, iface.name@, IpFamily::V4))
    &&& text_matches(row.ipv6, resolved_address(addrs, iface.name@, IpFamily::V6))
    &&& row.sent_mib_hundredths == rounded_div(iface.total_tx as int * 100, MIB_BYTES as int)
    &&& row.received_mib_hundredths == rounded_div(iface.total_rx as int * 100, MIB_BYTES as int)
}

/// Everything the active-interface panel must show: when no interface has
/// traffic, every field is a placeholder; otherwise the fields come from the
/// first interface with traffic and its resolved addresses.
pub open spec fn active_info_ok(
    info: ActiveInterfaceInfo,
    s: Seq<InterfaceSample>,
    addrs: Seq<AddrEntry>,
) -> bool {
    &&& ((forall|j: int| 0 <= j < s.len() ==> !has_traffic(s[j])) ==> {
        &&& info.interface_name is Unavailable
        &&& info.mac is Unavailable
        &&& info.ipv4 is Unavailable
        &&& info.ipv6 is Unavailable
    })
    &&& (forall|i: int| is_first_active(s, i) ==> {
        &&& info.interface_name is Known && info.interface_name->Known_0@ == s[i].name@
        &&& info.mac is Known && info.mac->Known_0@ == s[i].mac@
        &&& text_matches(info.ipv4, resolved_address(addrs, s[i].name@, IpFamily::V4))
        &&& text_matches(info.ipv6, resolved_address(addrs, s[i].name@, IpFamily::V6))
    })
}

fn build_interface_row(iface: &InterfaceSample, addrs: &Vec<AddrEntry>) -> (row: InterfaceRow)
    ensures
        row_ok(row, *iface, addrs@),
{
    InterfaceRow {
        name: iface.name.clone(),
        ipv4: resolve_address(addrs, &iface.name, IpFamily::V4),
        ipv6: resolve_address(addrs, &iface.name, IpFamily::V6),
        mac: iface.mac.clone(),
        sent_mib_hundredths: mib_hundredths(iface.total_tx),
        received_mib_hundredths: mib_hundredths(iface.total_rx),
    }
}

/// Builds the network view: the newest throughput sample, the two history
/// charts with their clamped y-axes, the active-interface panel, aggregate
/// totals, and one table row per enumerated interface.
pub fn gather_network_data(
    ifaces: &Vec<InterfaceSample>,
    addrs: &Vec<AddrEntry>,
    net_hist: &RollingBuffer<NetworkSample>,
    total_tx: u64,
    total_rx: u64,
) -> (d: NetworkData)
    ensures
        net_hist@.len() > 0 ==> d.current_speed == net_hist@.last(),
        net_hist@.len() == 0 ==> d.current_speed == (NetworkSample {
            upload_bytes: 0,
            download_bytes: 0,
        }),
        d.upload_chart.points@.len() == net_hist@.len(),
        forall|i: int|
            0 <= i < net_hist@.len() ==> d.upload_chart.points@[i] == net_hist@[i].upload_bytes,
        d.upload_chart.y_max == seq_max_or(d.upload_chart.points@, NET_CHART_FLOOR),
        d.upload_chart.y_max >= NET_CHART_FLOOR,
        d.download_chart.points@.len() == net_hist@.len(),
        forall|i: int|
            0 <= i < net_hist@.len() ==> d.download_chart.points@[i] == net_hist@[i].download_bytes,
        d.download_chart.y_max == seq_max_or(d.download_chart.points@, NET_CHART_FLOOR),
        d.download_chart.y_max >= NET_CHART_FLOOR,
        active_info_ok(d.active_info, ifaces@, addrs@),
        d.active_stat.total_sent_bytes == total_tx,
        d.active_stat.total_received_bytes == total_rx,
        d.active_stat.interface_count == ifaces@.len(),
        d.active_stat.link_status@ == "Active"@,
        d.all_interfaces@.len() == ifaces@.len(),
        forall|i: int|
            0 <= i < ifaces@.len() ==> row_ok(d.all_interfaces@[i], ifaces@[i], addrs@),
{
    let hist_len = net_hist.len();
    let current_speed = if hist_len > 0 {
        net_hist.get(hist_len - 1)
    } else {
        NetworkSample { upload_bytes: 0, download_bytes: 0 }
    };

    let mut up_points: Vec<u64> = Vec::new();
    let mut down_points: Vec<u64> = Vec::new();
    let mut n: usize = 0;
    while n < hist_len
        invariant
            hist_len == net_hist@.len(),
            n <= hist_len,
            up_points@.len() == n,
            down_points@.len() == n,
            forall|j: int| 0 <= j < n ==> up_points@[j] == net_hist@[j].upload_bytes,
            forall|j: int| 0 <= j < n ==> down_points@[j] == net_hist@[j].download_bytes,
        decreases hist_len - n,
    {
        let s = net_hist.get(n);
        up_points.push(s.upload_bytes);
        down_points.push(s.download_bytes);
        n = n + 1;
    }
    let up_max = chart_y_max(&up_points, NET_CHART_FLOOR);
    let down_max = chart_y_max(&down_points, NET_CHART_FLOOR);

    let active_info = match select_active(ifaces) {
        Some(i) => {
            let iface = &ifaces[i];
            ActiveInterfaceInfo {
                interface_name: TextValue::Known(iface.name.clone()),
                ipv4: resolve_address(addrs, &iface.name, IpFamily::V4),
                ipv6: resolve_address(addrs, &iface.name, IpFamily::V6),
                mac: TextValue::Known(iface.mac.clone()),
            }
        },
        None => ActiveInterfaceInfo {
            interface_name: TextValue::Unavailable,
            ipv4: TextValue::Unavailable,
            ipv6: TextValue::Unavailable,
            mac: TextValue::Unavailable,
        },
    };

    let mut rows: Vec<InterfaceRow> = Vec::new();
    let mut k: usize = 0;
    while k < ifaces.len()
        invariant
            k <= ifaces@.len(),
            rows@.len() == k,
            forall|j: int| 0 <= j < k ==> row_ok(rows@[j], ifaces@[j], addrs@),
        decreases ifaces@.len() - k,
    {
        let row = build_interface_row(&ifaces[k], addrs);
        rows.push(row);
        k = k + 1;
    }

    NetworkData {
        current_speed,
        upload_chart: ChartSeries { y_max: up_max, points: up_points },
        download_chart: ChartSeries { y_max: down_max, points: down_points },
        active_info,
        active_stat: NetworkTotals {
            total_sent_bytes: total_tx,
            total_received_bytes: total_rx,
            interface_count: ifaces.len(),
            link_status: "Active".to_owned(),
        },
        all_interfaces: rows,
    }
}

/// Builds the process table: one row per process in provider enumeration
/// order, with CPU usage in tenths of a percent and resident memory in
/// tenths of a MiB.
pub fn gather_process_table_data(processes: &Vec<ProcessSample>) -> (rows: Vec<ProcessRow>)
    ensures
        rows@.len() == processes@.len(),
        forall|i: int| 0 <= i < processes@.len() ==> {
            &&& rows@[i].pid == processes@[i].pid
            &&& rows@[i].name@ == processes@[i].name@
            &&& rows@[i].cpu_tenths == processes@[i].cpu_tenths
            &&& rows@[i].memory_mib_tenths == rounded_div(
                processes@[i].memory_bytes as int * 10,
                MIB_BYTES as int,
            )
        },
{
    let mut rows: Vec<ProcessRow> = Vec::new();
    let mut n: usize = 0;
    while n < processes.len()
        invariant
            n <= processes@.len(),
            rows@.len() == n,
            forall|j: int| 0 <= j < n ==> {
                &&& rows@[j].pid == processes@[j].pid
                &&& rows@[j].name@ == processes@[j].name@
                &&& rows@[j].cpu_tenths == processes@[j].cpu_tenths
                &&& rows@[j].memory_mib_tenths == rounded_div(
                    processes@[j].memory_bytes as int * 10,
                    MIB_BYTES as int,
                )
            },
        decreases processes@.len() - n,
    {
        let p = &processes[n];
        rows.push(
            ProcessRow {
                pid: p.pid,
                name: p.name.clone(),
                cpu_tenths: p.cpu_tenths,
                memory_mib_tenths: mib_tenths(p.memory_bytes),
            },
        );
        n = n + 1;
    }
    rows
}

} // verus!
