use sysdash::{
    chart_y_max, gather_cpu_data, gather_home_data, gather_memory_data, gather_network_data,
    gather_process_table_data, gb_tenths, gib_hundredths, mib_hundredths, mib_tenths,
    ratio_percent_hundredths, resolve_address, select_active, tick, total_traffic, AddrEntry,
    InterfaceSample, IpFamily, NetworkSample, ProcessSample, RateCounter, RawSample,
    RollingBuffer, SystemHistory, TextValue,
};

fn raw_sample() -> RawSample {
    RawSample {
        global_cpu_hundredths: 0,
        core_usage_hundredths: Vec::new(),
        frequency_mhz: 0,
        cpu_brand: None,
        physical_cores: None,
        load_avg_hundredths: 0,
        total_memory_bytes: 0,
        used_memory_bytes: 0,
        total_swap_bytes: 0,
        used_swap_bytes: 0,
        host_name: None,
        os_name: None,
        kernel_version: None,
        uptime_seconds: 0,
        boot_time_seconds: 0,
        arch: String::from("x86_64"),
        processes: Vec::new(),
        interfaces: Vec::new(),
        addresses: Vec::new(),
    }
}

fn iface(name: &str, total_rx: u64, total_tx: u64) -> InterfaceSample {
    InterfaceSample {
        name: String::from(name),
        mac: String::from("00:11:22:33:44:55"),
        total_rx,
        total_tx,
        tick_rx: 0,
        tick_tx: 0,
    }
}

fn addr(interface: &str, family: IpFamily, address: &str) -> AddrEntry {
    AddrEntry {
        interface: String::from(interface),
        family,
        address: String::from(address),
    }
}

fn known(t: &TextValue) -> &str {
    match t {
        TextValue::Known(s) => s.as_str(),
        TextValue::Unavailable => panic!("expected a known value"),
    }
}

#[test]
fn buffer_new_is_filled_with_default() {
    let b: RollingBuffer<u64> = RollingBuffer::new(4, 7);
    assert_eq!(b.len(), 4);
    for i in 0..4 {
        assert_eq!(b.get(i), 7);
    }
}

#[test]
fn buffer_push_is_fifo_and_keeps_length() {
    let mut b: RollingBuffer<u64> = RollingBuffer::new(3, 0);
    assert_eq!(b.len(), 3);
    b.push(1);
    assert_eq!(b.len(), 3);
    assert_eq!(b.to_vec(), vec![0, 0, 1]);
    b.push(2);
    b.push(3);
    assert_eq!(b.to_vec(), vec![1, 2, 3]);
    b.push(4);
    assert_eq!(b.len(), 3);
    assert_eq!(b.to_vec(), vec![2, 3, 4]);
    assert_eq!(b.as_slice(), [2, 3, 4]);
    assert_eq!(b.get(2), 4);
}

#[test]
fn rate_counter_first_observation_returns_none_then_deltas() {
    let mut c = RateCounter::new();
    let first = c.observe(500, 200);
    assert!(first.is_none());
    let second = c.observe(1500, 250);
    let s = second.expect("second observation must yield a sample");
    assert_eq!(s.download_bytes, 1000);
    assert_eq!(s.upload_bytes, 50);
    let down_kib = s.download_bytes as f32 / 1024.0;
    let up_kib = s.upload_bytes as f32 / 1024.0;
    assert!((down_kib - 0.9765625).abs() < 1e-6);
    assert!((up_kib - 0.048828125).abs() < 1e-6);
}

#[test]
fn rate_counter_regression_clamps_to_zero() {
    let mut c = RateCounter::new();
    assert!(c.observe(500, 300).is_none());
    let s = c.observe(100, 400).expect("second observation must yield a sample");
    assert_eq!(s.download_bytes, 0);
    assert_eq!(s.upload_bytes, 100);
}

#[test]
fn memory_gauge_upper_bound_eight_gib() {
    let mut raw = raw_sample();
    raw.total_memory_bytes = 8_589_934_592;
    raw.used_memory_bytes = 4_294_967_296;
    let hist: RollingBuffer<u64> = RollingBuffer::new(60, 0);
    let d = gather_home_data(&raw, &hist);
    // 8 GiB is exactly 8.00 GiB, held as 800 hundredths.
    assert_eq!(d.metric.memory.upper_hundredths, 800);
    assert!((d.metric.memory.upper_hundredths as f32 / 100.0 - 8.00).abs() < 0.01);
    assert_eq!(d.metric.memory.curr_hundredths, 400);
}

#[test]
fn gib_hundredths_rounds_to_nearest() {
    assert_eq!(gib_hundredths(0), 0);
    assert_eq!(gib_hundredths(1_073_741_824), 100);
    // 1.5 GiB -> 150 hundredths.
    assert_eq!(gib_hundredths(1_610_612_736), 150);
    // 0.005 GiB rounds up to 0.01.
    assert_eq!(gib_hundredths(5_368_709), 0);
    assert_eq!(gib_hundredths(5_368_710), 1);
}

#[test]
fn chart_y_max_never_below_floor() {
    let zeros: Vec<u64> = vec![0, 0, 0, 0];
    assert_eq!(chart_y_max(&zeros, 100), 100);
    let empty: Vec<u64> = Vec::new();
    assert_eq!(chart_y_max(&empty, 100), 100);
}

#[test]
fn chart_y_max_picks_largest_value() {
    let values: Vec<u64> = vec![0, 250, 100];
    assert_eq!(chart_y_max(&values, 100), 250);
    let small: Vec<u64> = vec![40, 60];
    assert_eq!(chart_y_max(&small, 100), 100);
}

#[test]
fn active_interface_is_first_with_traffic() {
    let ifaces = vec![iface("eth0", 0, 0), iface("wlan0", 500, 10)];
    assert_eq!(select_active(&ifaces), Some(1));

    let hist: RollingBuffer<NetworkSample> = RollingBuffer::new(60, NetworkSample::zero());
    let d = gather_network_data(&ifaces, &Vec::new(), &hist, 10, 500);
    assert_eq!(known(&d.active_info.interface_name), "wlan0");
}

#[test]
fn active_interface_placeholder_when_all_silent() {
    let ifaces = vec![iface("eth0", 0, 0), iface("lo", 0, 0)];
    assert_eq!(select_active(&ifaces), None);

    let hist: RollingBuffer<NetworkSample> = RollingBuffer::new(60, NetworkSample::zero());
    let d = gather_network_data(&ifaces, &Vec::new(), &hist, 0, 0);
    assert!(matches!(d.active_info.interface_name, TextValue::Unavailable));
    assert!(matches!(d.active_info.ipv4, TextValue::Unavailable));
    assert!(matches!(d.active_info.ipv6, TextValue::Unavailable));
    assert!(matches!(d.active_info.mac, TextValue::Unavailable));
}

#[test]
fn resolve_address_last_match_per_family_wins() {
    let addrs = vec![
        addr("eth0", IpFamily::V4, "10.0.0.1"),
        addr("wlan0", IpFamily::V4, "192.168.0.2"),
        addr("eth0", IpFamily::V4, "10.0.0.9"),
        addr("eth0", IpFamily::V6, "fe80::1"),
    ];
    let name = String::from("eth0");
    let v4 = resolve_address(&addrs, &name, IpFamily::V4);
    assert_eq!(known(&v4), "10.0.0.9");
    let v6 = resolve_address(&addrs, &name, IpFamily::V6);
    assert_eq!(known(&v6), "fe80::1");
    let other = String::from("tun0");
    assert!(matches!(
        resolve_address(&addrs, &other, IpFamily::V4),
        TextValue::Unavailable
    ));
}

#[test]
fn interface_table_joins_addresses_and_totals() {
    let ifaces = vec![iface("eth0", 3_145_728, 1_048_576)];
    let addrs = vec![addr("eth0", IpFamily::V4, "10.0.0.1")];
    let hist: RollingBuffer<NetworkSample> = RollingBuffer::new(60, NetworkSample::zero());
    let d = gather_network_data(&ifaces, &addrs, &hist, 1_048_576, 3_145_728);
    assert_eq!(d.all_interfaces.len(), 1);
    let row = &d.all_interfaces[0];
    assert_eq!(row.name, "eth0");
    assert_eq!(known(&row.ipv4), "10.0.0.1");
    assert!(matches!(row.ipv6, TextValue::Unavailable));
    // 1 MiB sent -> 1.00 MB, 3 MiB received -> 3.00 MB.
    assert_eq!(row.sent_mib_hundredths, 100);
    assert_eq!(row.received_mib_hundredths, 300);
    assert_eq!(d.active_stat.interface_count, 1);
    assert_eq!(d.active_stat.total_sent_bytes, 1_048_576);
    assert_eq!(d.active_stat.total_received_bytes, 3_145_728);
    assert_eq!(d.active_stat.link_status, "Active");
}

#[test]
fn network_charts_mirror_history() {
    let mut hist: RollingBuffer<NetworkSample> = RollingBuffer::new(3, NetworkSample::zero());
    hist.push(NetworkSample { upload_bytes: 2048, download_bytes: 4096 });
    let d = gather_network_data(&Vec::new(), &Vec::new(), &hist, 0, 0);
    assert_eq!(d.upload_chart.points, vec![0, 0, 2048]);
    assert_eq!(d.download_chart.points, vec![0, 0, 4096]);
    assert_eq!(d.upload_chart.y_max, 2048);
    assert_eq!(d.download_chart.y_max, 4096);
    assert_eq!(d.current_speed.upload_bytes, 2048);
    assert_eq!(d.current_speed.download_bytes, 4096);
}

#[test]
fn network_chart_floor_is_one_kib() {
    let hist: RollingBuffer<NetworkSample> = RollingBuffer::new(3, NetworkSample::zero());
    let d = gather_network_data(&Vec::new(), &Vec::new(), &hist, 0, 0);
    assert_eq!(d.upload_chart.y_max, 1024);
    assert_eq!(d.download_chart.y_max, 1024);
}

#[test]
fn total_traffic_sums_all_interfaces() {
    let ifaces = vec![iface("a", 100, 7), iface("b", 250, 3)];
    assert_eq!(total_traffic(&ifaces), (350, 10));
    assert_eq!(total_traffic(&Vec::new()), (0, 0));
}

#[test]
fn total_traffic_saturates_instead_of_wrapping() {
    let ifaces = vec![iface("a", u64::MAX, 1), iface("b", 5, u64::MAX)];
    assert_eq!(total_traffic(&ifaces), (u64::MAX, u64::MAX));
}

#[test]
fn process_rows_convert_memory_to_tenths_of_mib() {
    let procs = vec![
        ProcessSample {
            pid: 42,
            name: String::from("init"),
            cpu_tenths: 15,
            memory_bytes: 10_485_760,
        },
        ProcessSample {
            pid: 43,
            name: String::from("idle"),
            cpu_tenths: 0,
            memory_bytes: 262_144,
        },
    ];
    let rows = gather_process_table_data(&procs);
    assert_eq!(rows.len(), 2);
    assert_eq!(rows[0].pid, 42);
    assert_eq!(rows[0].name, "init");
    assert_eq!(rows[0].cpu_tenths, 15);
    // 10 MiB -> 10.0 MB shown as 100 tenths.
    assert_eq!(rows[0].memory_mib_tenths, 100);
    // 262144 bytes -> 0.25 MiB, rounds up to 0.3 MB.
    assert_eq!(rows[1].memory_mib_tenths, 3);
}

#[test]
fn memory_view_percentage_and_panels() {
    let mut raw = raw_sample();
    raw.total_memory_bytes = 1024;
    raw.used_memory_bytes = 512;
    raw.total_swap_bytes = 2_000_000_000;
    raw.used_swap_bytes = 1_000_000_000;
    let hist: RollingBuffer<u64> = RollingBuffer::new(60, 0);
    let d = gather_memory_data(&raw, &hist);
    assert_eq!(d.total_consumption_hundredths, 5000);
    assert_eq!(d.virtual_info.commit_limit_gb_tenths, 20);
    assert_eq!(d.virtual_info.commit_charge_gb_tenths, 10);
    assert!(matches!(d.page_info.page_faults, TextValue::Unavailable));
}

#[test]
fn memory_view_zero_total_degrades_to_zero() {
    let raw = raw_sample();
    let hist: RollingBuffer<u64> = RollingBuffer::new(60, 0);
    let d = gather_memory_data(&raw, &hist);
    assert_eq!(d.total_consumption_hundredths, 0);
}

#[test]
fn ratio_percent_rounds_to_hundredths() {
    assert_eq!(ratio_percent_hundredths(1, 3), 3333);
    assert_eq!(ratio_percent_hundredths(2, 3), 6667);
    assert_eq!(ratio_percent_hundredths(0, 100), 0);
    assert_eq!(ratio_percent_hundredths(100, 100), 10000);
}

#[test]
fn gb_tenths_rounds_to_nearest() {
    // 8589934592 bytes is 8.59 GB, shown as 8.6.
    assert_eq!(gb_tenths(8_589_934_592), 86);
    assert_eq!(gb_tenths(1_000_000_000), 10);
    assert_eq!(gb_tenths(950_000_000), 10);
    assert_eq!(gb_tenths(940_000_000), 9);
}

#[test]
fn mib_conversions_round_to_nearest() {
    assert_eq!(mib_hundredths(1_048_576), 100);
    assert_eq!(mib_hundredths(1_572_864), 150);
    assert_eq!(mib_tenths(1_048_576), 10);
    assert_eq!(mib_tenths(52_428), 0);
    assert_eq!(mib_tenths(52_429), 1);
}

#[test]
fn home_view_static_fields() {
    let mut raw = raw_sample();
    raw.global_cpu_hundredths = 4250;
    raw.host_name = Some(String::from("box"));
    raw.cpu_brand = None;
    raw.uptime_seconds = 7322;
    raw.boot_time_seconds = 99;
    raw.processes = vec![ProcessSample {
        pid: 1,
        name: String::from("init"),
        cpu_tenths: 0,
        memory_bytes: 0,
    }];
    let hist: RollingBuffer<u64> = RollingBuffer::new(60, 0);
    let d = gather_home_data(&raw, &hist);
    assert_eq!(d.metric.cpu.curr_hundredths, 4250);
    assert_eq!(d.metric.cpu.upper_hundredths, 10000);
    assert_eq!(known(&d.left_info.hostname), "box");
    assert!(matches!(d.left_info.cpu_name, TextValue::Unavailable));
    assert!(matches!(d.left_info.gpu_model, TextValue::Unavailable));
    assert_eq!(d.right_info.uptime_hours, 2);
    assert_eq!(d.right_info.boot_time_seconds, 99);
    assert_eq!(d.right_info.process_count, 1);
    assert_eq!(d.right_info.local_ip, "127.0.0.1");
    assert_eq!(d.chart.len(), 60);
}

#[test]
fn cpu_view_chart_and_cores() {
    let mut raw = raw_sample();
    raw.global_cpu_hundredths = 1200;
    raw.core_usage_hundredths = vec![1100, 1300];
    raw.frequency_mhz = 3400;
    raw.physical_cores = Some(2);
    raw.load_avg_hundredths = 123;
    let mut hist: RollingBuffer<u64> = RollingBuffer::new(3, 0);
    hist.push(500);
    let d = gather_cpu_data(&raw, &hist);
    assert_eq!(d.total_consumption_hundredths, 1200);
    assert_eq!(d.cpu_info.clock_speed_mhz, 3400);
    assert_eq!(d.cpu_info.avg_load_hundredths, 123);
    assert_eq!(d.processor_info.cores, 2);
    assert_eq!(d.processor_info.threads, 2);
    assert_eq!(d.processor_info.architecture, "x86_64");
    assert_eq!(d.consumption_chart.points, vec![0, 0, 500]);
    assert_eq!(d.consumption_chart.y_max, 500);
    assert_eq!(d.core_usage_hundredths, vec![1100, 1300]);
}

#[test]
fn end_to_end_three_ticks_fill_memory_history() {
    let mut h = SystemHistory::new(3);
    let mut raw = raw_sample();
    raw.total_memory_bytes = 1000;

    raw.used_memory_bytes = 100;
    let s1 = tick(&mut h, &raw);
    assert_eq!(h.memory_history.to_vec(), vec![0, 0, 1000]);
    assert_eq!(s1.memory.usage_chart.points, vec![0, 0, 1000]);

    raw.used_memory_bytes = 200;
    let s2 = tick(&mut h, &raw);
    assert_eq!(h.memory_history.to_vec(), vec![0, 1000, 2000]);
    assert_eq!(s2.memory.usage_chart.points, vec![0, 1000, 2000]);

    raw.used_memory_bytes = 300;
    let s3 = tick(&mut h, &raw);
    assert_eq!(h.memory_history.to_vec(), vec![1000, 2000, 3000]);
    assert_eq!(s3.memory.usage_chart.points, vec![1000, 2000, 3000]);
    assert_eq!(s3.memory.total_consumption_hundredths, 3000);
}

#[test]
fn first_tick_skips_network_history() {
    let mut h = SystemHistory::new(3);
    let mut raw = raw_sample();
    raw.interfaces = vec![iface("eth0", 500, 200)];

    tick(&mut h, &raw);
    // First observation only primes the counter: no sample pushed.
    let after_first = h.net_history.to_vec();
    assert_eq!(after_first.len(), 3);
    for s in &after_first {
        assert_eq!(s.upload_bytes, 0);
        assert_eq!(s.download_bytes, 0);
    }

    raw.interfaces = vec![iface("eth0", 1500, 250)];
    let snap = tick(&mut h, &raw);
    let after_second = h.net_history.to_vec();
    assert_eq!(after_second[2].download_bytes, 1000);
    assert_eq!(after_second[2].upload_bytes, 50);
    assert_eq!(snap.network.current_speed.download_bytes, 1000);
    assert_eq!(snap.network.current_speed.upload_bytes, 50);
}

#[test]
fn tick_pushes_cpu_history_in_order() {
    let mut h = SystemHistory::new(3);
    let mut raw = raw_sample();
    raw.global_cpu_hundredths = 1000;
    let s = tick(&mut h, &raw);
    assert_eq!(h.cpu_history.to_vec(), vec![0, 0, 1000]);
    assert_eq!(s.home.chart, vec![0, 0, 1000]);
    assert_eq!(s.cpu.consumption_chart.points, vec![0, 0, 1000]);
    raw.global_cpu_hundredths = 2000;
    tick(&mut h, &raw);
    assert_eq!(h.cpu_history.to_vec(), vec![0, 1000, 2000]);
}
