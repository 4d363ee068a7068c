//! Plain-value model of one tick's raw readings from the operating system.
//!
//! The process wrapper reads the OS-info and address-enumeration providers
//! once per tick and hands the engine these structures; every field is a
//! plain integer, string or list, so the whole derivation downstream is
//! verified.  Percentages are in hundredths of a percent unless a field name
//! says otherwise.

use vstd::prelude::*;

verus! {

/// A display field that either carries a value or is unavailable; missing
/// readings degrade to `Unavailable` rather than to a sentinel string, and
/// never abort a tick.
#[derive(Clone, Debug)]
pub enum TextValue {
    Known(String),
    Unavailable,
}

/// The `TextValue` that a possibly missing reading maps to.
pub open spec fn spec_text_from(o: Option<String>) -> TextValue {
    match o {
        Some(s) => TextValue::Known(s),
        None => TextValue::Unavailable,
    }
}

/// `t` shows exactly the characters of `o`, or is unavailable when `o` is
/// empty.
pub open spec fn text_matches(t: TextValue, o: Option<Seq<char>>) -> bool {
    match o {
        Some(a) => t is Known && t->Known_0@ == a,
        None => t is Unavailable,
    }
}

/// Wraps a possibly missing reading as a display field.
pub fn text_from(o: &Option<String>) -> (t: TextValue)
    ensures
        t == spec_text_from(*o),
{
    match o {
        Some(s) => TextValue::Known(s.clone()),
        None => TextValue::Unavailable,
    }
}

/// An address family as reported by the address-enumeration provider.
#[derive(Clone, Copy, PartialEq, Eq, Structural, Debug)]
pub enum IpFamily {
    V4,
    V6,
}

/// One record from the address-enumeration provider: an interface name and
/// one address it carries.
#[derive(Clone, Debug)]
pub struct AddrEntry {
    pub interface: String,
    pub family: IpFamily,
    pub address: String,
}

/// One network interface's counters for this tick: cumulative totals since
/// provider start and the bytes moved since the previous refresh.
#[derive(Clone, Debug)]
pub struct InterfaceSample {
    pub name: String,
    pub mac: String,
    pub total_rx: u64,
    pub total_tx: u64,
    pub tick_rx: u64,
    pub tick_tx: u64,
}

/// One process's readings for this tick.  CPU usage is in tenths of a
/// percent, resident memory in bytes.
#[derive(Clone, Debug)]
pub struct ProcessSample {
    pub pid: u64,
    pub name: String,
    pub cpu_tenths: u64,
    pub memory_bytes: u64,
}

/// Everything one refresh cycle reads from the OS-info provider.
pub struct RawSample {
    /// Global CPU usage, hundredths of a percent.
    pub global_cpu_hundredths: u64,
    /// Per-core usage, hundredths of a percent, provider enumeration order.
    pub core_usage_hundredths: Vec<u64>,
    /// Frequency of the first core in MHz; zero when no core is enumerated.
    pub frequency_mhz: u64,
    /// Brand string of the first core, when available.
    pub cpu_brand: Option<String>,
    /// Physical core count, when the provider knows it.
    pub physical_cores: Option<u64>,
    /// One-minute load average, hundredths.
    pub load_avg_hundredths: u64,
    pub total_memory_bytes: u64,
    pub used_memory_bytes: u64,
    pub total_swap_bytes: u64,
    pub used_swap_bytes: u64,
    pub host_name: Option<String>,
    pub os_name: Option<String>,
    pub kernel_version: Option<String>,
    pub uptime_seconds: u64,
    pub boot_time_seconds: u64,
    /// The machine architecture name.
    pub arch: String,
    pub processes: Vec<ProcessSample>,
    pub interfaces: Vec<InterfaceSample>,
    pub addresses: Vec<AddrEntry>,
}

} // verus!
