//! System information: a snapshot of CPU, memory, disk, network and basic
//! host data, with human-readable renderings of sizes and durations. The
//! snapshot values come from the running machine, so nothing is promised of
//! them; what the library computes from a snapshot is exact.

use sysinfo::{Disks, MemoryRefreshKind, Networks, RefreshKind, System};
use vstd::prelude::*;
use vstd::string::StringExecFns;

use crate::text::{append_dec, dec_of, digit_char};

verus! {

/// One kibibyte.
pub const KB: u64 = 1024;

/// One mebibyte.
pub const MB: u64 = 1024 * 1024;

/// One gibibyte.
pub const GB: u64 = 1024 * 1024 * 1024;

/// One tebibyte.
pub const TB: u64 = 1024 * 1024 * 1024 * 1024;

/// One disk: its identity and its space figures in bytes.
#[derive(Debug)]
pub struct DiskInfo {
    /// The disk's name.
    pub name: String,
    /// Where the disk is mounted.
    pub mount_point: String,
    /// The file system's name.
    pub file_system: String,
    /// Total capacity in bytes.
    pub total: u64,
    /// Available space in bytes.
    pub available: u64,
    /// Whether the disk is removable.
    pub is_removable: bool,
}

/// One network interface: its name and its traffic counters.
#[derive(Debug)]
pub struct NetworkInfo {
    /// The interface name.
    pub name: String,
    /// Total bytes received.
    pub received: u64,
    /// Total bytes transmitted.
    pub transmitted: u64,
    /// Total packets received.
    pub packets_received: u64,
    /// Total packets transmitted.
    pub packets_transmitted: u64,
}

/// Basic host information.
#[derive(Debug)]
pub struct BasicSystemInfo {
    /// Operating system name.
    pub os_name: String,
    /// Operating system version.
    pub os_version: String,
    /// Kernel version.
    pub kernel_version: String,
    /// Host name.
    pub hostname: String,
    /// Processor architecture.
    pub arch: String,
    /// Seconds since boot.
    pub uptime: u64,
}

/// Reads the CPU figures of this machine: logical core count, physical core
/// count, brand, and frequency in MHz. Relies on `sysinfo::System` with CPU
/// refresh, `System::physical_core_count`, `Cpu::brand` and
/// `Cpu::frequency`; the values depend on the machine, so nothing is
/// promised of them.
#[verifier::external_body]
fn read_cpu() -> (usize, Option<usize>, String, u64) {
    let sys = System::new_with_specifics(
        RefreshKind::nothing().with_cpu(sysinfo::CpuRefreshKind::everything()),
    );
    let brand = sys.cpus().first().map(|c| c.brand().to_string()).unwrap_or_default();
    let frequency = sys.cpus().first().map(|c| c.frequency()).unwrap_or(0);
    (sys.cpus().len(), System::physical_core_count(), brand, frequency)
}

/// Reads the memory figures of this machine: total, used and available
/// memory, then total and used swap, all in bytes. Relies on
/// `sysinfo::System` with memory refresh; the values depend on the machine,
/// so nothing is promised of them.
#[verifier::external_body]
fn read_memory() -> (u64, u64, u64, u64, u64) {
    let sys = System::new_with_specifics(
        RefreshKind::nothing().with_memory(MemoryRefreshKind::everything()),
    );
    (
        sys.total_memory(),
        sys.used_memory(),
        sys.available_memory(),
        sys.total_swap(),
        sys.used_swap(),
    )
}

/// Reads the disks of this machine. Relies on
/// `sysinfo::Disks::new_with_refreshed_list` and the per-disk getters; the
/// values depend on the machine, so nothing is promised of them.
#[verifier::external_body]
fn read_disks() -> Vec<DiskInfo> {
    Disks::new_with_refreshed_list().list().iter().map(
        |d| DiskInfo {
            name: d.name().to_string_lossy().into_owned(),
            mount_point: d.mount_point().to_string_lossy().into_owned(),
            file_system: d.file_system().to_string_lossy().into_owned(),
            total: d.total_space(),
            available: d.available_space(),
            is_removable: d.is_removable(),
        },
    ).collect()
}

/// Reads the network interfaces of this machine, in no particular order.
/// Relies on `sysinfo::Networks::new_with_refreshed_list` and the per-
/// interface counters; the values depend on the machine, so nothing is
/// promised of them.
#[verifier::external_body]
fn read_networks() -> Vec<NetworkInfo> {
    Networks::new_with_refreshed_list().list().iter().map(
        |(name, data)| NetworkInfo {
            name: name.to_string(),
            received: data.total_received(),
            transmitted: data.total_transmitted(),
            packets_received: data.total_packets_received(),
            packets_transmitted: data.total_packets_transmitted(),
        },
    ).collect()
}

/// Reads the basic host information. Relies on `sysinfo::System`'s static
/// getters; the values depend on the machine, so nothing is promised of
/// them. Unknown values read as `Unknown`.
#[verifier::external_body]
fn read_basic() -> BasicSystemInfo {
    BasicSystemInfo {
        os_name: System::name().unwrap_or_else(|| "Unknown".to_string()),
        os_version: System::os_version().unwrap_or_else(|| "Unknown".to_string()),
        kernel_version: System::kernel_version().unwrap_or_else(|| "Unknown".to_string()),
        hostname: System::host_name().unwrap_or_else(|| "Unknown".to_string()),
        arch: System::cpu_arch(),
        uptime: System::uptime(),
    }
}

/// Reads the seconds since boot. Relies on `sysinfo::System::uptime`; the
/// value depends on the machine, so nothing is promised of it.
#[verifier::external_body]
fn read_uptime() -> u64 {
    System::uptime()
}

/// A snapshot of this machine's figures, taken when the value is created or
/// refreshed. The getters read the snapshot; the refresh methods replace one
/// part of it and leave the rest as it was.
#[derive(Debug)]
pub struct SystemInfo {
    /// Logical core count.
    pub cpu_count_v: usize,
    /// Physical core count, when known.
    pub cpu_physical_count_v: Option<usize>,
    /// CPU brand string; empty when unknown.
    pub cpu_brand_v: String,
    /// CPU frequency in MHz; zero when unknown.
    pub cpu_frequency_v: u64,
    /// Total memory in bytes.
    pub memory_total_v: u64,
    /// Used memory in bytes.
    pub memory_used_v: u64,
    /// Available memory in bytes.
    pub memory_available_v: u64,
    /// Total swap in bytes.
    pub swap_total_v: u64,
    /// Used swap in bytes.
    pub swap_used_v: u64,
    /// The disks.
    pub disks_v: Vec<DiskInfo>,
    /// The network interfaces.
    pub networks_v: Vec<NetworkInfo>,
    /// Basic host information.
    pub basic_v: BasicSystemInfo,
}

impl SystemInfo {
    /// Takes a full snapshot: CPU, memory, disks, networks and host data.
    pub fn new() -> Self {
        let (cpu_count_v, cpu_physical_count_v, cpu_brand_v, cpu_frequency_v) = read_cpu();
        let (memory_total_v, memory_used_v, memory_available_v, swap_total_v, swap_used_v) =
            read_memory();
        Self {
            cpu_count_v,
            cpu_physical_count_v,
            cpu_brand_v,
            cpu_frequency_v,
            memory_total_v,
            memory_used_v,
            memory_available_v,
            swap_total_v,
            swap_used_v,
            disks_v: read_disks(),
            networks_v: read_networks(),
            basic_v: read_basic(),
        }
    }

    /// Takes a light snapshot: CPU, memory and host data, with no disks and
    /// no network interfaces.
    pub fn new_light() -> (r: Self)
        ensures
            r.disks_v@.len() == 0,
            r.networks_v@.len() == 0,
    {
        let (cpu_count_v, cpu_physical_count_v, cpu_brand_v, cpu_frequency_v) = read_cpu();
        let (memory_total_v, memory_used_v, memory_available_v, swap_total_v, swap_used_v) =
            read_memory();
        Self {
            cpu_count_v,
            cpu_physical_count_v,
            cpu_brand_v,
            cpu_frequency_v,
            memory_total_v,
            memory_used_v,
            memory_available_v,
            swap_total_v,
            swap_used_v,
            disks_v: Vec::new(),
            networks_v: Vec::new(),
            basic_v: read_basic(),
        }
    }

    /// Replaces the whole snapshot.
    pub fn refresh(&mut self) {
        let fresh = Self::new();
        *self = fresh;
    }

    /// Replaces the CPU part of the snapshot; the rest stays as it was.
    pub fn refresh_cpu(&mut self)
        ensures
            final(self).memory_total_v == old(self).memory_total_v,
            final(self).memory_used_v == old(self).memory_used_v,
            final(self).memory_available_v == old(self).memory_available_v,
            final(self).swap_total_v == old(self).swap_total_v,
            final(self).swap_used_v == old(self).swap_used_v,
            final(self).disks_v == old(self).disks_v,
            final(self).networks_v == old(self).networks_v,
            final(self).basic_v == old(self).basic_v,
    {
        let (cpu_count_v, cpu_physical_count_v, cpu_brand_v, cpu_frequency_v) = read_cpu();
        self.cpu_count_v = cpu_count_v;
        self.cpu_physical_count_v = cpu_physical_count_v;
        self.cpu_brand_v = cpu_brand_v;
        self.cpu_frequency_v = cpu_frequency_v;
    }

    /// Replaces the memory part of the snapshot; the rest stays as it was.
    pub fn refresh_memory(&mut self)
        ensures
            final(self).cpu_count_v == old(self).cpu_count_v,
            final(self).cpu_physical_count_v == old(self).cpu_physical_count_v,
            final(self).cpu_brand_v == old(self).cpu_brand_v,
            final(self).cpu_frequency_v == old(self).cpu_frequency_v,
            final(self).disks_v == old(self).disks_v,
            final(self).networks_v == old(self).networks_v,
            final(self).basic_v == old(self).basic_v,
    {
        let (memory_total_v, memory_used_v, memory_available_v, swap_total_v, swap_used_v) =
            read_memory();
        self.memory_total_v = memory_total_v;
        self.memory_used_v = memory_used_v;
        self.memory_available_v = memory_available_v;
        self.swap_total_v = swap_total_v;
        self.swap_used_v = swap_used_v;
    }

    /// Replaces the disk part of the snapshot; the rest stays as it was.
    pub fn refresh_disks(&mut self)
        ensures
            final(self).networks_v == old(self).networks_v,
            final(self).basic_v == old(self).basic_v,
            final(self).memory_total_v == old(self).memory_total_v,
            final(self).cpu_count_v == old(self).cpu_count_v,
    {
        self.disks_v = read_disks();
    }

    /// Replaces the network part of the snapshot; the rest stays as it was.
    pub fn refresh_networks(&mut self)
        ensures
            final(self).disks_v == old(self).disks_v,
            final(self).basic_v == old(self).basic_v,
            final(self).memory_total_v == old(self).memory_total_v,
            final(self).cpu_count_v == old(self).cpu_count_v,
    {
        self.networks_v = read_networks();
    }

    /// Logical core count, from the snapshot.
    pub fn cpu_count(&self) -> (r: usize)
        ensures
            r == self.cpu_count_v,
    {
        self.cpu_count_v
    }

    /// Physical core count, from the snapshot, when known.
    pub fn cpu_physical_count(&self) -> (r: Option<usize>)
        ensures
            r == self.cpu_physical_count_v,
    {
        self.cpu_physical_count_v
    }

    /// CPU brand, from the snapshot; empty when unknown.
    pub fn cpu_brand(&self) -> (r: String)
        ensures
            r@ == self.cpu_brand_v@,
    {
        self.cpu_brand_v.clone()
    }

    /// CPU frequency in MHz, from the snapshot; zero when unknown.
    pub fn cpu_frequency(&self) -> (r: u64)
        ensures
            r == self.cpu_frequency_v,
    {
        self.cpu_frequency_v
    }

    /// Total memory in bytes, from the snapshot.
    pub fn memory_total(&self) -> (r: u64)
        ensures
            r == self.memory_total_v,
    {
        self.memory_total_v
    }

    /// Used memory in bytes, from the snapshot.
    pub fn memory_used(&self) -> (r: u64)
        ensures
            r == self.memory_used_v,
    {
        self.memory_used_v
    }

    /// Available memory in bytes, from the snapshot.
    pub fn memory_available(&self) -> (r: u64)
        ensures
            r == self.memory_available_v,
    {
        self.memory_available_v
    }

    /// Total swap in bytes, from the snapshot.
    pub fn swap_total(&self) -> (r: u64)
        ensures
            r == self.swap_total_v,
    {
        self.swap_total_v
    }

    /// Used swap in bytes, from the snapshot.
    pub fn swap_used(&self) -> (r: u64)
        ensures
            r == self.swap_used_v,
    {
        self.swap_used_v
    }

    /// The disks, from the snapshot.
    pub fn disks(&self) -> (r: Vec<DiskInfo>)
        ensures
            r@ == self.disks_v@,
    {
        let mut out: Vec<DiskInfo> = Vec::new();
        let mut i: usize = 0;
        while i < self.disks_v.len()
            invariant
                0 <= i <= self.disks_v@.len(),
                out@ =~= self.disks_v@.subrange(0, i as int),
            decreases self.disks_v@.len() - i,
        {
            out.push(clone_disk(&self.disks_v[i]));
            i = i + 1;
        }
        proof {
            assert(out@ =~= self.disks_v@);
        }
        out
    }

    /// The number of disks in the snapshot.
    pub fn disk_count(&self) -> (r: usize)
        ensures
            r == self.disks_v@.len(),
    {
        self.disks_v.len()
    }

    /// The network interfaces, from the snapshot.
    pub fn networks(&self) -> (r: Vec<NetworkInfo>)
        ensures
            r@ == self.networks_v@,
    {
        let mut out: Vec<NetworkInfo> = Vec::new();
        let mut i: usize = 0;
        while i < self.networks_v.len()
            invariant
                0 <= i <= self.networks_v@.len(),
                out@ =~= self.networks_v@.subrange(0, i as int),
            decreases self.networks_v@.len() - i,
        {
            out.push(clone_network(&self.networks_v[i]));
            i = i + 1;
        }
        proof {
            assert(out@ =~= self.networks_v@);
        }
        out
    }

    /// The number of network interfaces in the snapshot.
    pub fn network_count(&self) -> (r: usize)
        ensures
            r == self.networks_v@.len(),
    {
        self.networks_v.len()
    }

    /// The first interface of the given name, from the snapshot.
    #[verifier::loop_isolation(false)]
    pub fn network(&self, name: &str) -> (r: Option<NetworkInfo>)
        ensures
            r is Some <==> spec_find_network(self.networks_v@, name@) is Some,
            r matches Some(v) ==> spec_find_network(self.networks_v@, name@) == Some(v),
    {
        proof {
            assert(self.networks_v@.skip(0) =~= self.networks_v@);
        }
        let needle = String::from_str(name);
        let mut i: usize = 0;
        while i < self.networks_v.len()
            invariant
                0 <= i <= self.networks_v@.len(),
                spec_find_network(self.networks_v@, name@) == spec_find_network(
                    self.networks_v@.skip(i as int),
                    name@,
                ),
            decreases self.networks_v@.len() - i,
        {
            proof {
                assert(self.networks_v@.skip(i as int)[0] == self.networks_v@[i as int]);
                assert(self.networks_v@.skip(i as int).skip(1) =~= self.networks_v@.skip(i + 1));
            }
            if self.networks_v[i].name.eq(&needle) {
                return Some(clone_network(&self.networks_v[i]));
            }
            i = i + 1;
        }
        proof {
            assert(self.networks_v@.skip(i as int) =~= Seq::<NetworkInfo>::empty());
        }
        None
    }

    /// Operating system name, from the snapshot.
    pub fn os_name(&self) -> (r: String)
        ensures
            r@ == self.basic_v.os_name@,
    {
        self.basic_v.os_name.clone()
    }

    /// Operating system version, from the snapshot.
    pub fn os_version(&self) -> (r: String)
        ensures
            r@ == self.basic_v.os_version@,
    {
        self.basic_v.os_version.clone()
    }

    /// Kernel version, from the snapshot.
    pub fn kernel_version(&self) -> (r: String)
        ensures
            r@ == self.basic_v.kernel_version@,
    {
        self.basic_v.kernel_version.clone()
    }

    /// Host name, from the snapshot.
    pub fn hostname(&self) -> (r: String)
        ensures
            r@ == self.basic_v.hostname@,
    {
        self.basic_v.hostname.clone()
    }

    /// Seconds since boot, from the snapshot.
    pub fn uptime(&self) -> (r: u64)
        ensures
            r == self.basic_v.uptime,
    {
        self.basic_v.uptime
    }

    /// The snapshot's uptime, rendered with its largest meaningful units.
    pub fn uptime_human(&self) -> (r: String)
        ensures
            r@ == spec_humanize_duration(self.basic_v.uptime as int),
    {
        humanize_duration(self.basic_v.uptime)
    }

    /// Processor architecture, from the snapshot.
    pub fn arch(&self) -> (r: String)
        ensures
            r@ == self.basic_v.arch@,
    {
        self.basic_v.arch.clone()
    }

    /// The basic host information, from the snapshot.
    pub fn system_info(&self) -> (r: BasicSystemInfo)
        ensures
            r == self.basic_v,
    {
        clone_basic(&self.basic_v)
    }
}

/// The first interface of the given name.
pub open spec fn spec_find_network(s: Seq<NetworkInfo>, name: Seq<char>) -> Option<NetworkInfo>
    decreases s.len(),
{
    if s.len() == 0 {
        None
    } else if s[0].name@ == name {
        Some(s[0])
    } else {
        spec_find_network(s.skip(1), name)
    }
}

/// Copies one disk record.
fn clone_disk(d: &DiskInfo) -> (r: DiskInfo)
    ensures
        r == *d,
{
    DiskInfo {
        name: d.name.clone(),
        mount_point: d.mount_point.clone(),
        file_system: d.file_system.clone(),
        total: d.total,
        available: d.available,
        is_removable: d.is_removable,
    }
}

/// Copies one interface record.
fn clone_network(n: &NetworkInfo) -> (r: NetworkInfo)
    ensures
        r == *n,
{
    NetworkInfo {
        name: n.name.clone(),
        received: n.received,
        transmitted: n.transmitted,
        packets_received: n.packets_received,
        packets_transmitted: n.packets_transmitted,
    }
}

/// Copies the basic host record.
fn clone_basic(b: &BasicSystemInfo) -> (r: BasicSystemInfo)
    ensures
        r == *b,
{
    BasicSystemInfo {
        os_name: b.os_name.clone(),
        os_version: b.os_version.clone(),
        kernel_version: b.kernel_version.clone(),
        hostname: b.hostname.clone(),
        arch: b.arch.clone(),
        uptime: b.uptime,
    }
}

impl DiskInfo {
    /// Used space: capacity minus available space, never below zero.
    pub fn used(&self) -> (r: u64)
        ensures
            r == if self.available <= self.total {
                self.total - self.available
            } else {
                0
            },
    {
        if self.available <= self.total {
            self.total - self.available
        } else {
            0
        }
    }

    /// The capacity, rendered as a size.
    pub fn total_human(&self) -> (r: String)
        ensures
            r@ == spec_humanize_bytes(self.total),
    {
        humanize_bytes(self.total)
    }

    /// The available space, rendered as a size.
    pub fn available_human(&self) -> (r: String)
        ensures
            r@ == spec_humanize_bytes(self.available),
    {
        humanize_bytes(self.available)
    }

    /// The used space, rendered as a size.
    pub fn used_human(&self) -> (r: String)
        ensures
            r@ == spec_humanize_bytes(
                if self.available <= self.total {
                    (self.total - self.available) as u64
                } else {
                    0
                },
            ),
    {
        humanize_bytes(self.used())
    }
}

impl NetworkInfo {
    /// The received byte count, rendered as a size.
    pub fn received_human(&self) -> (r: String)
        ensures
            r@ == spec_humanize_bytes(self.received),
    {
        humanize_bytes(self.received)
    }

    /// The transmitted byte count, rendered as a size.
    pub fn transmitted_human(&self) -> (r: String)
        ensures
            r@ == spec_humanize_bytes(self.transmitted),
    {
        humanize_bytes(self.transmitted)
    }
}

impl BasicSystemInfo {
    /// The uptime, rendered with its largest meaningful units.
    pub fn uptime_human(&self) -> (r: String)
        ensures
            r@ == spec_humanize_duration(self.uptime as int),
    {
        humanize_duration(self.uptime)
    }
}

/// Quick read of the logical core count; the value depends on the machine.
pub fn cpu_count() -> usize {
    let (count, _, _, _) = read_cpu();
    count
}

/// Quick read of the total memory in bytes; the value depends on the
/// machine.
pub fn memory_total() -> u64 {
    let (total, _, _, _, _) = read_memory();
    total
}

/// Quick read of the used memory in bytes; the value depends on the machine.
pub fn memory_used() -> u64 {
    let (_, used, _, _, _) = read_memory();
    used
}

/// Quick read of the host name; the value depends on the machine.
pub fn hostname() -> String {
    read_basic().hostname
}

/// Quick read of the operating system name; the value depends on the
/// machine.
pub fn os_name() -> String {
    read_basic().os_name
}

/// Quick read of the seconds since boot; the value depends on the machine.
pub fn uptime() -> u64 {
    read_uptime()
}

/// A whole-and-hundredths reading of `bytes` in the given unit, rounded half
/// up: the pair of the whole part and the two-decimal fraction.
pub open spec fn spec_scaled(bytes: int, unit: int) -> (int, int)
    recommends
        unit >= 2,
{
    let whole = bytes / unit;
    let frac = ((bytes % unit) * 100 + unit / 2) / unit;
    if frac == 100 {
        (whole + 1, 0)
    } else {
        (whole, frac)
    }
}

/// A whole-and-hundredths value rendered as text: the whole part, a dot, and
/// exactly two fraction digits.
pub open spec fn spec_two_dec(v: (int, int)) -> Seq<char>
    recommends
        0 <= v.0,
        0 <= v.1 < 100,
{
    dec_of(v.0 as nat) + seq!['.', digit_char((v.1 / 10) as nat), digit_char((v.1 % 10) as nat)]
}

/// The human rendering of a byte count: scaled to the largest binary unit
/// the count reaches, with two rounded decimals, or plain bytes below one
/// kibibyte.
pub open spec fn spec_humanize_bytes(bytes: u64) -> Seq<char> {
    if bytes >= TB {
        spec_two_dec(spec_scaled(bytes as int, TB as int)) + " TB"@
    } else if bytes >= GB {
        spec_two_dec(spec_scaled(bytes as int, GB as int)) + " GB"@
    } else if bytes >= MB {
        spec_two_dec(spec_scaled(bytes as int, MB as int)) + " MB"@
    } else if bytes >= KB {
        spec_two_dec(spec_scaled(bytes as int, KB as int)) + " KB"@
    } else {
        dec_of(bytes as nat) + " B"@
    }
}

/// Appends the whole-and-hundredths reading of `bytes` in `unit`.
fn append_scaled(out: &mut String, bytes: u64, unit: u64)
    requires
        2 <= unit <= TB,
        unit % 2 == 0,
    ensures
        final(out)@ == old(out)@ + spec_two_dec(spec_scaled(bytes as int, unit as int)),
{
    let whole = bytes / unit;
    let rem = bytes % unit;
    proof {
        assert(rem < unit);
        assert(rem * 100 <= (unit - 1) * 100) by (nonlinear_arith)
            requires
                rem <= unit - 1,
                rem >= 0,
        ;
        vstd::arithmetic::div_mod::lemma_div_is_ordered_by_denominator(bytes as int, 2, unit as int);
    }
    let frac = (rem * 100 + unit / 2) / unit;
    proof {
        let x = (rem * 100 + unit / 2) as int;
        vstd::arithmetic::div_mod::lemma_fundamental_div_mod(x, unit as int);
        assert(frac <= 100) by (nonlinear_arith)
            requires
                unit >= 2,
                (unit as int) * (frac as int) <= x,
                x < 101 * (unit as int),
        ;
    }
    let (whole, frac): (u64, u64) = if frac == 100 {
        (whole + 1, 0)
    } else {
        (whole, frac)
    };
    append_dec(out, whole);
    out.append(".");
    proof {
        reveal_strlit(".");
    }
    let d1 = frac / 10;
    let d2 = frac % 10;
    crate::text::append_digit(out, d1);
    crate::text::append_digit(out, d2);
    proof {
        assert(final(out)@ =~= old(out)@ + spec_two_dec(spec_scaled(bytes as int, unit as int)));
    }
}

/// Renders a byte count: scaled to the largest binary unit it reaches, with
/// two rounded decimals, or plain bytes below one kibibyte.
pub fn humanize_bytes(bytes: u64) -> (r: String)
    ensures
        r@ == spec_humanize_bytes(bytes),
{
    let mut out = String::new();
    if bytes >= TB {
        append_scaled(&mut out, bytes, TB);
        out.append(" TB");
    } else if bytes >= GB {
        append_scaled(&mut out, bytes, GB);
        out.append(" GB");
    } else if bytes >= MB {
        append_scaled(&mut out, bytes, MB);
        out.append(" MB");
    } else if bytes >= KB {
        append_scaled(&mut out, bytes, KB);
        out.append(" KB");
    } else {
        append_dec(&mut out, bytes);
        out.append(" B");
    }
    proof {
        assert(out@ =~= spec_humanize_bytes(bytes));
    }
    out
}

/// The human rendering of a duration in seconds: the two or three largest
/// units that are meaningful at its magnitude.
pub open spec fn spec_humanize_duration(seconds: int) -> Seq<char>
    recommends
        seconds >= 0,
{
    let days = seconds / 86400;
    let hours = (seconds % 86400) / 3600;
    let minutes = (seconds % 3600) / 60;
    let secs = seconds % 60;
    if days > 0 {
        dec_of(days as nat) + "天"@ + dec_of(hours as nat) + "小时"@ + dec_of(minutes as nat)
            + "分钟"@
    } else if hours > 0 {
        dec_of(hours as nat) + "小时"@ + dec_of(minutes as nat) + "分钟"@
    } else if minutes > 0 {
        dec_of(minutes as nat) + "分钟"@ + dec_of(secs as nat) + "秒"@
    } else {
        dec_of(secs as nat) + "秒"@
    }
}

/// Renders a duration in seconds with its largest meaningful units.
pub fn humanize_duration(seconds: u64) -> (r: String)
    ensures
        r@ == spec_humanize_duration(seconds as int),
{
    let days = seconds / 86400;
    let hours = (seconds % 86400) / 3600;
    let minutes = (seconds % 3600) / 60;
    let secs = seconds % 60;

    let mut out = String::new();
    if days > 0 {
        append_dec(&mut out, days);
        out.append("天");
        append_dec(&mut out, hours);
        out.append("小时");
        append_dec(&mut out, minutes);
        out.append("分钟");
    } else if hours > 0 {
        append_dec(&mut out, hours);
        out.append("小时");
        append_dec(&mut out, minutes);
        out.append("分钟");
    } else if minutes > 0 {
        append_dec(&mut out, minutes);
        out.append("分钟");
        append_dec(&mut out, secs);
        out.append("秒");
    } else {
        append_dec(&mut out, secs);
        out.append("秒");
    }
    proof {
        assert(out@ =~= spec_humanize_duration(seconds as int));
    }
    out
}

} // verus!
