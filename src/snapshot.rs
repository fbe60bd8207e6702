//! The host snapshot: raw readings of the machine in, display values out.

use vstd::prelude::*;
use vstd::string::*;
use crate::gigabytes::{gb_tenths, tenths_of_gb};
use crate::uptime::{format_uptime, uptime_text};

verus! {

/// Capacity of one mounted device, in bytes.
#[derive(Clone, Copy, Debug, PartialEq, Eq, Structural)]
pub struct DiskSpace {
    pub total: u64,
    pub available: u64,
}

/// What the metrics source reported for one request. Names it could not
/// determine are `None`; `cpu_brands` holds one brand string per core.
pub struct HostReadings {
    pub os_name: Option<String>,
    pub kernel_version: Option<String>,
    pub host_name: Option<String>,
    pub cpu_brands: Vec<String>,
    pub uptime_seconds: u64,
    pub total_memory: u64,
    pub used_memory: u64,
    pub disks: Vec<DiskSpace>,
}

/// The display-ready record. Sizes are counts of tenths of a binary
/// gigabyte, so `total_memory_gb_tenths == 163` reads as 16.3 GB.
pub struct HostSnapshot {
    pub os_name: String,
    pub kernel_version: String,
    pub host_name: String,
    pub cpu_name: String,
    pub total_memory_gb_tenths: u128,
    pub used_memory_gb_tenths: u128,
    pub total_disk_gb_tenths: u128,
    pub available_disk_gb_tenths: u128,
    pub uptime_formatted: String,
}

/// The text put in place of a name that the metrics source did not report.
pub open spec fn unknown_text() -> Seq<char> {
    seq!['U', 'n', 'k', 'n', 'o', 'w', 'n']
}

/// The reported name, or `"Unknown"` when there is none.
pub open spec fn name_or_unknown(v: Option<String>) -> Seq<char> {
    match v {
        Some(s) => s@,
        None => unknown_text(),
    }
}

/// The brand of the first core, or `"Unknown"` when no core was reported.
pub open spec fn cpu_name_of(brands: Seq<String>) -> Seq<char> {
    if brands.len() > 0 {
        brands[0]@
    } else {
        unknown_text()
    }
}

/// Total bytes over all devices.
pub open spec fn total_space(disks: Seq<DiskSpace>) -> nat
    decreases disks.len(),
{
    if disks.len() == 0 {
        0
    } else {
        total_space(disks.drop_last()) + disks.last().total as nat
    }
}

/// Available bytes over all devices.
pub open spec fn available_space(disks: Seq<DiskSpace>) -> nat
    decreases disks.len(),
{
    if disks.len() == 0 {
        0
    } else {
        available_space(disks.drop_last()) + disks.last().available as nat
    }
}

/// The string `"Unknown"`.
pub fn unknown() -> (r: String)
    ensures
        r@ == unknown_text(),
{
    proof {
        reveal_strlit("Unknown");
    }
    String::from_str("Unknown")
}

/// The reported name, or `"Unknown"` when there is none.
pub fn or_unknown(v: Option<String>) -> (r: String)
    ensures
        r@ == name_or_unknown(v),
{
    match v {
        Some(s) => s,
        None => unknown(),
    }
}

/// The brand of the first core, or `"Unknown"` when the list is empty.
pub fn first_cpu_name(brands: &Vec<String>) -> (r: String)
    ensures
        r@ == cpu_name_of(brands@),
{
    if brands.len() > 0 {
        brands[0].clone()
    } else {
        unknown()
    }
}

/// Sums total and available bytes over every device; an empty list gives
/// zero for both. The sums are wide enough that they cannot overflow.
pub fn sum_disks(disks: &Vec<DiskSpace>) -> (r: (u128, u128))
    ensures
        r.0 == total_space(disks@),
        r.1 == available_space(disks@),
{
    let mut total: u128 = 0;
    let mut available: u128 = 0;
    let mut i: usize = 0;
    while i < disks.len()
        invariant
            i <= disks.len(),
            total == total_space(disks@.take(i as int)),
            available == available_space(disks@.take(i as int)),
            total <= i * 0xffff_ffff_ffff_ffffu128,
            available <= i * 0xffff_ffff_ffff_ffffu128,
        decreases disks.len() - i,
    {
        let d = disks[i];
        assert(disks@.take(i + 1).drop_last() =~= disks@.take(i as int));
        proof {
            let m = 0xffff_ffff_ffff_ffffu128 as int;
            assert((i + 1) * m == i * m + m) by (nonlinear_arith);
            assert((i + 1) * m <= u128::MAX) by (nonlinear_arith)
                requires
                    i < 0x1_0000_0000_0000_0000int,
                    m == 0xffff_ffff_ffff_ffffint,
            ;
        }
        total = total + d.total as u128;
        available = available + d.available as u128;
        i = i + 1;
    }
    assert(disks@.take(disks.len() as int) =~= disks@);
    (total, available)
}

/// Derives the display record from one set of readings: missing names
/// become `"Unknown"`, the first core names the CPU, memory and summed disk
/// sizes are rounded to tenths of a gigabyte, and the uptime is formatted.
pub fn build_snapshot(readings: HostReadings) -> (r: HostSnapshot)
    ensures
        r.os_name@ == name_or_unknown(readings.os_name),
        r.kernel_version@ == name_or_unknown(readings.kernel_version),
        r.host_name@ == name_or_unknown(readings.host_name),
        r.cpu_name@ == cpu_name_of(readings.cpu_brands@),
        r.total_memory_gb_tenths == tenths_of_gb(readings.total_memory as nat),
        r.used_memory_gb_tenths == tenths_of_gb(readings.used_memory as nat),
        r.total_disk_gb_tenths == tenths_of_gb(total_space(readings.disks@)),
        r.available_disk_gb_tenths == tenths_of_gb(available_space(readings.disks@)),
        r.uptime_formatted@ == uptime_text(readings.uptime_seconds as nat),
{
    let cpu_name = first_cpu_name(&readings.cpu_brands);
    let (total_disk, available_disk) = sum_disks(&readings.disks);
    HostSnapshot {
        os_name: or_unknown(readings.os_name),
        kernel_version: or_unknown(readings.kernel_version),
        host_name: or_unknown(readings.host_name),
        cpu_name,
        total_memory_gb_tenths: gb_tenths(readings.total_memory as u128),
        used_memory_gb_tenths: gb_tenths(readings.used_memory as u128),
        total_disk_gb_tenths: gb_tenths(total_disk),
        available_disk_gb_tenths: gb_tenths(available_disk),
        uptime_formatted: format_uptime(readings.uptime_seconds),
    }
}

} // verus!
