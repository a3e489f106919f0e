//! The probe boundary: the types that carry raw readings from the operating
//! system into the snapshot logic, and the trusted wrappers around the
//! `sysinfo` and `chrono` calls that produce them.

use vstd::prelude::*;

verus! {

/// Raw description of one logical processor as the probe reports it:
/// identity strings, utilization and clock.
///
/// `cpu_usage` carries the utilization percentage as the bit pattern of an
/// IEEE 754 single-precision number. The snapshot logic only stores and
/// copies it; display code turns it back into a number.
pub struct RawCpu {
    pub name: String,
    pub vendor_id: String,
    pub brand: String,
    pub cpu_usage: u32,
    pub frequency: u64,
}

/// One consistent set of probe values: everything a full load or a reload
/// consumes. A test can fill this in by hand to stand in for the machine.
pub struct ProbeReadings {
    pub cpus: Vec<RawCpu>,
    pub physical_core_count: Option<usize>,
    pub global_cpu_usage: u32,
    pub available_memory: u64,
    pub used_memory: u64,
    pub total_memory: u64,
    pub boot_time: u64,
    pub uptime: u64,
    pub process_count: usize,
}

#[verifier::external_type_specification]
#[verifier::external_body]
pub struct ExSystem(sysinfo::System);

#[verifier::external_type_specification]
#[verifier::external_body]
pub struct ExNaiveDateTime(chrono::NaiveDateTime);

/// Relies on `sysinfo::System::new`: a handle with no category refreshed yet.
#[verifier::external_body]
pub(crate) fn sys_new() -> sysinfo::System {
    sysinfo::System::new()
}

/// Relies on `sysinfo::System::new_all`: a handle with every category
/// refreshed once.
#[verifier::external_body]
pub(crate) fn sys_new_all() -> sysinfo::System {
    sysinfo::System::new_all()
}

/// Relies on `sysinfo::System::refresh_all` to re-read every category.
#[verifier::external_body]
pub(crate) fn refresh_all(sys: &mut sysinfo::System) {
    sys.refresh_all()
}

/// Relies on `sysinfo::System::refresh_cpu_all` to re-read all CPU data.
#[verifier::external_body]
pub(crate) fn refresh_cpu_all(sys: &mut sysinfo::System) {
    sys.refresh_cpu_all()
}

/// Relies on `sysinfo::System::refresh_cpu_usage` to take one utilization
/// observation; two of them separated by the minimum interval make a sample.
#[verifier::external_body]
pub(crate) fn refresh_cpu_usage(sys: &mut sysinfo::System) {
    sys.refresh_cpu_usage()
}

/// Relies on `sysinfo::System::cpus` for the ordered list of logical
/// processors, and on `Cpu::{name, vendor_id, brand, cpu_usage, frequency}`
/// for each entry's fields; the utilization is carried as its bit pattern.
#[verifier::external_body]
pub(crate) fn read_cpus(sys: &sysinfo::System) -> Vec<RawCpu> {
    sys.cpus()
        .iter()
        .map(|c| RawCpu {
            name: c.name().to_string(),
            vendor_id: c.vendor_id().to_string(),
            brand: c.brand().to_string(),
            cpu_usage: c.cpu_usage().to_bits(),
            frequency: c.frequency(),
        })
        .collect()
}

/// Relies on `sysinfo::System::global_cpu_usage` for the whole-machine
/// utilization percentage, carried as its bit pattern.
#[verifier::external_body]
pub(crate) fn global_cpu_usage_bits(sys: &sysinfo::System) -> u32 {
    sys.global_cpu_usage().to_bits()
}

/// Relies on `sysinfo::System::physical_core_count`, which reports the
/// physical core count or `None` where the platform cannot tell.
#[verifier::external_body]
pub(crate) fn physical_core_count() -> Option<usize> {
    sysinfo::System::physical_core_count()
}

/// Relies on `sysinfo::System::available_memory`: bytes available, per the OS.
#[verifier::external_body]
pub(crate) fn available_memory(sys: &sysinfo::System) -> u64 {
    sys.available_memory()
}

/// Relies on `sysinfo::System::used_memory`: bytes in use, per the OS.
#[verifier::external_body]
pub(crate) fn used_memory(sys: &sysinfo::System) -> u64 {
    sys.used_memory()
}

/// Relies on `sysinfo::System::total_memory`: bytes installed, per the OS.
#[verifier::external_body]
pub(crate) fn total_memory(sys: &sysinfo::System) -> u64 {
    sys.total_memory()
}

/// Relies on `sysinfo::System::boot_time`: epoch seconds at which the
/// machine booted.
#[verifier::external_body]
pub(crate) fn boot_time_now() -> u64 {
    sysinfo::System::boot_time()
}

/// Relies on `sysinfo::System::uptime`: seconds elapsed since boot.
#[verifier::external_body]
pub(crate) fn uptime_now() -> u64 {
    sysinfo::System::uptime()
}

/// Relies on `sysinfo::System::processes`; the wrapper hands out only the
/// number of entries in that table.
#[verifier::external_body]
pub(crate) fn process_count(sys: &sysinfo::System) -> usize {
    sys.processes().len()
}

/// Smallest number of epoch seconds that maps to a civil time.
pub const MIN_TIMESTAMP_SECS: i64 = -8334601228800;

/// Largest number of epoch seconds that maps to a civil time.
pub const MAX_TIMESTAMP_SECS: i64 = 8210266876799;

/// Whether an epoch-second count maps to a valid civil time: the bounds are
/// those of `chrono`'s supported year range.
pub open spec fn timestamp_representable(secs: i64) -> bool {
    MIN_TIMESTAMP_SECS <= secs <= MAX_TIMESTAMP_SECS
}

/// Relies on `chrono::DateTime::<Utc>::from_timestamp`, which returns a civil
/// time exactly when the seconds fall in `chrono`'s supported range
/// ("Returns `None` on out-of-range number of seconds"), and on
/// `DateTime::<Utc>::naive_local`, which for UTC merely drops the zone marker.
#[verifier::external_body]
pub(crate) fn timestamp_to_local(secs: i64) -> (r: Option<chrono::NaiveDateTime>)
    ensures
        r is Some <==> timestamp_representable(secs),
{
    match chrono::DateTime::from_timestamp(secs, 0) {
        Some(utc) => Some(utc.naive_local()),
        None => None,
    }
}

} // verus!
