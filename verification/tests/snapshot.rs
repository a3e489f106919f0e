use sysmon::monitor::{ProbeError, SysResources, BYTES_PER_GB};
use sysmon::probe::{ProbeReadings, RawCpu};

fn raw(name: &str, vendor: &str, brand: &str, usage: f32, freq: u64) -> RawCpu {
    RawCpu {
        name: name.to_string(),
        vendor_id: vendor.to_string(),
        brand: brand.to_string(),
        cpu_usage: usage.to_bits(),
        frequency: freq,
    }
}

fn base_readings(cpus: Vec<RawCpu>, cc: Option<usize>) -> ProbeReadings {
    ProbeReadings {
        cpus,
        physical_core_count: cc,
        global_cpu_usage: (0.0f32).to_bits(),
        available_memory: 12 * BYTES_PER_GB,
        used_memory: 4 * BYTES_PER_GB,
        total_memory: 16 * BYTES_PER_GB,
        boot_time: 1_700_000_000,
        uptime: 3600,
        process_count: 42,
    }
}

#[test]
fn single_cpu_full_load() {
    let cpus = vec![raw("cpu0", "vend0", "brand0", 25.0, 3000)];
    let r = base_readings(cpus, Some(1));
    let mut s = SysResources::new();
    assert!(s.load_from_readings(&r).is_ok());

    assert_eq!(s.cpu.core_count, 1);
    assert_eq!(s.cpu.processes.len(), 1);
    assert_eq!(s.total_memory_gb(), 16);
    assert_eq!(s.used_memory_gb(), 4);
    assert_eq!(s.available_memory_gb(), 12);
    assert_eq!(s.cpu.frequency, 3000);
    assert_eq!(f32::from_bits(s.cpu.cpu_usage), 25.0);
    assert_eq!((s.cpu.frequency as f64) * 0.001, 3.0);
    assert_eq!(s.num_of_processes, 42);
    assert_eq!(s.boot_time, 1_700_000_000);
    assert_eq!(s.uptime, 3600);
    assert_eq!(s.cpu.name, "cpu0");
    assert_eq!(s.cpu.vendor_id, "vend0");
    assert_eq!(s.cpu.brand, "brand0");
    let child = &s.cpu.processes[0];
    assert_eq!(child.name, "cpu0");
    assert_eq!(child.core_count, 0);
    assert!(child.processes.is_empty());
}

#[test]
fn eight_children_distinct_frequencies() {
    let mut cpus = Vec::new();
    for i in 0..8u64 {
        cpus.push(raw(&format!("cpu{}", i), "vend", "brand", 10.0, 2000 + 100 * i));
    }
    let r = base_readings(cpus, Some(4));
    let mut s = SysResources::new();
    assert!(s.load_from_readings(&r).is_ok());
    assert_eq!(s.cpu.processes.len(), 8);
    for i in 0..8usize {
        assert_eq!(s.cpu.processes[i].frequency, 2000 + 100 * i as u64);
    }

    let mut reload_cpus = Vec::new();
    for i in 0..8u64 {
        let usage = if i == 3 { 99.0 } else { 10.0 };
        cpus_push_changed(&mut reload_cpus, i, usage);
    }
    let mut r2 = base_readings(reload_cpus, Some(4));
    r2.global_cpu_usage = (50.0f32).to_bits();
    s.reload_from_readings(&r2);

    assert_eq!(f32::from_bits(s.cpu.processes[3].cpu_usage), 99.0);
    assert_eq!(f32::from_bits(s.cpu.cpu_usage), 50.0);
    for i in 0..8usize {
        assert_eq!(s.cpu.processes[i].name, format!("cpu{}", i));
        assert_eq!(s.cpu.processes[i].vendor_id, "vend");
        assert_eq!(s.cpu.processes[i].brand, "brand");
    }
}

fn cpus_push_changed(v: &mut Vec<RawCpu>, i: u64, usage: f32) {
    v.push(raw(&format!("cpu{}", i), "vend", "brand", usage, 2000 + 100 * i));
}

#[test]
fn empty_cpu_list_is_fatal_on_load() {
    let r = base_readings(Vec::new(), Some(1));
    let mut s = SysResources::new();
    let res = s.load_from_readings(&r);
    assert!(matches!(res, Err(ProbeError::EmptyCpuList)));
    assert!(s.cpu.processes.is_empty());
    assert_eq!(s.cpu.core_count, 0);
}

#[test]
fn absent_core_count_recovers_to_zero() {
    let mut cpus = Vec::new();
    for i in 0..4u64 {
        cpus.push(raw(&format!("cpu{}", i), "vend", "brand", 5.0, 2400));
    }
    let r = base_readings(cpus, None);
    let mut s = SysResources::new();
    assert!(s.load_from_readings(&r).is_ok());
    assert_eq!(s.cpu.core_count, 0);
    assert_eq!(s.cpu.processes.len(), 4);
}

#[test]
fn gb_accessors_truncate_below_one_gib() {
    let cpus = vec![raw("cpu0", "vend", "brand", 1.0, 2400)];
    let mut r = base_readings(cpus, Some(1));
    r.total_memory = BYTES_PER_GB - 1;
    r.used_memory = BYTES_PER_GB - 1;
    r.available_memory = 1;
    let mut s = SysResources::new();
    assert!(s.load_from_readings(&r).is_ok());
    assert_eq!(s.total_memory_gb(), 0);
    assert_eq!(s.used_memory_gb(), 0);
    assert_eq!(s.available_memory_gb(), 0);
}

#[test]
fn gb_accessors_divide_exactly() {
    let cpus = vec![raw("cpu0", "vend", "brand", 1.0, 2400)];
    let mut r = base_readings(cpus, Some(1));
    r.total_memory = 3 * BYTES_PER_GB + 7;
    r.used_memory = 2 * BYTES_PER_GB;
    r.available_memory = BYTES_PER_GB + BYTES_PER_GB / 2;
    let mut s = SysResources::new();
    assert!(s.load_from_readings(&r).is_ok());
    assert_eq!(s.total_memory_gb(), 3);
    assert_eq!(s.used_memory_gb(), 2);
    assert_eq!(s.available_memory_gb(), 1);
}

#[test]
fn memory_figures_stay_consistent() {
    let cpus = vec![raw("cpu0", "vend", "brand", 1.0, 2400)];
    let r = base_readings(cpus, Some(1));
    let mut s = SysResources::new();
    assert!(s.load_from_readings(&r).is_ok());
    assert!(s.total_memory >= s.used_memory);
    assert!(s.total_memory >= s.available_memory);
}

#[test]
fn usage_percentages_stay_in_range() {
    let cpus = vec![
        raw("cpu0", "vend", "brand", 0.0, 2400),
        raw("cpu1", "vend", "brand", 100.0, 2400),
        raw("cpu2", "vend", "brand", 37.5, 2400),
    ];
    let r = base_readings(cpus, Some(3));
    let mut s = SysResources::new();
    assert!(s.load_from_readings(&r).is_ok());
    for child in &s.cpu.processes {
        let v = f32::from_bits(child.cpu_usage);
        assert!((0.0..=100.0).contains(&v));
    }
    let agg = f32::from_bits(s.cpu.cpu_usage);
    assert!((0.0..=100.0).contains(&agg));
}

#[test]
fn reload_keeps_child_count_with_fewer_entries() {
    let mut cpus = Vec::new();
    for i in 0..4u64 {
        cpus.push(raw(&format!("cpu{}", i), "vend", "brand", 10.0, 2000));
    }
    let r = base_readings(cpus, Some(2));
    let mut s = SysResources::new();
    assert!(s.load_from_readings(&r).is_ok());

    let shrunk = vec![raw("cpu0", "vend", "brand", 60.0, 2100), raw("cpu1", "vend", "brand", 70.0, 2200)];
    let mut r2 = base_readings(shrunk, Some(2));
    r2.global_cpu_usage = (65.0f32).to_bits();
    s.reload_from_readings(&r2);

    assert_eq!(s.cpu.processes.len(), 4);
    assert_eq!(f32::from_bits(s.cpu.processes[0].cpu_usage), 60.0);
    assert_eq!(f32::from_bits(s.cpu.processes[1].cpu_usage), 70.0);
    assert_eq!(f32::from_bits(s.cpu.processes[2].cpu_usage), 10.0);
    assert_eq!(f32::from_bits(s.cpu.processes[3].cpu_usage), 10.0);
    assert_eq!(s.cpu.processes[2].frequency, 2000);
}

#[test]
fn reload_keeps_child_count_with_more_entries() {
    let cpus = vec![raw("cpu0", "vend", "brand", 10.0, 2000)];
    let r = base_readings(cpus, Some(1));
    let mut s = SysResources::new();
    assert!(s.load_from_readings(&r).is_ok());

    let grown = vec![
        raw("cpu0", "vend", "brand", 20.0, 2100),
        raw("cpu1", "vend", "brand", 30.0, 2200),
        raw("cpu2", "vend", "brand", 40.0, 2300),
    ];
    let mut r2 = base_readings(grown, Some(1));
    r2.global_cpu_usage = (25.0f32).to_bits();
    s.reload_from_readings(&r2);

    assert_eq!(s.cpu.processes.len(), 1);
    assert_eq!(f32::from_bits(s.cpu.processes[0].cpu_usage), 20.0);
    assert_eq!(s.cpu.processes[0].frequency, 2100);
    assert_eq!(s.cpu.frequency, 2100);
}

#[test]
fn reload_with_empty_list_skips_cpu_updates() {
    let cpus = vec![raw("cpu0", "vend", "brand", 10.0, 2000)];
    let r = base_readings(cpus, Some(1));
    let mut s = SysResources::new();
    assert!(s.load_from_readings(&r).is_ok());

    let mut r2 = base_readings(Vec::new(), Some(1));
    r2.global_cpu_usage = (12.0f32).to_bits();
    s.reload_from_readings(&r2);

    assert_eq!(s.cpu.processes.len(), 1);
    assert_eq!(s.cpu.frequency, 2000);
    assert_eq!(f32::from_bits(s.cpu.processes[0].cpu_usage), 10.0);
    assert_eq!(f32::from_bits(s.cpu.cpu_usage), 12.0);
}

#[test]
fn reload_never_touches_frozen_fields() {
    let cpus = vec![
        raw("cpu0", "vendA", "brandA", 10.0, 2000),
        raw("cpu1", "vendA", "brandA", 11.0, 2050),
    ];
    let r = base_readings(cpus, Some(2));
    let mut s = SysResources::new();
    assert!(s.load_from_readings(&r).is_ok());
    let brand = s.cpu.brand.clone();
    let vendor = s.cpu.vendor_id.clone();
    let name = s.cpu.name.clone();
    let cores = s.cpu.core_count;
    let total = s.total_memory;
    let boot = s.boot_time;

    let changed = vec![
        raw("other0", "otherv", "otherb", 90.0, 4000),
        raw("other1", "otherv", "otherb", 91.0, 4100),
    ];
    let mut r2 = base_readings(changed, Some(8));
    r2.total_memory = 1;
    r2.boot_time = 9;
    r2.global_cpu_usage = (42.0f32).to_bits();
    s.reload_from_readings(&r2);

    assert_eq!(s.cpu.brand, brand);
    assert_eq!(s.cpu.vendor_id, vendor);
    assert_eq!(s.cpu.name, name);
    assert_eq!(s.cpu.core_count, cores);
    assert_eq!(s.total_memory, total);
    assert_eq!(s.boot_time, boot);
    assert_eq!(s.cpu.processes[0].name, "cpu0");
    assert_eq!(s.cpu.processes[1].name, "cpu1");
    assert_eq!(s.cpu.processes[0].frequency, 4000);
}

#[test]
fn load_twice_gives_same_identity() {
    let cpus = vec![raw("cpu0", "vendX", "brandX", 25.0, 3000)];
    let r = base_readings(cpus, Some(1));
    let mut s1 = SysResources::new();
    let mut s2 = SysResources::new();
    assert!(s1.load_from_readings(&r).is_ok());
    assert!(s2.load_from_readings(&r).is_ok());
    assert!(s1.load_from_readings(&r).is_ok());
    assert_eq!(s1.cpu.name, s2.cpu.name);
    assert_eq!(s1.cpu.vendor_id, s2.cpu.vendor_id);
    assert_eq!(s1.cpu.brand, s2.cpu.brand);
    assert_eq!(s1.cpu.core_count, s2.cpu.core_count);
    assert_eq!(s1.cpu.processes.len(), s2.cpu.processes.len());
}
