use machine_info::sys::storage::DiskLabels;
use machine_info::{get_cpu_architecture, Memory, Processor, Storage};

const GIB: u64 = 1_073_741_824;

fn labels(name: &str) -> DiskLabels {
    DiskLabels {
        name: name.to_string(),
        mount_point: "/".to_string(),
        file_system: "ext4".to_string(),
        kind: "SSD".to_string(),
    }
}

fn readings(values: &[&str]) -> Vec<String> {
    values.iter().map(|v| v.to_string()).collect()
}

#[test]
fn memory_whole_gigabytes() {
    let m = Memory::from_bytes(16 * GIB, 4 * GIB);
    assert_eq!(m.total, "16.00 GB");
    assert_eq!(m.used, "12.00 GB");
    assert_eq!(m.free, "4.00 GB");
}

#[test]
fn memory_uses_binary_gigabytes() {
    let m = Memory::from_bytes(1_610_612_736, 0);
    assert_eq!(m.total, "1.50 GB");
    assert_eq!(m.used, "1.50 GB");
    assert_eq!(m.free, "0.00 GB");
}

#[test]
fn memory_ties_round_to_even() {
    // 1.125 GiB and 1.375 GiB lie exactly half way between two hundredths.
    assert_eq!(Memory::from_bytes(1_207_959_552, 0).total, "1.12 GB");
    assert_eq!(Memory::from_bytes(1_476_395_008, 0).total, "1.38 GB");
}

#[test]
fn memory_used_is_total_less_free_within_rounding() {
    // 1.125 GiB in all, 0.375 GiB free: used is 0.75 GiB, taken before rounding.
    let m = Memory::from_bytes(1_207_959_552, 402_653_184);
    assert_eq!(m.total, "1.12 GB");
    assert_eq!(m.free, "0.38 GB");
    assert_eq!(m.used, "0.75 GB");
}

#[test]
fn memory_more_free_than_total() {
    let m = Memory::from_bytes(GIB, 2 * GIB);
    assert_eq!(m.used, "-1.00 GB");
}

#[test]
fn storage_from_disk_formats_decimal_gigabytes() {
    let s = Storage::from_disk(labels("sda1"), 500_000_000_000, 120_200_000_000);
    assert_eq!(s.name.as_deref(), Some("sda1"));
    assert_eq!(s.total_space.as_deref(), Some("500.00 GB"));
    assert_eq!(s.free_space.as_deref(), Some("120.20 GB"));
    assert_eq!(s.used_space.as_deref(), Some("379.80 GB"));
    assert_eq!(s.percent_used.as_deref(), Some("75.96 %"));
    assert_eq!(s.mount_point.as_deref(), Some("/"));
    assert_eq!(s.file_system.as_deref(), Some("ext4"));
    assert_eq!(s.type_.as_deref(), Some("SSD"));
    assert!(s.usage.is_none());
}

#[test]
fn storage_percent_is_zero_for_empty_disk() {
    let s = Storage::from_disk(labels(""), 0, 0);
    assert_eq!(s.total_space.as_deref(), Some("0.00 GB"));
    assert_eq!(s.used_space.as_deref(), Some("0.00 GB"));
    assert_eq!(s.percent_used.as_deref(), Some("0.00 %"));
}

#[test]
fn storage_percent_is_zero_when_nothing_used() {
    let s = Storage::from_disk(labels("d"), 1_000_000_000, 2_000_000_000);
    assert_eq!(s.used_space.as_deref(), Some("-1.00 GB"));
    assert_eq!(s.percent_used.as_deref(), Some("0.00 %"));
}

#[test]
fn storage_percent_of_full_disk_is_one_hundred() {
    let s = Storage::from_disk(labels("d"), 1_000_000_000, 0);
    assert_eq!(s.percent_used.as_deref(), Some("100.00 %"));
}

#[test]
fn storage_default_is_empty() {
    let s = Storage::default();
    assert!(s.name.is_none());
    assert!(s.total_space.is_none());
    assert!(s.percent_used.is_none());
    assert!(s.mount_point.is_none());
    assert!(s.type_.is_none());
}

#[test]
fn processor_from_readings_formats_every_field() {
    let p = Processor::from_readings(
        "Example CPU",
        "GenuineIntel",
        "x86_64",
        3200,
        &readings(&["10", "20.5", "30.25"]),
    )
    .unwrap();
    assert_eq!(p.name, "Example CPU");
    assert_eq!(p.vendor, "GenuineIntel");
    assert_eq!(p.family, "x86_64");
    assert_eq!(p.speed, "3.20 GHz");
    assert_eq!(p.cores, "3");
    assert_eq!(p.usage, "20.25 %");
}

#[test]
fn processor_speed_rounds_to_hundredths_of_ghz() {
    let one = readings(&["0"]);
    assert_eq!(Processor::from_readings("", "", "arm", 3205, &one).unwrap().speed, "3.20 GHz");
    assert_eq!(Processor::from_readings("", "", "arm", 3215, &one).unwrap().speed, "3.22 GHz");
    assert_eq!(Processor::from_readings("", "", "arm", 999, &one).unwrap().speed, "1.00 GHz");
}

#[test]
fn processor_usage_is_mean_of_cores() {
    // 12.345 lies half way between two hundredths: the tie goes to the even one.
    let p = Processor::from_readings("", "", "x86", 1000, &readings(&["12.345"])).unwrap();
    assert_eq!(p.usage, "12.34 %");
    let p = Processor::from_readings("", "", "x86", 1000, &readings(&["12.3451"])).unwrap();
    assert_eq!(p.usage, "12.35 %");
    let p = Processor::from_readings("", "", "x86", 1000, &readings(&["NaN", "50"])).unwrap();
    assert_eq!(p.usage, "25.00 %");
    let p = Processor::from_readings("", "", "x86", 1000, &readings(&["100", "100"])).unwrap();
    assert_eq!(p.usage, "100.00 %");
}

#[test]
fn processor_usage_rounds_only_the_mean() {
    // The mean of 0.004 and 0.0149 is 0.00945, which rounds to 0.01.
    let p = Processor::from_readings("", "", "x86", 1000, &readings(&["0.004", "0.0149"])).unwrap();
    assert_eq!(p.usage, "0.01 %");
    let p = Processor::from_readings("", "", "x86", 1000, &readings(&["33.333", "33.333", "33.334"]))
        .unwrap();
    assert_eq!(p.usage, "33.33 %");
}

#[test]
fn processor_without_cores_fails() {
    assert!(Processor::from_readings("b", "v", "x86_64", 3000, &Vec::new()).is_none());
}

#[test]
fn architecture_known_families() {
    for a in [
        "x86", "x86_64", "aarch64", "arm", "riscv32", "riscv64", "powerpc", "powerpc64", "mips",
        "mips64",
    ] {
        assert_eq!(get_cpu_architecture(a), a);
    }
}

#[test]
fn architecture_unknown_family() {
    assert_eq!(get_cpu_architecture("sparc64"), "unknown");
    assert_eq!(get_cpu_architecture(""), "unknown");
    let p = Processor::from_readings("", "", "wasm32", 1, &readings(&["1"])).unwrap();
    assert_eq!(p.family, "unknown");
}
