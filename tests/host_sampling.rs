use machine_info::{Memory, Processor, Storage};

fn percent_value(text: &str) -> f64 {
    text.strip_suffix(" %").unwrap().parse::<f64>().unwrap()
}

#[test]
fn processor_sample_counts_cores() {
    let mut session = Processor::set_cpu_connection();
    let p = Processor::get_cpu_info(&mut session, "x86_64").unwrap();
    let n = session.cpus().len();
    assert!(n >= 1);
    assert_eq!(p.cores, n.to_string());
    let usage = percent_value(&p.usage);
    assert!((0.0..=100.0).contains(&usage));
    assert!(p.speed.ends_with(" GHz"));
    assert_eq!(p.family, "x86_64");
}

#[test]
fn memory_sample_is_consistent() {
    let mut session = Memory::set_memory_connection();
    let m = Memory::get_memory_info(&mut session);
    let total: f64 = m.total.strip_suffix(" GB").unwrap().parse().unwrap();
    let used: f64 = m.used.strip_suffix(" GB").unwrap().parse().unwrap();
    let free: f64 = m.free.strip_suffix(" GB").unwrap().parse().unwrap();
    assert!((used - (total - free)).abs() <= 0.011);
}

#[test]
fn storage_sample_is_empty_or_in_range() {
    let mut disks = Storage::get_storage_connection();
    let s = Storage::get_storage_info(&mut disks);
    match s.percent_used {
        None => assert!(s.name.is_none() && s.total_space.is_none()),
        Some(p) => {
            let v = percent_value(&p);
            assert!((0.0..=100.0).contains(&v));
            assert!(s.total_space.unwrap().ends_with(" GB"));
            let kind = s.type_.unwrap();
            assert!(kind == "HDD" || kind == "SSD" || kind == "Unknown");
            assert!(s.mount_point.is_some() && s.file_system.is_some());
        }
    }
}

#[test]
fn processor_sample_shows_first_core() {
    let mut session = Processor::set_cpu_connection();
    let p = Processor::get_cpu_info(&mut session, "aarch64").unwrap();
    let first = &session.cpus()[0];
    assert_eq!(p.name, first.brand());
    assert_eq!(p.vendor, first.vendor_id());
    assert_eq!(p.family, "aarch64");
}

#[test]
fn memory_sample_shows_session_readings() {
    let mut session = Memory::set_memory_connection();
    let m = Memory::get_memory_info(&mut session);
    let expected = Memory::from_bytes(session.total_memory(), session.available_memory());
    assert_eq!(m.total, expected.total);
    assert_eq!(m.used, expected.used);
    assert_eq!(m.free, expected.free);
}

#[test]
fn storage_sample_shows_first_disk() {
    let mut disks = Storage::get_storage_connection();
    let s = Storage::get_storage_info(&mut disks);
    match disks.list().first() {
        None => assert!(s.name.is_none() && s.percent_used.is_none()),
        Some(d) => {
            let expected = Storage::from_disk(
                machine_info::sys::storage::DiskLabels {
                    name: d.name().to_str().unwrap_or_default().to_string(),
                    mount_point: d.mount_point().to_str().unwrap_or_default().to_string(),
                    file_system: d.file_system().to_str().unwrap_or_default().to_string(),
                    kind: d.kind().to_string(),
                },
                d.total_space(),
                d.available_space(),
            );
            assert_eq!(s.name, expected.name);
            assert_eq!(s.mount_point, expected.mount_point);
            assert_eq!(s.total_space, expected.total_space);
            assert_eq!(s.percent_used, expected.percent_used);
        }
    }
}
