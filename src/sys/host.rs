//! The parts of `sysinfo` that the collectors read.

use vstd::prelude::*;

verus! {

/// An operating-system metrics session.
#[verifier::external_type_specification]
#[verifier::external_body]
pub struct ExSystem(sysinfo::System);

/// One logical processor of a `System`.
#[verifier::external_type_specification]
#[verifier::external_body]
pub struct ExCpu(sysinfo::Cpu);

/// The list of disks of the host.
#[verifier::external_type_specification]
#[verifier::external_body]
pub struct ExDisks(sysinfo::Disks);

/// One disk of a `Disks` list.
#[verifier::external_type_specification]
#[verifier::external_body]
pub struct ExDisk(sysinfo::Disk);

/// The logical processors that the session `s` holds from its last refresh.
pub uninterp spec fn session_cpus(s: sysinfo::System) -> Seq<sysinfo::Cpu>;

/// The RAM size in bytes that the session `s` holds from its last refresh.
pub uninterp spec fn session_memory_total(s: sysinfo::System) -> u64;

/// The RAM available for use, in bytes, that the session `s` holds from its last refresh.
pub uninterp spec fn session_memory_available(s: sysinfo::System) -> u64;

/// The brand that the processor `c` holds.
pub uninterp spec fn cpu_brand(c: sysinfo::Cpu) -> Seq<char>;

/// The vendor id that the processor `c` holds.
pub uninterp spec fn cpu_vendor(c: sysinfo::Cpu) -> Seq<char>;

/// The frequency in MHz that the processor `c` holds.
pub uninterp spec fn cpu_frequency(c: sysinfo::Cpu) -> u64;

/// The decimal text of the usage percentage that the processor `c` holds.
pub uninterp spec fn cpu_usage_reading(c: sysinfo::Cpu) -> Seq<char>;

/// The disks that the list `d` holds from its last refresh.
pub uninterp spec fn listed_disks(d: sysinfo::Disks) -> Seq<sysinfo::Disk>;

/// The size in bytes that the disk `d` holds.
pub uninterp spec fn disk_total(d: sysinfo::Disk) -> u64;

/// The available size in bytes that the disk `d` holds.
pub uninterp spec fn disk_available(d: sysinfo::Disk) -> u64;

/// The name that the disk `d` holds, as text where it is valid UTF-8.
pub uninterp spec fn disk_name_text(d: sysinfo::Disk) -> Option<Seq<char>>;

/// The mount point that the disk `d` holds, as text where it is valid UTF-8.
pub uninterp spec fn disk_mount_text(d: sysinfo::Disk) -> Option<Seq<char>>;

/// The file system that the disk `d` holds, as text where it is valid UTF-8.
pub uninterp spec fn disk_file_system_text(d: sysinfo::Disk) -> Option<Seq<char>>;

/// The kind that the disk `d` holds, as its display text.
pub uninterp spec fn disk_kind(d: sysinfo::Disk) -> Seq<char>;

/// The characters of an optional text.
pub open spec fn text_view(t: Option<String>) -> Option<Seq<char>> {
    match t {
        Some(s) => Some(s@),
        None => None,
    }
}

/// Relies on sysinfo's `System::new_all`: a session with everything loaded.
pub assume_specification[ sysinfo::System::new_all ]() -> sysinfo::System;

/// Relies on sysinfo's `System::refresh_cpu_all`: reloads the processor readings.
pub assume_specification[ sysinfo::System::refresh_cpu_all ](s: &mut sysinfo::System);

/// Relies on sysinfo's `System::refresh_memory`: reloads the memory readings.
pub assume_specification[ sysinfo::System::refresh_memory ](s: &mut sysinfo::System);

/// Relies on sysinfo's `System::cpus`: the logical processors of the last refresh, read from
/// the session.
pub assume_specification[ sysinfo::System::cpus ](s: &sysinfo::System) -> (r: &[sysinfo::Cpu])
    ensures
        r@ == session_cpus(*s),
;

/// Relies on sysinfo's `System::total_memory`: the RAM size in bytes, read from the session.
pub assume_specification[ sysinfo::System::total_memory ](s: &sysinfo::System) -> (r: u64)
    ensures
        r == session_memory_total(*s),
;

/// Relies on sysinfo's `System::available_memory`: the RAM available for use, in bytes, read
/// from the session.
pub assume_specification[ sysinfo::System::available_memory ](s: &sysinfo::System) -> (r: u64)
    ensures
        r == session_memory_available(*s),
;

/// Relies on sysinfo's `Cpu::brand`, read from the processor.
pub assume_specification[ sysinfo::Cpu::brand ](c: &sysinfo::Cpu) -> (r: &str)
    ensures
        r@ == cpu_brand(*c),
;

/// Relies on sysinfo's `Cpu::vendor_id`, read from the processor.
pub assume_specification[ sysinfo::Cpu::vendor_id ](c: &sysinfo::Cpu) -> (r: &str)
    ensures
        r@ == cpu_vendor(*c),
;

/// Relies on sysinfo's `Cpu::frequency`: the frequency in MHz, read from the processor.
pub assume_specification[ sysinfo::Cpu::frequency ](c: &sysinfo::Cpu) -> (r: u64)
    ensures
        r == cpu_frequency(*c),
;

/// Relies on sysinfo's `Cpu::cpu_usage`: the usage percentage of the last refresh, read from
/// the processor and handed over as its decimal text (`f32`'s `Display`, which writes no
/// exponent).
#[verifier::external_body]
pub(crate) fn cpu_usage_text(c: &sysinfo::Cpu) -> (r: String)
    ensures
        r@ == cpu_usage_reading(*c),
{
    c.cpu_usage().to_string()
}

/// Relies on sysinfo's `Disks::new_with_refreshed_list`: the host's disks, loaded.
pub assume_specification[ sysinfo::Disks::new_with_refreshed_list ]() -> sysinfo::Disks;

/// Relies on sysinfo's `Disks::refresh`: reloads the disks' information.
pub assume_specification[ sysinfo::Disks::refresh ](
    d: &mut sysinfo::Disks,
    remove_not_listed_disks: bool,
);

/// Relies on sysinfo's `Disks::list`: the disks of the last refresh, read from the list.
pub assume_specification[ sysinfo::Disks::list ](d: &sysinfo::Disks) -> (r: &[sysinfo::Disk])
    ensures
        r@ == listed_disks(*d),
;

/// Relies on sysinfo's `Disk::total_space`: the disk size in bytes, read from the disk.
pub assume_specification[ sysinfo::Disk::total_space ](d: &sysinfo::Disk) -> (r: u64)
    ensures
        r == disk_total(*d),
;

/// Relies on sysinfo's `Disk::available_space`: the available size in bytes, read from the
/// disk.
pub assume_specification[ sysinfo::Disk::available_space ](d: &sysinfo::Disk) -> (r: u64)
    ensures
        r == disk_available(*d),
;

/// Relies on sysinfo's `Disk::name`, as UTF-8 text when it is valid UTF-8.
#[verifier::external_body]
pub(crate) fn disk_name(d: &sysinfo::Disk) -> (r: Option<String>)
    ensures
        text_view(r) == disk_name_text(*d),
{
    d.name().to_str().map(|s| s.to_string())
}

/// Relies on sysinfo's `Disk::mount_point`, as UTF-8 text when it is valid UTF-8.
#[verifier::external_body]
pub(crate) fn disk_mount_point(d: &sysinfo::Disk) -> (r: Option<String>)
    ensures
        text_view(r) == disk_mount_text(*d),
{
    d.mount_point().to_str().map(|s| s.to_string())
}

/// Relies on sysinfo's `Disk::file_system`, as UTF-8 text when it is valid UTF-8.
#[verifier::external_body]
pub(crate) fn disk_file_system(d: &sysinfo::Disk) -> (r: Option<String>)
    ensures
        text_view(r) == disk_file_system_text(*d),
{
    d.file_system().to_str().map(|s| s.to_string())
}

/// Relies on sysinfo's `Disk::kind` and the `Display` of `DiskKind`, which writes one of
/// "HDD", "SSD" and "Unknown".
#[verifier::external_body]
pub(crate) fn disk_kind_text(d: &sysinfo::Disk) -> (r: String)
    ensures
        r@ == disk_kind(*d),
        r@ == "HDD"@ || r@ == "SSD"@ || r@ == "Unknown"@,
{
    d.kind().to_string()
}

} // verus!
