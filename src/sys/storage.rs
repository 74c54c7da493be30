//! The storage collector: the first disk that the host lists.

use vstd::prelude::*;
use crate::sys::host::{
    disk_available, disk_file_system, disk_file_system_text, disk_kind, disk_kind_text,
    disk_mount_point, disk_mount_text, disk_name, disk_name_text, disk_total, listed_disks,
    text_view,
};
use crate::sys::memory::{gb_text, push_gb, push_str};
use crate::text::{
    fixed2_text, hundredths, hundredths_of, lemma_rounded_at_most, push_fixed2, round_div,
    round_half_even,
};
use crate::types::Storage;

verus! {

/// Bytes in one decimal gigabyte.
pub const BYTES_PER_GB: u64 = 1_000_000_000;

/// A byte count in hundredths of a decimal gigabyte.
pub open spec fn gb_hundredths(bytes: int) -> int {
    hundredths_of(bytes, BYTES_PER_GB as nat)
}

/// The share of a disk in use, in hundredths of a percent: zero for a disk of size zero or
/// with nothing in use.
pub open spec fn percent_used_hundredths(total: u64, available: u64) -> int {
    if total > 0 && total > available {
        round_half_even(((total - available) * 10000) as nat, total as nat) as int
    } else {
        0
    }
}

/// Hundredths of a percent written for display ("75.96 %").
pub open spec fn percent_text(h: int) -> Seq<char> {
    fixed2_text(h) + " %"@
}

/// Whether `o` holds a text equal to `t`.
pub open spec fn holds_text(o: Option<String>, t: Seq<char>) -> bool {
    o is Some && o->Some_0@ == t
}

/// What the host tells of a disk besides its sizes: its name, mount point, file system and
/// kind, as text.
pub struct DiskLabels {
    pub name: String,
    pub mount_point: String,
    pub file_system: String,
    pub kind: String,
}

/// Whether `s` shows the disk labelled `labels` of `total` bytes of which `available` are free.
pub open spec fn describes_disk(s: Storage, labels: DiskLabels, total: u64, available: u64) -> bool {
    &&& holds_text(s.name, labels.name@)
    &&& holds_text(s.mount_point, labels.mount_point@)
    &&& holds_text(s.file_system, labels.file_system@)
    &&& holds_text(s.type_, labels.kind@)
    &&& shows_sizes(s, total, available)
}

/// A label's text, or empty text where it has none.
pub open spec fn label_text(t: Option<Seq<char>>) -> Seq<char> {
    match t {
        Some(x) => x,
        None => Seq::<char>::empty(),
    }
}

/// Whether `s` shows the disk `d` as sysinfo holds it: its labels (empty where not valid UTF-8),
/// kind and sizes.
pub open spec fn shows_disk(s: Storage, d: sysinfo::Disk) -> bool {
    &&& holds_text(s.name, label_text(disk_name_text(d)))
    &&& holds_text(s.mount_point, label_text(disk_mount_text(d)))
    &&& holds_text(s.file_system, label_text(disk_file_system_text(d)))
    &&& holds_text(s.type_, disk_kind(d))
    &&& shows_sizes(s, disk_total(d), disk_available(d))
}

/// Whether `s` shows the sizes of a disk of `total` bytes of which `available` are free.
pub open spec fn shows_sizes(s: Storage, total: u64, available: u64) -> bool {
    &&& holds_text(s.total_space, gb_text(gb_hundredths(total as int)))
    &&& holds_text(s.free_space, gb_text(gb_hundredths(available as int)))
    &&& holds_text(s.used_space, gb_text(gb_hundredths(total - available)))
    &&& holds_text(s.percent_used, percent_text(percent_used_hundredths(total, available)))
    &&& s.usage is None
}

fn decimal_gb_text(bytes: i128) -> (r: String)
    requires
        -0x1_0000_0000_0000_0000 < bytes < 0x1_0000_0000_0000_0000,
    ensures
        r@ == gb_text(gb_hundredths(bytes as int)),
{
    let mut out = String::new();
    push_gb(&mut out, hundredths(bytes, BYTES_PER_GB as u128));
    assert(out@ =~= gb_text(gb_hundredths(bytes as int)));
    out
}

/// The share of a disk in use lies between zero and one hundred percent, and is zero for a
/// disk of size zero.
pub proof fn lemma_percent_used_in_range(total: u64, available: u64)
    ensures
        0 <= percent_used_hundredths(total, available) <= 10000,
        total == 0 ==> percent_used_hundredths(total, available) == 0,
{
    if total > 0 && total > available {
        let used = (total - available) as nat;
        assert(used * 10000 <= (total as nat) * 10000) by (nonlinear_arith)
            requires
                used <= total,
        ;
        lemma_rounded_at_most(used * 10000, total as nat, 10000);
    }
}

impl Storage {
    /// The snapshot of the disk labelled `labels` of `total` bytes of which `available` are
    /// free: sizes in decimal gigabytes with two decimals, used space their difference, and the
    /// share in use.
    pub fn from_disk(labels: DiskLabels, total: u64, available: u64) -> (r: Storage)
        ensures
            describes_disk(r, labels, total, available),
    {
        let used: i128 = total as i128 - available as i128;
        let percent: u128 = if total > 0 && total > available {
            round_div(((total - available) as u128) * 10000, total as u128)
        } else {
            0
        };
        proof {
            lemma_percent_used_in_range(total, available);
        }
        let mut percent_used = String::new();
        push_fixed2(&mut percent_used, percent as i128);
        push_str(&mut percent_used, " %");
        assert(percent_used@ =~= percent_text(percent_used_hundredths(total, available)));
        Storage {
            name: Some(labels.name),
            usage: None,
            mount_point: Some(labels.mount_point),
            file_system: Some(labels.file_system),
            type_: Some(labels.kind),
            total_space: Some(decimal_gb_text(total as i128)),
            free_space: Some(decimal_gb_text(available as i128)),
            used_space: Some(decimal_gb_text(used)),
            percent_used: Some(percent_used),
        }
    }

    /// Opens the host's disk list.
    pub fn get_storage_connection() -> sysinfo::Disks {
        sysinfo::Disks::new_with_refreshed_list()
    }

    /// Refreshes the disk list and returns the snapshot of its first disk; every field is absent
    /// when no disk is listed.
    pub fn get_storage_info(disks: &mut sysinfo::Disks) -> (r: Storage)
        ensures
            listed_disks(*final(disks)).len() == 0 ==> r.is_empty(),
            listed_disks(*final(disks)).len() > 0 ==> shows_disk(r, listed_disks(*final(disks))[0]),
            !r.is_empty() ==> (r.type_ matches Some(k) && (k@ == "HDD"@ || k@ == "SSD"@ || k@
                == "Unknown"@)),
    {
        disks.refresh(true);
        let list = disks.list();
        if list.len() == 0 {
            return Storage::default();
        }
        let disk = &list[0];
        let labels = DiskLabels {
            name: text_or_empty(disk_name(disk)),
            mount_point: text_or_empty(disk_mount_point(disk)),
            file_system: text_or_empty(disk_file_system(disk)),
            kind: disk_kind_text(disk),
        };
        let total = disk.total_space();
        let available = disk.available_space();
        Storage::from_disk(labels, total, available)
    }
}

/// The text, or empty text where there is none (a label that is not valid UTF-8).
fn text_or_empty(t: Option<String>) -> (r: String)
    ensures
        r@ == label_text(text_view(t)),
{
    match t {
        Some(s) => s,
        None => String::new(),
    }
}

} // verus!
