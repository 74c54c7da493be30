//! The memory collector.

use vstd::prelude::*;
use crate::text::{fixed2_text, hundredths, hundredths_of, lemma_rounding_error, push_fixed2};
use crate::sys::host::{session_memory_available, session_memory_total};
use crate::types::Memory;

verus! {

/// Bytes in one binary gigabyte.
pub const BYTES_PER_GIB: u64 = 1_073_741_824;

/// A byte count in hundredths of a binary gigabyte.
pub open spec fn gib_hundredths(bytes: int) -> int {
    hundredths_of(bytes, BYTES_PER_GIB as nat)
}

/// Hundredths of a gigabyte written for display ("15.52 GB").
pub open spec fn gb_text(h: int) -> Seq<char> {
    fixed2_text(h) + " GB"@
}

/// Whether `m` shows `total` bytes of memory of which `available` are free.
pub open spec fn describes_memory(m: Memory, total: u64, available: u64) -> bool {
    &&& m.total@ == gb_text(gib_hundredths(total as int))
    &&& m.free@ == gb_text(gib_hundredths(available as int))
    &&& m.used@ == gb_text(gib_hundredths(total - available))
}

/// Appends hundredths of a gigabyte and the unit.
pub(crate) fn push_gb(out: &mut String, h: i128)
    requires
        -0x40_0000_0000_0000_0000 < h < 0x40_0000_0000_0000_0000,
    ensures
        final(out)@ == old(out)@ + gb_text(h as int),
{
    push_fixed2(out, h);
    push_str(out, " GB");
    assert(final(out)@ =~= old(out)@ + gb_text(h as int));
}

/// Appends `t` to `out`.
pub(crate) fn push_str(out: &mut String, t: &str)
    ensures
        final(out)@ == old(out)@ + t@,
{
    out.append(t);
}

/// A byte count in hundredths of a binary gigabyte, written for display.
fn gib_text(bytes: i128) -> (r: String)
    requires
        -0x1_0000_0000_0000_0000 < bytes < 0x1_0000_0000_0000_0000,
    ensures
        r@ == gb_text(gib_hundredths(bytes as int)),
{
    let mut out = String::new();
    push_gb(&mut out, hundredths(bytes, BYTES_PER_GIB as u128));
    assert(out@ =~= gb_text(gib_hundredths(bytes as int)));
    out
}

impl Memory {
    /// The snapshot of `total` bytes of memory of which `available` are free: used is their
    /// difference, taken before rounding; each in binary gigabytes with two decimals.
    pub fn from_bytes(total: u64, available: u64) -> (r: Memory)
        ensures
            describes_memory(r, total, available),
    {
        Memory {
            total: gib_text(total as i128),
            used: gib_text(total as i128 - available as i128),
            free: gib_text(available as i128),
        }
    }

    /// Opens a metrics session with the memory readings loaded.
    pub fn set_memory_connection() -> sysinfo::System {
        let mut s = sysinfo::System::new_all();
        s.refresh_memory();
        s
    }

    /// Refreshes the session's memory readings and returns the snapshot that the refreshed
    /// session's readings give.
    pub fn get_memory_info(session: &mut sysinfo::System) -> (r: Memory)
        ensures
            describes_memory(
                r,
                session_memory_total(*final(session)),
                session_memory_available(*final(session)),
            ),
    {
        session.refresh_memory();
        let total = session.total_memory();
        let available = session.available_memory();
        Memory::from_bytes(total, available)
    }
}

/// Used memory agrees with total less free to within one hundredth of a gigabyte, though each
/// of the three is rounded on its own.
pub proof fn lemma_used_is_total_less_free(total: u64, available: u64)
    ensures
        -1 <= gib_hundredths(total - available) - (gib_hundredths(total as int) - gib_hundredths(
            available as int,
        )) <= 1,
{
    let d: nat = BYTES_PER_GIB as nat;
    let t = total as int;
    let a = available as int;
    lemma_rounding_error(t * 100, d);
    lemma_rounding_error(a * 100, d);
    lemma_rounding_error((t - a) * 100, d);
    let gt = gib_hundredths(t);
    let ga = gib_hundredths(a);
    let gu = gib_hundredths(t - a);
    assert(-1 <= gu - (gt - ga) <= 1) by (nonlinear_arith)
        requires
            d > 0,
            -(d as int) <= 2 * (d as int) * gt - 2 * (t * 100) <= d,
            -(d as int) <= 2 * (d as int) * ga - 2 * (a * 100) <= d,
            -(d as int) <= 2 * (d as int) * gu - 2 * ((t - a) * 100) <= d,
    ;
}

} // verus!
