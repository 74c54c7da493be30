//! The processor collector and the instruction-set family lookup.

use vstd::prelude::*;
use crate::sys::host::{
    cpu_brand, cpu_frequency, cpu_usage_reading, cpu_usage_text, cpu_vendor, session_cpus,
};
use crate::sys::memory::push_str;
use crate::text::{
    digits_of, fixed2_text, hundredths, hundredths_of, lemma_rounded_at_most, parse_reading, push_fixed2, push_natural,
    reading_units, round_div, round_half_even, same_text, READING_CAP, READING_SCALE,
};
use crate::types::Processor;

verus! {

/// Whether `a` names an instruction-set family that the lookup knows.
pub open spec fn is_known_family(a: Seq<char>) -> bool {
    ||| a == "x86"@
    ||| a == "x86_64"@
    ||| a == "aarch64"@
    ||| a == "arm"@
    ||| a == "riscv32"@
    ||| a == "riscv64"@
    ||| a == "powerpc"@
    ||| a == "powerpc64"@
    ||| a == "mips"@
    ||| a == "mips64"@
}

/// The family string for the target architecture `a`.
pub open spec fn family_of(a: Seq<char>) -> Seq<char> {
    if is_known_family(a) {
        a
    } else {
        "unknown"@
    }
}

/// The canonical instruction-set family string of the target architecture named
/// `target_arch`, or "unknown" for one that the lookup does not know.
pub fn get_cpu_architecture(target_arch: &str) -> (r: String)
    ensures
        r@ == family_of(target_arch@),
{
    let a = target_arch;
    if same_text(a, "x86") || same_text(a, "x86_64") || same_text(a, "aarch64") || same_text(
        a,
        "arm",
    ) || same_text(a, "riscv32") || same_text(a, "riscv64") || same_text(a, "powerpc")
        || same_text(a, "powerpc64") || same_text(a, "mips") || same_text(a, "mips64") {
        a.to_owned()
    } else {
        "unknown".to_owned()
    }
}

/// The characters of each text.
pub open spec fn texts(v: Seq<String>) -> Seq<Seq<char>> {
    v.map_values(|s: String| s@)
}

/// The sum of the readings, each in units of `1 / READING_SCALE` percent (see `reading_units`).
pub open spec fn readings_sum(rs: Seq<Seq<char>>) -> nat
    decreases rs.len(),
{
    if rs.len() == 0 {
        0
    } else {
        readings_sum(rs.drop_last()) + reading_units(rs.last())
    }
}

/// Units of a reading in one hundredth of a percent.
pub const UNITS_PER_HUNDREDTH: u64 = 10_000_000_000;

/// The mean of the readings in hundredths of a percent, rounded once, half to even.
pub open spec fn mean_usage(rs: Seq<Seq<char>>) -> nat {
    round_half_even(readings_sum(rs), (rs.len() * UNITS_PER_HUNDREDTH) as nat)
}

/// A frequency in MHz, in hundredths of a GHz.
pub open spec fn ghz_hundredths(mhz: u64) -> int {
    hundredths_of(mhz as int, 1000)
}

/// Whether `p` shows a processor of brand `brand` and vendor `vendor`, on the target
/// architecture `arch`, running at `mhz`, whose logical cores read `readings`.
pub open spec fn describes_processor(
    p: Processor,
    brand: Seq<char>,
    vendor: Seq<char>,
    arch: Seq<char>,
    mhz: u64,
    readings: Seq<Seq<char>>,
) -> bool {
    &&& p.name@ == brand
    &&& p.vendor@ == vendor
    &&& p.family@ == family_of(arch)
    &&& p.speed@ == fixed2_text(ghz_hundredths(mhz)) + " GHz"@
    &&& p.cores@ == digits_of(readings.len())
    &&& p.usage@ == fixed2_text(mean_usage(readings) as int) + " %"@
}

/// The mean usage of the readings lies between zero and one hundred percent where each
/// reading does.
pub proof fn lemma_mean_usage_in_range(rs: Seq<Seq<char>>)
    requires
        rs.len() > 0,
        forall|i: int| 0 <= i < rs.len() ==> reading_units(#[trigger] rs[i]) <= 100 * READING_SCALE,
    ensures
        0 <= mean_usage(rs) <= 10000,
{
    lemma_sum_at_most(rs);
    assert(rs.len() * (100 * READING_SCALE) == (rs.len() * UNITS_PER_HUNDREDTH) * 10000)
        by (nonlinear_arith)
        requires
            READING_SCALE == 1_000_000_000_000u64,
            UNITS_PER_HUNDREDTH == 10_000_000_000u64,
    ;
    assert(rs.len() * UNITS_PER_HUNDREDTH > 0) by (nonlinear_arith)
        requires
            rs.len() > 0,
            UNITS_PER_HUNDREDTH == 10_000_000_000u64,
    ;
    lemma_rounded_at_most(readings_sum(rs), (rs.len() * UNITS_PER_HUNDREDTH) as nat, 10000);
}

proof fn lemma_sum_at_most(rs: Seq<Seq<char>>)
    requires
        forall|i: int| 0 <= i < rs.len() ==> reading_units(#[trigger] rs[i]) <= 100 * READING_SCALE,
    ensures
        readings_sum(rs) <= rs.len() * (100 * READING_SCALE),
    decreases rs.len(),
{
    if rs.len() > 0 {
        let init = rs.drop_last();
        assert forall|i: int| 0 <= i < init.len() implies reading_units(#[trigger] init[i])
            <= 100 * READING_SCALE by {
            assert(init[i] == rs[i]);
        }
        lemma_sum_at_most(init);
        assert(reading_units(rs[rs.len() - 1]) <= 100 * READING_SCALE);
        assert((rs.len() - 1) * (100 * READING_SCALE) + 100 * READING_SCALE == rs.len() * (100
            * READING_SCALE)) by (nonlinear_arith);
    }
}

/// The usage reading of each logical core.
pub open spec fn core_readings(cpus: Seq<sysinfo::Cpu>) -> Seq<Seq<char>> {
    cpus.map_values(|c: sysinfo::Cpu| cpu_usage_reading(c))
}

/// Whether `p` shows the logical cores `cpus` as sysinfo holds them: brand, vendor and
/// frequency of the first, the usage readings of all, on the target architecture `arch`.
pub open spec fn shows_cpus(p: Processor, cpus: Seq<sysinfo::Cpu>, arch: Seq<char>) -> bool {
    &&& cpus.len() > 0
    &&& describes_processor(
        p,
        cpu_brand(cpus[0]),
        cpu_vendor(cpus[0]),
        arch,
        cpu_frequency(cpus[0]),
        core_readings(cpus),
    )
}

impl Processor {
    /// The snapshot of a processor of brand `brand` and vendor `vendor` on the target
    /// architecture `target_arch`, running at `frequency_mhz`, with one usage reading per
    /// logical core; `None` when there is no reading, that is no core.
    pub fn from_readings(
        brand: &str,
        vendor: &str,
        target_arch: &str,
        frequency_mhz: u64,
        usage_readings: &Vec<String>,
    ) -> (r: Option<Processor>)
        ensures
            r is Some <==> usage_readings@.len() > 0,
            r is Some ==> describes_processor(
                r->Some_0,
                brand@,
                vendor@,
                target_arch@,
                frequency_mhz,
                texts(usage_readings@),
            ),
    {
        let n = usage_readings.len();
        if n == 0 {
            return None;
        }
        let mut sum: u128 = 0;
        let mut i: usize = 0;
        while i < n
            invariant
                n == usage_readings@.len(),
                i <= n,
                sum == readings_sum(texts(usage_readings@).take(i as int)),
                sum <= i * READING_CAP,
            decreases n - i,
        {
            let h = parse_reading(usage_readings[i].as_str());
            proof {
                let rs = texts(usage_readings@);
                assert(rs.take(i + 1).drop_last() =~= rs.take(i as int));
                assert(rs.take(i + 1).last() == usage_readings@[i as int]@);
                assert(i * READING_CAP + READING_CAP == (i + 1) * READING_CAP) by (nonlinear_arith);
                assert(i * READING_CAP < 0x1_0000_0000_0000_0000 * READING_CAP) by (nonlinear_arith)
                    requires i < 0x1_0000_0000_0000_0000;
            }
            sum = sum + h as u128;
            i = i + 1;
        }
        assert(texts(usage_readings@).take(n as int) =~= texts(usage_readings@));
        let per: u128 = (n as u128) * (UNITS_PER_HUNDREDTH as u128);
        let mean = round_div(sum, per);
        proof {
            assert(n * READING_CAP == per * 100_000_000) by (nonlinear_arith)
                requires
                    per == n * UNITS_PER_HUNDREDTH,
                    READING_CAP == 1_000_000_000_000_000_000u64,
                    UNITS_PER_HUNDREDTH == 10_000_000_000u64,
            ;
            lemma_rounded_at_most(sum as nat, per as nat, 100_000_000);
        }
        let mut usage = String::new();
        push_fixed2(&mut usage, mean as i128);
        push_str(&mut usage, " %");
        let mut speed = String::new();
        push_fixed2(&mut speed, hundredths(frequency_mhz as i128, 1000));
        push_str(&mut speed, " GHz");
        let mut cores = String::new();
        push_natural(&mut cores, n as u64);
        let p = Processor {
            name: brand.to_owned(),
            vendor: vendor.to_owned(),
            family: get_cpu_architecture(target_arch),
            speed,
            cores,
            usage,
        };
        assert(p.usage@ =~= fixed2_text(mean_usage(texts(usage_readings@)) as int) + " %"@);
        assert(p.speed@ =~= fixed2_text(ghz_hundredths(frequency_mhz)) + " GHz"@);
        assert(p.cores@ =~= digits_of(texts(usage_readings@).len()));
        Some(p)
    }

    /// Opens a metrics session with the processor readings loaded.
    pub fn set_cpu_connection() -> sysinfo::System {
        let mut s = sysinfo::System::new_all();
        s.refresh_cpu_all();
        s
    }

    /// Refreshes the session's processor readings and returns the snapshot that the refreshed
    /// session gives: brand, vendor and frequency of its first logical core, one usage reading
    /// per core, the family being that of the target architecture `target_arch`; `None` when
    /// the session lists no logical core.
    pub fn get_cpu_info(session: &mut sysinfo::System, target_arch: &str) -> (r: Option<Processor>)
        ensures
            r is Some <==> session_cpus(*final(session)).len() > 0,
            r is Some ==> shows_cpus(r->Some_0, session_cpus(*final(session)), target_arch@),
    {
        session.refresh_cpu_all();
        let cpus = session.cpus();
        let n = cpus.len();
        if n == 0 {
            return None;
        }
        let mut readings: Vec<String> = Vec::new();
        let mut i: usize = 0;
        while i < n
            invariant
                n == cpus@.len(),
                i <= n,
                readings@.len() == i,
                texts(readings@) == core_readings(cpus@).take(i as int),
            decreases n - i,
        {
            let t = cpu_usage_text(&cpus[i]);
            assert(t@ == cpu_usage_reading(cpus@[i as int]));
            let ghost before = readings@;
            readings.push(t);
            assert(texts(readings@) =~= core_readings(cpus@).take(i + 1)) by {
                assert(texts(readings@).len() == i + 1);
                assert forall|j: int| 0 <= j < i + 1 implies texts(readings@)[j] == core_readings(
                    cpus@,
                ).take(i + 1)[j] by {
                    if j < i {
                        assert(texts(readings@)[j] == readings@[j]@);
                        assert(readings@[j] == before[j]);
                        assert(texts(before)[j] == before[j]@);
                    }
                }
            }
            i = i + 1;
        }
        assert(core_readings(cpus@).take(n as int) =~= core_readings(cpus@));
        let first = &cpus[0];
        let brand = first.brand();
        let vendor = first.vendor_id();
        let mhz = first.frequency();
        Processor::from_readings(brand, vendor, target_arch, mhz, &readings)
    }
}

} // verus!
