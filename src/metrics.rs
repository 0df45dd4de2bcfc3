//! One sample of CPU and memory readings, and the display texts made of it.
//!
//! CPU usage is held in hundredths of a percent: `2000` is `20.00%`.
use vstd::prelude::*;
use crate::adapter::MIB;
use crate::decimal::{decimal, digit_char, digit_str, push_decimal};

verus! {

/// The sum of the per-core usages.
pub open spec fn usage_sum(s: Seq<u32>) -> nat
    decreases s.len(),
{
    if s.len() == 0 {
        0
    } else {
        usage_sum(s.drop_last()) + s.last() as nat
    }
}

/// The mean of the per-core usages, rounded to the nearest hundredth (halves
/// round up); zero where no core is reported.
pub open spec fn average_usage(s: Seq<u32>) -> nat {
    if s.len() == 0 {
        0
    } else {
        (usage_sum(s) + s.len() / 2) / s.len()
    }
}

/// `c` hundredths of a percent as text with two decimals: `2000` is `20.00`.
pub open spec fn percent_text(c: nat) -> Seq<char> {
    decimal(c / 100) + "."@ + seq![digit_char((c % 100) / 10), digit_char(c % 10)]
}

/// The CPU line for an average usage of `c` hundredths of a percent.
pub open spec fn cpu_text(c: nat) -> Seq<char> {
    "CPU Usage: "@ + percent_text(c) + "%"@
}

/// The RAM line for memory amounts in whole mebibytes.
pub open spec fn ram_mb_text(total: nat, used: nat, free: nat) -> Seq<char> {
    "Total RAM: "@ + decimal(total) + " MB, Used: "@ + decimal(used) + " MB, Free: "@ + decimal(free)
        + " MB"@
}

/// The RAM line for memory amounts in bytes, each shown in whole mebibytes
/// (rounded down).
pub open spec fn ram_text(total: nat, used: nat, free: nat) -> Seq<char> {
    ram_mb_text(total / MIB as nat, used / MIB as nat, free / MIB as nat)
}

proof fn lemma_usage_sum_bound(s: Seq<u32>)
    ensures
        usage_sum(s) <= s.len() * 0xFFFF_FFFF,
    decreases s.len(),
{
    if s.len() > 0 {
        lemma_usage_sum_bound(s.drop_last());
    }
}

/// The mean per-core usage, in hundredths of a percent.
pub fn average_cpu_usage(usages: &Vec<u32>) -> (r: u32)
    ensures
        r == average_usage(usages@),
{
    let n = usages.len();
    if n == 0 {
        return 0;
    }
    let mut sum: u128 = 0;
    let mut i: usize = 0;
    while i < n
        invariant
            n == usages@.len(),
            0 <= i <= n,
            sum == usage_sum(usages@.take(i as int)),
            sum <= i * 0xFFFF_FFFF,
        decreases n - i,
    {
        proof {
            assert(usages@.take(i as int + 1).drop_last() =~= usages@.take(i as int));
        }
        sum = sum + usages[i] as u128;
        i += 1;
    }
    proof {
        assert(usages@.take(n as int) =~= usages@);
        lemma_usage_sum_bound(usages@);
    }
    let total = sum + (n / 2) as u128;
    let avg = total / (n as u128);
    proof {
        let m: int = 0xFFFF_FFFF;
        let nn = n as int;
        let s = sum as int;
        assert(s + nn / 2 < (m + 1) * nn) by (nonlinear_arith)
            requires
                s <= nn * m,
                nn >= 1,
        ;
        assert((s + nn / 2) / nn <= m) by (nonlinear_arith)
            requires
                s + nn / 2 < (m + 1) * nn,
                nn >= 1,
                s >= 0,
        ;
    }
    avg as u32
}

/// The readings taken from the host in one refresh: per-core usage in
/// hundredths of a percent, and memory amounts in bytes. The used and free
/// amounts need not add up to the total.
pub struct SystemReadings {
    pub core_usages: Vec<u32>,
    pub total_memory: u64,
    pub used_memory: u64,
    pub free_memory: u64,
}

/// The display form of one sample: the mean CPU usage in hundredths of a
/// percent, and memory amounts in whole mebibytes.
pub struct MetricsSnapshot {
    pub cpu_usage: u32,
    pub ram_total_mb: u64,
    pub ram_used_mb: u64,
    pub ram_free_mb: u64,
}

/// The text fields that a display shows for one sample.
pub struct DisplayFields {
    pub cpu_usage: String,
    pub ram_info: String,
    pub gpu_info: String,
}

impl MetricsSnapshot {
    /// The snapshot of one set of readings.
    pub fn from_readings(readings: &SystemReadings) -> (r: MetricsSnapshot)
        ensures
            r.cpu_usage == average_usage(readings.core_usages@),
            r.ram_total_mb == readings.total_memory / MIB,
            r.ram_used_mb == readings.used_memory / MIB,
            r.ram_free_mb == readings.free_memory / MIB,
    {
        MetricsSnapshot {
            cpu_usage: average_cpu_usage(&readings.core_usages),
            ram_total_mb: readings.total_memory / MIB,
            ram_used_mb: readings.used_memory / MIB,
            ram_free_mb: readings.free_memory / MIB,
        }
    }

    /// The CPU line, with two decimals: `CPU Usage: 20.00%`.
    pub fn cpu_usage_text(&self) -> (r: String)
        ensures
            r@ == cpu_text(self.cpu_usage as nat),
    {
        let centi = self.cpu_usage;
        let mut s = String::from_str("CPU Usage: ");
        push_decimal(&mut s, (centi / 100) as u64);
        s.append(".");
        s.append(digit_str(((centi % 100) / 10) as u64));
        s.append(digit_str((centi % 10) as u64));
        s.append("%");
        proof {
            assert(s@ =~= cpu_text(centi as nat));
        }
        s
    }

    /// The RAM line: `Total RAM: 16384 MB, Used: 8192 MB, Free: 8192 MB`.
    pub fn ram_info_text(&self) -> (r: String)
        ensures
            r@ == ram_mb_text(self.ram_total_mb as nat, self.ram_used_mb as nat, self.ram_free_mb as nat),
    {
        let mut s = String::from_str("Total RAM: ");
        push_decimal(&mut s, self.ram_total_mb);
        s.append(" MB, Used: ");
        push_decimal(&mut s, self.ram_used_mb);
        s.append(" MB, Free: ");
        push_decimal(&mut s, self.ram_free_mb);
        s.append(" MB");
        s
    }
}

/// The display fields for one refresh: the CPU line of the mean core usage,
/// the RAM line of the memory amounts, and the adapter summary as given.
pub fn update_system_info(readings: &SystemReadings, gpu_info: &str) -> (r: DisplayFields)
    ensures
        r.cpu_usage@ == cpu_text(average_usage(readings.core_usages@)),
        r.ram_info@ == ram_text(
            readings.total_memory as nat,
            readings.used_memory as nat,
            readings.free_memory as nat,
        ),
        r.gpu_info@ == gpu_info@,
{
    let snapshot = MetricsSnapshot::from_readings(readings);
    DisplayFields {
        cpu_usage: snapshot.cpu_usage_text(),
        ram_info: snapshot.ram_info_text(),
        gpu_info: String::from_str(gpu_info),
    }
}

/// The rounded mean is the nearest hundredth to the exact mean: it differs
/// from `sum / len` by at most half a hundredth, and is zero for no cores.
pub proof fn lemma_average_is_mean(s: Seq<u32>)
    ensures
        s.len() == 0 ==> average_usage(s) == 0,
        s.len() > 0 ==> average_usage(s) * s.len() <= usage_sum(s) + s.len() / 2,
        s.len() > 0 ==> usage_sum(s) + s.len() / 2 < (average_usage(s) + 1) * s.len(),
        s.len() > 0 && usage_sum(s) % s.len() == 0 ==> average_usage(s) == usage_sum(s) / s.len(),
{
    if s.len() > 0 {
        let n = s.len() as int;
        let t = usage_sum(s) as int;
        let a = (t + n / 2) / n;
        assert(a * n <= t + n / 2 && t + n / 2 < (a + 1) * n) by (nonlinear_arith)
            requires
                a == (t + n / 2) / n,
                n > 0,
                t >= 0,
        ;
        if t % n == 0 {
            assert((t + n / 2) / n == t / n) by (nonlinear_arith)
                requires
                    t % n == 0,
                    n > 0,
                    t >= 0,
            ;
        }
    }
}

} // verus!
