use vstd::prelude::*;
use crate::model::{Crash, OperatingSystemCount};
use crate::text::{count_char, count_occurrences, decimal, digit_char, push_char, push_decimal, push_str};

verus! {

/// A crash group that the service classed as a crash rather than an error.
pub open spec fn is_crash(c: Crash) -> bool {
    c.exception_app_code == Some(true)
}

/// The occurrence count of a crash group; an absent count counts as none.
pub open spec fn count_of(c: Crash) -> nat {
    match c.count {
        Some(n) => n as nat,
        None => 0,
    }
}

/// Keeps the crash groups classed as crashes, in order; errors and unclassified groups go.
pub fn filter_out_errors(crashes: Vec<Crash>) -> (r: Vec<Crash>)
    ensures
        r@ == crashes@.filter(|c: Crash| is_crash(c)),
{
    let ghost all = crashes@;
    let ghost keep = |c: Crash| is_crash(c);
    let mut rest = crashes;
    let mut kept: Vec<Crash> = Vec::new();
    let n = rest.len();
    let mut i: usize = 0;
    while i < n
        invariant
            n == all.len(),
            i <= n,
            rest@ == all.skip(i as int),
            keep == (|c: Crash| is_crash(c)),
            kept@ == all.take(i as int).filter(keep),
        decreases n - i,
    {
        let c = rest.remove(0);
        proof {
            reveal(Seq::filter);
            assert(all.take(i + 1).drop_last() =~= all.take(i as int));
            assert(all.skip(i as int).drop_first() =~= all.skip(i + 1));
        }
        let is_crash_group = match c.exception_app_code {
            Some(b) => b,
            None => false,
        };
        if is_crash_group {
            kept.push(c);
        }
        i = i + 1;
    }
    assert(all.take(n as int) =~= all);
    kept
}

/// `part / whole` as a percentage in hundredths, rounded to the nearest (halves up).
pub open spec fn rounded_hundredths(part: nat, whole: nat) -> nat {
    (part * 20000 + whole) / (2 * whole)
}

/// A number of hundredths written with two decimals.
pub open spec fn fixed_two(h: nat) -> Seq<char> {
    decimal(h / 100) + seq!['.', digit_char((h / 10) % 10), digit_char(h % 10)]
}

/// `part / whole * 100` with two decimals; a zero whole gives `inf`, or `NaN` for a zero part.
pub open spec fn ratio_text(part: nat, whole: nat) -> Seq<char> {
    if whole == 0 {
        if part == 0 {
            "NaN"@
        } else {
            "inf"@
        }
    } else {
        fixed_two(rounded_hundredths(part, whole))
    }
}

/// Appends `ratio_text(part, whole)`.
pub fn push_ratio(s: &mut String, part: u64, whole: u64)
    ensures
        final(s)@ == old(s)@ + ratio_text(part as nat, whole as nat),
{
    if whole == 0 {
        if part == 0 {
            push_str(s, "NaN");
        } else {
            push_str(s, "inf");
        }
    } else {
        let h: u128 = ((part as u128) * 20000 + (whole as u128)) / (2 * (whole as u128));
        push_decimal(s, h / 100);
        push_char(s, '.');
        push_char(s, (48u8 + ((h / 10) % 10) as u8) as char);
        push_char(s, (48u8 + (h % 10) as u8) as char);
        assert(s@ =~= old(s)@ + ratio_text(part as nat, whole as nat));
    }
}

/// How much of the threshold `threshold` the count `count` reaches, as shown in a report.
pub open spec fn percentage_text(count: nat, threshold: nat) -> Seq<char> {
    ratio_text(count, threshold) + "%"@
}

/// Whether `count` reaches the threshold `threshold` (100% or more).
pub open spec fn reaches_threshold(count: nat, threshold: nat) -> bool {
    count >= threshold && count > 0
}

/// The percentage of the threshold that a crash count reaches, with two decimals.
pub fn threshold_percentage(count: u64, threshold: u64) -> (r: String)
    ensures
        r@ == percentage_text(count as nat, threshold as nat),
{
    let mut s = String::new();
    push_ratio(&mut s, count, threshold);
    push_str(&mut s, "%");
    s
}

/// Whether a crash count reaches the threshold.
pub fn threshold_reached(count: u64, threshold: u64) -> (r: bool)
    ensures
        r == reaches_threshold(count as nat, threshold as nat),
{
    count >= threshold && count > 0
}

/// The sum of the occurrence counts.
pub open spec fn sum_counts(s: Seq<Crash>) -> nat
    decreases s.len(),
{
    if s.len() == 0 {
        0
    } else {
        sum_counts(s.drop_last()) + count_of(s.last())
    }
}

/// The floor of the mean occurrence count; none where the counts sum to zero.
pub open spec fn mean_of(s: Seq<Crash>) -> Option<nat> {
    if sum_counts(s) == 0 {
        None
    } else {
        Some(sum_counts(s) / s.len())
    }
}

proof fn lemma_sum_bound(s: Seq<Crash>)
    ensures
        sum_counts(s) <= s.len() * 0xffff_ffff_ffff_ffff,
        s.len() == 0 ==> sum_counts(s) == 0,
    decreases s.len(),
{
    if s.len() > 0 {
        lemma_sum_bound(s.drop_last());
    }
}

/// The floor of the mean occurrence count, or `None` where all counts are zero.
pub fn arithmetic_mean(crashes: &Vec<Crash>) -> (r: Option<u64>)
    ensures
        match r {
            Some(m) => mean_of(crashes@) == Some(m as nat),
            None => mean_of(crashes@) is None,
        },
{
    let n = crashes.len();
    let mut sum: u128 = 0;
    let mut i: usize = 0;
    while i < n
        invariant
            n == crashes@.len(),
            i <= n,
            sum == sum_counts(crashes@.take(i as int)),
            sum <= i * 0xffff_ffff_ffff_ffffu128,
        decreases n - i,
    {
        assert(crashes@.take(i + 1).drop_last() =~= crashes@.take(i as int));
        let c: u64 = match crashes[i].count {
            Some(k) => k,
            None => 0,
        };
        sum = sum + c as u128;
        i = i + 1;
    }
    assert(crashes@.take(n as int) =~= crashes@);
    if sum == 0 {
        return None;
    }
    let len: u128 = n as u128;
    proof {
        lemma_sum_bound(crashes@);
        assert(sum / len <= 0xffff_ffff_ffff_ffff) by (nonlinear_arith)
            requires
                sum <= len * 0xffff_ffff_ffff_ffff,
                len > 0,
        ;
    }
    Some((sum / len) as u64)
}

/// A crash group that the arithmetic-mean cut keeps.
pub open spec fn at_least(c: Crash, mean: nat) -> bool {
    count_of(c) >= mean
}

/// Keeps the crash groups that occurred at least `mean` times, in order.
pub fn keep_at_least(crashes: Vec<Crash>, mean: u64) -> (r: Vec<Crash>)
    ensures
        r@ == crashes@.filter(|c: Crash| at_least(c, mean as nat)),
{
    let ghost all = crashes@;
    let ghost keep = |c: Crash| at_least(c, mean as nat);
    let mut rest = crashes;
    let mut kept: Vec<Crash> = Vec::new();
    let n = rest.len();
    let mut i: usize = 0;
    while i < n
        invariant
            n == all.len(),
            i <= n,
            rest@ == all.skip(i as int),
            keep == (|c: Crash| at_least(c, mean as nat)),
            kept@ == all.take(i as int).filter(keep),
        decreases n - i,
    {
        let c = rest.remove(0);
        proof {
            reveal(Seq::filter);
            assert(all.take(i + 1).drop_last() =~= all.take(i as int));
            assert(all.skip(i as int).drop_first() =~= all.skip(i + 1));
        }
        let count: u64 = match c.count {
            Some(k) => k,
            None => 0,
        };
        if count >= mean {
            kept.push(c);
        }
        i = i + 1;
    }
    assert(all.take(n as int) =~= all);
    kept
}

/// An operating system whose share of the affected devices is over five percent.
pub open spec fn shown(o: OperatingSystemCount, devices: nat) -> bool {
    o.count * 20 > devices
}

/// One operating system's part of a summary.
pub open spec fn os_entry_text(o: OperatingSystemCount, devices: nat) -> Seq<char> {
    o.name@ + ": "@ + decimal(o.count as nat) + " crashes ("@ + ratio_text(o.count as nat, devices) + "%)"@
}

/// The entries for `oses`, separated by `" | "`.
pub open spec fn joined_entries(oses: Seq<OperatingSystemCount>, devices: nat) -> Seq<char>
    decreases oses.len(),
{
    if oses.len() == 0 {
        Seq::empty()
    } else if oses.len() == 1 {
        os_entry_text(oses[0], devices)
    } else {
        joined_entries(oses.drop_last(), devices) + " | "@ + os_entry_text(oses.last(), devices)
    }
}

/// The summary of the operating systems that a crash group affected: those over five percent
/// of its devices, followed by `" and more"` where fewer separators than devices were written.
pub open spec fn os_summary_text(oses: Seq<OperatingSystemCount>, devices: nat) -> Seq<char> {
    let j = joined_entries(oses.filter(|o: OperatingSystemCount| shown(o, devices)), devices);
    if count_char(j, '|') < devices {
        j + " and more"@
    } else {
        j
    }
}

/// Summarises the operating systems that a crash group affected on `device_count` devices.
pub fn os_summary(oses: &Vec<OperatingSystemCount>, device_count: u64) -> (r: String)
    ensures
        r@ == os_summary_text(oses@, device_count as nat),
{
    let ghost dev = device_count as nat;
    let ghost keep = |o: OperatingSystemCount| shown(o, dev);
    let mut s = String::new();
    let mut any = false;
    let mut i: usize = 0;
    while i < oses.len()
        invariant
            i <= oses@.len(),
            dev == device_count as nat,
            keep == (|o: OperatingSystemCount| shown(o, dev)),
            s@ == joined_entries(oses@.take(i as int).filter(keep), dev),
            any == (oses@.take(i as int).filter(keep).len() > 0),
        decreases oses@.len() - i,
    {
        let o = &oses[i];
        let ghost before = oses@.take(i as int).filter(keep);
        proof {
            reveal(Seq::filter);
            assert(oses@.take(i + 1).drop_last() =~= oses@.take(i as int));
        }
        if (o.count as u128) * 20 > device_count as u128 {
            if any {
                push_str(&mut s, " | ");
            }
            push_str(&mut s, o.name.as_str());
            push_str(&mut s, ": ");
            push_decimal(&mut s, o.count as u128);
            push_str(&mut s, " crashes (");
            push_ratio(&mut s, o.count, device_count);
            push_str(&mut s, "%)");
            any = true;
            proof {
                let after = oses@.take(i + 1).filter(keep);
                assert(after == before.push(oses@[i as int]));
                assert(after.drop_last() =~= before);
                if before.len() == 0 {
                    assert(s@ =~= os_entry_text(oses@[i as int], dev));
                } else {
                    assert(s@ =~= joined_entries(before, dev) + " | "@ + os_entry_text(oses@[i as int], dev));
                }
            }
        }
        i = i + 1;
    }
    assert(oses@.take(oses@.len() as int) =~= oses@);
    let pipes = count_occurrences(s.as_str(), '|');
    if (pipes as u128) < (device_count as u128) {
        push_str(&mut s, " and more");
    }
    s
}

} // verus!
