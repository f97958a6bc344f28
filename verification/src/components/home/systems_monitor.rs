//! The live metrics of the home page: temperatures, fan speeds, memory and
//! disk use, read from sysfs, procfs and `df`.
use vstd::prelude::*;
use crate::text::{
    chars_of, contains, lines_chars, owned, parse_trimmed_i32, parse_trimmed_u32,
    parse_unsigned_chars, push_char, push_decimal, push_signed_decimal, push_str,
    spec_contains, spec_decimal, spec_lines, spec_parse_i32, spec_parse_unsigned,
    spec_signed_decimal, spec_starts_with, spec_to_lowercase, spec_trim, spec_words,
    starts_with_chars, string_of, to_lowercase, trim, views, words_chars,
};

verus! {

/// Integer division rounding toward zero, as Rust's `/` does.
pub open spec fn spec_trunc_div(a: int, b: int) -> int {
    if a >= 0 {
        a / b
    } else {
        -((-a) / b)
    }
}

/// `format!("{}°C", mt / 1000)` for a reading in millidegrees.
pub fn milli_celsius_label(mt: i32) -> (r: String)
    ensures
        r@ == spec_signed_decimal(spec_trunc_div(mt as int, 1000)) + "°C"@,
{
    let c: i64 = if mt >= 0 {
        (mt / 1000) as i64
    } else {
        0 - ((0 - mt as i64) / 1000)
    };
    let mut s = String::new();
    push_signed_decimal(&mut s, c);
    push_str(&mut s, "°C");
    s
}

/// A temperature label from the contents of a millidegree file (`None`
/// when it could not be read): whole degrees, or `?°C`.
pub fn temp_label(contents: Option<&str>) -> (r: String)
    ensures
        r@ == match contents {
            Some(c) => match spec_parse_i32(spec_trim(c@)) {
                Some(mt) => spec_signed_decimal(spec_trunc_div(mt, 1000)) + "°C"@,
                None => "?°C"@,
            },
            None => "?°C"@,
        },
{
    match contents {
        Some(c) => match parse_trimmed_i32(c) {
            Some(mt) => milli_celsius_label(mt),
            None => owned("?°C"),
        },
        None => owned("?°C"),
    }
}

/// A hwmon chip of a graphics card: its trimmed, lower-cased name mentions
/// nvidia, amdgpu or radeon.
pub open spec fn spec_is_gpu_hwmon(name: Seq<char>) -> bool {
    spec_gpu_hwmon_keywords(spec_to_lowercase(spec_trim(name)))
}

/// A lower-cased hwmon chip name that mentions nvidia, amdgpu or radeon.
pub open spec fn spec_gpu_hwmon_keywords(n: Seq<char>) -> bool {
    spec_contains(n, "nvidia"@) || spec_contains(n, "amdgpu"@) || spec_contains(n, "radeon"@)
}

/// Whether a trimmed, lower-cased hwmon chip name names a graphics card.
pub fn has_gpu_hwmon_keywords(n: &str) -> (r: bool)
    ensures
        r == spec_gpu_hwmon_keywords(n@),
{
    contains(n, "nvidia") || contains(n, "amdgpu") || contains(n, "radeon")
}

/// Whether a hwmon chip name belongs to a graphics card.
pub fn is_gpu_hwmon(name: &str) -> (r: bool)
    ensures
        r == spec_is_gpu_hwmon(name@),
{
    let t = trim(name);
    let n = to_lowercase(t.as_str());
    has_gpu_hwmon_keywords(n.as_str())
}

/// Whether a hwmon chip name belongs to the ASUS platform driver (its
/// trimmed name mentions `asus`), which reports the fan speeds.
pub fn is_asus_hwmon(name: &str) -> (r: bool)
    ensures
        r == spec_contains(spec_trim(name@), "asus"@),
{
    let t = trim(name);
    contains(t.as_str(), "asus")
}

/// A fan speed reading from a `fanN_input` file: `<rpm> RPM`, or `None`
/// when it is not a number.
pub fn fan_reading(contents: &str) -> (r: Option<String>)
    ensures
        match spec_parse_unsigned(spec_trim(contents@), u32::MAX as nat) {
            Some(v) => r matches Some(s) && s@ == spec_decimal(v) + " RPM"@,
            None => r is None,
        },
{
    match parse_trimmed_u32(contents) {
        Some(v) => {
            let mut s = String::new();
            push_decimal(&mut s, v as u64);
            push_str(&mut s, " RPM");
            Some(s)
        },
        None => None,
    }
}

/// The shown fan speed: the reading, or `? RPM`.
pub fn rpm_label(reading: Option<String>) -> (r: String)
    ensures
        r@ == match reading {
            Some(s) => s@,
            None => "? RPM"@,
        },
{
    match reading {
        Some(s) => s,
        None => owned("? RPM"),
    }
}

/// The value of a `/proc/meminfo` line: its second word as a number of
/// kilobytes, 0 when missing or not a number.
pub open spec fn spec_meminfo_value(line: Seq<char>) -> u64 {
    let w = spec_words(line);
    if w.len() > 1 {
        match spec_parse_unsigned(w[1], u64::MAX as nat) {
            Some(v) => v as u64,
            None => 0,
        }
    } else {
        0
    }
}

/// `(MemTotal, MemAvailable)` after reading `lines` in order; a later line
/// with the same label overrides an earlier one, a missing one is 0.
pub open spec fn spec_meminfo(lines: Seq<Seq<char>>) -> (u64, u64)
    decreases lines.len(),
{
    if lines.len() == 0 {
        (0, 0)
    } else {
        let prev = spec_meminfo(lines.drop_last());
        let l = lines.last();
        if spec_starts_with(l, "MemTotal:"@) {
            (spec_meminfo_value(l), prev.1)
        } else if spec_starts_with(l, "MemAvailable:"@) {
            (prev.0, spec_meminfo_value(l))
        } else {
            prev
        }
    }
}

fn meminfo_value(line: &Vec<char>) -> (r: u64)
    ensures
        r == spec_meminfo_value(line@),
{
    let w = words_chars(line);
    if w.len() > 1 {
        assert(views(w@)[1] == w@[1]@);
        match parse_unsigned_chars(&w[1], u64::MAX) {
            Some(v) => v,
            None => 0,
        }
    } else {
        0
    }
}

/// `(MemTotal, MemAvailable)` in kilobytes from `/proc/meminfo`.
pub fn meminfo_totals(content: &str) -> (r: (u64, u64))
    ensures
        r == spec_meminfo(spec_lines(content@)),
{
    let v = chars_of(content);
    let lines = lines_chars(&v);
    let total_key = chars_of("MemTotal:");
    let avail_key = chars_of("MemAvailable:");
    let mut total: u64 = 0;
    let mut avail: u64 = 0;
    let mut i: usize = 0;
    assert(views(lines@).take(0) =~= Seq::<Seq<char>>::empty());
    while i < lines.len()
        invariant
            i <= lines.len(),
            total_key@ == "MemTotal:"@,
            avail_key@ == "MemAvailable:"@,
            (total, avail) == spec_meminfo(views(lines@).take(i as int)),
        decreases lines.len() - i,
    {
        assert(views(lines@).take(i + 1).drop_last() =~= views(lines@).take(i as int));
        assert(views(lines@).take(i + 1).last() == lines@[i as int]@);
        if starts_with_chars(&lines[i], &total_key) {
            total = meminfo_value(&lines[i]);
        } else if starts_with_chars(&lines[i], &avail_key) {
            avail = meminfo_value(&lines[i]);
        }
        i += 1;
    }
    assert(views(lines@).take(lines.len() as int) =~= views(lines@));
    (total, avail)
}

/// The memory label: used and total in whole gigabytes (`used / total GB`),
/// or `N/A` when no total is known.
pub fn ram_label(total: u64, avail: u64) -> (r: String)
    requires
        total == 0 || avail <= total,
    ensures
        r@ == if total > 0 {
            spec_decimal(((total - avail) / 1_048_576) as nat) + " / "@ + spec_decimal(
                (total / 1_048_576) as nat,
            ) + " GB"@
        } else {
            "N/A"@
        },
{
    if total > 0 {
        let mut s = String::new();
        push_decimal(&mut s, (total - avail) / 1_048_576);
        push_str(&mut s, " / ");
        push_decimal(&mut s, total / 1_048_576);
        push_str(&mut s, " GB");
        s
    } else {
        owned("N/A")
    }
}

/// The used space on `/` from `df -h /` output: the third word of its
/// second line, or `N/A`.
pub fn disk_used_from_df(stdout: &str) -> (r: String)
    ensures
        r@ == ({
            let ls = spec_lines(stdout@);
            if ls.len() > 1 && spec_words(ls[1]).len() > 2 {
                spec_words(ls[1])[2]
            } else {
                "N/A"@
            }
        }),
{
    let v = chars_of(stdout);
    let lines = lines_chars(&v);
    if lines.len() > 1 {
        assert(views(lines@)[1] == lines@[1]@);
        let w = words_chars(&lines[1]);
        if w.len() > 2 {
            assert(views(w@)[2] == w@[2]@);
            return string_of(&w[2]);
        }
    }
    owned("N/A")
}

/// A lower-cased hwmon chip name counts as a graphics card exactly when it
/// mentions nvidia, amdgpu or radeon: any other chip (a disk, the CPU, the
/// ASUS platform driver) is never taken for one.
pub proof fn lemma_gpu_hwmon_only_gpu_vendors(n: Seq<char>)
    ensures
        !spec_contains(n, "nvidia"@) && !spec_contains(n, "amdgpu"@) && !spec_contains(n, "radeon"@)
            ==> !spec_gpu_hwmon_keywords(n),
        spec_contains(n, "nvidia"@) ==> spec_gpu_hwmon_keywords(n),
        spec_contains(n, "amdgpu"@) ==> spec_gpu_hwmon_keywords(n),
        spec_contains(n, "radeon"@) ==> spec_gpu_hwmon_keywords(n),
        spec_is_gpu_hwmon(n) ==> spec_contains(spec_to_lowercase(spec_trim(n)), "nvidia"@)
            || spec_contains(spec_to_lowercase(spec_trim(n)), "amdgpu"@)
            || spec_contains(spec_to_lowercase(spec_trim(n)), "radeon"@),
{
}

} // verus!
