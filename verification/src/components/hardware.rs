//! The hardware overview: CPU and GPU names, CPU load samples and memory
//! use, parsed from procfs and `lspci`.
use vstd::prelude::*;
use crate::components::home::systems_monitor::{meminfo_totals, spec_meminfo};
use crate::text::{
    chars_of, contains, lines_chars, owned, parse_unsigned_chars, split_chars, spec_contains,
    spec_lines, spec_parse_unsigned, spec_split, spec_starts_with, spec_to_lowercase,
    spec_trim, spec_words, starts_with_chars, string_of, to_lowercase, trim_chars, views,
    words_chars, Separator,
};

verus! {

/// The CPU model text of a `model name` line: the trimmed text after its
/// first `:`, empty when there is none.
pub open spec fn spec_model_field(line: Seq<char>) -> Seq<char> {
    let f = spec_split(line, Separator::Char(':'));
    if f.len() > 1 {
        spec_trim(f[1])
    } else {
        Seq::empty()
    }
}

/// The CPU model from `/proc/cpuinfo`: the field of the first line starting
/// with `model name`, or empty text when there is no such line.
pub fn cpu_model_name(cpuinfo: &str) -> (r: String)
    ensures
        ({
            let ls = spec_lines(cpuinfo@);
            ||| exists|i: int|
                0 <= i < ls.len() && spec_starts_with(ls[i], "model name"@) && (forall|k: int|
                    0 <= k < i ==> !spec_starts_with(#[trigger] ls[k], "model name"@)) && r@
                    == spec_model_field(ls[i])
            ||| (forall|k: int| 0 <= k < ls.len() ==> !spec_starts_with(#[trigger] ls[k], "model name"@))
                && r@ == ""@
        }),
{
    let v = chars_of(cpuinfo);
    let lines = lines_chars(&v);
    let key = chars_of("model name");
    let ghost ls = views(lines@);
    let mut i: usize = 0;
    while i < lines.len()
        invariant
            i <= lines.len(),
            ls == views(lines@),
            ls == spec_lines(cpuinfo@),
            key@ == "model name"@,
            forall|k: int| 0 <= k < i ==> !spec_starts_with(#[trigger] ls[k], "model name"@),
        decreases lines.len() - i,
    {
        assert(ls[i as int] == lines@[i as int]@);
        if starts_with_chars(&lines[i], &key) {
            let fields = split_chars(&lines[i], Separator::Char(':'));
            if fields.len() > 1 {
                assert(views(fields@)[1] == fields@[1]@);
                let t = trim_chars(&fields[1]);
                let r = string_of(&t);
                assert(r@ == spec_model_field(ls[i as int]));
                assert(0 <= i < ls.len() && spec_starts_with(ls[i as int], "model name"@));
                return r;
            }
            let r = String::new();
            assert(r@ =~= spec_model_field(ls[i as int]));
            assert(0 <= i < ls.len() && spec_starts_with(ls[i as int], "model name"@));
            return r;
        }
        i += 1;
    }
    let r = owned("");
    r
}

/// An `lspci` line naming a graphics device: in lower case it mentions vga,
/// 3d or display and nvidia, amd or intel, and it has a third
/// `:`-separated field.
pub open spec fn spec_is_gpu_line(line: Seq<char>) -> bool {
    &&& spec_gpu_keywords(spec_to_lowercase(line))
    &&& spec_split(line, Separator::Char(':')).len() > 2
}

/// A lower-cased `lspci` line that mentions vga, 3d or display and nvidia,
/// amd or intel.
pub open spec fn spec_gpu_keywords(lo: Seq<char>) -> bool {
    &&& spec_contains(lo, "vga"@) || spec_contains(lo, "3d"@) || spec_contains(lo, "display"@)
    &&& spec_contains(lo, "nvidia"@) || spec_contains(lo, "amd"@) || spec_contains(lo, "intel"@)
}

/// Whether a lower-cased `lspci` line names a graphics device class and
/// vendor.
pub fn has_gpu_keywords(lo: &str) -> (r: bool)
    ensures
        r == spec_gpu_keywords(lo@),
{
    let kind = contains(lo, "vga") || contains(lo, "3d") || contains(lo, "display");
    let vendor = contains(lo, "nvidia") || contains(lo, "amd") || contains(lo, "intel");
    kind && vendor
}

/// The graphics device name from `lspci` output: the trimmed third field of
/// the first graphics line, or "Unknown GPU".
pub fn gpu_name_from_lspci(output: &str) -> (r: String)
    ensures
        ({
            let ls = spec_lines(output@);
            ||| exists|i: int|
                0 <= i < ls.len() && spec_is_gpu_line(ls[i]) && (forall|k: int|
                    0 <= k < i ==> !spec_is_gpu_line(#[trigger] ls[k])) && r@ == spec_trim(
                    spec_split(ls[i], Separator::Char(':'))[2],
                )
            ||| (forall|k: int| 0 <= k < ls.len() ==> !spec_is_gpu_line(#[trigger] ls[k])) && r@
                == "Unknown GPU"@
        }),
{
    let v = chars_of(output);
    let lines = lines_chars(&v);
    let ghost ls = views(lines@);
    let mut i: usize = 0;
    while i < lines.len()
        invariant
            i <= lines.len(),
            ls == views(lines@),
            ls == spec_lines(output@),
            forall|k: int| 0 <= k < i ==> !spec_is_gpu_line(#[trigger] ls[k]),
        decreases lines.len() - i,
    {
        assert(ls[i as int] == lines@[i as int]@);
        let line = string_of(&lines[i]);
        let lo = to_lowercase(line.as_str());
        let keywords = has_gpu_keywords(lo.as_str());
        let fields = split_chars(&lines[i], Separator::Char(':'));
        if keywords && fields.len() > 2 {
            assert(views(fields@)[2] == fields@[2]@);
            let t = trim_chars(&fields[2]);
            let r = string_of(&t);
            assert(spec_is_gpu_line(ls[i as int]));
            assert(r@ == spec_trim(spec_split(ls[i as int], Separator::Char(':'))[2]));
            return r;
        }
        assert(!spec_is_gpu_line(ls[i as int]));
        i += 1;
    }
    owned("Unknown GPU")
}

/// The numbers among `words`, in order (words that are not numbers are
/// skipped).
pub open spec fn spec_numbers(words: Seq<Seq<char>>) -> Seq<nat>
    decreases words.len(),
{
    if words.len() == 0 {
        Seq::empty()
    } else {
        let prev = spec_numbers(words.drop_last());
        match spec_parse_unsigned(words.last(), u64::MAX as nat) {
            Some(v) => prev.push(v),
            None => prev,
        }
    }
}

pub open spec fn spec_sum(v: Seq<nat>) -> nat
    decreases v.len(),
{
    if v.len() == 0 {
        0
    } else {
        spec_sum(v.drop_last()) + v.last()
    }
}

/// A `/proc/stat` sample `(idle, total)`: the numbers after the label of the
/// first line; idle is the fourth plus the fifth (if any), total their sum.
/// `None` without a first line or with fewer than four numbers.
pub open spec fn spec_cpu_stat(stat: Seq<char>) -> Option<(nat, nat)> {
    let ls = spec_lines(stat);
    if ls.len() == 0 {
        None
    } else {
        let w = spec_words(ls[0]);
        let vals = spec_numbers(if w.len() > 0 {
            w.drop_first()
        } else {
            w
        });
        if vals.len() < 4 {
            None
        } else {
            Some(
                (
                    vals[3] + if vals.len() > 4 {
                        vals[4]
                    } else {
                        0
                    },
                    spec_sum(vals),
                ),
            )
        }
    }
}

proof fn lemma_numbers_bounded(words: Seq<Seq<char>>)
    ensures
        spec_numbers(words).len() <= words.len(),
        forall|i: int| 0 <= i < spec_numbers(words).len() ==> #[trigger] spec_numbers(words)[i] <= u64::MAX,
    decreases words.len(),
{
    if words.len() > 0 {
        lemma_numbers_bounded(words.drop_last());
    }
}

/// A CPU time sample from `/proc/stat` (see `spec_cpu_stat`). The sums are
/// exact; callers narrowing them to `u64` decide what an overflow means.
pub fn cpu_stat_sample(stat: &str) -> (r: Option<(u128, u128)>)
    ensures
        match spec_cpu_stat(stat@) {
            Some((idle, total)) => r == Some((idle as u128, total as u128)),
            None => r is None,
        },
{
    let v = chars_of(stat);
    let lines = lines_chars(&v);
    if lines.len() == 0 {
        return None;
    }
    assert(views(lines@)[0] == lines@[0]@);
    let w = words_chars(&lines[0]);
    let ghost ws = if views(w@).len() > 0 {
        views(w@).drop_first()
    } else {
        views(w@)
    };
    let start: usize = if w.len() > 0 {
        1
    } else {
        0
    };
    let mut vals: Vec<u64> = Vec::new();
    let mut total: u128 = 0;
    let mut i: usize = start;
    assert(ws.take(0) =~= Seq::<Seq<char>>::empty());
    while i < w.len()
        invariant
            start <= i <= w.len(),
            start == (if w@.len() > 0 { 1int } else { 0int }),
            ws == (if views(w@).len() > 0 {
                views(w@).drop_first()
            } else {
                views(w@)
            }),
            vals@.len() <= i - start,
            vals@.map_values(|x: u64| x as nat) == spec_numbers(ws.take(i - start)),
            total as nat == spec_sum(spec_numbers(ws.take(i - start))),
            total <= (i - start) * 0xFFFF_FFFF_FFFF_FFFFu128,
        decreases w.len() - i,
    {
        assert(ws.take(i - start + 1).drop_last() =~= ws.take(i - start));
        assert(ws.take(i - start + 1).last() == w@[i as int]@);
        let ghost old_vals = vals@;
        match parse_unsigned_chars(&w[i], u64::MAX) {
            Some(x) => {
                vals.push(x);
                let ghost before = spec_numbers(ws.take(i - start));
                assert(spec_numbers(ws.take(i - start + 1)) == before.push(x as nat));
                assert(before.push(x as nat).drop_last() =~= before);
                total = total + x as u128;
                assert(vals@.map_values(|x: u64| x as nat) =~= old_vals.map_values(|x: u64| x as nat).push(x as nat));
            },
            None => {},
        }
        i += 1;
    }
    assert(ws.take(w.len() - start) =~= ws);
    let ghost nums = spec_numbers(ws);
    assert(vals@.len() == nums.len());
    if vals.len() < 4 {
        return None;
    }
    assert(vals@[3] as nat == nums[3]);
    let idle: u128 = vals[3] as u128 + if vals.len() > 4 {
        assert(vals@[4] as nat == nums[4]);
        vals[4] as u128
    } else {
        0
    };
    Some((idle, total))
}

/// The change between two CPU samples `(idle, total)`: `(idle, total)`
/// differences (never below 0), or `None` when a sample is missing or no
/// time passed.
pub fn cpu_busy_delta(before: Option<(u64, u64)>, after: Option<(u64, u64)>) -> (r: Option<(u64, u64)>)
    ensures
        match (before, after) {
            (Some((i0, t0)), Some((i1, t1))) => {
                let dt = if t1 >= t0 { t1 - t0 } else { 0 };
                let di = if i1 >= i0 { i1 - i0 } else { 0 };
                if dt > 0 {
                    r == Some((di as u64, dt as u64))
                } else {
                    r is None
                }
            },
            _ => r is None,
        },
{
    match (before, after) {
        (Some((i0, t0)), Some((i1, t1))) => {
            let dt = if t1 >= t0 {
                t1 - t0
            } else {
                0
            };
            let di = if i1 >= i0 {
                i1 - i0
            } else {
                0
            };
            if dt > 0 {
                Some((di, dt))
            } else {
                None
            }
        },
        _ => None,
    }
}

/// `(used, total)` memory in kilobytes from `/proc/meminfo`; used is total
/// minus available, never below 0.
pub fn memory_used_and_total(content: &str) -> (r: (u64, u64))
    ensures
        ({
            let (t, a) = spec_meminfo(spec_lines(content@));
            r == ((if t >= a {
                t - a
            } else {
                0
            }) as u64, t)
        }),
{
    let (total, avail) = meminfo_totals(content);
    let used = if total >= avail {
        total - avail
    } else {
        0
    };
    (used, total)
}

/// An `lspci` line is a graphics line exactly when, in lower case, it names a
/// display class (vga, 3d or display) and one of the vendors nvidia, amd or
/// intel, and it has a third `:`-separated field; Intel integrated graphics
/// count like the others.
pub proof fn lemma_gpu_line_classes_and_vendors(line: Seq<char>)
    ensures
        ({
            let lo = spec_to_lowercase(line);
            let class = spec_contains(lo, "vga"@) || spec_contains(lo, "3d"@) || spec_contains(lo, "display"@);
            let fields = spec_split(line, Separator::Char(':')).len() > 2;
            &&& (class && fields && spec_contains(lo, "intel"@)) ==> spec_is_gpu_line(line)
            &&& (class && fields && spec_contains(lo, "nvidia"@)) ==> spec_is_gpu_line(line)
            &&& (class && fields && spec_contains(lo, "amd"@)) ==> spec_is_gpu_line(line)
            &&& spec_is_gpu_line(line) ==> class && fields && (spec_contains(lo, "intel"@)
                || spec_contains(lo, "nvidia"@) || spec_contains(lo, "amd"@))
        }),
{
}

} // verus!
