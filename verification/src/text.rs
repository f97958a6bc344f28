//! Text handling shared by the sysfs, procfs and command-output readers:
//! character classes, splitting, trimming, integer parsing and formatting.
use vstd::prelude::*;
use vstd::string::*;

verus! {

broadcast use vstd::string::group_string_axioms;

// ---------------------------------------------------------------------------
// Character classes
// ---------------------------------------------------------------------------

/// The Unicode `White_Space` property, as `char::is_whitespace` and
/// `str::trim` use it.
pub open spec fn spec_is_whitespace(c: char) -> bool {
    let u = c as u32;
    ||| 0x9 <= u <= 0xD
    ||| u == 0x20
    ||| u == 0x85
    ||| u == 0xA0
    ||| u == 0x1680
    ||| 0x2000 <= u <= 0x200A
    ||| u == 0x2028
    ||| u == 0x2029
    ||| u == 0x202F
    ||| u == 0x205F
    ||| u == 0x3000
}

pub fn is_whitespace(c: char) -> (r: bool)
    ensures
        r == spec_is_whitespace(c),
{
    let u = c as u32;
    (0x9 <= u && u <= 0xD) || u == 0x20 || u == 0x85 || u == 0xA0 || u == 0x1680 || (0x2000
        <= u && u <= 0x200A) || u == 0x2028 || u == 0x2029 || u == 0x202F || u == 0x205F || u
        == 0x3000
}

pub open spec fn spec_is_digit(c: char) -> bool {
    48 <= (c as u32) <= 57
}

pub open spec fn spec_digit_value(c: char) -> nat {
    ((c as u32) - 48) as nat
}

/// The decimal digit character for `d < 10`.
pub open spec fn spec_digit_char(d: nat) -> char {
    (d + 48) as char
}

/// The lower-case hexadecimal digit character for `d < 16`.
pub open spec fn spec_hex_char(d: nat) -> char {
    if d < 10 {
        (d + 48) as char
    } else {
        (d + 87) as char
    }
}

// ---------------------------------------------------------------------------
// Building strings
// ---------------------------------------------------------------------------

/// `String::push`: appends one character.
#[verifier::external_body]
pub(crate) fn push_char(s: &mut String, c: char)
    ensures
        final(s)@ == old(s)@.push(c),
{
    s.push(c);
}

/// The characters of a string slice, in order.
pub fn chars_of(s: &str) -> (v: Vec<char>)
    ensures
        v@ == s@,
{
    let mut v: Vec<char> = Vec::new();
    for c in it: s.chars()
        invariant
            v@ == it.seq().take(it.index() as int),
    {
        v.push(c);
    }
    v
}

/// A string holding the characters `v[from..to]`.
pub fn string_of_range(v: &Vec<char>, from: usize, to: usize) -> (s: String)
    requires
        from <= to <= v.len(),
    ensures
        s@ == v@.subrange(from as int, to as int),
{
    let mut s = String::new();
    let mut i = from;
    while i < to
        invariant
            from <= i <= to <= v.len(),
            s@ == v@.subrange(from as int, i as int),
        decreases to - i,
    {
        push_char(&mut s, v[i]);
        assert(v@.subrange(from as int, i + 1) =~= v@.subrange(from as int, i as int).push(v@[i as int]));
        i += 1;
    }
    s
}

/// A string holding all the characters of `v`.
pub fn string_of(v: &Vec<char>) -> (s: String)
    ensures
        s@ == v@,
{
    let s = string_of_range(v, 0, v.len());
    assert(v@.subrange(0, v@.len() as int) =~= v@);
    s
}

/// A string holding the characters of a string slice.
pub fn owned(s: &str) -> (r: String)
    ensures
        r@ == s@,
{
    s.to_owned()
}

// ---------------------------------------------------------------------------
// Case mapping (Unicode tables; the standard library computes these)
// ---------------------------------------------------------------------------

/// What `str::to_lowercase` returns for a string.
pub uninterp spec fn spec_to_lowercase(s: Seq<char>) -> Seq<char>;

/// What `str::to_uppercase` returns for a string.
pub uninterp spec fn spec_to_uppercase(s: Seq<char>) -> Seq<char>;

/// `str::to_lowercase`. The contract names the result: it is the Unicode
/// lower-case mapping of the argument, which this crate does not spell out.
#[verifier::external_body]
pub(crate) fn to_lowercase(s: &str) -> (r: String)
    ensures
        r@ == spec_to_lowercase(s@),
{
    s.to_lowercase()
}

/// `str::to_uppercase`. The contract names the result: it is the Unicode
/// upper-case mapping of the argument, which this crate does not spell out.
#[verifier::external_body]
pub(crate) fn to_uppercase(s: &str) -> (r: String)
    ensures
        r@ == spec_to_uppercase(s@),
{
    s.to_uppercase()
}

// ---------------------------------------------------------------------------
// Substrings
// ---------------------------------------------------------------------------

pub open spec fn spec_occurs_at(s: Seq<char>, p: Seq<char>, i: int) -> bool {
    0 <= i && i + p.len() <= s.len() && s.subrange(i, i + p.len()) == p
}

/// `s` contains `p` as a contiguous run of characters.
pub open spec fn spec_contains(s: Seq<char>, p: Seq<char>) -> bool {
    exists|i: int| spec_occurs_at(s, p, i)
}

pub open spec fn spec_starts_with(s: Seq<char>, p: Seq<char>) -> bool {
    p.len() <= s.len() && s.subrange(0, p.len() as int) == p
}

fn occurs_at(s: &Vec<char>, p: &Vec<char>, i: usize) -> (r: bool)
    requires
        i + p.len() <= s.len(),
    ensures
        r == spec_occurs_at(s@, p@, i as int),
{
    let mut j: usize = 0;
    while j < p.len()
        invariant
            j <= p.len(),
            i + p.len() <= s.len(),
            forall|k: int| 0 <= k < j ==> s@[i + k] == p@[k],
        decreases p.len() - j,
    {
        if s[i + j] != p[j] {
            assert(s@.subrange(i as int, i + p.len())[j as int] != p@[j as int]);
            return false;
        }
        j += 1;
    }
    assert(s@.subrange(i as int, i + p.len()) =~= p@);
    true
}

pub fn contains_chars(s: &Vec<char>, p: &Vec<char>) -> (r: bool)
    ensures
        r == spec_contains(s@, p@),
{
    if p.len() > s.len() {
        return false;
    }
    let n = s.len() - p.len();
    let mut i: usize = 0;
    loop
        invariant
            p.len() <= s.len(),
            n == s.len() - p.len(),
            i <= n,
            forall|k: int| 0 <= k < i ==> !spec_occurs_at(s@, p@, k),
        decreases n - i,
    {
        if occurs_at(s, p, i) {
            return true;
        }
        if i == n {
            return false;
        }
        i += 1;
    }
}

/// `str::contains` with a string pattern.
pub fn contains(s: &str, p: &str) -> (r: bool)
    ensures
        r == spec_contains(s@, p@),
{
    let sv = chars_of(s);
    let pv = chars_of(p);
    contains_chars(&sv, &pv)
}

pub fn starts_with_chars(s: &Vec<char>, p: &Vec<char>) -> (r: bool)
    ensures
        r == spec_starts_with(s@, p@),
{
    if p.len() > s.len() {
        return false;
    }
    let r = occurs_at(s, p, 0);
    r
}

/// `str::starts_with` with a string pattern.
pub fn starts_with(s: &str, p: &str) -> (r: bool)
    ensures
        r == spec_starts_with(s@, p@),
{
    let sv = chars_of(s);
    let pv = chars_of(p);
    starts_with_chars(&sv, &pv)
}

// ---------------------------------------------------------------------------
// Splitting
// ---------------------------------------------------------------------------

/// What separates the fields of a split.
#[derive(Clone, Copy)]
pub enum Separator {
    /// One given character.
    Char(char),
    /// Any character with the `White_Space` property.
    Whitespace,
}

pub open spec fn spec_is_separator(sep: Separator, c: char) -> bool {
    match sep {
        Separator::Char(x) => c == x,
        Separator::Whitespace => spec_is_whitespace(c),
    }
}

pub fn is_separator(sep: Separator, c: char) -> (r: bool)
    ensures
        r == spec_is_separator(sep, c),
{
    match sep {
        Separator::Char(x) => c == x,
        Separator::Whitespace => is_whitespace(c),
    }
}

/// `str::split`: the fields between separators, empty ones included; there
/// is always at least one field.
pub open spec fn spec_split(s: Seq<char>, sep: Separator) -> Seq<Seq<char>>
    decreases s.len(),
{
    if s.len() == 0 {
        seq![Seq::empty()]
    } else {
        let prev = spec_split(s.drop_last(), sep);
        if spec_is_separator(sep, s.last()) {
            prev.push(Seq::empty())
        } else {
            prev.update(prev.len() - 1, prev.last().push(s.last()))
        }
    }
}

pub proof fn lemma_split_len(s: Seq<char>, sep: Separator)
    ensures
        spec_split(s, sep).len() >= 1,
    decreases s.len(),
{
    if s.len() > 0 {
        lemma_split_len(s.drop_last(), sep);
    }
}

/// The views of a sequence of character vectors.
pub open spec fn views(f: Seq<Vec<char>>) -> Seq<Seq<char>> {
    f.map_values(|x: Vec<char>| x@)
}

pub fn split_chars(v: &Vec<char>, sep: Separator) -> (r: Vec<Vec<char>>)
    ensures
        views(r@) == spec_split(v@, sep),
{
    let mut fields: Vec<Vec<char>> = Vec::new();
    let mut cur: Vec<char> = Vec::new();
    let mut i: usize = 0;
    assert(v@.take(0) =~= Seq::<char>::empty());
    assert(views(fields@).push(cur@) =~= seq![Seq::<char>::empty()]);
    while i < v.len()
        invariant
            i <= v.len(),
            views(fields@).push(cur@) == spec_split(v@.take(i as int), sep),
        decreases v.len() - i,
    {
        let c = v[i];
        proof {
            assert(v@.take(i + 1).drop_last() =~= v@.take(i as int));
            lemma_split_len(v@.take(i as int), sep);
        }
        let ghost old_fields = fields@;
        let ghost old_cur = cur@;
        if is_separator(sep, c) {
            fields.push(cur);
            cur = Vec::new();
            assert(views(fields@) =~= views(old_fields).push(old_cur));
            assert(views(fields@).push(cur@) =~= views(old_fields).push(old_cur).push(
                Seq::empty(),
            ));
        } else {
            cur.push(c);
            assert(views(fields@).push(cur@) =~= views(old_fields).push(old_cur).update(
                old_fields.len() as int,
                old_cur.push(c),
            ));
        }
        i += 1;
    }
    let ghost old_fields = fields@;
    fields.push(cur);
    assert(views(fields@) =~= views(old_fields).push(cur@));
    assert(v@.take(v.len() as int) =~= v@);
    fields
}

/// The non-empty entries of `f`, in order.
pub open spec fn spec_nonempty(f: Seq<Seq<char>>) -> Seq<Seq<char>>
    decreases f.len(),
{
    if f.len() == 0 {
        Seq::empty()
    } else if f.last().len() > 0 {
        spec_nonempty(f.drop_last()).push(f.last())
    } else {
        spec_nonempty(f.drop_last())
    }
}

/// `str::split_whitespace`: the non-empty runs of non-whitespace characters.
pub open spec fn spec_words(s: Seq<char>) -> Seq<Seq<char>> {
    spec_nonempty(spec_split(s, Separator::Whitespace))
}

pub fn words_chars(v: &Vec<char>) -> (r: Vec<Vec<char>>)
    ensures
        views(r@) == spec_words(v@),
{
    let fields = split_chars(v, Separator::Whitespace);
    let mut r: Vec<Vec<char>> = Vec::new();
    let mut i: usize = 0;
    assert(views(fields@).take(0) =~= Seq::<Seq<char>>::empty());
    assert(views(r@) =~= Seq::<Seq<char>>::empty());
    while i < fields.len()
        invariant
            i <= fields.len(),
            views(r@) == spec_nonempty(views(fields@).take(i as int)),
        decreases fields.len() - i,
    {
        let ghost old_r = r@;
        assert(views(fields@).take(i + 1).drop_last() =~= views(fields@).take(i as int));
        assert(views(fields@).take(i + 1).last() == fields@[i as int]@);
        if fields[i].len() > 0 {
            r.push(fields[i].clone());
            assert(views(r@) =~= views(old_r).push(fields@[i as int]@));
        }
        i += 1;
    }
    assert(views(fields@).take(fields.len() as int) =~= views(fields@));
    r
}

/// Removes one trailing carriage return.
pub open spec fn spec_strip_cr(s: Seq<char>) -> Seq<char> {
    if s.len() > 0 && s.last() == '\r' {
        s.drop_last()
    } else {
        s
    }
}

/// `str::lines`: split at `\n`, each terminated line loses one trailing `\r`,
/// and an empty final piece after the last `\n` is not a line.
pub open spec fn spec_lines(s: Seq<char>) -> Seq<Seq<char>> {
    let f = spec_split(s, Separator::Char('\n'));
    let init = f.drop_last().map_values(|x: Seq<char>| spec_strip_cr(x));
    if f.last().len() == 0 {
        init
    } else {
        init.push(f.last())
    }
}

pub fn lines_chars(v: &Vec<char>) -> (r: Vec<Vec<char>>)
    ensures
        views(r@) == spec_lines(v@),
{
    let fields = split_chars(v, Separator::Char('\n'));
    proof {
        lemma_split_len(v@, Separator::Char('\n'));
    }
    let ghost f = views(fields@);
    let n = fields.len() - 1;
    let mut r: Vec<Vec<char>> = Vec::new();
    let mut i: usize = 0;
    while i < n
        invariant
            n == fields.len() - 1,
            f == views(fields@),
            i <= n,
            views(r@) == f.take(i as int).map_values(|x: Seq<char>| spec_strip_cr(x)),
        decreases n - i,
    {
        let ghost old_r = r@;
        let mut line = fields[i].clone();
        let len = line.len();
        if len > 0 && line[len - 1] == '\r' {
            line.pop();
        }
        assert(line@ == spec_strip_cr(fields@[i as int]@));
        let ghost lv = line@;
        r.push(line);
        assert(views(r@) =~= views(old_r).push(lv));
        assert(f.take(i + 1).map_values(|x: Seq<char>| spec_strip_cr(x)) =~= f.take(
            i as int,
        ).map_values(|x: Seq<char>| spec_strip_cr(x)).push(spec_strip_cr(f[i as int])));
        assert(views(r@) =~= f.take(i + 1).map_values(|x: Seq<char>| spec_strip_cr(x)));
        i += 1;
    }
    assert(f.take(n as int) =~= f.drop_last());
    if fields[n].len() > 0 {
        let ghost old_r = r@;
        r.push(fields[n].clone());
        assert(views(r@) =~= views(old_r).push(f.last()));
    }
    r
}

// ---------------------------------------------------------------------------
// Trimming
// ---------------------------------------------------------------------------

pub open spec fn spec_trim_start(s: Seq<char>) -> Seq<char>
    decreases s.len(),
{
    if s.len() > 0 && spec_is_whitespace(s[0]) {
        spec_trim_start(s.drop_first())
    } else {
        s
    }
}

pub open spec fn spec_trim_end(s: Seq<char>) -> Seq<char>
    decreases s.len(),
{
    if s.len() > 0 && spec_is_whitespace(s.last()) {
        spec_trim_end(s.drop_last())
    } else {
        s
    }
}

/// `str::trim`: leading and trailing whitespace removed.
pub open spec fn spec_trim(s: Seq<char>) -> Seq<char> {
    spec_trim_end(spec_trim_start(s))
}

pub fn trim_chars(v: &Vec<char>) -> (r: Vec<char>)
    ensures
        r@ == spec_trim(v@),
{
    let n = v.len();
    let mut i: usize = 0;
    assert(v@.subrange(0, n as int) =~= v@);
    while i < n && is_whitespace(v[i])
        invariant
            n == v.len(),
            i <= n,
            spec_trim_start(v@) == spec_trim_start(v@.subrange(i as int, n as int)),
        decreases n - i,
    {
        assert(v@.subrange(i as int, n as int).drop_first() =~= v@.subrange(i + 1, n as int));
        i += 1;
    }
    let mut j: usize = n;
    while j > i && is_whitespace(v[j - 1])
        invariant
            n == v.len(),
            i <= j <= n,
            spec_trim_start(v@) == v@.subrange(i as int, n as int),
            spec_trim(v@) == spec_trim_end(v@.subrange(i as int, j as int)),
        decreases j - i,
    {
        assert(v@.subrange(i as int, j as int).drop_last() =~= v@.subrange(i as int, j - 1));
        j -= 1;
    }
    let mut r: Vec<char> = Vec::new();
    let mut k = i;
    while k < j
        invariant
            i <= k <= j <= n,
            n == v.len(),
            r@ == v@.subrange(i as int, k as int),
        decreases j - k,
    {
        r.push(v[k]);
        assert(r@ =~= v@.subrange(i as int, k + 1));
        k += 1;
    }
    r
}

/// `str::trim`, returning an owned string.
pub fn trim(s: &str) -> (r: String)
    ensures
        r@ == spec_trim(s@),
{
    let v = chars_of(s);
    let t = trim_chars(&v);
    string_of(&t)
}

// ---------------------------------------------------------------------------
// Integer parsing (`FromStr` for the integer types)
// ---------------------------------------------------------------------------

pub open spec fn spec_all_digits(s: Seq<char>) -> bool {
    forall|i: int| 0 <= i < s.len() ==> spec_is_digit(#[trigger] s[i])
}

/// The value of a run of decimal digits.
pub open spec fn spec_digits_value(s: Seq<char>) -> nat
    decreases s.len(),
{
    if s.len() == 0 {
        0
    } else {
        spec_digits_value(s.drop_last()) * 10 + spec_digit_value(s.last())
    }
}

/// A run of digits is worth at least as much as any of its prefixes.
pub proof fn lemma_digits_prefix(s: Seq<char>, k: int)
    requires
        0 <= k <= s.len(),
    ensures
        spec_digits_value(s.take(k)) <= spec_digits_value(s),
    decreases s.len(),
{
    if k < s.len() {
        lemma_digits_prefix(s.drop_last(), k);
        assert(s.drop_last().take(k) =~= s.take(k));
    } else {
        assert(s.take(k) =~= s);
    }
}

/// The digits of an unsigned literal: one leading `+` is allowed.
pub open spec fn spec_unsigned_body(s: Seq<char>) -> Seq<char> {
    if s.len() > 0 && s[0] == '+' {
        s.drop_first()
    } else {
        s
    }
}

/// What `FromStr` gives for an unsigned integer type whose largest value is
/// `max`: an optional `+` followed by at least one decimal digit, nothing
/// else, and a value that fits.
pub open spec fn spec_parse_unsigned(s: Seq<char>, max: nat) -> Option<nat> {
    let b = spec_unsigned_body(s);
    if b.len() > 0 && spec_all_digits(b) && spec_digits_value(b) <= max {
        Some(spec_digits_value(b))
    } else {
        None
    }
}

/// What `FromStr` gives for `i32`: an optional sign followed by at least one
/// decimal digit, nothing else, and a value in range.
pub open spec fn spec_parse_i32(s: Seq<char>) -> Option<int> {
    if s.len() > 0 && s[0] == '-' {
        let b = s.drop_first();
        if b.len() > 0 && spec_all_digits(b) && spec_digits_value(b) <= 0x8000_0000 {
            Some(-(spec_digits_value(b) as int))
        } else {
            None
        }
    } else {
        match spec_parse_unsigned(s, 0x7fff_ffff) {
            Some(v) => Some(v as int),
            None => None,
        }
    }
}

fn parse_magnitude(v: &Vec<char>, start: usize, max: u64) -> (r: Option<u64>)
    requires
        start <= v.len(),
    ensures
        ({
            let b = v@.subrange(start as int, v.len() as int);
            r == if b.len() > 0 && spec_all_digits(b) && spec_digits_value(b) <= max {
                Some(spec_digits_value(b) as u64)
            } else {
                None::<u64>
            }
        }),
{
    let ghost b = v@.subrange(start as int, v.len() as int);
    if start == v.len() {
        return None;
    }
    let mut acc: u64 = 0;
    let mut i = start;
    assert(b.take(0) =~= Seq::<char>::empty());
    while i < v.len()
        invariant
            start <= i <= v.len(),
            b == v@.subrange(start as int, v.len() as int),
            b.len() > 0,
            acc as nat == spec_digits_value(b.take(i - start)),
            spec_all_digits(b.take(i - start)),
            acc <= max,
        decreases v.len() - i,
    {
        let u = v[i] as u32;
        assert(b[i - start] == v@[i as int]);
        if u < 48 || u > 57 {
            assert(!spec_is_digit(b[i - start]));
            return None;
        }
        let d = (u - 48) as u64;
        let nv: u128 = acc as u128 * 10 + d as u128;
        assert(b.take(i - start + 1).drop_last() =~= b.take(i - start));
        assert(b.take(i - start + 1).last() == b[i - start]);
        if nv > max as u128 {
            proof {
                if spec_all_digits(b) {
                    lemma_digits_prefix(b, i - start + 1);
                }
            }
            return None;
        }
        acc = nv as u64;
        assert(spec_all_digits(b.take(i - start + 1)));
        i += 1;
    }
    assert(b.take(i - start) =~= b);
    Some(acc)
}

pub fn parse_unsigned_chars(v: &Vec<char>, max: u64) -> (r: Option<u64>)
    ensures
        r == match spec_parse_unsigned(v@, max as nat) {
            Some(x) => Some(x as u64),
            None => None::<u64>,
        },
{
    if v.len() > 0 && v[0] == '+' {
        assert(v@.drop_first() =~= v@.subrange(1, v.len() as int));
        parse_magnitude(v, 1, max)
    } else {
        assert(v@ =~= v@.subrange(0, v.len() as int));
        parse_magnitude(v, 0, max)
    }
}

/// `str::parse::<u64>`.
pub fn parse_u64(s: &str) -> (r: Option<u64>)
    ensures
        r == match spec_parse_unsigned(s@, u64::MAX as nat) {
            Some(x) => Some(x as u64),
            None => None::<u64>,
        },
{
    let v = chars_of(s);
    parse_unsigned_chars(&v, u64::MAX)
}

/// `str::parse::<u32>`.
pub fn parse_u32(s: &str) -> (r: Option<u32>)
    ensures
        r == match spec_parse_unsigned(s@, u32::MAX as nat) {
            Some(x) => Some(x as u32),
            None => None::<u32>,
        },
{
    let v = chars_of(s);
    match parse_unsigned_chars(&v, u32::MAX as u64) {
        Some(x) => Some(x as u32),
        None => None,
    }
}

/// `str::parse::<u8>`.
pub fn parse_u8(s: &str) -> (r: Option<u8>)
    ensures
        r == match spec_parse_unsigned(s@, u8::MAX as nat) {
            Some(x) => Some(x as u8),
            None => None::<u8>,
        },
{
    let v = chars_of(s);
    match parse_unsigned_chars(&v, u8::MAX as u64) {
        Some(x) => Some(x as u8),
        None => None,
    }
}

/// `str::parse::<i32>`.
pub fn parse_i32(s: &str) -> (r: Option<i32>)
    ensures
        r == match spec_parse_i32(s@) {
            Some(x) => Some(x as i32),
            None => None::<i32>,
        },
{
    let v = chars_of(s);
    if v.len() > 0 && v[0] == '-' {
        assert(v@.drop_first() =~= v@.subrange(1, v.len() as int));
        match parse_magnitude(&v, 1, 0x8000_0000) {
            Some(m) => Some((0i64 - m as i64) as i32),
            None => None,
        }
    } else {
        match parse_unsigned_chars(&v, 0x7fff_ffff) {
            Some(x) => Some(x as i32),
            None => None,
        }
    }
}

// ---------------------------------------------------------------------------
// Integer formatting (`Display` and `{:02x}`)
// ---------------------------------------------------------------------------

/// The decimal digits of `n`, most significant first, without leading zeros.
pub open spec fn spec_decimal(n: nat) -> Seq<char>
    decreases n,
{
    if n < 10 {
        seq![spec_digit_char(n)]
    } else {
        spec_decimal(n / 10).push(spec_digit_char(n % 10))
    }
}

/// The `Display` text of a signed integer.
pub open spec fn spec_signed_decimal(n: int) -> Seq<char> {
    if n < 0 {
        seq!['-'] + spec_decimal((-n) as nat)
    } else {
        spec_decimal(n as nat)
    }
}

/// `s` padded on the left with zeros to at least `width` characters.
pub open spec fn spec_zero_pad(s: Seq<char>, width: nat) -> Seq<char> {
    if s.len() < width {
        Seq::new((width - s.len()) as nat, |i: int| '0') + s
    } else {
        s
    }
}

/// The two lower-case hexadecimal digits of a byte (`{:02x}`).
pub open spec fn spec_hex2(b: u8) -> Seq<char> {
    seq![spec_hex_char((b / 16) as nat), spec_hex_char((b % 16) as nat)]
}

fn digit_char(d: u8) -> (c: char)
    requires
        d < 10,
    ensures
        c == spec_digit_char(d as nat),
{
    (d + 48) as char
}

fn hex_char(d: u8) -> (c: char)
    requires
        d < 16,
    ensures
        c == spec_hex_char(d as nat),
{
    if d < 10 {
        (d + 48) as char
    } else {
        (d + 87) as char
    }
}

/// Appends the decimal digits of `n`.
pub fn push_decimal(s: &mut String, n: u64)
    ensures
        final(s)@ == old(s)@ + spec_decimal(n as nat),
    decreases n,
{
    if n >= 10 {
        push_decimal(s, n / 10);
    }
    push_char(s, digit_char((n % 10) as u8));
}

/// Appends the `Display` text of a signed integer.
pub fn push_signed_decimal(s: &mut String, n: i64)
    ensures
        final(s)@ == old(s)@ + spec_signed_decimal(n as int),
{
    if n < 0 {
        push_char(s, '-');
        push_decimal(s, (0i128 - n as i128) as u64);
        assert(final(s)@ =~= old(s)@ + spec_signed_decimal(n as int));
    } else {
        push_decimal(s, n as u64);
    }
}

pub open spec fn spec_pow10(k: nat) -> nat
    decreases k,
{
    if k == 0 {
        1
    } else {
        10 * spec_pow10((k - 1) as nat)
    }
}

/// A number below `10^k` has at most `k` digits (and always at least one).
pub proof fn lemma_decimal_len(n: nat, k: nat)
    requires
        1 <= k,
        n < spec_pow10(k),
    ensures
        1 <= spec_decimal(n).len() <= k,
    decreases n,
{
    if n >= 10 {
        let p = spec_pow10((k - 1) as nat);
        assert(k >= 2) by {
            if k == 1 {
                assert(spec_pow10(0) == 1);
            }
        }
        assert(n / 10 < p) by (nonlinear_arith)
            requires
                n < 10 * p,
        ;
        lemma_decimal_len(n / 10, (k - 1) as nat);
    }
}

/// The number of decimal digits of `n`.
pub fn decimal_len(n: u64) -> (r: usize)
    ensures
        r as nat == spec_decimal(n as nat).len(),
        1 <= r <= 20,
    decreases n,
{
    proof {
        reveal_with_fuel(spec_pow10, 21);
        assert(spec_pow10(20) == 100000000000000000000);
        lemma_decimal_len(n as nat, 20);
    }
    if n >= 10 {
        decimal_len(n / 10) + 1
    } else {
        1
    }
}

/// Appends `n` in decimal, padded with zeros to at least `width` digits.
pub fn push_zero_padded(s: &mut String, n: u64, width: usize)
    ensures
        final(s)@ == old(s)@ + spec_zero_pad(spec_decimal(n as nat), width as nat),
{
    let len = decimal_len(n);
    let ghost start = s@;
    if len < width {
        let mut k: usize = 0;
        while k < width - len
            invariant
                len < width,
                k <= width - len,
                s@ == start + Seq::new(k as nat, |i: int| '0'),
            decreases width - len - k,
        {
            push_char(s, '0');
            assert(s@ =~= start + Seq::new((k + 1) as nat, |i: int| '0'));
            k += 1;
        }
    }
    let ghost mid = s@;
    push_decimal(s, n);
    assert(s@ =~= start + spec_zero_pad(spec_decimal(n as nat), width as nat));
}

/// Appends the two lower-case hexadecimal digits of a byte.
pub fn push_hex2(s: &mut String, b: u8)
    ensures
        final(s)@ == old(s)@ + spec_hex2(b),
{
    push_char(s, hex_char(b / 16));
    push_char(s, hex_char(b % 16));
    assert(final(s)@ =~= old(s)@ + spec_hex2(b));
}

/// Appends a string slice.
pub fn push_str(s: &mut String, t: &str)
    ensures
        final(s)@ == old(s)@ + t@,
{
    s.append(t);
}

/// `format!("{}%", v)`.
pub fn percent_label(v: u64) -> (r: String)
    ensures
        r@ == spec_decimal(v as nat) + "%"@,
{
    let mut s = String::new();
    push_decimal(&mut s, v);
    push_str(&mut s, "%");
    assert(s@ =~= spec_decimal(v as nat) + "%"@);
    s
}

/// Character-wise equality of two string slices.
pub fn str_eq(a: &str, b: &str) -> (r: bool)
    ensures
        r == (a@ == b@),
{
    let av = chars_of(a);
    let bv = chars_of(b);
    if av.len() != bv.len() {
        return false;
    }
    let mut i: usize = 0;
    while i < av.len()
        invariant
            i <= av.len(),
            av.len() == bv.len(),
            av@ == a@,
            bv@ == b@,
            forall|k: int| 0 <= k < i ==> av@[k] == bv@[k],
        decreases av.len() - i,
    {
        if av[i] != bv[i] {
            assert(av@[i as int] != bv@[i as int]);
            return false;
        }
        i += 1;
    }
    assert(av@ =~= bv@);
    true
}

/// `s.trim().parse::<u64>().ok()`.
pub fn parse_trimmed_u64(s: &str) -> (r: Option<u64>)
    ensures
        r == match spec_parse_unsigned(spec_trim(s@), u64::MAX as nat) {
            Some(x) => Some(x as u64),
            None => None::<u64>,
        },
{
    let t = trim(s);
    parse_u64(t.as_str())
}

/// `s.trim().parse::<u32>().ok()`.
pub fn parse_trimmed_u32(s: &str) -> (r: Option<u32>)
    ensures
        r == match spec_parse_unsigned(spec_trim(s@), u32::MAX as nat) {
            Some(x) => Some(x as u32),
            None => None::<u32>,
        },
{
    let t = trim(s);
    parse_u32(t.as_str())
}

/// `s.trim().parse::<u8>().ok()`.
pub fn parse_trimmed_u8(s: &str) -> (r: Option<u8>)
    ensures
        r == match spec_parse_unsigned(spec_trim(s@), u8::MAX as nat) {
            Some(x) => Some(x as u8),
            None => None::<u8>,
        },
{
    let t = trim(s);
    parse_u8(t.as_str())
}

/// `s.trim().parse::<i32>().ok()`.
pub fn parse_trimmed_i32(s: &str) -> (r: Option<i32>)
    ensures
        r == match spec_parse_i32(spec_trim(s@)) {
            Some(x) => Some(x as i32),
            None => None::<i32>,
        },
{
    let t = trim(s);
    parse_i32(t.as_str())
}

} // verus!
