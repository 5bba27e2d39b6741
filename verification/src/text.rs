use vstd::prelude::*;

verus! {

/// The character of a decimal digit `d` (`0 <= d < 10`).
pub open spec fn digit_char(d: nat) -> char {
    ((48 + d) as u32) as char
}

/// Base-ten rendering of `n`, most significant digit first, no leading zeros.
pub open spec fn decimal_text(n: nat) -> Seq<char>
    decreases n,
{
    if n < 10 {
        seq![digit_char(n)]
    } else {
        decimal_text(n / 10).push(digit_char(n % 10))
    }
}

/// `"{h}h {m}m"` when whole hours are present, otherwise `"{m}m"`, where `h` and `m`
/// are the whole hours and the remaining whole minutes in `secs` seconds.
pub open spec fn hours_minutes_text(secs: nat) -> Seq<char> {
    let hours = secs / 3600;
    let mins = (secs % 3600) / 60;
    if hours > 0 {
        decimal_text(hours) + "h "@ + decimal_text(mins) + "m"@
    } else {
        decimal_text(mins) + "m"@
    }
}

/// Rendering `h` hours, `m` minutes and `s` seconds (with `m` and `s` under 60) shows `h`
/// and `m` when `h` is positive, and `m` alone otherwise: seconds never show.
pub proof fn lemma_hours_minutes(h: nat, m: nat, s: nat)
    requires
        m < 60,
        s < 60,
    ensures
        hours_minutes_text(h * 3600 + m * 60 + s) == if h > 0 {
            decimal_text(h) + "h "@ + decimal_text(m) + "m"@
        } else {
            decimal_text(m) + "m"@
        },
{
    let t = h * 3600 + m * 60 + s;
    assert(t / 3600 == h && t % 3600 == m * 60 + s) by (nonlinear_arith)
        requires
            t == h * 3600 + m * 60 + s,
            m < 60,
            s < 60,
    ;
    assert((m * 60 + s) / 60 == m) by (nonlinear_arith)
        requires
            s < 60,
    ;
}

/// A lifetime total: like [`hours_minutes_text`], except that a whole number of hours shows
/// the hours alone (`"23h"`).
pub open spec fn total_time_text(secs: nat) -> Seq<char> {
    let hours = secs / 3600;
    let mins = (secs % 3600) / 60;
    if hours > 0 && mins == 0 {
        decimal_text(hours) + "h"@
    } else {
        hours_minutes_text(secs)
    }
}

/// A lifetime total shows every whole hour, however many days they make: `h` hours, `m`
/// minutes and `s` seconds (with `m` and `s` under 60) show as `"{h}h"` when `h` is positive
/// and `m` is zero, as `"{h}h {m}m"` when both are positive, and as `"{m}m"` under an hour.
pub proof fn lemma_total_time_shows_all_hours(h: nat, m: nat, s: nat)
    requires
        m < 60,
        s < 60,
    ensures
        total_time_text(h * 3600 + m * 60 + s) == if h > 0 && m == 0 {
            decimal_text(h) + "h"@
        } else if h > 0 {
            decimal_text(h) + "h "@ + decimal_text(m) + "m"@
        } else {
            decimal_text(m) + "m"@
        },
{
    let t = h * 3600 + m * 60 + s;
    assert(t / 3600 == h && t % 3600 == m * 60 + s) by (nonlinear_arith)
        requires
            t == h * 3600 + m * 60 + s,
            m < 60,
            s < 60,
    ;
    assert((m * 60 + s) / 60 == m) by (nonlinear_arith)
        requires
            s < 60,
    ;
    lemma_hours_minutes(h, m, s);
}

/// Appends one character to a string (`String::push`).
#[verifier::external_body]
pub fn push_char(s: &mut String, c: char)
    ensures
        final(s)@ == old(s)@.push(c),
{
    s.push(c);
}

fn digit(d: u64) -> (c: char)
    requires
        d < 10,
    ensures
        c == digit_char(d as nat),
{
    let b: u8 = 48u8 + (d as u8);
    b as char
}

/// Appends the decimal rendering of `n`.
pub fn push_decimal(s: &mut String, n: u64)
    ensures
        final(s)@ == old(s)@ + decimal_text(n as nat),
    decreases n,
{
    if n >= 10 {
        push_decimal(s, n / 10);
    }
    push_char(s, digit(n % 10));
}

/// The decimal rendering of `n`, as `Display` for `u64` writes it.
pub fn decimal_string(n: u64) -> (r: String)
    ensures
        r@ == decimal_text(n as nat),
{
    let mut s = String::new();
    push_decimal(&mut s, n);
    s
}

/// Renders a number of seconds as hours and minutes (`"2h 5m"`, `"45m"`).
pub fn format_hours_minutes(secs: u64) -> (r: String)
    ensures
        r@ == hours_minutes_text(secs as nat),
{
    let hours = secs / 3600;
    let mins = (secs % 3600) / 60;
    let mut s = String::new();
    if hours > 0 {
        push_decimal(&mut s, hours);
        s.append("h ");
        push_decimal(&mut s, mins);
        s.append("m");
    } else {
        push_decimal(&mut s, mins);
        s.append("m");
    }
    s
}

/// Renders a lifetime total: `"{h}h"` for whole hours, otherwise as
/// [`format_hours_minutes`] does (`"23h"`, `"1h 5m"`, `"45m"`).
pub fn format_total_time(secs: u64) -> (r: String)
    ensures
        r@ == total_time_text(secs as nat),
{
    let hours = secs / 3600;
    let mins = (secs % 3600) / 60;
    if hours > 0 && mins == 0 {
        let mut s = String::new();
        push_decimal(&mut s, hours);
        s.append("h");
        s
    } else {
        format_hours_minutes(secs)
    }
}

/// Whether two strings hold the same characters.
pub fn str_eq(a: &str, b: &str) -> (r: bool)
    ensures
        r == (a@ == b@),
{
    let n = a.unicode_len();
    if n != b.unicode_len() {
        return false;
    }
    let mut i: usize = 0;
    while i < n
        invariant
            n == a@.len(),
            n == b@.len(),
            i <= n,
            forall|j: int| 0 <= j < i ==> a@[j] == b@[j],
        decreases n - i,
    {
        if a.get_char(i) != b.get_char(i) {
            return false;
        }
        i = i + 1;
    }
    assert(a@ =~= b@);
    true
}

/// Whether `needle` occurs in `hay` at position `i`.
pub open spec fn occurs_at(hay: Seq<char>, needle: Seq<char>, i: int) -> bool {
    0 <= i && i + needle.len() <= hay.len() && hay.subrange(i, i + needle.len()) == needle
}

/// Whether `needle` occurs anywhere in `hay` (the empty text occurs everywhere).
pub open spec fn has_substring(hay: Seq<char>, needle: Seq<char>) -> bool {
    exists|i: int| occurs_at(hay, needle, i)
}

/// The characters of a string, in order.
pub fn chars_of(s: &str) -> (r: Vec<char>)
    ensures
        r@ == s@,
{
    let n = s.unicode_len();
    let mut v: Vec<char> = Vec::new();
    let mut i: usize = 0;
    while i < n
        invariant
            n == s@.len(),
            i <= n,
            v@ == s@.subrange(0, i as int),
        decreases n - i,
    {
        v.push(s.get_char(i));
        i = i + 1;
        assert(v@ =~= s@.subrange(0, i as int));
    }
    assert(v@ =~= s@);
    v
}

fn matches_at(hay: &Vec<char>, needle: &Vec<char>, i: usize) -> (r: bool)
    requires
        i + needle@.len() <= hay@.len(),
    ensures
        r == occurs_at(hay@, needle@, i as int),
{
    let hl = hay.len();
    let mut j: usize = 0;
    while j < needle.len()
        invariant
            hl == hay@.len(),
            i + needle@.len() <= hay@.len(),
            j <= needle@.len(),
            forall|k: int| 0 <= k < j ==> hay@[i + k] == needle@[k],
        decreases needle.len() - j,
    {
        assert(i + j < hay@.len());
        if hay[i + j] != needle[j] {
            assert(hay@.subrange(i as int, i + needle@.len())[j as int] != needle@[j as int]);
            return false;
        }
        j = j + 1;
    }
    assert(hay@.subrange(i as int, i + needle@.len()) =~= needle@);
    true
}

/// Whether `needle` occurs in `hay`.
pub fn chars_contain(h: &Vec<char>, n: &Vec<char>) -> (r: bool)
    ensures
        r == has_substring(h@, n@),
{
    if n.len() > h.len() {
        assert forall|i: int| !occurs_at(h@, n@, i) by {}
        return false;
    }
    let last = h.len() - n.len();
    let mut i: usize = 0;
    loop
        invariant
            last == h@.len() - n@.len(),
            n@.len() <= h@.len(),
            i <= last,
            forall|k: int| 0 <= k < i ==> !occurs_at(h@, n@, k),
        decreases last - i,
    {
        if matches_at(h, n, i) {
            return true;
        }
        if i == last {
            assert forall|k: int| !occurs_at(h@, n@, k) by {
                if 0 <= k && k + n@.len() <= h@.len() {
                    assert(k <= last);
                }
            }
            return false;
        }
        i = i + 1;
    }
}

/// Whether `needle` occurs in `hay` (`str::contains` with a string pattern).
pub fn str_contains(hay: &str, needle: &str) -> (r: bool)
    ensures
        r == has_substring(hay@, needle@),
{
    let h = chars_of(hay);
    let n = chars_of(needle);
    chars_contain(&h, &n)
}

/// Whether `s` starts with `prefix`.
pub fn str_starts_with(s: &str, prefix: &str) -> (r: bool)
    ensures
        r == prefix@.is_prefix_of(s@),
{
    let h = chars_of(s);
    let p = chars_of(prefix);
    if p.len() > h.len() {
        return false;
    }
    let r = matches_at(&h, &p, 0);
    proof {
        if r {
            assert(s@.subrange(0, prefix@.len() as int) == prefix@);
        }
        if prefix@.is_prefix_of(s@) {
            assert(s@.subrange(0, prefix@.len() as int) =~= prefix@);
        }
    }
    r
}

/// The texts of a sequence of strings.
pub open spec fn texts(v: Seq<String>) -> Seq<Seq<char>> {
    v.map_values(|s: String| s@)
}

/// A copy of a list of strings.
pub fn copy_strings(v: &Vec<String>) -> (r: Vec<String>)
    ensures
        texts(r@) == texts(v@),
{
    let mut out: Vec<String> = Vec::new();
    let mut i: usize = 0;
    while i < v.len()
        invariant
            i <= v.len(),
            texts(out@) == texts(v@).take(i as int),
        decreases v.len() - i,
    {
        let ghost before = out@;
        out.push(v[i].clone());
        assert(texts(out@) =~= texts(before).push(v@[i as int]@));
        assert(texts(v@).take(i + 1) =~= texts(v@).take(i as int).push(v@[i as int]@));
        i = i + 1;
    }
    assert(texts(v@).take(i as int) =~= texts(v@));
    out
}

} // verus!
