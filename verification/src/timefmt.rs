use vstd::prelude::*;
use vstd::std_specs::iter::IteratorSpec;

verus! {

broadcast use vstd::string::group_string_axioms;

/// A decimal digit, by code point.
pub open spec fn is_digit(c: char) -> bool {
    48 <= c as u32 <= 57
}

pub open spec fn digit_val(c: char) -> int {
    c as u32 - 48
}

/// A parsable segment: non-empty and all decimal digits.
pub open spec fn seg_digits_ok(s: Seq<char>) -> bool {
    s.len() > 0 && forall|i: int| 0 <= i < s.len() ==> is_digit(s[i])
}

/// The number a digit string denotes, most significant digit first.
pub open spec fn digits_value(s: Seq<char>) -> int
    decreases s.len(),
{
    if s.len() == 0 {
        0
    } else {
        digits_value(s.drop_last()) * 10 + digit_val(s.last())
    }
}

/// What parsing one segment yields: its value when it is a well-formed
/// digit string whose value fits, and zero for anything else — mirroring a
/// failed parse falling back to zero.
pub open spec fn parse_seg(s: Seq<char>) -> int {
    if seg_digits_ok(s) && digits_value(s) <= u64::MAX {
        digits_value(s)
    } else {
        0
    }
}

/// First index of `c` in `s`, or -1 when absent.
pub open spec fn find_char(s: Seq<char>, c: char) -> int
    decreases s.len(),
{
    if s.len() == 0 {
        -1
    } else if s[0] == c {
        0
    } else {
        let rest = find_char(s.drop_first(), c);
        if rest == -1 {
            -1
        } else {
            rest + 1
        }
    }
}

/// Capped at the largest `u64`.
pub open spec fn sat64(x: int) -> int {
    if x > u64::MAX {
        u64::MAX as int
    } else {
        x
    }
}

/// One unit step of the `h`/`m`/`s` form: when the letter occurs, the text
/// before its first occurrence is a segment folded into the total at base
/// sixty, and parsing resumes after the letter; otherwise nothing changes.
pub open spec fn hms_step(s: Seq<char>, acc: int, c: char) -> (int, Seq<char>) {
    let p = find_char(s, c);
    if p >= 0 {
        (sat64(acc * 60 + parse_seg(s.subrange(0, p))), s.skip(p + 1))
    } else {
        (acc, s)
    }
}

/// The value of the `h`/`m`/`s` form: the three unit letters are folded in,
/// in that order, each at base sixty.
pub open spec fn hms_value(s: Seq<char>) -> int {
    let th = hms_step(s, 0, 'h');
    let tm = hms_step(th.1, th.0, 'm');
    let ts = hms_step(tm.1, tm.0, 's');
    ts.0
}

/// The value of the colon form: every colon-separated segment folded in at
/// base sixty, left to right.
pub open spec fn colon_value(s: Seq<char>, acc: int) -> int
    decreases s.len(),
    via colon_value_decreases
{
    let p = find_char(s, ':');
    if p < 0 {
        sat64(acc * 60 + parse_seg(s))
    } else {
        colon_value(s.skip(p + 1), sat64(acc * 60 + parse_seg(s.subrange(0, p))))
    }
}

#[via_fn]
proof fn colon_value_decreases(s: Seq<char>, acc: int) {
    lemma_find_char_range(s, ':');
}

/// A found index is always in range and holds the sought character.
proof fn lemma_find_char_range(s: Seq<char>, c: char)
    ensures
        -1 <= find_char(s, c) < s.len(),
        find_char(s, c) >= 0 ==> s[find_char(s, c)] == c,
    decreases s.len(),
{
    if s.len() > 0 && s[0] != c {
        lemma_find_char_range(s.drop_first(), c);
    }
}

/// What a position string denotes, in seconds: the `h`/`m`/`s` form when
/// any of those letters occurs, a bare number when there is no colon, and
/// the colon form otherwise. Malformed segments count as zero.
pub open spec fn spec_get_time(s: Seq<char>) -> int {
    if find_char(s, 'h') >= 0 || find_char(s, 'm') >= 0 || find_char(s, 's') >= 0 {
        hms_value(s)
    } else if find_char(s, ':') < 0 {
        parse_seg(s)
    } else {
        colon_value(s, 0)
    }
}

/// The digit string of a non-negative number, most significant digit first.
pub open spec fn dec_rep(n: int) -> Seq<char>
    recommends
        n >= 0,
    decreases n,
{
    if n < 10 {
        seq![char_of_digit(n)]
    } else {
        dec_rep(n / 10).push(char_of_digit(n % 10))
    }
}

pub open spec fn char_of_digit(d: int) -> char {
    if d == 0 {
        '0'
    } else if d == 1 {
        '1'
    } else if d == 2 {
        '2'
    } else if d == 3 {
        '3'
    } else if d == 4 {
        '4'
    } else if d == 5 {
        '5'
    } else if d == 6 {
        '6'
    } else if d == 7 {
        '7'
    } else if d == 8 {
        '8'
    } else {
        '9'
    }
}

/// A number rendered to at least two digits, as minute and second fields
/// are shown.
pub open spec fn two_dec(n: int) -> Seq<char>
    recommends
        n >= 0,
{
    if n < 10 {
        seq!['0'].push(char_of_digit(n))
    } else {
        dec_rep(n)
    }
}

/// The display form of an offset: zero is plain `0`; otherwise minutes and
/// seconds, two digits each, with an hour field in front only when there
/// are hours.
pub open spec fn spec_time_str(secs: int) -> Seq<char> {
    if secs <= 0 {
        seq!['0']
    } else {
        let h = secs / 3600;
        let m = (secs % 3600) / 60;
        let s = secs % 60;
        (if h > 0 {
            dec_rep(h).push(':')
        } else {
            Seq::empty()
        }) + two_dec(m) + seq![':'] + two_dec(s)
    }
}

/// The characters of a string, in order.
pub fn chars_of(s: &str) -> (r: Vec<char>)
    ensures
        r@ == s@,
{
    let mut it = s.chars();
    let mut out: Vec<char> = Vec::new();
    loop
        invariant
            it.obeys_prophetic_iter_laws(),
            it.decrease() is Some,
            out@ + it.remaining() == s@,
        decreases it.decrease()->0,
    {
        match it.next() {
            Some(c) => {
                out.push(c);
            },
            None => {
                proof {
                    assert(out@ =~= s@);
                }
                return out;
            },
        }
    }
}

/// When index `i` holds `c` and no earlier index does, `i` is the first.
proof fn lemma_find_char_at(s: Seq<char>, c: char, i: int)
    requires
        0 <= i < s.len(),
        s[i] == c,
        forall|j: int| 0 <= j < i ==> s[j] != c,
    ensures
        find_char(s, c) == i,
    decreases i,
{
    if i > 0 {
        assert(forall|j: int| 0 <= j < i - 1 ==> s.drop_first()[j] != c);
        lemma_find_char_at(s.drop_first(), c, i - 1);
    }
}

/// When no index holds `c`, there is no first index.
proof fn lemma_find_char_none(s: Seq<char>, c: char)
    requires
        forall|j: int| 0 <= j < s.len() ==> s[j] != c,
    ensures
        find_char(s, c) == -1,
    decreases s.len(),
{
    if s.len() > 0 {
        assert(forall|j: int| 0 <= j < s.drop_first().len() ==> s.drop_first()[j] != c);
        lemma_find_char_none(s.drop_first(), c);
    }
}

/// First position of `c` at or after `from`, confined to the tail window.
fn find_char_from(cs: &Vec<char>, from: usize, c: char) -> (r: Option<usize>)
    requires
        from <= cs@.len(),
    ensures
        match r {
            Some(p) => from <= p < cs@.len() && cs@[p as int] == c && find_char(
                cs@.skip(from as int),
                c,
            ) == p - from,
            None => find_char(cs@.skip(from as int), c) == -1,
        },
{
    let ghost w = cs@.skip(from as int);
    let mut i: usize = from;
    loop
        invariant
            from <= i <= cs@.len(),
            w == cs@.skip(from as int),
            forall|j: int| from <= j < i ==> cs@[j] != c,
        decreases cs@.len() - i,
    {
        if i == cs.len() {
            proof {
                assert(forall|j: int| 0 <= j < w.len() ==> w[j] != c);
                lemma_find_char_none(w, c);
            }
            return None;
        }
        if cs[i] == c {
            proof {
                assert(forall|j: int| 0 <= j < i - from ==> w[j] != c);
                assert(w[i - from] == c);
                lemma_find_char_at(w, c, i - from);
            }
            return Some(i);
        }
        i = i + 1;
    }
}

/// Parses the window `[from, to)` as one segment: its value when it is all
/// digits and fits, zero otherwise.
fn parse_seg_exec(cs: &Vec<char>, from: usize, to: usize) -> (r: u64)
    requires
        from <= to <= cs@.len(),
    ensures
        r == parse_seg(cs@.subrange(from as int, to as int)),
{
    let ghost w = cs@.subrange(from as int, to as int);
    if from == to {
        return 0;
    }
    let mut acc: u64 = 0;
    let mut overflowed = false;
    let mut i: usize = from;
    loop
        invariant
            from <= i <= to <= cs@.len(),
            w == cs@.subrange(from as int, to as int),
            forall|j: int| 0 <= j < i - from ==> is_digit(w[j]),
            !overflowed ==> acc == digits_value(w.subrange(0, i - from)),
            overflowed ==> digits_value(w.subrange(0, i - from)) > u64::MAX,
        decreases to - i,
    {
        if i == to {
            proof {
                assert(w.subrange(0, i - from) =~= w);
            }
            if overflowed {
                return 0;
            }
            return acc;
        }
        let c = cs[i];
        let v = c as u32;
        if !(48 <= v && v <= 57) {
            proof {
                assert(w[i - from] == c);
                assert(!is_digit(c));
                assert(!seg_digits_ok(w));
            }
            return 0;
        }
        let d = (v - 48) as u64;
        proof {
            assert(w[i - from] == c);
            assert(is_digit(c));
            assert(d == digit_val(c));
            let pre = w.subrange(0, i - from);
            let ext = w.subrange(0, i - from + 1);
            assert(ext.drop_last() =~= pre);
            assert(ext.last() == c);
            assert(digits_value(ext) == digits_value(pre) * 10 + digit_val(c));
        }
        if overflowed {
            proof {
                let pre = w.subrange(0, i - from);
                let ext = w.subrange(0, i - from + 1);
                assert(digits_value(ext) > u64::MAX) by (nonlinear_arith)
                    requires
                        digits_value(pre) > u64::MAX,
                        digit_val(c) >= 0,
                        digits_value(ext) == digits_value(pre) * 10 + digit_val(c),
                ;
            }
        } else {
            match acc.checked_mul(10) {
                Some(shifted) => match shifted.checked_add(d) {
                    Some(next) => {
                        acc = next;
                    },
                    None => {
                        overflowed = true;
                    },
                },
                None => {
                    proof {
                        let pre = w.subrange(0, i - from);
                        let ext = w.subrange(0, i - from + 1);
                        assert(digits_value(ext) > u64::MAX) by (nonlinear_arith)
                            requires
                                digits_value(pre) * 10 > u64::MAX,
                                digit_val(c) >= 0,
                                digits_value(ext) == digits_value(pre) * 10 + digit_val(c),
                        ;
                    }
                    overflowed = true;
                },
            }
        }
        i = i + 1;
    }
}

/// `acc * 60 + x`, capped at the largest `u64`.
fn sat_mul60_add(acc: u64, x: u64) -> (r: u64)
    ensures
        r == sat64(acc * 60 + x),
{
    match acc.checked_mul(60) {
        Some(shifted) => match shifted.checked_add(x) {
            Some(total) => total,
            None => u64::MAX,
        },
        None => u64::MAX,
    }
}

/// One exec step of the `h`/`m`/`s` form, from the window starting at `lo`.
fn hms_step_exec(cs: &Vec<char>, lo: usize, total: u64, c: char) -> (r: (u64, usize))
    requires
        lo <= cs@.len(),
    ensures
        r.1 <= cs@.len(),
        hms_step(cs@.skip(lo as int), total as int, c) == (r.0 as int, cs@.skip(r.1 as int)),
{
    let n = cs.len();
    match find_char_from(cs, lo, c) {
        Some(p) => {
            proof {
                assert(p < n);
                assert(cs@.skip(lo as int).subrange(0, p - lo) =~= cs@.subrange(lo as int, p as int));
                assert(cs@.skip(lo as int).skip(p - lo + 1) =~= cs@.skip(p as int + 1));
            }
            let seg = parse_seg_exec(cs, lo, p);
            (sat_mul60_add(total, seg), p + 1)
        },
        None => (total, lo),
    }
}

/// The colon form, folded left to right from the window starting at `lo`.
fn colon_exec(cs: &Vec<char>) -> (r: u64)
    ensures
        r == colon_value(cs@, 0),
{
    let mut total: u64 = 0;
    let mut lo: usize = 0;
    proof {
        assert(cs@.skip(0) =~= cs@);
    }
    loop
        invariant
            lo <= cs@.len(),
            colon_value(cs@, 0) == colon_value(cs@.skip(lo as int), total as int),
        decreases cs@.len() - lo,
    {
        let n = cs.len();
        match find_char_from(&cs, lo, ':') {
            Some(p) => {
                proof {
                    assert(p < n);
                    assert(cs@.skip(lo as int).subrange(0, p - lo) =~= cs@.subrange(
                        lo as int,
                        p as int,
                    ));
                    assert(cs@.skip(lo as int).skip(p - lo + 1) =~= cs@.skip(p as int + 1));
                }
                let seg = parse_seg_exec(&cs, lo, p);
                total = sat_mul60_add(total, seg);
                lo = p + 1;
            },
            None => {
                proof {
                    assert(cs@.skip(lo as int).subrange(0, cs@.skip(lo as int).len() as int)
                        =~= cs@.skip(lo as int));
                    assert(cs@.subrange(lo as int, cs@.len() as int) =~= cs@.skip(lo as int));
                }
                let seg = parse_seg_exec(&cs, lo, cs.len());
                return sat_mul60_add(total, seg);
            },
        }
    }
}

/// Reads a position string as seconds, per [`spec_get_time`]: either the
/// `h`/`m`/`s` form, a bare number of seconds, or colon-separated fields
/// folded at base sixty. Malformed segments count as zero; an implausibly
/// long position saturates rather than wraps.
pub fn get_time(time: &str) -> (r: u64)
    ensures
        r == spec_get_time(time@),
{
    let cs = chars_of(time);
    proof {
        assert(cs@.skip(0) =~= cs@);
    }
    let has_h = find_char_from(&cs, 0, 'h');
    let has_m = find_char_from(&cs, 0, 'm');
    let has_s = find_char_from(&cs, 0, 's');
    if has_h.is_some() || has_m.is_some() || has_s.is_some() {
        let th = hms_step_exec(&cs, 0, 0, 'h');
        let tm = hms_step_exec(&cs, th.1, th.0, 'm');
        let ts = hms_step_exec(&cs, tm.1, tm.0, 's');
        ts.0
    } else {
        match find_char_from(&cs, 0, ':') {
            None => {
                proof {
                    assert(cs@.subrange(0, cs@.len() as int) =~= cs@);
                }
                parse_seg_exec(&cs, 0, cs.len())
            },
            Some(_) => colon_exec(&cs),
        }
    }
}

/// The string for one digit.
fn digit_str(d: u64) -> (r: &'static str)
    requires
        d < 10,
    ensures
        r@ == seq![char_of_digit(d as int)],
{
    proof {
        reveal_strlit("0");
        reveal_strlit("1");
        reveal_strlit("2");
        reveal_strlit("3");
        reveal_strlit("4");
        reveal_strlit("5");
        reveal_strlit("6");
        reveal_strlit("7");
        reveal_strlit("8");
        reveal_strlit("9");
    }
    match d {
        0 => "0",
        1 => "1",
        2 => "2",
        3 => "3",
        4 => "4",
        5 => "5",
        6 => "6",
        7 => "7",
        8 => "8",
        _ => "9",
    }
}

/// Appends the decimal digits of `n`.
fn push_dec(out: &mut String, n: u64)
    ensures
        final(out)@ == old(out)@ + dec_rep(n as int),
    decreases n,
{
    if n >= 10 {
        push_dec(out, n / 10);
        out.append(digit_str(n % 10));
    } else {
        out.append(digit_str(n));
    }
}

/// Appends `n` as at least two digits.
fn push_two_dec(out: &mut String, n: u64)
    ensures
        final(out)@ == old(out)@ + two_dec(n as int),
    decreases n,
{
    if n < 10 {
        proof {
            reveal_strlit("0");
        }
        out.append("0");
        out.append(digit_str(n));
        assert(final(out)@ =~= old(out)@ + two_dec(n as int));
    } else {
        push_dec(out, n);
    }
}

/// Renders an offset in seconds for display, per [`spec_time_str`]: plain
/// `0` at zero, else two-digit minutes and seconds with an hour field in
/// front only when there are hours.
pub fn get_time_str(secs: u64) -> (r: String)
    ensures
        r@ == spec_time_str(secs as int),
{
    proof {
        reveal_strlit("0");
        reveal_strlit(":");
    }
    if secs == 0 {
        let zero = String::new();
        let mut zero = zero;
        zero.append("0");
        proof {
            assert(zero@ =~= spec_time_str(secs as int));
        }
        return zero;
    }
    let hours = secs / 3600;
    let minutes = (secs % 3600) / 60;
    let seconds = secs % 60;
    let mut out = String::new();
    if hours > 0 {
        push_dec(&mut out, hours);
        out.append(":");
    }
    push_two_dec(&mut out, minutes);
    out.append(":");
    push_two_dec(&mut out, seconds);
    proof {
        assert(out@ =~= spec_time_str(secs as int));
    }
    out
}

} // verus!
