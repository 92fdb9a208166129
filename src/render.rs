use vstd::prelude::*;

use crate::pattern::{resolve, TimeFormat};

verus! {

/// The absolute value of `x`.
pub open spec fn abs(x: int) -> nat {
    if x < 0 {
        (-x) as nat
    } else {
        x as nat
    }
}

/// The decimal digit character for `d`, for `d` in `0..10`.
pub open spec fn digit_char(d: nat) -> char {
    seq!['0', '1', '2', '3', '4', '5', '6', '7', '8', '9'][d as int]
}

/// The decimal digits of `n`, without leading zeros.
pub open spec fn decimal(n: nat) -> Seq<char>
    decreases n,
{
    if n < 10 {
        seq![digit_char(n)]
    } else {
        decimal(n / 10).push(digit_char(n % 10))
    }
}

/// The decimal digits of `n`, zero-padded to at least two.
pub open spec fn two_digits(n: nat) -> Seq<char> {
    if n < 10 {
        seq!['0'] + decimal(n)
    } else {
        decimal(n)
    }
}

/// `out` followed by a whole-number field of value `v`. As the first thing
/// written it has its natural width, and a zero is left out unless
/// `always_show`; after something else it is padded to two digits.
pub open spec fn number_field(out: Seq<char>, v: nat, always_show: bool) -> Seq<char> {
    if out.len() > 0 {
        out + two_digits(v)
    } else if v == 0 && !always_show {
        out
    } else {
        decimal(v)
    }
}

/// The three digits of a millisecond remainder `r < 1000`, zero-padded.
pub open spec fn millis_digits(r: nat) -> Seq<char> {
    seq![digit_char(r / 100), digit_char(r / 10 % 10), digit_char(r % 10)]
}

/// `n` zero characters.
pub open spec fn zeros(n: nat) -> Seq<char> {
    Seq::new(n, |i: int| '0')
}

/// `out` followed by `width` fractional digits of the millisecond remainder
/// `r`: its first `width` digits (truncated, never rounded), and zeros past
/// the third.
pub open spec fn fraction_field(out: Seq<char>, r: nat, width: nat) -> Seq<char> {
    if width <= 3 {
        out + millis_digits(r).take(width as int)
    } else {
        out + millis_digits(r) + zeros((width - 3) as nat)
    }
}

/// The end of the run of equal characters in `p` that starts at `i`.
pub open spec fn run_end(p: Seq<char>, i: int) -> int
    decreases p.len() - i,
{
    if 0 <= i && i + 1 < p.len() && p[i + 1] == p[i] {
        run_end(p, i + 1)
    } else {
        i + 1
    }
}

/// `out` after one token: a run of `width` characters `c`, for a duration of
/// `ms` milliseconds. `h`, `m` and `s` write hours, minutes of the hour and
/// seconds of the minute (the run's length does not matter); `d` writes the
/// fraction; any other character is a literal, written `width` times, and
/// only after something else.
pub open spec fn token(out: Seq<char>, c: char, width: nat, ms: nat) -> Seq<char> {
    if c == 'h' {
        number_field(out, ms / 3_600_000, false)
    } else if c == 'm' {
        number_field(out, ms / 60_000 % 60, false)
    } else if c == 's' {
        number_field(out, ms / 1_000 % 60, true)
    } else if c == 'd' {
        fraction_field(out, ms % 1_000, width)
    } else if out.len() > 0 {
        out + Seq::new(width, |k: int| c)
    } else {
        out
    }
}

/// `out` followed by the rendering of the runs of `p` from index `i` on.
pub open spec fn render_from(p: Seq<char>, i: int, out: Seq<char>, ms: nat) -> Seq<char>
    decreases p.len() - i,
{
    if i < 0 || i >= p.len() || !(i < run_end(p, i) <= p.len()) {
        out
    } else {
        let j = run_end(p, i);
        render_from(p, j, token(out, p[i], (j - i) as nat, ms), ms)
    }
}

/// The rendering of a duration of `ms` milliseconds (a magnitude: the sign is
/// the caller's) against the pattern `p`.
pub open spec fn render(ms: nat, p: Seq<char>) -> Seq<char> {
    render_from(p, 0, Seq::empty(), ms)
}

/// Facts about the run that starts at `i`: it is not empty, stays in `p`,
/// holds one character, and is maximal.
proof fn lemma_run_end(p: Seq<char>, i: int)
    requires
        0 <= i < p.len(),
    ensures
        i < run_end(p, i) <= p.len(),
        forall|t: int| i <= t < run_end(p, i) ==> p[t] == p[i],
        run_end(p, i) < p.len() ==> p[run_end(p, i)] != p[i],
    decreases p.len() - i,
{
    if i + 1 < p.len() && p[i + 1] == p[i] {
        lemma_run_end(p, i + 1);
    }
}

/// Appends the digit character for `d`.
fn push_digit(out: &mut String, d: u64)
    requires
        d < 10,
    ensures
        final(out)@ == old(out)@.push(digit_char(d as nat)),
{
    let digits = "0123456789";
    proof {
        reveal_strlit("0123456789");
    }
    let s = digits.substring_char(d as usize, d as usize + 1);
    out.append(s);
    assert(s@ =~= seq![digit_char(d as nat)]);
    assert(final(out)@ =~= old(out)@.push(digit_char(d as nat)));
}

/// Appends the decimal digits of `v`.
fn push_decimal(out: &mut String, v: u64)
    ensures
        final(out)@ == old(out)@ + decimal(v as nat),
    decreases v,
{
    if v >= 10 {
        push_decimal(out, v / 10);
    }
    push_digit(out, v % 10);
    assert(final(out)@ =~= old(out)@ + decimal(v as nat));
}

/// Appends a whole-number field (see [`number_field`]).
fn append_number(out: &mut String, value: u64, always_show: bool)
    ensures
        final(out)@ == number_field(old(out)@, value as nat, always_show),
{
    if !out.as_str().is_empty() {
        if value < 10 {
            push_digit(out, 0);
        }
        push_decimal(out, value);
        assert(final(out)@ =~= number_field(old(out)@, value as nat, always_show));
    } else if value > 0 || always_show {
        push_decimal(out, value);
        assert(final(out)@ =~= number_field(old(out)@, value as nat, always_show));
    }
}

/// Appends `width` fractional digits of the millisecond remainder `millis`
/// (see [`fraction_field`]).
fn append_fraction(out: &mut String, millis: u64, width: usize)
    requires
        millis < 1000,
    ensures
        final(out)@ == fraction_field(old(out)@, millis as nat, width as nat),
{
    let ghost start = out@;
    let ghost all = millis_digits(millis as nat);
    if width >= 1 {
        push_digit(out, millis / 100);
    }
    if width >= 2 {
        push_digit(out, millis / 10 % 10);
    }
    if width >= 3 {
        push_digit(out, millis % 10);
    }
    if width <= 3 {
        assert(out@ =~= start + all.take(width as int));
    } else {
        assert(out@ =~= start + all);
        let mut i: usize = 3;
        while i < width
            invariant
                3 <= i <= width,
                out@ == start + all + zeros((i - 3) as nat),
            decreases width - i,
        {
            push_digit(out, 0);
            i = i + 1;
            assert(out@ =~= start + all + zeros((i - 3) as nat));
        }
    }
}

/// Renders the magnitude of a duration of `total_millis` milliseconds against
/// `pattern`. The sign is left to the caller.
pub fn format_time_span(total_millis: i64, pattern: &str) -> (r: String)
    ensures
        r@ == render(abs(total_millis as int), pattern@),
{
    let ms: u64 = if total_millis >= 0 {
        total_millis as u64
    } else {
        (-(total_millis + 1)) as u64 + 1
    };
    let ghost m = ms as nat;
    let ghost p = pattern@;
    let hours = ms / 3_600_000;
    let minutes = ms / 60_000 % 60;
    let seconds = ms / 1_000 % 60;
    let millis = ms % 1_000;
    let n = pattern.unicode_len();
    let mut out = String::new();
    let mut i: usize = 0;
    while i < n
        invariant
            n == p.len(),
            p == pattern@,
            m == abs(total_millis as int),
            hours == m / 3_600_000,
            minutes == m / 60_000 % 60,
            seconds == m / 1_000 % 60,
            millis == m % 1_000,
            i <= n,
            render_from(p, i as int, out@, m) == render(m, p),
        decreases n - i,
    {
        let c = pattern.get_char(i);
        let mut j: usize = i + 1;
        while j < n && pattern.get_char(j) == c
            invariant
                n == p.len(),
                p == pattern@,
                i < j <= n,
                c == p[i as int],
                forall|t: int| i <= t < j ==> p[t] == c,
                run_end(p, i as int) == run_end(p, j - 1),
            decreases n - j,
        {
            j = j + 1;
        }
        proof {
            lemma_run_end(p, i as int);
        }
        assert(run_end(p, i as int) == j);
        let ghost before = out@;
        if c == 'h' {
            append_number(&mut out, hours, false);
        } else if c == 'm' {
            append_number(&mut out, minutes, false);
        } else if c == 's' {
            append_number(&mut out, seconds, true);
        } else if c == 'd' {
            append_fraction(&mut out, millis, j - i);
        } else if !out.as_str().is_empty() {
            let run = pattern.substring_char(i, j);
            out.append(run);
            assert(run@ =~= Seq::new((j - i) as nat, |k: int| c));
        }
        assert(out@ == token(before, c, (j - i) as nat, m));
        i = j;
    }
    out
}


/// The display for "no duration available".
pub open spec fn no_value() -> Seq<char> {
    seq!['-', '-']
}

/// The sign mark of a difference: `+` behind, `-` ahead, `~` even.
pub open spec fn sign_mark(x: int) -> char {
    if x > 0 {
        '+'
    } else if x < 0 {
        '-'
    } else {
        '~'
    }
}

/// `--`, where no duration is available.
fn no_value_string() -> (r: String)
    ensures
        r@ == no_value(),
{
    proof {
        reveal_strlit("--");
    }
    String::from_str("--")
}

/// Renders an optional duration against `pattern`; `None` gives `--`.
pub fn format_time_span_opt(span_millis: Option<i64>, pattern: &str) -> (r: String)
    ensures
        r@ == match span_millis {
            Some(ms) => render(abs(ms as int), pattern@),
            None => no_value(),
        },
{
    match span_millis {
        Some(ms) => format_time_span(ms, pattern),
        None => no_value_string(),
    }
}

/// Renders an optional duration against `pattern`; `None` gives `--`.
pub fn format_duration_opt(duration_millis: Option<i64>, pattern: &str) -> (r: String)
    ensures
        r@ == match duration_millis {
            Some(ms) => render(abs(ms as int), pattern@),
            None => no_value(),
        },
{
    format_time_span_opt(duration_millis, pattern)
}

/// Renders a segment's duration with the pattern that `format` resolves for
/// it; the sign is dropped.
pub fn format_segment_time(duration_millis: i64, format: &mut TimeFormat) -> (r: String)
    requires
        old(format).wf(),
    ensures
        r@ == render(
            abs(duration_millis as int),
            resolve(old(format)@, Some(duration_millis)).0,
        ),
        final(format)@ == resolve(old(format)@, Some(duration_millis)).1,
        final(format).wf(),
{
    let pattern = format.get_pattern(Some(duration_millis));
    format_time_span(duration_millis, pattern.as_str())
}

/// Renders a split time, taken from game time when `use_game_time` and from
/// real time otherwise, with the pattern that `format` resolves for it; a
/// missing time gives `--`.
pub fn format_split_time(
    real_time: Option<i64>,
    game_time: Option<i64>,
    use_game_time: bool,
    format: &mut TimeFormat,
) -> (r: String)
    requires
        old(format).wf(),
    ensures
        ({
            let span = if use_game_time {
                game_time
            } else {
                real_time
            };
            let (p, after) = resolve(old(format)@, span);
            &&& r@ == match span {
                Some(ms) => render(abs(ms as int), p),
                None => no_value(),
            }
            &&& final(format)@ == after
        }),
        final(format).wf(),
{
    let span = if use_game_time {
        game_time
    } else {
        real_time
    };
    let pattern = format.get_pattern(span);
    format_time_span_opt(span, pattern.as_str())
}

/// Renders the main timer's reading with the pattern that `format` resolves
/// for it, with a leading `-` when the reading is negative.
pub fn format_timer(total_millis: i64, format: &mut TimeFormat) -> (r: String)
    requires
        old(format).wf(),
    ensures
        r@ == (if total_millis < 0 {
            seq!['-']
        } else {
            Seq::empty()
        }) + render(abs(total_millis as int), resolve(old(format)@, Some(total_millis)).0),
        final(format)@ == resolve(old(format)@, Some(total_millis)).1,
        final(format).wf(),
{
    let pattern = format.get_pattern(Some(total_millis));
    let body = format_time_span(total_millis, pattern.as_str());
    if total_millis < 0 {
        let mut out = String::from_str("-");
        proof {
            reveal_strlit("-");
        }
        out.append(body.as_str());
        out
    } else {
        body
    }
}

/// Renders a signed difference against `pattern`, after its sign mark
/// (see [`sign_mark`]).
pub fn format_signed(diff_millis: i64, pattern: &str) -> (r: String)
    ensures
        r@ == seq![sign_mark(diff_millis as int)] + render(abs(diff_millis as int), pattern@),
{
    let mut out = if diff_millis > 0 {
        String::from_str("+")
    } else if diff_millis < 0 {
        String::from_str("-")
    } else {
        String::from_str("~")
    };
    proof {
        reveal_strlit("+");
        reveal_strlit("-");
        reveal_strlit("~");
    }
    let body = format_time_span(diff_millis, pattern);
    out.append(body.as_str());
    out
}

/// Leading fields of value zero are left out, not written as `0:`: below an
/// hour, `h:m:s` renders exactly as `m:s`.
pub proof fn lemma_zero_hours_omitted(ms: nat)
    requires
        ms < 3_600_000,
    ensures
        render(ms, seq!['h', ':', 'm', ':', 's']) == render(ms, seq!['m', ':', 's']),
{
    let p = seq!['h', ':', 'm', ':', 's'];
    let q = seq!['m', ':', 's'];
    let e = Seq::<char>::empty();
    assert(run_end(p, 0) == 1);
    assert(run_end(p, 1) == 2);
    assert(run_end(p, 2) == 3);
    assert(run_end(p, 3) == 4);
    assert(run_end(p, 4) == 5);
    assert(run_end(q, 0) == 1);
    assert(run_end(q, 1) == 2);
    assert(run_end(q, 2) == 3);
    assert(ms / 3_600_000 == 0);
    assert(token(e, 'h', 1, ms) == e);
    assert(token(e, ':', 1, ms) == e);
    let t1 = token(e, 'm', 1, ms);
    let t2 = token(t1, ':', 1, ms);
    let t3 = token(t2, 's', 1, ms);
    assert(render_from(p, 5, t3, ms) == t3);
    assert(render_from(q, 3, t3, ms) == t3);
    assert(render_from(p, 4, t2, ms) == t3);
    assert(render_from(q, 2, t2, ms) == t3);
    assert(render_from(p, 3, t1, ms) == t3);
    assert(render_from(q, 1, t1, ms) == t3);
    assert(render_from(p, 2, e, ms) == t3);
    assert(render_from(q, 0, e, ms) == t3);
    assert(render_from(p, 1, e, ms) == t3);
}


/// The fraction is truncated, never rounded: one decimal is the first digit of
/// the millisecond remainder, and three decimals are all of it.
pub proof fn lemma_fraction_truncates(ms: nat)
    ensures
        render(ms, seq!['s', '.', 'd']) == render(ms, seq!['s']) + seq![
            '.',
            digit_char(ms % 1_000 / 100),
        ],
        render(ms, seq!['s', '.', 'd', 'd', 'd']) == render(ms, seq!['s']) + seq!['.']
            + millis_digits(ms % 1_000),
{
    let s = seq!['s'];
    let p1 = seq!['s', '.', 'd'];
    let p3 = seq!['s', '.', 'd', 'd', 'd'];
    let e = Seq::<char>::empty();
    assert(run_end(s, 0) == 1);
    assert(run_end(p1, 0) == 1);
    assert(run_end(p1, 1) == 2);
    assert(run_end(p1, 2) == 3);
    assert(run_end(p3, 0) == 1);
    assert(run_end(p3, 1) == 2);
    assert(run_end(p3, 4) == 5);
    assert(run_end(p3, 3) == 5);
    assert(run_end(p3, 2) == 5);
    let t1 = token(e, 's', 1, ms);
    assert(render_from(s, 1, t1, ms) == t1);
    assert(render(ms, s) == t1);
    assert(t1.len() > 0);
    let t2 = token(t1, '.', 1, ms);
    assert(t2 =~= t1 + seq!['.']);
    let f1 = token(t2, 'd', 1, ms);
    let f3 = token(t2, 'd', 3, ms);
    assert(f1 =~= t1 + seq!['.', digit_char(ms % 1_000 / 100)]);
    assert(f3 =~= t1 + seq!['.'] + millis_digits(ms % 1_000));
    assert(render_from(p1, 3, f1, ms) == f1);
    assert(render_from(p1, 2, t2, ms) == f1);
    assert(render_from(p1, 1, t1, ms) == f1);
    assert(render_from(p3, 5, f3, ms) == f3);
    assert(render_from(p3, 2, t2, ms) == f3);
    assert(render_from(p3, 1, t1, ms) == f3);
}

} // verus!
