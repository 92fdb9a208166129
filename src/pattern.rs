use vstd::prelude::*;

verus! {

/// How large a duration is, for choosing which fields a dynamic format shows.
#[derive(Clone, Copy, Debug, PartialEq, Eq, Structural)]
pub enum Magnitude {
    UnderMinute,
    UnderHour,
    HourPlus,
}

/// The magnitude bucket of a duration of `ms` milliseconds, by absolute value.
pub open spec fn magnitude_of(ms: int) -> Magnitude {
    let a = if ms < 0 { -ms } else { ms };
    if a < 60_000 {
        Magnitude::UnderMinute
    } else if a < 3_600_000 {
        Magnitude::UnderHour
    } else {
        Magnitude::HourPlus
    }
}

/// Buckets a duration by its absolute value.
pub fn magnitude(ms: i64) -> (r: Magnitude)
    ensures
        r == magnitude_of(ms as int),
{
    if -60_000 < ms && ms < 60_000 {
        Magnitude::UnderMinute
    } else if -3_600_000 < ms && ms < 3_600_000 {
        Magnitude::UnderHour
    } else {
        Magnitude::HourPlus
    }
}


/// Which fields a pattern shows.
#[derive(Clone, Copy, Debug, PartialEq, Eq, Structural)]
pub struct Fields {
    pub hours: bool,
    pub minutes: bool,
    pub seconds: bool,
    pub decimals: bool,
}

/// Display flags for one readout, with a memo of the pattern they give.
///
/// `decimal_places` is the number of `d` tokens the pattern ends with when
/// decimals are shown. When `dynamic` is set the pattern follows the magnitude
/// of each duration and is recomputed on every call; otherwise it is computed
/// once and then served from the memo.
#[derive(Clone, Debug)]
pub struct TimeFormat {
    pub show_hours: bool,
    pub show_minutes: bool,
    pub show_seconds: bool,
    pub show_decimals: bool,
    pub decimal_places: u8,
    pub dynamic: bool,
    cached_pattern: Option<String>,
}

/// The mathematical value of a [`TimeFormat`].
pub struct FormatModel {
    pub show_hours: bool,
    pub show_minutes: bool,
    pub show_seconds: bool,
    pub show_decimals: bool,
    pub decimal_places: nat,
    pub dynamic: bool,
    pub cached: Option<Seq<char>>,
}

impl FormatModel {
    /// A memoised pattern is never empty.
    pub open spec fn wf(self) -> bool {
        self.cached is Some ==> self.cached->0.len() > 0
    }

    /// The fields as configured, before any adaptation to a magnitude.
    pub open spec fn configured(self) -> Fields {
        Fields {
            hours: self.show_hours,
            minutes: self.show_minutes,
            seconds: self.show_seconds,
            decimals: self.show_decimals,
        }
    }
}

impl TimeFormat {
    /// The memoised pattern, if any.
    pub closed spec fn cached(&self) -> Option<Seq<char>> {
        match self.cached_pattern {
            Some(s) => Some(s@),
            None => None,
        }
    }

    /// The memo, if any, holds a non-empty pattern.
    pub open spec fn wf(&self) -> bool {
        self@.wf()
    }
}

impl View for TimeFormat {
    type V = FormatModel;

    closed spec fn view(&self) -> FormatModel {
        FormatModel {
            show_hours: self.show_hours,
            show_minutes: self.show_minutes,
            show_seconds: self.show_seconds,
            show_decimals: self.show_decimals,
            decimal_places: self.decimal_places as nat,
            dynamic: self.dynamic,
            cached: self.cached(),
        }
    }
}

/// The fields shown for a duration of `total` milliseconds (`None`: no
/// duration known). A static format shows what is configured. A dynamic one
/// hides hours and minutes under a minute, hides hours under an hour, and from
/// a minute on hides decimals when both minutes and seconds are configured.
pub open spec fn fields_for(m: FormatModel, total: Option<i64>) -> Fields {
    let base = m.configured();
    let crowded = m.show_minutes && m.show_seconds;
    if !m.dynamic || total is None {
        base
    } else {
        match magnitude_of(total->0 as int) {
            Magnitude::UnderMinute => Fields {
                hours: false,
                minutes: false,
                seconds: base.seconds,
                decimals: base.decimals,
            },
            Magnitude::UnderHour => Fields {
                hours: false,
                minutes: base.minutes,
                seconds: base.seconds,
                decimals: base.decimals && !crowded,
            },
            Magnitude::HourPlus => Fields {
                hours: base.hours,
                minutes: base.minutes,
                seconds: base.seconds,
                decimals: base.decimals && !crowded,
            },
        }
    }
}

/// A decimal point followed by `places` decimal tokens.
pub open spec fn decimal_suffix(places: nat) -> Seq<char> {
    seq!['.'] + Seq::new(places, |i: int| 'd')
}

/// `p` followed by the field token `c`, with a `:` between them when `p` is
/// not empty.
pub open spec fn then_field(p: Seq<char>, c: char) -> Seq<char> {
    if p.len() == 0 {
        seq![c]
    } else {
        p.push(':').push(c)
    }
}

/// The pattern for the fields `f`: hours, minutes and seconds in that order,
/// separated by `:`, then the decimals when shown and `places > 0`.
pub open spec fn layout(f: Fields, places: nat) -> Seq<char> {
    let p0 = if f.hours { seq!['h'] } else { Seq::empty() };
    let p1 = if f.minutes { then_field(p0, 'm') } else { p0 };
    let p2 = if f.seconds { then_field(p1, 's') } else { p1 };
    if f.decimals && places > 0 { p2 + decimal_suffix(places) } else { p2 }
}

/// The pattern a format gives for `total`; where the layout is empty, the
/// readout falls back to seconds.
pub open spec fn pattern_of(m: FormatModel, total: Option<i64>) -> Seq<char> {
    let p = layout(fields_for(m, total), m.decimal_places);
    if p.len() > 0 {
        p
    } else if m.show_seconds && m.show_decimals && m.decimal_places > 0 {
        seq!['s'] + decimal_suffix(m.decimal_places)
    } else {
        seq!['s']
    }
}

/// What a call of `get_pattern` returns, and the format after it.
pub open spec fn resolve(m: FormatModel, total: Option<i64>) -> (Seq<char>, FormatModel) {
    if m.dynamic {
        (pattern_of(m, total), m)
    } else {
        match m.cached {
            Some(c) => (c, m),
            None => {
                let p = pattern_of(m, total);
                (p, FormatModel { cached: Some(p), ..m })
            },
        }
    }
}

/// Appends the field token `c`, after a `:` when `out` is not empty.
fn push_field(out: &mut String, c: &str)
    requires
        c@.len() == 1,
    ensures
        final(out)@ == then_field(old(out)@, c@[0]),
{
    if !out.as_str().is_empty() {
        out.append(":");
        proof {
            reveal_strlit(":");
        }
    }
    out.append(c);
    assert(final(out)@ =~= then_field(old(out)@, c@[0]));
}

/// Appends a decimal point and `places` decimal tokens.
fn push_decimals(out: &mut String, places: u8)
    ensures
        final(out)@ == old(out)@ + decimal_suffix(places as nat),
{
    let ghost start = out@;
    out.append(".");
    proof {
        reveal_strlit(".");
    }
    let mut i: u8 = 0;
    while i < places
        invariant
            i <= places,
            out@ == start + seq!['.'] + Seq::new(i as nat, |k: int| 'd'),
        decreases places - i,
    {
        out.append("d");
        proof {
            reveal_strlit("d");
        }
        i = i + 1;
        assert(out@ =~= start + seq!['.'] + Seq::new(i as nat, |k: int| 'd'));
    }
    assert(out@ =~= start + decimal_suffix(places as nat));
}

impl TimeFormat {
    /// A format with the given flags and nothing memoised.
    pub fn new(
        show_hours: bool,
        show_minutes: bool,
        show_seconds: bool,
        show_decimals: bool,
        decimal_places: u8,
        dynamic: bool,
    ) -> (r: TimeFormat)
        ensures
            r@ == (FormatModel {
                show_hours,
                show_minutes,
                show_seconds,
                show_decimals,
                decimal_places: decimal_places as nat,
                dynamic,
                cached: None,
            }),
            r.wf(),
    {
        TimeFormat {
            show_hours,
            show_minutes,
            show_seconds,
            show_decimals,
            decimal_places,
            dynamic,
            cached_pattern: None,
        }
    }

    /// The fields shown for `total` (see [`fields_for`]).
    pub fn visible_fields(&self, total_millis: Option<i64>) -> (r: Fields)
        ensures
            r == fields_for(self@, total_millis),
    {
        let mut f = Fields {
            hours: self.show_hours,
            minutes: self.show_minutes,
            seconds: self.show_seconds,
            decimals: self.show_decimals,
        };
        if self.dynamic {
            if let Some(ms) = total_millis {
                let crowded = self.show_minutes && self.show_seconds;
                match magnitude(ms) {
                    Magnitude::UnderMinute => {
                        f.hours = false;
                        f.minutes = false;
                    },
                    Magnitude::UnderHour => {
                        f.hours = false;
                        f.decimals = f.decimals && !crowded;
                    },
                    Magnitude::HourPlus => {
                        f.decimals = f.decimals && !crowded;
                    },
                }
            }
        }
        f
    }

    /// Builds the pattern for `total_millis` from the flags, ignoring the memo.
    pub fn compute_pattern(&self, total_millis: Option<i64>) -> (r: String)
        ensures
            r@ == pattern_of(self@, total_millis),
            r@.len() > 0,
    {
        let f = self.visible_fields(total_millis);
        proof {
            reveal_strlit("h");
            reveal_strlit("m");
            reveal_strlit("s");
        }
        let mut pattern = String::new();
        if f.hours {
            pattern.append("h");
        }
        if f.minutes {
            push_field(&mut pattern, "m");
        }
        if f.seconds {
            push_field(&mut pattern, "s");
        }
        if f.decimals && self.decimal_places > 0 {
            push_decimals(&mut pattern, self.decimal_places);
        }
        assert(pattern@ =~= layout(f, self.decimal_places as nat));
        if pattern.as_str().is_empty() {
            pattern.append("s");
            if self.show_seconds && self.show_decimals && self.decimal_places > 0 {
                push_decimals(&mut pattern, self.decimal_places);
            }
        }
        pattern
    }

    /// The pattern for `total_millis`. A static format computes it once and
    /// then returns the memoised pattern; a dynamic one recomputes it on every
    /// call and leaves the memo as it is.
    pub fn get_pattern(&mut self, total_millis: Option<i64>) -> (r: String)
        requires
            old(self).wf(),
        ensures
            r@ == resolve(old(self)@, total_millis).0,
            final(self)@ == resolve(old(self)@, total_millis).1,
            final(self).wf(),
            r@.len() > 0,
    {
        if self.dynamic {
            return self.compute_pattern(total_millis);
        }
        match &self.cached_pattern {
            Some(p) => p.clone(),
            None => {
                let p = self.compute_pattern(total_millis);
                self.cached_pattern = Some(p.clone());
                p
            },
        }
    }
}


impl Default for TimeFormat {
    /// Hours, minutes, seconds and two decimals (`h:m:s.dd`), static.
    fn default() -> (r: TimeFormat)
        ensures
            r@ == (FormatModel {
                show_hours: true,
                show_minutes: true,
                show_seconds: true,
                show_decimals: true,
                decimal_places: 2,
                dynamic: false,
                cached: None,
            }),
            r.wf(),
    {
        TimeFormat::new(true, true, true, true, 2, false)
    }
}

/// A static format is idempotent: once a call has memoised a pattern, every
/// later call returns that same pattern, whatever duration it is given, and
/// leaves the format unchanged.
pub proof fn lemma_static_resolve_idempotent(
    m: FormatModel,
    first: Option<i64>,
    second: Option<i64>,
)
    requires
        m.wf(),
        !m.dynamic,
    ensures
        resolve(m, first).1.cached == Some(resolve(m, first).0),
        resolve(resolve(m, first).1, second).0 == resolve(m, first).0,
        resolve(resolve(m, first).1, second).1 == resolve(m, first).1,
{
}

/// With hours, minutes, seconds and decimals all hidden, the pattern is the
/// seconds token alone.
pub proof fn lemma_nothing_shown_gives_seconds(m: FormatModel, total: Option<i64>)
    requires
        !m.show_hours,
        !m.show_minutes,
        !m.show_seconds,
        !m.show_decimals,
    ensures
        pattern_of(m, total) == seq!['s'],
        m.dynamic || m.cached is None ==> resolve(m, total).0 == seq!['s'],
{
}

} // verus!
