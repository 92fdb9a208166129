use vstd::prelude::*;

use crate::render::{abs, format_time_span, format_time_span_opt, no_value, render};

verus! {

/// The pattern used where none is configured: hours, minutes, seconds and
/// hundredths.
pub const DEFAULT_TIME_FORMAT: &'static str = "h:m:s.dd";

/// The characters of [`DEFAULT_TIME_FORMAT`].
pub open spec fn default_pattern() -> Seq<char> {
    seq!['h', ':', 'm', ':', 's', '.', 'd', 'd']
}

/// Renders the magnitude of a duration with the default pattern.
pub fn format_duration(duration_millis: i64) -> (r: String)
    ensures
        r@ == render(abs(duration_millis as int), default_pattern()),
{
    proof {
        reveal_strlit("h:m:s.dd");
        assert(DEFAULT_TIME_FORMAT@ =~= default_pattern());
    }
    format_time_span(duration_millis, DEFAULT_TIME_FORMAT)
}

/// Renders an optional duration with the default pattern; `None` gives `--`.
pub fn format_duration_opt(duration_millis: Option<i64>) -> (r: String)
    ensures
        r@ == match duration_millis {
            Some(ms) => render(abs(ms as int), default_pattern()),
            None => no_value(),
        },
{
    proof {
        reveal_strlit("h:m:s.dd");
        assert(DEFAULT_TIME_FORMAT@ =~= default_pattern());
    }
    format_time_span_opt(duration_millis, DEFAULT_TIME_FORMAT)
}

} // verus!
