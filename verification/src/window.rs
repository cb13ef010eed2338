//! The fetch window: the `[start, end]` bounds, in seconds since the Unix
//! epoch, of the range of samples requested from the metering API in one run.

use vstd::prelude::*;

verus! {

/// One day, measured in seconds; the unit in which the window is laid out.
pub const SECS_PER_DAY: i64 = 86400;

/// The bounds of one fetch request, as seconds since the Unix epoch.
///
/// The window always ends one day past the current time (a skew that guards
/// against clock drift at the upstream API excluding the newest samples) and
/// spans exactly seven days.
pub struct FetchWindow {
    pub start_secs: i64,
    pub end_secs: i64,
}

/// Computes the fetch window for a run started at `now_secs`:
/// the window ends one day after `now_secs` and spans seven days.
pub fn compute_window(now_secs: i64) -> (w: FetchWindow)
    requires
        now_secs + SECS_PER_DAY <= i64::MAX,
        i64::MIN + 6 * SECS_PER_DAY <= now_secs,
    ensures
        w.end_secs == now_secs + SECS_PER_DAY,
        w.end_secs - w.start_secs == 7 * SECS_PER_DAY,
{
    let end = now_secs + SECS_PER_DAY;
    let start = end - 7 * SECS_PER_DAY;
    FetchWindow { start_secs: start, end_secs: end }
}

/// Relies on chrono (`TimeZone::timestamp_opt` on `Local`, then
/// `DateTime::to_rfc3339`): renders an epoch timestamp as RFC-3339 text in
/// the machine's local timezone. The rendered offset depends on the machine,
/// so nothing is stated of the text.
#[verifier::external_body]
fn rfc3339_local(secs: i64) -> (r: String) {
    match chrono::TimeZone::timestamp_opt(&chrono::Local, secs, 0) {
        chrono::LocalResult::Single(dt) => dt.to_rfc3339(),
        _ => String::new(),
    }
}

impl FetchWindow {
    /// The window's bounds as `(start, end)` in RFC-3339 local-timezone
    /// text, ready to stand as the request's `startDate` and `endDate`.
    pub fn bounds_rfc3339(&self) -> (r: (String, String)) {
        (rfc3339_local(self.start_secs), rfc3339_local(self.end_secs))
    }
}

} // verus!
