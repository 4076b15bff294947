//! Points in time, held as whole seconds since the Unix epoch, and their
//! rendering in UTC.

use vstd::prelude::*;

verus! {

/// The text that `chrono` gives for the instant `secs` seconds after the Unix
/// epoch in UTC, such as `1970-01-01 00:00:00 UTC` for zero; `None` where the
/// instant lies outside the years that `chrono` can represent.
pub uninterp spec fn utc_text(secs: i64) -> Option<Seq<char>>;

/// The text of an instant, and nothing where it has none.
pub open spec fn utc_text_or_blank(secs: i64) -> Seq<char> {
    match utc_text(secs) {
        Some(text) => text,
        None => Seq::empty(),
    }
}

/// Calls `chrono::DateTime::from_timestamp` with no fractional part and
/// renders the instant through its `Display` impl.
///
/// The contract only gives the outcome its name, [`utc_text`]: the same
/// seconds always yield the same text, and `None` is returned exactly when
/// `chrono` rejects the seconds as out of range.
#[verifier::external_body]
pub(crate) fn render_utc(secs: i64) -> (text: Option<String>)
    ensures
        match text {
            Some(t) => utc_text(secs) == Some(t@),
            None => utc_text(secs) is None,
        },
{
    match chrono::DateTime::from_timestamp(secs, 0) {
        Some(instant) => Some(instant.to_string()),
        None => None,
    }
}

/// Whether `secs` names an instant that can be rendered.
pub fn is_renderable(secs: i64) -> (ok: bool)
    ensures
        ok <==> utc_text(secs) is Some,
{
    render_utc(secs).is_some()
}

} // verus!
