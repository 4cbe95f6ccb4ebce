//! Trusted access to chrono for rendering the timestamp a generation's name
//! carries. The current time itself comes from the surrounding process as a
//! plain epoch second; only the calendar rendering is delegated.

use vstd::prelude::*;

use crate::text::generation_name;

verus! {

/// The `%Y%m%d_%H%M%S` rendering of an epoch second, and the empty string
/// for a second outside chrono's calendar range.
pub uninterp spec fn timestamp_text_of(secs: int) -> Seq<char>;

/// Relies on chrono's DateTime::from_timestamp and DateTime::format: the
/// rendered calendar text depends on the epoch second alone, and
/// from_timestamp is None exactly on out-of-range seconds.
#[verifier::external_body]
fn format_timestamp(secs: i64) -> (r: String)
    ensures
        r@ == timestamp_text_of(secs as int),
{
    match chrono::DateTime::from_timestamp(secs, 0) {
        Some(dt) => dt.format("%Y%m%d_%H%M%S").to_string(),
        None => String::new(),
    }
}

/// The name a generation provisioned at the given time is created under:
/// `Assistant_` followed by the rendered timestamp.
pub fn assistant_generation_name(secs: i64) -> (r: String)
    ensures
        r@ == "Assistant_"@ + timestamp_text_of(secs as int),
{
    let stamp = format_timestamp(secs);
    generation_name(stamp.as_str())
}

} // verus!
