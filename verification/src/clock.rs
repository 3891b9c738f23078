//! Readings of the system clock and their RFC 3339 rendering.

use vstd::prelude::*;

verus! {

/// Reads the clock: the time since the Unix epoch as whole seconds and the
/// nanoseconds beyond them, or `None` when the clock reads earlier than the
/// epoch. Calls `std::time::SystemTime::elapsed` on `UNIX_EPOCH`. The reading
/// depends on the time; what holds of every reading is that the nanoseconds
/// are less than a second (`Duration::subsec_nanos`).
#[verifier::external_body]
pub(crate) fn unix_clock() -> (r: Option<(u64, u32)>)
    ensures
        r matches Some(t) ==> t.1 < 1_000_000_000,
{
    match std::time::UNIX_EPOCH.elapsed() {
        Ok(d) => Some((d.as_secs(), d.subsec_nanos())),
        Err(_) => None,
    }
}

/// The RFC 3339 text of the instant `secs` seconds and `nanos` nanoseconds
/// after the Unix epoch, in UTC, as `chrono` writes it; `None` when `chrono`
/// cannot represent that instant.
pub uninterp spec fn rfc3339_text(secs: i64, nanos: u32) -> Option<Seq<char>>;

/// Calls `chrono::DateTime::<Utc>::from_timestamp` and then `to_rfc3339`.
/// `from_timestamp` returns `None` for instants out of `chrono`'s range;
/// `to_rfc3339` always writes a date and a time, so its text is never empty.
/// The contract names the text.
#[verifier::external_body]
pub(crate) fn rfc3339_at(secs: i64, nanos: u32) -> (r: Option<String>)
    ensures
        r matches Some(s) ==> rfc3339_text(secs, nanos) == Some(s@) && s@.len() > 0,
        r is None ==> rfc3339_text(secs, nanos) is None,
{
    match chrono::DateTime::<chrono::Utc>::from_timestamp(secs, nanos) {
        Some(t) => Some(t.to_rfc3339()),
        None => None,
    }
}

} // verus!
