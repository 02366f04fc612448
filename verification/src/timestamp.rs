use vstd::prelude::*;

verus! {

/// An instant in UTC: whole seconds since the Unix epoch, and the
/// nanoseconds past that second.
#[derive(Debug, Clone, Copy, PartialEq, Eq, Structural, Default)]
pub struct Timestamp {
    pub secs: i64,
    pub nanos: u32,
}

/// The RFC 3339 text that chrono writes for the UTC instant `nanos`
/// nanoseconds after `secs` seconds past the Unix epoch, or `None` when chrono
/// cannot represent that instant.
pub uninterp spec fn rfc3339_utc_text(secs: int, nanos: int) -> Option<Seq<char>>;

/// chrono's `DateTime::<Utc>::from_timestamp(secs, nanos)` followed by
/// `DateTime::to_rfc3339`. Claimed: the result is the named text of the
/// instant, absent exactly when `from_timestamp` finds it out of range.
#[verifier::external_body]
fn rfc3339_utc(secs: i64, nanos: u32) -> (r: Option<String>)
    ensures
        match r {
            Some(s) => rfc3339_utc_text(secs as int, nanos as int) == Some(s@),
            None => rfc3339_utc_text(secs as int, nanos as int) is None,
        },
{
    match chrono::DateTime::from_timestamp(secs, nanos) {
        Some(d) => Some(d.to_rfc3339()),
        None => None,
    }
}

/// How an instant is shown: its RFC 3339 text in UTC, or nothing when it is
/// out of range.
pub open spec fn timestamp_shown(t: Timestamp) -> Seq<char> {
    match rfc3339_utc_text(t.secs as int, t.nanos as int) {
        Some(s) => s,
        None => Seq::empty(),
    }
}

/// The text shown for an instant.
pub fn timestamp_text(t: Timestamp) -> (r: String)
    ensures
        r@ == timestamp_shown(t),
{
    match rfc3339_utc(t.secs, t.nanos) {
        Some(s) => s,
        None => String::new(),
    }
}

} // verus!
