use vstd::prelude::*;

verus! {

/// The first second of the year 0, in seconds since the Unix epoch.
pub const RFC2822_MIN: i64 = -62167219200;

/// The last second of the year 9999, in seconds since the Unix epoch.
pub const RFC2822_MAX: i64 = 253402300799;

/// A point in time between `RFC2822_MIN` and `RFC2822_MAX` in the format of
/// RFC 2822, as `chrono` writes it for UTC.
pub uninterp spec fn rfc2822_text(seconds: int) -> Seq<char>;

/// Calls `chrono::Utc::now` and `chrono::DateTime::timestamp`: the seconds
/// since the Unix epoch on this machine's clock. Nothing is promised of
/// them. The call panics on a machine whose clock stands before the epoch.
#[verifier::external_body]
pub(crate) fn now() -> i64 {
    chrono::Utc::now().timestamp()
}

/// Calls `chrono::DateTime::from_timestamp` and, on what it gives,
/// `chrono::DateTime::to_rfc2822`. The second call panics on a year outside 0
/// to 9999, which `requires` leaves out. Within those years the first call
/// always gives a point in time, so a text always comes back.
#[verifier::external_body]
pub(crate) fn rfc2822(seconds: i64) -> (r: Option<String>)
    requires
        RFC2822_MIN <= seconds <= RFC2822_MAX,
    ensures
        r is Some,
        r matches Some(text) ==> text@ == rfc2822_text(seconds as int),
{
    match chrono::DateTime::from_timestamp(seconds, 0) {
        Some(t) => Some(t.to_rfc2822()),
        None => None,
    }
}

} // verus!
