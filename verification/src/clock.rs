use vstd::prelude::*;

verus! {

/// An exclusive bound on the magnitude of every timestamp chrono represents:
/// its dates run from year -262143 to year 262142, less than 2^43 seconds
/// from the Unix epoch either way.
pub const TIMESTAMP_BOUND: i64 = 0x800_0000_0000;

/// Reads the system clock: `std::time::UNIX_EPOCH.elapsed()`, the time since
/// the Unix epoch; `None` when the clock reads before the epoch. Nothing is
/// claimed of the value, which depends on the machine.
#[verifier::external_body]
fn time_since_epoch() -> Option<std::time::Duration> {
    std::time::UNIX_EPOCH.elapsed().ok()
}

/// `Duration::as_secs`: the whole seconds of `d`. Nothing is claimed of the value.
#[verifier::external_body]
fn whole_seconds(d: &std::time::Duration) -> u64 {
    d.as_secs()
}

/// `Duration::subsec_nanos`: the fractional part of `d` in nanoseconds, which
/// std documents to be less than one billion.
#[verifier::external_body]
fn fraction_nanos(d: &std::time::Duration) -> (r: u32)
    ensures
        r < 1_000_000_000,
{
    d.subsec_nanos()
}

/// `chrono::DateTime::<Utc>::from_timestamp(secs, nanos)` read back with
/// `DateTime::timestamp`. chrono's source gives: `None` outside its date range
/// (years -262143 to 262142); inside it, the timestamp read back is `secs`
/// (the documented round trip). Every date from the epoch to year 250000 is
/// inside, with any `nanos` below one billion.
#[verifier::external_body]
fn chrono_timestamp(secs: i64, nanos: u32) -> (r: Option<i64>)
    ensures
        r matches Some(t) ==> t == secs && -TIMESTAMP_BOUND < t < TIMESTAMP_BOUND,
        0 <= secs <= 7_800_000_000_000 && nanos < 1_000_000_000 ==> r == Some(secs),
{
    chrono::DateTime::from_timestamp(secs, nanos).map(|t| t.timestamp())
}

/// The present Unix time in seconds, as chrono gives it for the system clock
/// (`chrono::Utc::now().timestamp()`); `None` where that would panic: the
/// clock reads before the Unix epoch or beyond chrono's range.
pub fn unix_time() -> (r: Option<i64>)
    ensures
        r matches Some(t) ==> 0 <= t < TIMESTAMP_BOUND,
{
    let d = match time_since_epoch() {
        Some(d) => d,
        None => return None,
    };
    let secs = whole_seconds(&d);
    let nanos = fraction_nanos(&d);
    if secs > i64::MAX as u64 {
        return None;
    }
    chrono_timestamp(secs as i64, nanos)
}

} // verus!
