//! Time: the expiry of credentials, the system clock, and UTC date-times.
use vstd::prelude::*;
use crate::error::CoinError;

verus! {

/// Seconds before the actual expiry at which credentials already count as expired.
pub const EXPIRATION_MARGIN: i64 = 120;

/// The earliest UNIX timestamp (in seconds) that a UTC date-time can hold: the first second
/// of year -262143.
pub open spec fn min_utc_timestamp() -> int {
    -8_334_601_228_800
}

/// The latest UNIX timestamp (in seconds) that a UTC date-time can hold: the last second of
/// year 262142.
pub open spec fn max_utc_timestamp() -> int {
    8_210_266_876_799
}

/// Whether some UTC date-time has the UNIX timestamp `secs`.
pub open spec fn is_utc_timestamp(secs: int) -> bool {
    min_utc_timestamp() <= secs <= max_utc_timestamp()
}

/// `x as i64` for `0 <= x < 2^64`: two's complement reinterpretation.
pub open spec fn wrap_i64(x: int) -> int {
    if x <= i64::MAX {
        x
    } else {
        x - 0x1_0000_0000_0000_0000
    }
}

/// The expiry instant of credentials issued at `timestamp` and valid for `expires_in` seconds,
/// as a signed UNIX timestamp.
pub open spec fn expiry_secs(timestamp: u64, expires_in: u64) -> int {
    wrap_i64(timestamp + expires_in)
}

/// Whether credentials issued at `timestamp`, valid for `expires_in` seconds, count as
/// expired at the instant `now`.
pub open spec fn spec_is_expired_at(timestamp: u64, expires_in: u64, now: i64) -> bool {
    expiry_secs(timestamp, expires_in) < now + EXPIRATION_MARGIN
}

/// A UTC date-time, kept at second precision as its UNIX timestamp.
#[derive(Debug, Clone, Copy, PartialEq, Eq)]
pub struct DateTime {
    secs: i64,
}

impl DateTime {
    #[verifier::type_invariant]
    spec fn representable(self) -> bool {
        is_utc_timestamp(self.secs as int)
    }

    pub closed spec fn spec_timestamp(self) -> int {
        self.secs as int
    }

    /// The UNIX timestamp of this date-time in seconds.
    pub fn timestamp(&self) -> (t: i64)
        ensures
            t == self.spec_timestamp(),
            is_utc_timestamp(t as int),
    {
        proof {
            use_type_invariant(self);
        }
        self.secs
    }
}

/// Asks `chrono::DateTime::<Utc>::from_timestamp(secs, 0)` whether `secs` names a UTC
/// date-time. The contract claims that chrono accepts exactly the timestamps from
/// `DateTime::<Utc>::MIN_UTC` to `DateTime::<Utc>::MAX_UTC`, as its source shows.
#[verifier::external_body]
fn utc_from_timestamp_is_some(secs: i64) -> (ok: bool)
    ensures
        ok == is_utc_timestamp(secs as int),
{
    chrono::DateTime::<chrono::Utc>::from_timestamp(secs, 0).is_some()
}

/// The instants of the system clock, declared so that they can be carried through.
#[verifier::external_type_specification]
#[verifier::external_body]
pub struct ExSystemTime(std::time::SystemTime);

/// Reads the system clock: `std::time::SystemTime::now()`. Nothing is claimed of the instant.
#[verifier::external_body]
fn system_time_now() -> std::time::SystemTime {
    std::time::SystemTime::now()
}

/// How long after the UNIX epoch the instant `t` lies:
/// `t.duration_since(std::time::UNIX_EPOCH)`, `None` for an instant before the epoch.
/// Nothing is claimed of the duration.
#[verifier::external_body]
fn duration_since_unix_epoch(t: &std::time::SystemTime) -> Option<std::time::Duration> {
    t.duration_since(std::time::UNIX_EPOCH).ok()
}

/// The whole seconds of a duration: `Duration::as_secs`. Nothing is claimed of them.
#[verifier::external_body]
fn duration_secs(d: &std::time::Duration) -> u64 {
    d.as_secs()
}

/// The UNIX timestamp that a reading of the clock gives, from the whole seconds since the UNIX
/// epoch (`None` for an instant before the epoch): the seconds themselves where a UTC
/// date-time has them, else none.
pub open spec fn clock_utc_timestamp(secs: Option<u64>) -> Option<i64> {
    match secs {
        Some(s) => if s <= max_utc_timestamp() {
            Some(s as i64)
        } else {
            None
        },
        None => None,
    }
}

/// Turns the whole seconds since the UNIX epoch that the clock shows (`None` for an instant
/// before the epoch) into the UNIX timestamp of a UTC date-time, as `chrono::Utc::now()` gives
/// it; `None` where there is no such date-time (where `chrono::Utc::now()` would panic).
pub fn utc_timestamp_of_secs(secs: Option<u64>) -> (r: Option<i64>)
    ensures
        r == clock_utc_timestamp(secs),
{
    match secs {
        Some(s) => {
            if s <= i64::MAX as u64 && utc_from_timestamp_is_some(s as i64) {
                Some(s as i64)
            } else {
                None
            }
        },
        None => None,
    }
}

/// Reads the system clock as a UNIX timestamp in whole seconds, as `chrono::Utc::now()`
/// gives it; `None` when the clock is set before the UNIX epoch or past the last UTC
/// date-time (where `chrono::Utc::now()` would panic).
pub(crate) fn utc_now_timestamp() -> (now: Option<i64>)
    ensures
        exists|secs: Option<u64>| now == #[trigger] clock_utc_timestamp(secs),
        now matches Some(t) ==> 0 <= t <= max_utc_timestamp(),
{
    let instant = system_time_now();
    let secs = match duration_since_unix_epoch(&instant) {
        Some(d) => Some(duration_secs(&d)),
        None => None,
    };
    utc_timestamp_of_secs(secs)
}

/// The current UNIX timestamp as an unsigned number of seconds; `None` when the system clock
/// shows no UTC date-time at or after the UNIX epoch.
pub fn timestamp() -> (t: Option<u64>)
    ensures
        t matches Some(secs) ==> secs <= max_utc_timestamp(),
{
    match utc_now_timestamp() {
        Some(now) => Some(now as u64),
        None => None,
    }
}

/// `x as i64`: the signed number with the same 64 bits.
pub(crate) fn wrapping_to_i64(x: u64) -> (r: i64)
    ensures
        r == wrap_i64(x as int),
{
    if x <= i64::MAX as u64 {
        x as i64
    } else {
        -((u64::MAX - x) as i64) - 1
    }
}

/// The UTC date-time with the UNIX timestamp `secs`, if there is one
/// (`chrono::DateTime::<Utc>::from_timestamp(secs, 0)`).
pub fn from_timestamp(secs: i64) -> (r: Option<DateTime>)
    ensures
        r is Some <==> is_utc_timestamp(secs as int),
        r matches Some(dt) ==> dt.spec_timestamp() == secs,
{
    if utc_from_timestamp_is_some(secs) {
        Some(DateTime { secs })
    } else {
        None
    }
}

/// Converts the expiry of credentials into a date-time.
///
/// `timestamp + expires_in` is read as a signed UNIX timestamp; it is an error when no UTC
/// date-time has that timestamp.
pub fn expiration_to_ts(timestamp: u64, expires_in: u64) -> (r: Result<DateTime, CoinError>)
    requires
        timestamp + expires_in <= u64::MAX,
    ensures
        r is Ok <==> is_utc_timestamp(expiry_secs(timestamp, expires_in)),
        r matches Ok(dt) ==> dt.spec_timestamp() == expiry_secs(timestamp, expires_in),
        r matches Err(e) ==> e == CoinError::InvalidTimestamp,
{
    let secs = wrapping_to_i64(timestamp + expires_in);
    match from_timestamp(secs) {
        Some(dt) => Ok(dt),
        None => Err(CoinError::InvalidTimestamp),
    }
}

/// Whether credentials issued at `timestamp`, valid for `expires_in` seconds, count as
/// expired at the instant `now`: their expiry lies less than the margin ahead of `now`.
pub fn is_expired_at(timestamp: u64, expires_in: u64, now: i64) -> (b: bool)
    requires
        timestamp + expires_in <= u64::MAX,
    ensures
        b == spec_is_expired_at(timestamp, expires_in, now),
{
    let expiry = wrapping_to_i64(timestamp + expires_in);
    (expiry as i128) < (now as i128) + (EXPIRATION_MARGIN as i128)
}

/// Whether credentials issued at `timestamp`, valid for `expires_in` seconds, count as
/// expired now, by the system clock; `None` when the clock shows no UTC date-time at or after
/// the UNIX epoch.
pub fn is_expired(timestamp: u64, expires_in: u64) -> (b: Option<bool>)
    requires
        timestamp + expires_in <= u64::MAX,
    ensures
        b matches Some(expired) ==> exists|now: i64|
            0 <= now <= max_utc_timestamp() && expired == #[trigger] spec_is_expired_at(
                timestamp,
                expires_in,
                now,
            ),
{
    match utc_now_timestamp() {
        Some(now) => {
            let expired = is_expired_at(timestamp, expires_in, now);
            assert(expired == spec_is_expired_at(timestamp, expires_in, now));
            Some(expired)
        },
        None => None,
    }
}

/// Expiry is permanent: credentials that count as expired at some instant still count as
/// expired at every later instant.
pub proof fn lemma_expired_stays_expired(timestamp: u64, expires_in: u64, now: i64, later: i64)
    requires
        now <= later,
        spec_is_expired_at(timestamp, expires_in, now),
    ensures
        spec_is_expired_at(timestamp, expires_in, later),
{
}

/// Credentials whose expiry is a valid date-time count as expired exactly when that
/// date-time, as returned by `expiration_to_ts`, lies less than the margin ahead of now.
pub proof fn lemma_expired_iff_expiration_within_margin(
    timestamp: u64,
    expires_in: u64,
    expiration: DateTime,
    now: i64,
)
    requires
        expiration.spec_timestamp() == expiry_secs(timestamp, expires_in),
    ensures
        spec_is_expired_at(timestamp, expires_in, now) <==> expiration.spec_timestamp() < now
            + EXPIRATION_MARGIN,
{
}

/// Credentials whose expiry is no valid date-time (it wraps to a negative timestamp or lies
/// past the last representable second) are never current: either their expiry lies in the
/// past of every reading of the clock, or `expiration_to_ts` refuses them.
pub proof fn lemma_wrapped_expiry_is_expired(timestamp: u64, expires_in: u64, now: i64)
    requires
        i64::MAX < timestamp + expires_in <= u64::MAX,
        0 <= now,
    ensures
        spec_is_expired_at(timestamp, expires_in, now),
{
}

} // verus!
