//! Points in time as the library reads them from chrono, and the arithmetic
//! that chrono performs when a lifetime is added to the current time.

use vstd::prelude::*;

verus! {

/// The last second that a chrono `DateTime` can hold (262142-12-31T23:59:59 UTC).
pub const DATETIME_MAX_TIMESTAMP: i64 = 8210266876799i64;

/// The first second that a chrono `DateTime` can hold (262144 BCE, January 1st, UTC).
pub const DATETIME_MIN_TIMESTAMP: i64 = -8334601315200i64;

/// The whole seconds of chrono's largest `TimeDelta` (`i64::MAX` milliseconds).
pub const TIMEDELTA_MAX_SECS: u64 = 9223372036854775u64;

/// The sub-second part of chrono's largest `TimeDelta`, in nanoseconds.
pub const TIMEDELTA_MAX_NANOS: u32 = 807000000u32;

pub const NANOS_PER_SEC: u32 = 1000000000u32;

/// An instant: whole seconds since the Unix epoch and the nanoseconds past them.
#[derive(Clone, Copy, Debug, PartialEq, Eq)]
pub struct UnixTime {
    pub secs: i64,
    pub nanos: u32,
}

/// A non-negative span of time, as std's `Duration` holds it: whole seconds
/// and the nanoseconds past them.
#[derive(Clone, Copy, Debug, PartialEq, Eq)]
pub struct Lifetime {
    pub secs: u64,
    pub nanos: u32,
}

impl UnixTime {
    /// The nanoseconds are below one second and the instant is one chrono can hold.
    pub open spec fn wf(self) -> bool {
        &&& self.nanos < NANOS_PER_SEC
        &&& DATETIME_MIN_TIMESTAMP <= self.secs <= DATETIME_MAX_TIMESTAMP
    }
}

impl Lifetime {
    /// The nanoseconds are below one second, as in every std `Duration`.
    pub open spec fn wf(self) -> bool {
        self.nanos < NANOS_PER_SEC
    }
}

/// chrono's `Local::now()`, read as seconds and nanoseconds since the epoch.
/// The instant depends on the system clock; what is stated is only what holds
/// of every instant chrono returns: chrono builds it from std's
/// `SystemTime::now()` with a sub-second part below one second, and
/// `DateTime::from_timestamp(..).unwrap()` keeps it within chrono's range.
/// chrono panics when the clock is set before 1970.
#[verifier::external_body]
pub(crate) fn local_now() -> (t: UnixTime)
    ensures
        t.wf(),
{
    let now = chrono::Local::now();
    UnixTime { secs: now.timestamp(), nanos: now.timestamp_subsec_nanos() }
}

/// chrono's `TimeDelta::from_std` accepts the lifetime: it is at most
/// `i64::MAX` milliseconds.
pub open spec fn lifetime_in_range(d: Lifetime) -> bool {
    d.secs < TIMEDELTA_MAX_SECS || (d.secs == TIMEDELTA_MAX_SECS && d.nanos <= TIMEDELTA_MAX_NANOS)
}

/// The Unix timestamp (whole seconds) of `now + d`.
pub open spec fn expiry_spec(now: UnixTime, d: Lifetime) -> int {
    now.secs + d.secs + if now.nanos + d.nanos >= NANOS_PER_SEC {
        1int
    } else {
        0int
    }
}

/// Why a lifetime could not be turned into an expiry time.
#[derive(Clone, Copy, Debug, PartialEq, Eq)]
pub enum ExpiryError {
    /// chrono cannot hold the lifetime as a `TimeDelta`.
    LifetimeOutOfRange,
    /// The expiry lies beyond what a chrono `DateTime` can hold.
    ExpiryOutOfRange,
}

/// Whether `TimeDelta::from_std` accepts `d`.
pub fn lifetime_fits(d: Lifetime) -> (res: bool)
    ensures
        res == lifetime_in_range(d),
{
    d.secs < TIMEDELTA_MAX_SECS || (d.secs == TIMEDELTA_MAX_SECS && d.nanos <= TIMEDELTA_MAX_NANOS)
}

/// The Unix timestamp of `now + d`, as `(now + TimeDelta::from_std(d)?).timestamp()`
/// computes it: the lifetime is refused when chrono cannot hold it; otherwise
/// the sum is floored to whole seconds. Where the sum lies beyond what chrono
/// can hold (chrono panics there) the answer is `ExpiryOutOfRange`.
pub fn expiry_at(now: UnixTime, d: Lifetime) -> (res: Result<i64, ExpiryError>)
    requires
        now.wf(),
        d.wf(),
    ensures
        !lifetime_in_range(d) ==> res == Err::<i64, ExpiryError>(ExpiryError::LifetimeOutOfRange),
        lifetime_in_range(d) && expiry_spec(now, d) <= DATETIME_MAX_TIMESTAMP ==> res == Ok::<
            i64,
            ExpiryError,
        >(expiry_spec(now, d) as i64),
        lifetime_in_range(d) && expiry_spec(now, d) > DATETIME_MAX_TIMESTAMP ==> res == Err::<
            i64,
            ExpiryError,
        >(ExpiryError::ExpiryOutOfRange),
{
    if !lifetime_fits(d) {
        return Err(ExpiryError::LifetimeOutOfRange);
    }
    if !expiry_representable(now, d) {
        return Err(ExpiryError::ExpiryOutOfRange);
    }
    let carry: i64 = if now.nanos + d.nanos >= NANOS_PER_SEC {
        1
    } else {
        0
    };
    Ok(now.secs + d.secs as i64 + carry)
}

/// Whether `now + d` stays within what chrono can hold (`DateTime + TimeDelta`
/// panics otherwise).
pub fn expiry_representable(now: UnixTime, d: Lifetime) -> (res: bool)
    requires
        now.wf(),
        d.wf(),
    ensures
        res == (expiry_spec(now, d) <= DATETIME_MAX_TIMESTAMP),
{
    if d.secs > (DATETIME_MAX_TIMESTAMP - now.secs) as u64 {
        return false;
    }
    let carry: i64 = if now.nanos + d.nanos >= NANOS_PER_SEC {
        1
    } else {
        0
    };
    now.secs + d.secs as i64 + carry <= DATETIME_MAX_TIMESTAMP
}

/// The current Unix time, in whole seconds.
pub fn current_timestamp() -> (res: i64)
    ensures
        DATETIME_MIN_TIMESTAMP <= res <= DATETIME_MAX_TIMESTAMP,
{
    local_now().secs
}

/// The expiry of an OAuth2 login attempt: three minutes after `now`.
pub fn oauth_state_expiry_at(now: i64) -> (res: i64)
    requires
        now <= i64::MAX - 180,
    ensures
        res == now + 180,
{
    now + 60 * 3
}

/// The expiry of an OAuth2 login attempt started now: three minutes after the
/// current Unix time.
pub fn oauth_state_expiry() -> (res: i64)
    ensures
        DATETIME_MIN_TIMESTAMP + 180 <= res <= DATETIME_MAX_TIMESTAMP + 180,
{
    let now = local_now();
    oauth_state_expiry_at(now.secs)
}

} // verus!
