//! Wall-clock timestamps with millisecond resolution, and their canonical
//! fractional-seconds text form.

use vstd::prelude::*;
use crate::text::dec_bytes;

verus! {

/// A moment of the system clock, opaque to the logic; only its interval to
/// the epoch is ever read.
#[verifier::external_type_specification]
#[verifier::external_body]
pub struct ExSystemTime(std::time::SystemTime);

/// The error a clock comparison returns when the clock stands before the
/// reference point.
#[verifier::external_type_specification]
#[verifier::external_body]
pub struct ExSystemTimeError(std::time::SystemTimeError);

/// Relies on `std::time::SystemTime::now`: the wall clock at the moment of
/// the call. The value depends on when the call runs, so nothing is assumed
/// about it.
pub assume_specification[ std::time::SystemTime::now ]() -> (t: std::time::SystemTime);

/// Relies on `SystemTime::duration_since`: the interval from `earlier` to
/// `t`, or an error when the clock stands before `earlier`.
pub assume_specification[ std::time::SystemTime::duration_since ](
    t: &std::time::SystemTime,
    earlier: std::time::SystemTime,
) -> (r: Result<core::time::Duration, std::time::SystemTimeError>);

/// Relies on `Duration::as_millis`: the interval in whole milliseconds.
pub assume_specification[ core::time::Duration::as_millis ](d: &core::time::Duration) -> (ms:
    u128);

/// Relies on `std::time::UNIX_EPOCH`: the clock's zero point.
#[verifier::external_body]
fn unix_epoch() -> std::time::SystemTime {
    std::time::UNIX_EPOCH
}

/// Whole milliseconds of the wall clock since the Unix epoch: zero when the
/// clock stands before the epoch, saturating far beyond any representable
/// date.
pub(crate) fn unix_millis() -> u64 {
    let now = std::time::SystemTime::now();
    match now.duration_since(unix_epoch()) {
        Ok(d) => {
            let ms = d.as_millis();
            if ms > u64::MAX as u128 {
                u64::MAX
            } else {
                ms as u64
            }
        },
        Err(_) => 0,
    }
}

/// Whole seconds of the wall clock since the Unix epoch.
pub fn unix_seconds() -> u64 {
    unix_millis() / 1000
}

/// A point in time: whole milliseconds since the Unix epoch.
#[derive(Debug, Clone, Copy, PartialEq, Eq, Structural)]
pub struct Seconds {
    /// Whole milliseconds since the Unix epoch.
    pub millis: u64,
}

/// The canonical text of a timestamp: whole seconds, a dot, and exactly three
/// fractional digits.
pub open spec fn seconds_bytes(ms: u64) -> Seq<u8> {
    dec_bytes((ms / 1000) as nat) + seq![
        46u8,
        (48 + (ms % 1000) / 100) as u8,
        (48 + (ms % 1000) / 10 % 10) as u8,
        (48 + ms % 10) as u8,
    ]
}

impl Seconds {
    /// The wall clock now.
    pub fn now() -> Seconds {
        Seconds { millis: unix_millis() }
    }

    /// The timestamp `ms` milliseconds after the Unix epoch.
    pub fn from_millis(ms: u64) -> (s: Seconds)
        ensures
            s.millis == ms,
    {
        Seconds { millis: ms }
    }

    /// Milliseconds since the Unix epoch.
    pub fn millis(&self) -> (ms: u64)
        ensures
            ms == self.millis,
    {
        self.millis
    }

    /// The timestamp truncated to whole seconds.
    pub fn trunc(&self) -> (secs: u64)
        ensures
            secs == self.millis / 1000,
    {
        self.millis / 1000
    }

}

/// Appends the canonical fractional-seconds text of `s`.
pub fn append_seconds(buf: &mut Vec<u8>, s: &Seconds)
    ensures
        final(buf)@ == old(buf)@ + seconds_bytes(s.millis),
{
    let ms = s.millis();
    crate::text::push_dec(buf, ms / 1000);
    buf.push(46);
    buf.push(48 + ((ms % 1000) / 100) as u8);
    buf.push(48 + ((ms % 1000) / 10 % 10) as u8);
    buf.push(48 + (ms % 10) as u8);
    assert(old(buf)@ + seconds_bytes(s.millis) =~= (old(buf)@ + dec_bytes(
        (ms / 1000) as nat,
    )).push(46u8).push((48 + (ms % 1000) / 100) as u8).push((48 + (ms % 1000) / 10 % 10) as u8).push(
        (48 + ms % 10) as u8,
    ));
}

} // verus!
