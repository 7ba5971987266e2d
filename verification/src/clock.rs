//! The system clock, and the two ways of counting seconds: from 1970 as
//! Unix does, and from 1900 in the upper half of a 64-bit timestamp.

use std::time::{Duration, SystemTimeError};
use vstd::prelude::*;

verus! {

/// Seconds from 1900-01-01 to 1970-01-01.
pub const NTP_UNIX_OFFSET: u64 = 2_208_988_800;

/// `std::time::SystemTimeError`, told apart from a reading and not looked into.
#[verifier::external_type_specification]
#[verifier::external_body]
pub struct ExSystemTimeError(SystemTimeError);

/// `std::time::SystemTime::elapsed`, on `std::time::UNIX_EPOCH`: how far
/// the system clock stands after the start of 1970, or an error where it
/// stands before. Nothing is claimed of the reading.
#[verifier::external_body]
fn since_unix_epoch() -> (reading: Result<Duration, SystemTimeError>) {
    std::time::UNIX_EPOCH.elapsed()
}

/// `std::time::Duration::as_secs`: the whole seconds in `d`. Nothing is
/// claimed of their number.
pub assume_specification[ Duration::as_secs ](d: &Duration) -> (secs: u64);

/// The duration that `std::time::Duration::from_secs` makes of `secs`
/// whole seconds.
pub uninterp spec fn duration_of_secs(secs: u64) -> Duration;

/// `std::time::Duration::from_secs`: the duration of `secs` whole seconds,
/// the same for the same `secs`.
pub assume_specification[ Duration::from_secs ](secs: u64) -> (d: Duration)
    ensures
        d == duration_of_secs(secs),
;

/// The timestamp for the Unix second `secs`: seconds since 1900 in the
/// upper 32 bits, a fraction of zero in the lower 32. The seconds are
/// counted within the 32 bits that the timestamp has for them.
pub open spec fn ntp_from_unix(secs: nat) -> nat {
    ((secs + 2_208_988_800) % 0x1_0000_0000) * 0x1_0000_0000
}

/// Whether `ntp` is what some reading of the clock gives: the timestamp
/// of a whole second.
pub open spec fn is_clock_timestamp(ntp: nat) -> bool {
    exists|secs: u64| ntp == ntp_from_unix(secs as nat)
}

/// The Unix second in which the timestamp `ntp` falls. It is negative for
/// a timestamp before 1970.
pub open spec fn unix_from_ntp(ntp: nat) -> int {
    ntp / 0x1_0000_0000 - 2_208_988_800
}

/// Whether the timestamp `ntp` falls in 1970 or later, so that it has a
/// Unix second.
pub open spec fn has_unix_time(ntp: nat) -> bool {
    ntp / 0x1_0000_0000 >= 2_208_988_800
}

/// Converts a count of Unix seconds to a timestamp.
pub fn unix_to_ntp(unix_secs: u64) -> (ntp: u64)
    ensures
        ntp == ntp_from_unix(unix_secs as nat),
{
    let since_1900: u64 = unix_secs.wrapping_add(NTP_UNIX_OFFSET);
    let ntp: u64 = since_1900 << 32;
    assert(ntp == (since_1900 % 0x1_0000_0000) * 0x1_0000_0000) by (bit_vector)
        requires
            ntp == since_1900 << 32,
    ;
    ntp
}

/// The timestamp of the present second by the system clock. A clock that
/// stands before 1970 reads as the start of 1970.
pub fn current_ntp_time() -> (ntp: u64)
    ensures
        is_clock_timestamp(ntp as nat),
{
    let unix_time: u64 = match since_unix_epoch() {
        Ok(elapsed) => elapsed.as_secs(),
        Err(_) => 0,
    };
    unix_to_ntp(unix_time)
}

/// Converts a timestamp of 1970 or later to its count of Unix seconds.
/// The fraction of the second is dropped.
pub fn ntp_to_unix(ntp_time: u64) -> (unix_secs: u64)
    requires
        has_unix_time(ntp_time as nat),
    ensures
        unix_secs == unix_from_ntp(ntp_time as nat),
{
    let secs: u64 = ntp_time >> 32;
    assert(secs == ntp_time / 0x1_0000_0000) by (bit_vector)
        requires
            secs == ntp_time >> 32,
    ;
    secs - NTP_UNIX_OFFSET
}

/// Whether `ntp_time` has a Unix second.
pub fn is_unix_time(ntp_time: u64) -> (yes: bool)
    ensures
        yes == has_unix_time(ntp_time as nat),
{
    let secs: u64 = ntp_time >> 32;
    assert(secs == ntp_time / 0x1_0000_0000) by (bit_vector)
        requires
            secs == ntp_time >> 32,
    ;
    secs >= NTP_UNIX_OFFSET
}

/// A Unix second that the timestamp's 32 bits of seconds can hold comes
/// back from its timestamp unchanged.
pub proof fn law_unix_of_ntp(secs: nat)
    requires
        secs + 2_208_988_800 < 0x1_0000_0000,
    ensures
        has_unix_time(ntp_from_unix(secs)),
        unix_from_ntp(ntp_from_unix(secs)) == secs,
{
}

} // verus!
