//! The wall clock.
use vstd::prelude::*;

verus! {

/// Reads `std::time::SystemTime::now` as whole seconds since the Unix epoch;
/// `None` if the clock stands before it. Nothing is claimed of what it says.
#[verifier::external_body]
fn unix_seconds() -> (r: Option<u64>)
{
    std::time::SystemTime::now().duration_since(std::time::UNIX_EPOCH).ok().map(|d| d.as_secs())
}

/// The seconds of a reading of the clock: what was read, in the 64 bits of an
/// `i64`, or 0 where there is nothing to read.
pub open spec fn seconds_in(reading: Option<u64>) -> int {
    match reading {
        Some(seconds) => if seconds <= i64::MAX {
            seconds as int
        } else {
            seconds - 0x1_0000_0000_0000_0000
        },
        None => 0,
    }
}

/// The seconds of a reading of the clock.
pub fn seconds_of(reading: Option<u64>) -> (now: i64)
    ensures
        now == seconds_in(reading),
{
    match reading {
        Some(seconds) => {
            assert(seconds <= 0x7fff_ffff_ffff_ffff ==> seconds as i64 == seconds) by (bit_vector);
            assert(seconds > 0x7fff_ffff_ffff_ffff ==> seconds as i64 == seconds
                - 0x1_0000_0000_0000_0000) by (bit_vector);
            seconds as i64
        },
        None => 0,
    }
}

/// `now` is what the clock was read to say.
pub closed spec fn was_read(now: i64) -> bool {
    exists|reading: Option<u64>| #[trigger]
        call_ensures(unix_seconds, (), reading) && now == seconds_in(reading)
}

/// Seconds since the Unix epoch; 0 if the clock stands before it. What the
/// clock says is left open.
pub fn now_secs() -> (now: i64)
    ensures
        was_read(now),
        exists|reading: Option<u64>| now == #[trigger] seconds_in(reading),
{
    let reading = unix_seconds();
    seconds_of(reading)
}

/// The seconds of a reading are what was read, as long as 63 bits can hold it,
/// and 0 where nothing was read.
pub proof fn law_seconds_are_what_was_read(seconds: u64)
    ensures
        seconds < 0x8000_0000_0000_0000 ==> seconds_in(Some(seconds)) == seconds,
        seconds >= 0x8000_0000_0000_0000 ==> seconds_in(Some(seconds)) + 0x1_0000_0000_0000_0000
            == seconds,
        seconds_in(None) == 0,
{
}

/// What the clock was read to say came from the clock, and whatever comes from it
/// can be read.
proof fn law_readings_come_from_the_clock(now: i64, reading: Option<u64>)
    ensures
        was_read(now) <==> exists|r: Option<u64>| #[trigger]
            call_ensures(unix_seconds, (), r) && now == seconds_in(r),
        call_ensures(unix_seconds, (), reading) && now == seconds_in(reading) ==> was_read(now),
{
}

/// Asking for the time reads the clock.
proof fn law_now_is_read_from_the_clock(now: i64)
    requires
        call_ensures(now_secs, (), now),
    ensures
        exists|r: Option<u64>| #[trigger]
            call_ensures(unix_seconds, (), r) && (match r {
                Some(seconds) => seconds < 0x8000_0000_0000_0000 ==> now == seconds,
                None => now == 0,
            }),
{
    let r = choose|r: Option<u64>| #[trigger]
        call_ensures(unix_seconds, (), r) && now == seconds_in(r);
    assert(call_ensures(unix_seconds, (), r));
}

} // verus!
