use vstd::prelude::*;

verus! {

/// Smallest `seconds` value the backend timestamp accepts
/// (0001-01-01T00:00:00Z).
pub const TIMESTAMP_SECONDS_MIN: i64 = -62_135_596_800;

/// Largest `seconds` value the backend timestamp accepts
/// (9999-12-31T23:59:59Z).
pub const TIMESTAMP_SECONDS_MAX: i64 = 253_402_300_799;

/// A point in time as the backend encodes it: whole seconds since the Unix
/// epoch and a non-negative nanosecond remainder.
#[derive(Clone, Copy, PartialEq, Eq, Structural, Debug)]
pub struct Timestamp {
    pub seconds: i64,
    pub nanos: i32,
}

impl Timestamp {
    /// The backend's validity range: seconds within the representable years,
    /// nanoseconds a proper remainder.
    pub open spec fn wf(self) -> bool {
        &&& TIMESTAMP_SECONDS_MIN <= self.seconds <= TIMESTAMP_SECONDS_MAX
        &&& 0 <= self.nanos < 1_000_000_000
    }
}

/// The split a nanosecond-since-epoch value converts to: whole seconds and
/// the nanosecond remainder.
pub open spec fn spec_timestamp_of(unix_time: u64) -> Timestamp {
    Timestamp {
        seconds: (unix_time / 1_000_000_000) as i64,
        nanos: (unix_time % 1_000_000_000) as i32,
    }
}

/// Splits a nanosecond-since-epoch value into whole seconds and the
/// nanosecond remainder. Every `u64` input lands inside the backend's
/// validity range, so no clamping is ever needed: the split is exact and
/// `seconds * 1_000_000_000 + nanos` recovers the input.
pub fn convert_unix_ns(unix_time: u64) -> (r: Timestamp)
    ensures
        r == spec_timestamp_of(unix_time),
        r.seconds == unix_time as int / 1_000_000_000,
        r.nanos == unix_time as int % 1_000_000_000,
        r.seconds * 1_000_000_000 + r.nanos == unix_time,
        r.wf(),
{
    let seconds: u64 = unix_time / 1_000_000_000;
    let nanos: u64 = unix_time % 1_000_000_000;
    proof {
        vstd::arithmetic::div_mod::lemma_fundamental_div_mod(
            unix_time as int,
            1_000_000_000,
        );
        assert(seconds <= u64::MAX as int / 1_000_000_000) by {
            vstd::arithmetic::div_mod::lemma_div_is_ordered(
                unix_time as int,
                u64::MAX as int,
                1_000_000_000,
            );
        }
    }
    Timestamp { seconds: seconds as i64, nanos: nanos as i32 }
}

} // verus!
