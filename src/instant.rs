use vstd::prelude::*;

verus! {

/// An absolute point in time: whole seconds since the Unix epoch (UTC) and a
/// sub-second count of nanoseconds.
#[derive(Clone, Copy, Debug, PartialEq, Eq, Structural)]
pub struct Instant {
    pub secs: i64,
    pub nanos: u32,
}

pub const NANOS_PER_MILLI: u32 = 1_000_000;

/// The millisecond count of an instant, rounded toward negative infinity.
pub open spec fn millis_of(i: Instant) -> int {
    i.secs * 1000 + (i.nanos as int) / (NANOS_PER_MILLI as int)
}

/// The instant that a millisecond count denotes, when its seconds fit an `i64`.
pub open spec fn instant_of_millis(ms: int) -> Option<Instant> {
    let secs = ms / 1000;
    if i64::MIN <= secs && secs <= i64::MAX {
        Some(Instant { secs: secs as i64, nanos: ((ms % 1000) * (NANOS_PER_MILLI as int)) as u32 })
    } else {
        None
    }
}

pub open spec fn epoch() -> Instant {
    Instant { secs: 0, nanos: 0 }
}

impl Instant {
    /// The Unix epoch, 1970-01-01 00:00:00 UTC.
    pub fn epoch() -> (r: Instant)
        ensures
            r == epoch(),
    {
        Instant { secs: 0, nanos: 0 }
    }

    /// Milliseconds since the epoch.
    pub fn timestamp_millis(&self) -> (r: i128)
        ensures
            r as int == millis_of(*self),
    {
        self.secs as i128 * 1000 + (self.nanos / NANOS_PER_MILLI) as i128
    }

    /// The instant `ms` milliseconds after the epoch; `None` when its seconds
    /// do not fit an `i64`.
    pub fn from_timestamp_millis(ms: i128) -> (r: Option<Instant>)
        ensures
            r == instant_of_millis(ms as int),
    {
        let q: i128;
        let m: i128;
        if ms >= 0 {
            q = ms / 1000;
            m = ms % 1000;
        } else {
            let n: i128 = -(ms + 1);
            q = -(n / 1000) - 1;
            m = 999 - n % 1000;
            assert(q * 1000 + m == ms as int && 0 <= m < 1000) by (nonlinear_arith)
                requires
                    n == -(ms + 1),
                    n >= 0,
                    q == -(n / 1000) - 1,
                    m == 999 - n % 1000,
            ;
        }
        proof {
            let ghost gq = ms as int / 1000;
            let ghost gm = ms as int % 1000;
            assert(q == gq && m == gm) by (nonlinear_arith)
                requires
                    q * 1000 + m == ms as int,
                    0 <= m < 1000,
                    gq == ms as int / 1000,
                    gm == ms as int % 1000,
            ;
        }
        if q < i64::MIN as i128 || q > i64::MAX as i128 {
            None
        } else {
            Some(Instant { secs: q as i64, nanos: (m as u32) * NANOS_PER_MILLI })
        }
    }
}

} // verus!
