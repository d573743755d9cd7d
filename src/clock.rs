use vstd::prelude::*;

verus! {

/// Relies on `chrono::DateTime<Utc>: From<SystemTime>` and
/// `DateTime::timestamp_millis`: the current time in milliseconds since the
/// Unix epoch, negative when the system clock lies before it.  The
/// conversion panics only for a clock outside chrono's range of dates (about
/// 262,000 years either side of the epoch).
#[verifier::external_body]
fn now_millis() -> (r: i64) {
    chrono::DateTime::<chrono::Utc>::from(std::time::SystemTime::now()).timestamp_millis()
}

/// The whole seconds from `start_ms` to `now_ms`, or zero when the clock
/// went backwards.
pub open spec fn whole_seconds(start_ms: int, now_ms: int) -> int {
    if now_ms <= start_ms {
        0
    } else {
        (now_ms - start_ms) / 1000
    }
}

/// The whole seconds from `start_ms` to `now_ms`, zero when `now_ms` is not
/// later.
pub fn seconds_between(start_ms: i64, now_ms: i64) -> (r: u64)
    ensures
        r as int == whole_seconds(start_ms as int, now_ms as int),
{
    if now_ms <= start_ms {
        0
    } else {
        let d: i128 = now_ms as i128 - start_ms as i128;
        (d / 1000) as u64
    }
}

/// Measures the wall-clock time since it was started.
#[derive(Clone, Copy, Debug)]
pub struct Stopwatch {
    pub start_ms: i64,
}

impl Stopwatch {
    /// A stopwatch started now.
    pub fn start() -> (r: Stopwatch) {
        Stopwatch { start_ms: now_millis() }
    }

    /// The whole seconds elapsed since the stopwatch started, read from the
    /// clock now.
    pub fn elapsed_secs(&self) -> (r: u64)
        ensures
            exists|now: i64| r as int == whole_seconds(self.start_ms as int, now as int),
    {
        let now = now_millis();
        seconds_between(self.start_ms, now)
    }
}

} // verus!
