use vstd::prelude::*;

verus! {

/// The memory monitor; its readings are a function of the time since it started.
pub struct MemoryMonitor {
    start_time: u64,
}

impl MemoryMonitor {
    pub closed spec fn started_at(&self) -> u64 {
        self.start_time
    }

    /// A monitor started at `now` (milliseconds on a monotonic clock).
    pub fn new(now: u64) -> (m: Self)
        ensures
            m.started_at() == now,
    {
        Self { start_time: now }
    }

    /// Milliseconds since the monitor started, or zero for an earlier `now`.
    pub fn elapsed(&self, now: u64) -> (e: u64)
        ensures
            e == if now >= self.started_at() { (now - self.started_at()) as u64 } else { 0 },
    {
        if now >= self.start_time {
            now - self.start_time
        } else {
            0
        }
    }
}

} // verus!
