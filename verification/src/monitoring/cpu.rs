use vstd::prelude::*;

verus! {

/// The 64-bit count that a Windows `FILETIME` holds as two 32-bit halves.
pub open spec fn filetime_value(high: u32, low: u32) -> nat {
    high as nat * 0x1_0000_0000 + low as nat
}

proof fn lemma_join_halves(high: u32, low: u32)
    by (bit_vector)
    ensures
        ((high as u64) << 32u64) | (low as u64) == (high as u64) * 0x1_0000_0000u64 + (low as u64),
{
}

/// Joins the two halves of a `FILETIME` (100-nanosecond ticks) into one count.
pub fn filetime_to_u64(high: u32, low: u32) -> (t: u64)
    ensures
        t == filetime_value(high, low),
{
    proof { lemma_join_halves(high, low); }
    ((high as u64) << 32) | (low as u64)
}

/// `x - y`, or zero when `y` is larger.
pub open spec fn sat_sub(x: u64, y: u64) -> u64 {
    if x >= y {
        (x - y) as u64
    } else {
        0
    }
}

/// How the CPU spent the ticks between two samples: idle ticks, and all kernel plus user ticks
/// (kernel time includes idle time, as `GetSystemTimes` reports it).
#[derive(Debug, Clone, Copy, PartialEq, Eq, Structural)]
pub struct CpuTimeDelta {
    pub idle: u64,
    pub system: u64,
}

/// Tracks the system time counters between polls, to turn them into a usage figure.
pub struct CpuMonitor {
    prev_idle: u64,
    prev_kernel: u64,
    prev_user: u64,
    has_prev_times: bool,
}

/// The idle and total ticks since the previous sample; there are none for the first sample or
/// when no time passed.
pub open spec fn cpu_delta(prev: Option<(u64, u64, u64)>, idle: u64, kernel: u64, user: u64) -> Option<CpuTimeDelta> {
    match prev {
        None => None,
        Some((pi, pk, pu)) => {
            let sys = sat_sub(kernel, pk) + sat_sub(user, pu);
            if sys > 0 {
                Some(CpuTimeDelta { idle: sat_sub(idle, pi), system: sys as u64 })
            } else {
                None
            }
        },
    }
}

/// The kernel and user ticks since the previous sample fit one `u64`.
pub open spec fn delta_fits(prev: Option<(u64, u64, u64)>, kernel: u64, user: u64) -> bool {
    match prev {
        None => true,
        Some((pi, pk, pu)) => sat_sub(kernel, pk) + sat_sub(user, pu) <= u64::MAX,
    }
}

impl CpuMonitor {
    /// The counters of the previous sample, if there was one.
    pub closed spec fn previous(&self) -> Option<(u64, u64, u64)> {
        if self.has_prev_times {
            Some((self.prev_idle, self.prev_kernel, self.prev_user))
        } else {
            None
        }
    }

    /// A monitor that has seen no sample yet.
    pub fn new() -> (m: Self)
        ensures
            m.previous() is None,
    {
        Self { prev_idle: 0, prev_kernel: 0, prev_user: 0, has_prev_times: false }
    }

    /// Whether the kernel and user ticks since the previous sample fit one `u64`, which
    /// `record_system_times` needs.
    pub fn delta_fits(&self, kernel: u64, user: u64) -> (b: bool)
        ensures
            b == delta_fits(self.previous(), kernel, user),
    {
        if !self.has_prev_times {
            return true;
        }
        let dk = if kernel >= self.prev_kernel { kernel - self.prev_kernel } else { 0 };
        let du = if user >= self.prev_user { user - self.prev_user } else { 0 };
        dk <= u64::MAX - du
    }

    /// Takes a sample of the system's idle, kernel and user tick counters: returns the ticks
    /// since the previous sample (see `cpu_delta`) and remembers this one.
    pub fn record_system_times(&mut self, idle: u64, kernel: u64, user: u64) -> (d: Option<CpuTimeDelta>)
        requires
            delta_fits(old(self).previous(), kernel, user),
        ensures
            d == cpu_delta(old(self).previous(), idle, kernel, user),
            final(self).previous() == Some((idle, kernel, user)),
    {
        let mut result: Option<CpuTimeDelta> = None;
        if self.has_prev_times {
            let d_idle = idle.saturating_sub(self.prev_idle);
            let d_kernel = kernel.saturating_sub(self.prev_kernel);
            let d_user = user.saturating_sub(self.prev_user);
            let d_sys = d_kernel + d_user;
            if d_sys > 0 {
                result = Some(CpuTimeDelta { idle: d_idle, system: d_sys });
            }
        }
        self.prev_idle = idle;
        self.prev_kernel = kernel;
        self.prev_user = user;
        self.has_prev_times = true;
        result
    }
}

/// The pseudo-random bucket 0..99 that the simulated readings for second `sec` are jittered by.
pub fn jitter_bucket(sec: u64, multiplier: u64) -> (b: u64)
    ensures
        b == (sec as nat * multiplier as nat) % 0x1_0000_0000_0000_0000 % 100,
        b < 100,
{
    let p = sec.wrapping_mul(multiplier);
    assert(p == (sec as nat * multiplier as nat) % 0x1_0000_0000_0000_0000) by {
        vstd::arithmetic::mul::lemma_mul_nonnegative(sec as int, multiplier as int);
    }
    p % 100
}

/// What a CPU time delta measures, over the counters of two samples: the idle ticks are the
/// rise of the idle counter alone (zero when it went back), the system ticks the rise of the
/// kernel counter plus the rise of the user counter; a delta exists exactly when the system
/// ticks rose (the rises fitting one `u64`, as `record_system_times` requires). So changing only the user counter of the later sample changes the system ticks
/// and never the idle ticks. Without a previous sample there is no delta.
pub proof fn lemma_cpu_delta_measures(pi: u64, pk: u64, pu: u64, idle: u64, kernel: u64, user: u64, user2: u64)
    requires
        delta_fits(Some((pi, pk, pu)), kernel, user),
    ensures
        cpu_delta(None, idle, kernel, user) is None,
        ({
            let dk: int = if kernel >= pk { kernel - pk } else { 0 };
            let du: int = if user >= pu { user - pu } else { 0 };
            match cpu_delta(Some((pi, pk, pu)), idle, kernel, user) {
                Some(d) => d.idle == (if idle >= pi { idle - pi } else { 0 }) && d.system == dk + du
                    && dk + du > 0,
                None => dk + du == 0,
            }
        }),
        cpu_delta(Some((pi, pk, pu)), idle, kernel, user) is Some && cpu_delta(Some((pi, pk, pu)), idle, kernel, user2)
            is Some ==> cpu_delta(Some((pi, pk, pu)), idle, kernel, user)->0.idle == cpu_delta(
            Some((pi, pk, pu)),
            idle,
            kernel,
            user2,
        )->0.idle,
{
}

} // verus!
