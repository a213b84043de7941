use vstd::prelude::*;
use crate::nzxt::lcd::{elapsed_since, rotation_tick, InfographicRotationManager, InfographicType, RotationView};

verus! {

/// What the LCD worker remembers between passes: the rotation, and what it last rendered and
/// with which sensor sample.
pub struct SchedulerView {
    pub rotation: RotationView,
    pub last_sensor_render_time: Option<u64>,
    pub last_rendered_infographic: InfographicType,
    pub last_rendered_sensor_count: u64,
    pub sensor_refresh_interval: u64,
}

/// One pass of the LCD worker at time `now`. `requested` is the infographic the UI asks for and
/// `sensor_count` the number of the latest sensor sample, both `None` when the shared state
/// could not be read (the worker then keeps its own). A differing request is shown at once
/// and restarts the rotation timer; then the rotation timer is checked. A frame is due when
/// the infographic rotated or changed, a new sensor sample arrived, or the sensor refresh
/// interval has passed since the last sensor render; the result names the infographic to
/// render, if one is due.
pub open spec fn schedule_step(
    s: SchedulerView,
    now: u64,
    requested: Option<InfographicType>,
    sensor_count: Option<u64>,
) -> (SchedulerView, Option<InfographicType>) {
    let wanted = match requested {
        Some(t) => t,
        None => s.rotation.current,
    };
    let count = match sensor_count {
        Some(c) => c,
        None => s.last_rendered_sensor_count,
    };
    let synced = if wanted != s.rotation.current {
        RotationView { current: wanted, last_rotation: now, rotation_duration: s.rotation.rotation_duration }
    } else {
        s.rotation
    };
    let (ticked, rotated) = rotation_tick(synced, now);
    let active = ticked.current;
    let new_sensor_data = count != s.last_rendered_sensor_count;
    let refresh_due = match s.last_sensor_render_time {
        None => true,
        Some(t) => elapsed_since(t, now) >= s.sensor_refresh_interval,
    };
    let changed = active != s.last_rendered_infographic;
    if rotated || changed || refresh_due || new_sensor_data {
        (
            SchedulerView {
                rotation: ticked,
                last_sensor_render_time: if new_sensor_data || refresh_due {
                    Some(now)
                } else {
                    s.last_sensor_render_time
                },
                last_rendered_infographic: active,
                last_rendered_sensor_count: if new_sensor_data || refresh_due {
                    count
                } else {
                    s.last_rendered_sensor_count
                },
                sensor_refresh_interval: s.sensor_refresh_interval,
            },
            Some(active),
        )
    } else {
        (SchedulerView { rotation: ticked, ..s }, None)
    }
}

/// Decides when the LCD worker renders a frame and which infographic it shows.
pub struct LcdScheduler {
    rotation: InfographicRotationManager,
    last_sensor_render_time: Option<u64>,
    last_rendered_infographic: InfographicType,
    last_rendered_sensor_count: u64,
    sensor_refresh_interval: u64,
}

impl View for LcdScheduler {
    type V = SchedulerView;

    closed spec fn view(&self) -> SchedulerView {
        SchedulerView {
            rotation: self.rotation@,
            last_sensor_render_time: self.last_sensor_render_time,
            last_rendered_infographic: self.last_rendered_infographic,
            last_rendered_sensor_count: self.last_rendered_sensor_count,
            sensor_refresh_interval: self.sensor_refresh_interval,
        }
    }
}

impl LcdScheduler {
    /// A scheduler started at `now`: the load infographic with the default five-second rotation,
    /// sensors refreshed every second, and a first frame due at once.
    pub fn new(now: u64) -> (s: Self)
        ensures
            s@ == (SchedulerView {
                rotation: RotationView { current: InfographicType::CpuGpuLoad, last_rotation: now, rotation_duration: 5000 },
                last_sensor_render_time: None,
                last_rendered_infographic: InfographicType::CpuGpuLoad,
                last_rendered_sensor_count: 0,
                sensor_refresh_interval: 1000,
            }),
    {
        Self {
            rotation: InfographicRotationManager::new(InfographicType::CpuGpuLoad, now),
            last_sensor_render_time: None,
            last_rendered_infographic: InfographicType::CpuGpuLoad,
            last_rendered_sensor_count: 0,
            sensor_refresh_interval: 1000,
        }
    }

    /// The infographic the rotation currently shows.
    pub fn current(&self) -> (c: InfographicType)
        ensures
            c == self@.rotation.current,
    {
        self.rotation.current()
    }

    /// One pass of the worker; see `schedule_step`.
    pub fn step(&mut self, now: u64, requested: Option<InfographicType>, sensor_count: Option<u64>) -> (r: Option<
        InfographicType,
    >)
        ensures
            (final(self)@, r) == schedule_step(old(self)@, now, requested, sensor_count),
    {
        let wanted = match requested {
            Some(t) => t,
            None => self.rotation.current(),
        };
        let count = match sensor_count {
            Some(c) => c,
            None => self.last_rendered_sensor_count,
        };
        if wanted != self.rotation.current() {
            self.rotation.set_current(wanted, now);
        }
        let rotated = self.rotation.tick(now);
        let active = self.rotation.current();
        let new_sensor_data = count != self.last_rendered_sensor_count;
        let refresh_due = match self.last_sensor_render_time {
            None => true,
            Some(t) => {
                let e = if now >= t { now - t } else { 0 };
                e >= self.sensor_refresh_interval
            },
        };
        let changed = active != self.last_rendered_infographic;
        if rotated || changed || refresh_due || new_sensor_data {
            if new_sensor_data || refresh_due {
                self.last_rendered_sensor_count = count;
                self.last_sensor_render_time = Some(now);
            }
            self.last_rendered_infographic = active;
            Some(active)
        } else {
            None
        }
    }
}

/// A pass renders whatever the rotation then shows, and afterwards the worker remembers it as
/// the last infographic rendered.
pub proof fn lemma_renders_current_infographic(
    s: SchedulerView,
    now: u64,
    requested: Option<InfographicType>,
    sensor_count: Option<u64>,
)
    ensures
        ({
            let (s2, r) = schedule_step(s, now, requested, sensor_count);
            &&& r matches Some(t) ==> t == s2.rotation.current && s2.last_rendered_infographic == t
            &&& s2.sensor_refresh_interval == s.sensor_refresh_interval
            &&& s2.rotation.rotation_duration == s.rotation.rotation_duration
        }),
{
}

/// A request for another infographic is honoured in the same pass: it is rendered at once.
pub proof fn lemma_request_is_rendered_at_once(s: SchedulerView, now: u64, t: InfographicType, sensor_count: Option<
    u64,
>)
    requires
        t != s.rotation.current,
        s.rotation.rotation_duration > 0,
        s.last_rendered_infographic == s.rotation.current,
    ensures
        schedule_step(s, now, Some(t), sensor_count).1 == Some(t),
{
}

/// What is on the LCD is what the rotation shows: when that holds before a pass (as it does
/// for a new scheduler), it holds after it.
pub proof fn lemma_screen_follows_rotation(
    s: SchedulerView,
    now: u64,
    requested: Option<InfographicType>,
    sensor_count: Option<u64>,
)
    requires
        s.last_rendered_infographic == s.rotation.current,
    ensures
        ({
            let s2 = schedule_step(s, now, requested, sensor_count).0;
            s2.last_rendered_infographic == s2.rotation.current
        }),
{
}

/// Sensor readings are never left on screen longer than the refresh interval: a pass that
/// comes a full interval after the last sensor render always renders.
pub proof fn lemma_refresh_is_never_skipped(
    s: SchedulerView,
    now: u64,
    requested: Option<InfographicType>,
    sensor_count: Option<u64>,
)
    requires
        s.last_sensor_render_time matches Some(t) && elapsed_since(t, now) >= s.sensor_refresh_interval,
    ensures
        schedule_step(s, now, requested, sensor_count).1 is Some,
        schedule_step(s, now, requested, sensor_count).0.last_sensor_render_time == Some(now),
{
}

} // verus!
