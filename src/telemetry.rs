use vstd::prelude::*;

verus! {

/// Minimum time between two sampling attempts, in milliseconds: the
/// simulation's physics update interval.
pub const SAMPLE_INTERVAL_MS: u64 = 16;

/// Telemetry field holding the car's speed, in metres per second.
pub const SPEED_FIELD: &'static str = "Speed";

/// Telemetry field holding the last lap time, in seconds.
pub const LAST_LAP_TIME_FIELD: &'static str = "LapLastLapTime";

/// The latest successfully sampled value of each tracked field.
#[derive(Clone, Copy, Debug)]
pub struct IRacingTelemetry<V> {
    pub speed: V,
    pub lastlaptime: V,
}

/// Why one field could not be read on a sampling attempt.
#[derive(Clone, Copy, Debug, PartialEq, Eq, Structural)]
pub enum SampleError {
    /// The field is absent from this update cycle.
    NotPresent,
    /// No update cycle arrived within the timeout.
    Timeout,
    /// The connection to the telemetry source is gone.
    ConnectionLost,
}

/// What the host must do after a tick.
#[derive(Clone, Copy, Debug, PartialEq, Eq, Structural)]
pub enum TickAction {
    /// Nothing: too soon since the last attempt.
    Idle,
    /// Try to connect, then report the outcome to `record_connect`.
    Connect,
    /// Sample both fields, then report them to `record_sample`.
    Sample,
}

/// Samples a live, intermittent telemetry source at a fixed cadence and keeps
/// the last known value of each field. The source itself is driven by the
/// host, which performs the action each tick returns and reports the outcome.
///
/// Values are of any type `V`; the sampler only stores them.
pub struct IRacingLogging<V> {
    connected: bool,
    last_attempt_ms: Option<u64>,
    telemetry: IRacingTelemetry<V>,
}

/// A tick at `now` may attempt work: there was no attempt yet, or the last
/// one was at least one interval ago.
pub open spec fn eligible(last_attempt: Option<u64>, now: u64) -> bool {
    match last_attempt {
        None => true,
        Some(t) => t <= now && now - t >= SAMPLE_INTERVAL_MS,
    }
}

/// A field after a sampling attempt: a value read replaces it, any error
/// keeps the previous one.
pub open spec fn field_after<V>(prev: V, reading: Result<V, SampleError>) -> V {
    match reading {
        Ok(v) => v,
        Err(_) => prev,
    }
}

pub open spec fn is_lost<V>(reading: Result<V, SampleError>) -> bool {
    reading == Err::<V, SampleError>(SampleError::ConnectionLost)
}

impl<V> IRacingLogging<V> {
    pub closed spec fn is_connected(&self) -> bool {
        self.connected
    }

    pub closed spec fn last_attempt(&self) -> Option<u64> {
        self.last_attempt_ms
    }

    pub closed spec fn snapshot(&self) -> IRacingTelemetry<V> {
        self.telemetry
    }

    /// The action a tick at `now` returns.
    pub open spec fn action_at(&self, now: u64) -> TickAction {
        if !eligible(self.last_attempt(), now) {
            TickAction::Idle
        } else if self.is_connected() {
            TickAction::Sample
        } else {
            TickAction::Connect
        }
    }

    /// A disconnected sampler whose fields both hold `sentinel` until the
    /// first successful sample.
    pub fn new(sentinel: V) -> (r: Self)
        where V: Copy
        ensures
            !r.is_connected(),
            r.last_attempt() is None,
            r.snapshot().speed == sentinel,
            r.snapshot().lastlaptime == sentinel,
    {
        IRacingLogging {
            connected: false,
            last_attempt_ms: None,
            telemetry: IRacingTelemetry { speed: sentinel, lastlaptime: sentinel },
        }
    }

    /// Called on every iteration of the host's update loop, with the current
    /// time in milliseconds. Too soon after the last attempt it does nothing
    /// and returns `Idle`; otherwise it marks `now` as the last attempt and
    /// asks for a connection attempt when disconnected, a sample when connected.
    pub fn update_telemetry(&mut self, now_ms: u64) -> (r: TickAction)
        ensures
            r == old(self).action_at(now_ms),
            r == TickAction::Idle ==> *final(self) == *old(self),
            r != TickAction::Idle ==> final(self).last_attempt() == Some(now_ms),
            final(self).is_connected() == old(self).is_connected(),
            final(self).snapshot() == old(self).snapshot(),
    {
        let due = match self.last_attempt_ms {
            None => true,
            Some(t) => t <= now_ms && now_ms - t >= SAMPLE_INTERVAL_MS,
        };
        if !due {
            TickAction::Idle
        } else {
            self.last_attempt_ms = Some(now_ms);
            if self.connected {
                TickAction::Sample
            } else {
                TickAction::Connect
            }
        }
    }

    /// Reports the outcome of a connection attempt. A failure is silent: the
    /// next eligible tick tries again.
    pub fn record_connect(&mut self, connected: bool)
        ensures
            final(self).is_connected() == connected,
            final(self).last_attempt() == old(self).last_attempt(),
            final(self).snapshot() == old(self).snapshot(),
    {
        self.connected = connected;
    }

    /// Reports one sampling attempt of both fields. A value read overwrites
    /// the field; `NotPresent` or `Timeout` keeps the last known value; a lost
    /// connection keeps it too and drops back to the disconnected state.
    pub fn record_sample(&mut self, speed: Result<V, SampleError>, lastlaptime: Result<V, SampleError>)
        ensures
            final(self).snapshot().speed == field_after(old(self).snapshot().speed, speed),
            final(self).snapshot().lastlaptime == field_after(
                old(self).snapshot().lastlaptime,
                lastlaptime,
            ),
            final(self).is_connected() == (old(self).is_connected() && !is_lost(speed) && !is_lost(
                lastlaptime,
            )),
            final(self).last_attempt() == old(self).last_attempt(),
    {
        let speed_lost = match &speed {
            Err(SampleError::ConnectionLost) => true,
            _ => false,
        };
        let lap_lost = match &lastlaptime {
            Err(SampleError::ConnectionLost) => true,
            _ => false,
        };
        match speed {
            Ok(v) => self.telemetry.speed = v,
            Err(_) => {},
        }
        match lastlaptime {
            Ok(v) => self.telemetry.lastlaptime = v,
            Err(_) => {},
        }
        if speed_lost || lap_lost {
            self.connected = false;
        }
    }

    /// Whether the sampler holds a live connection.
    pub fn connected(&self) -> (r: bool)
        ensures
            r == self.is_connected(),
    {
        self.connected
    }

    /// The latest known values; never blocks, never fails.
    pub fn telemetry(&self) -> (r: &IRacingTelemetry<V>)
        ensures
            *r == self.snapshot(),
    {
        &self.telemetry
    }
}

/// Two ticks less than one interval apart make at most one attempt, whatever
/// outcomes were reported in between (reports never move the time of the
/// last attempt).
pub proof fn lemma_tick_throttled<V>(s: IRacingLogging<V>, mid: IRacingLogging<V>, t1: u64, t2: u64)
    requires
        t1 <= t2 < t1 + SAMPLE_INTERVAL_MS,
        s.action_at(t1) != TickAction::Idle ==> mid.last_attempt() == Some(t1),
        s.action_at(t1) == TickAction::Idle ==> mid.last_attempt() == s.last_attempt(),
    ensures
        s.action_at(t1) == TickAction::Idle || mid.action_at(t2) == TickAction::Idle,
{
}

/// A failed read never disturbs a field: after a value has been set, a
/// `NotPresent` or `Timeout` leaves it as it was instead of returning to the
/// sentinel.
pub proof fn lemma_failed_read_keeps_value<V>(prev: V, e: SampleError)
    ensures
        field_after(prev, Err::<V, SampleError>(e)) == prev,
{
}

} // verus!
