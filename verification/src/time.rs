//! Time keeping for the main loop: instants and durations counted in whole
//! nanoseconds, and the fixed-step clock that drives the simulation.

use vstd::prelude::*;

verus! {

/// Nanoseconds in a microsecond.
pub const NANOS_PER_MICRO: u64 = 1_000;

/// Nanoseconds in a millisecond.
pub const NANOS_PER_MILLI: u64 = 1_000_000;

/// Nanoseconds in a second.
pub const NANOS_PER_SEC: u64 = 1_000_000_000;

/// The longest frame the clock accounts for: a longer pause (a debugger
/// break, a dragged window) is clamped to this, so the simulation does not
/// try to catch up with all of it at once.
pub const MAX_FRAME_DELTA_NANOS: u64 = 250_000_000;

/// `a - b`, or zero where `b` is the larger.
pub open spec fn saturating_diff(a: nat, b: nat) -> nat {
    if a >= b {
        (a - b) as nat
    } else {
        0
    }
}

/// The smaller of two naturals.
pub open spec fn nat_min(a: nat, b: nat) -> nat {
    if a <= b {
        a
    } else {
        b
    }
}

/// How much simulated time a frame from the reading `previous` to the
/// reading `current` is worth: the time between them, clamped to
/// `MAX_FRAME_DELTA_NANOS`, and zero where the readings go backwards.
pub open spec fn frame_delta(previous: nat, current: nat) -> nat {
    nat_min(MAX_FRAME_DELTA_NANOS as nat, saturating_diff(current, previous))
}

/// A reading of the system clock.
#[verifier::external_type_specification]
#[verifier::external_body]
pub struct ExSystemTime(std::time::SystemTime);

/// Calls `std::time::SystemTime::now`. Nothing is stated of the reading:
/// it is whatever the system clock says, which need not grow from one call
/// to the next.
#[verifier::external_body]
fn system_now() -> std::time::SystemTime {
    std::time::SystemTime::now()
}

/// Calls `std::time::SystemTime::duration_since` with `UNIX_EPOCH`; its
/// error, a reading before the epoch, becomes `None`. Nothing is stated of
/// the span, which depends on the reading.
#[verifier::external_body]
fn since_unix_epoch(t: &std::time::SystemTime) -> Option<core::time::Duration> {
    t.duration_since(std::time::UNIX_EPOCH).ok()
}

/// Calls `core::time::Duration::as_nanos`: the span in whole nanoseconds.
/// The span is opaque to proofs, so nothing is stated of the count.
#[verifier::external_body]
fn whole_nanos(d: &core::time::Duration) -> u128 {
    d.as_nanos()
}

/// The low 64 bits of `n`: a count of nanoseconds past `u64::MAX` wraps.
pub open spec fn low_u64(n: u128) -> nat {
    (n % 0x1_0000_0000_0000_0000u128) as nat
}

/// A reading of the monotonic system clock.
#[verifier::external_type_specification]
#[verifier::external_body]
pub struct ExStdInstant(std::time::Instant);

/// Calls `std::time::Instant::now`. Nothing is stated of the reading.
#[verifier::external_body]
fn monotonic_now() -> std::time::Instant {
    std::time::Instant::now()
}

/// Calls `std::time::Instant::elapsed`: the time since `epoch`. Nothing is
/// stated of the span, which depends on when it is read.
#[verifier::external_body]
fn monotonic_since(epoch: &std::time::Instant) -> core::time::Duration {
    epoch.elapsed()
}

/// A source of readings that never go backwards: nanoseconds of the
/// monotonic system clock since the source was made, and never less than a
/// reading the source gave or was told of before.
#[derive(Clone, Copy)]
pub struct ReadingSource {
    epoch: std::time::Instant,
    last: Instant,
}

impl ReadingSource {
    /// The latest reading the source gave or was told of.
    pub closed spec fn last_nanos(self) -> nat {
        self.last.nanos()
    }

    /// A source whose readings count from now.
    pub fn new() -> (source: ReadingSource)
        ensures
            source.last_nanos() == 0,
    {
        ReadingSource { epoch: monotonic_now(), last: Instant(0) }
    }

    /// Reads the clock: the time since the source was made, taken as a
    /// reading told to the source (`note`), so never less than the last
    /// reading.
    pub fn read(&mut self) -> (t: Instant)
        ensures
            t.nanos() >= old(self).last_nanos(),
            final(self).last_nanos() == t.nanos(),
    {
        let span = monotonic_since(&self.epoch);
        let fresh = Instant::from_reading(Some(whole_nanos(&span)));
        self.note(fresh);
        self.last
    }

    /// Tells the source of a reading taken elsewhere: later readings are no
    /// less than it.
    pub fn note(&mut self, t: Instant)
        ensures
            final(self).last_nanos() == if t.nanos() > old(self).last_nanos() {
                t.nanos()
            } else {
                old(self).last_nanos()
            },
    {
        if t.0 > self.last.0 {
            self.last = t;
        }
    }
}

/// A point in time, as a count of nanoseconds.
#[derive(Clone, Copy, Debug, PartialEq, Eq, Structural, PartialOrd, Ord)]
pub struct Instant(u64);

/// A span of time, as a count of nanoseconds.
#[derive(Clone, Copy, Debug, PartialEq, Eq, Structural, PartialOrd, Ord)]
pub struct Duration(u64);

impl Instant {
    /// The reading, in nanoseconds.
    pub closed spec fn nanos(self) -> nat {
        self.0 as nat
    }

    /// The instant of a clock reading that lies `since_epoch` nanoseconds
    /// after the epoch, or before it (`None`): the count in 64 bits, and the
    /// epoch itself for a reading before it.
    pub fn from_reading(since_epoch: Option<u128>) -> (t: Instant)
        ensures
            since_epoch matches Some(n) ==> t.nanos() == low_u64(n),
            since_epoch is None ==> t.nanos() == 0,
    {
        match since_epoch {
            Some(n) => {
                let low: u64 = (n % 0x1_0000_0000_0000_0000u128) as u64;
                Instant(low)
            },
            None => Instant(0),
        }
    }

    /// Reads the system clock: nanoseconds since the Unix epoch. The system
    /// clock can be set back, so two readings need not come in order; a
    /// `ReadingSource` gives readings that do.
    pub fn now() -> (t: Instant)
        ensures
            t.nanos() <= u64::MAX,
    {
        let reading = system_now();
        let since = match since_unix_epoch(&reading) {
            Some(span) => Some(whole_nanos(&span)),
            None => None,
        };
        Self::from_reading(since)
    }

    /// Time since `self`, read from the clock now; zero if the clock reads
    /// earlier than `self`.
    pub fn elapsed(self) -> (d: Duration)
        ensures
            d.nanos() + self.nanos() <= u64::MAX || d.nanos() == 0,
    {
        Self::now().sub(self)
    }

    /// `self` moved forward by `rhs`.
    pub fn add(self, rhs: Duration) -> (t: Instant)
        requires
            self.nanos() + rhs.nanos() <= u64::MAX,
        ensures
            t.nanos() == self.nanos() + rhs.nanos(),
    {
        Instant(self.0 + rhs.0)
    }

    /// Moves `self` forward by `rhs`.
    pub fn add_assign(&mut self, rhs: Duration)
        requires
            old(self).nanos() + rhs.nanos() <= u64::MAX,
        ensures
            final(self).nanos() == old(self).nanos() + rhs.nanos(),
    {
        self.0 = self.0 + rhs.0;
    }

    /// Time from `earlier` to `self`; zero where `earlier` is the later one.
    pub fn sub(self, earlier: Instant) -> (d: Duration)
        ensures
            d.nanos() == saturating_diff(self.nanos(), earlier.nanos()),
    {
        Duration(self.0.saturating_sub(earlier.0))
    }

    /// `self` moved back by `rhs`, stopping at the zero reading.
    pub fn sub_duration(self, rhs: Duration) -> (t: Instant)
        ensures
            t.nanos() == saturating_diff(self.nanos(), rhs.nanos()),
    {
        Instant(self.0.saturating_sub(rhs.0))
    }
}

impl Duration {
    /// The span, in nanoseconds.
    pub closed spec fn nanos(self) -> nat {
        self.0 as nat
    }

    /// The empty span.
    pub fn zero() -> (d: Duration)
        ensures
            d.nanos() == 0,
    {
        Duration(0)
    }

    pub fn from_nanos(nanos: u64) -> (d: Duration)
        ensures
            d.nanos() == nanos,
    {
        Duration(nanos)
    }

    pub fn from_micros(micros: u64) -> (d: Duration)
        requires
            micros * NANOS_PER_MICRO <= u64::MAX,
        ensures
            d.nanos() == micros * NANOS_PER_MICRO,
    {
        Duration(micros * NANOS_PER_MICRO)
    }

    pub fn from_millis(millis: u64) -> (d: Duration)
        requires
            millis * NANOS_PER_MILLI <= u64::MAX,
        ensures
            d.nanos() == millis * NANOS_PER_MILLI,
    {
        Duration(millis * NANOS_PER_MILLI)
    }

    pub fn from_secs(secs: u64) -> (d: Duration)
        requires
            secs * NANOS_PER_SEC <= u64::MAX,
        ensures
            d.nanos() == secs * NANOS_PER_SEC,
    {
        Duration(secs * NANOS_PER_SEC)
    }

    /// Period of a rate: `from_hz(60)` is the step of a 60 Hz simulation,
    /// the whole nanoseconds of a second divided by `hz`.
    pub fn from_hz(hz: u32) -> (d: Duration)
        requires
            hz > 0,
        ensures
            d.nanos() == NANOS_PER_SEC as nat / hz as nat,
    {
        Duration(NANOS_PER_SEC / (hz as u64))
    }

    pub fn as_nanos(self) -> (n: u64)
        ensures
            n == self.nanos(),
    {
        self.0
    }

    /// The sum of two spans.
    pub fn add(self, rhs: Duration) -> (d: Duration)
        requires
            self.nanos() + rhs.nanos() <= u64::MAX,
        ensures
            d.nanos() == self.nanos() + rhs.nanos(),
    {
        Duration(self.0 + rhs.0)
    }

    /// Lengthens `self` by `rhs`.
    pub fn add_assign(&mut self, rhs: Duration)
        requires
            old(self).nanos() + rhs.nanos() <= u64::MAX,
        ensures
            final(self).nanos() == old(self).nanos() + rhs.nanos(),
    {
        self.0 = self.0 + rhs.0;
    }

    /// `self` shortened by `rhs`, stopping at zero.
    pub fn sub(self, rhs: Duration) -> (d: Duration)
        ensures
            d.nanos() == saturating_diff(self.nanos(), rhs.nanos()),
    {
        Duration(self.0.saturating_sub(rhs.0))
    }

    /// Shortens `self` by `rhs`, stopping at zero.
    pub fn sub_assign(&mut self, rhs: Duration)
        ensures
            final(self).nanos() == saturating_diff(old(self).nanos(), rhs.nanos()),
    {
        self.0 = self.0.saturating_sub(rhs.0);
    }

    /// The shorter of two spans.
    pub fn min(self, other: Duration) -> (d: Duration)
        ensures
            d.nanos() == nat_min(self.nanos(), other.nanos()),
    {
        if self.0 <= other.0 {
            self
        } else {
            other
        }
    }
}

impl core::default::Default for Duration {
    fn default() -> (d: Duration)
        ensures
            d.nanos() == 0,
    {
        Duration(0)
    }
}

/// What one step of the main loop sees of time.
#[derive(Clone, Copy, Debug, PartialEq, Eq, Structural)]
pub struct TimeStep {
    elapsed: Duration,
    delta_time: Duration,
    accumulator: Duration,
}

impl TimeStep {
    /// Simulated time at the end of this step.
    pub closed spec fn elapsed_nanos(self) -> nat {
        self.elapsed.nanos()
    }

    /// Length of this step.
    pub closed spec fn delta_nanos(self) -> nat {
        self.delta_time.nanos()
    }

    /// Time already accumulated towards the next fixed step.
    pub closed spec fn accumulator_nanos(self) -> nat {
        self.accumulator.nanos()
    }

    pub fn elapsed(&self) -> (d: Duration)
        ensures
            d.nanos() == self.elapsed_nanos(),
    {
        self.elapsed
    }

    pub fn delta_time(&self) -> (d: Duration)
        ensures
            d.nanos() == self.delta_nanos(),
    {
        self.delta_time
    }

    /// Time already accumulated towards the next fixed step. Zero inside a
    /// fixed step, since the step consumed it.
    pub fn accumulator(&self) -> (d: Duration)
        ensures
            d.nanos() == self.accumulator_nanos(),
    {
        self.accumulator
    }
}

/// The main loop's clock: it turns readings of the system clock into frame
/// deltas, and the frame deltas into fixed simulation steps.
pub struct Clock {
    source: ReadingSource,
    start: Instant,
    previous: Instant,
    current: Instant,
    fixed_delta: Duration,
    accumulator: Duration,
    /// Simulated time. Advances by clamped deltas, so it falls behind
    /// `current - start` by whatever the clamp discarded.
    elapsed: Duration,
}

impl Clock {
    /// The fixed step is never empty, and what is still pending never
    /// exceeds the simulated time it was accumulated from.
    #[verifier::type_invariant]
    closed spec fn well_formed(self) -> bool {
        &&& self.fixed_delta.0 > 0
        &&& self.accumulator.0 <= self.elapsed.0
        &&& self.current.0 <= self.source.last.0
    }

    pub closed spec fn start_nanos(self) -> nat {
        self.start.nanos()
    }

    pub closed spec fn previous_nanos(self) -> nat {
        self.previous.nanos()
    }

    pub closed spec fn current_nanos(self) -> nat {
        self.current.nanos()
    }

    pub closed spec fn fixed_delta_nanos(self) -> nat {
        self.fixed_delta.nanos()
    }

    pub closed spec fn accumulator_nanos(self) -> nat {
        self.accumulator.nanos()
    }

    pub closed spec fn elapsed_nanos(self) -> nat {
        self.elapsed.nanos()
    }

    /// A clock started at the reading `now`, stepping by `fixed_delta`. The
    /// readings it takes itself never precede `now`.
    pub fn starting_at(fixed_delta: Duration, now: Instant) -> (c: Clock)
        requires
            fixed_delta.nanos() > 0,
        ensures
            c.start_nanos() == now.nanos(),
            c.previous_nanos() == now.nanos(),
            c.current_nanos() == now.nanos(),
            c.fixed_delta_nanos() == fixed_delta.nanos(),
            c.accumulator_nanos() == 0,
            c.elapsed_nanos() == 0,
    {
        let mut source = ReadingSource::new();
        source.note(now);
        Clock {
            source,
            start: now,
            previous: now,
            current: now,
            fixed_delta,
            accumulator: Duration(0),
            elapsed: Duration(0),
        }
    }

    /// A clock started now, stepping by `fixed_delta`: its readings count
    /// the nanoseconds of the monotonic clock since it was made.
    pub fn new(fixed_delta: Duration) -> (c: Clock)
        requires
            fixed_delta.nanos() > 0,
        ensures
            c.start_nanos() == c.previous_nanos(),
            c.previous_nanos() == c.current_nanos(),
            c.fixed_delta_nanos() == fixed_delta.nanos(),
            c.accumulator_nanos() == 0,
            c.elapsed_nanos() == 0,
    {
        let mut source = ReadingSource::new();
        let now = source.read();
        Clock {
            source,
            start: now,
            previous: now,
            current: now,
            fixed_delta,
            accumulator: Duration(0),
            elapsed: Duration(0),
        }
    }

    /// The delta of the last frame: the time between the two last
    /// readings, clamped.
    fn delta_time(&self) -> (d: Duration)
        ensures
            d.nanos() == frame_delta(self.previous_nanos(), self.current_nanos()),
    {
        Duration(MAX_FRAME_DELTA_NANOS).min(self.current.sub(self.previous))
    }

    /// Starts a frame at the reading `now`: the last frame's delta is added
    /// to both the pending and the simulated time.
    pub fn advance_to(&mut self, now: Instant)
        requires
            old(self).elapsed_nanos() + frame_delta(old(self).current_nanos(), now.nanos())
                <= u64::MAX,
        ensures
            clock_step(*old(self), *final(self)),
            final(self).start_nanos() == old(self).start_nanos(),
            final(self).previous_nanos() == old(self).current_nanos(),
            final(self).current_nanos() == now.nanos(),
            final(self).fixed_delta_nanos() == old(self).fixed_delta_nanos(),
            final(self).accumulator_nanos() == old(self).accumulator_nanos() + frame_delta(
                old(self).current_nanos(),
                now.nanos(),
            ),
            final(self).elapsed_nanos() == old(self).elapsed_nanos() + frame_delta(
                old(self).current_nanos(),
                now.nanos(),
            ),
    {
        proof {
            use_type_invariant(&*self);
        }
        let delta = Duration(MAX_FRAME_DELTA_NANOS).min(now.sub(self.current));
        let mut source = self.source;
        source.note(now);
        *self = Clock {
            source,
            start: self.start,
            previous: self.current,
            current: now,
            fixed_delta: self.fixed_delta,
            accumulator: self.accumulator.add(delta),
            elapsed: self.elapsed.add(delta),
        };
    }

    /// Starts a frame at the clock's reading now, which never precedes the
    /// last reading.
    pub fn advance(&mut self)
        requires
            old(self).elapsed_nanos() + MAX_FRAME_DELTA_NANOS <= u64::MAX,
        ensures
            clock_step(*old(self), *final(self)),
            final(self).current_nanos() >= old(self).current_nanos(),
            final(self).start_nanos() == old(self).start_nanos(),
            final(self).previous_nanos() == old(self).current_nanos(),
            final(self).fixed_delta_nanos() == old(self).fixed_delta_nanos(),
            final(self).accumulator_nanos() == old(self).accumulator_nanos() + frame_delta(
                old(self).current_nanos(),
                final(self).current_nanos(),
            ),
            final(self).elapsed_nanos() == old(self).elapsed_nanos() + frame_delta(
                old(self).current_nanos(),
                final(self).current_nanos(),
            ),
    {
        proof {
            use_type_invariant(&*self);
        }
        let mut source = self.source;
        let now = source.read();
        self.advance_to(now);
    }

    /// The next fixed step, if a whole one has accumulated: it consumes
    /// `fixed_delta` of the pending time and ends where the simulated time
    /// minus what is still pending ends.
    pub fn next_fixed_step(&mut self) -> (step: Option<TimeStep>)
        ensures
            clock_step(*old(self), *final(self)),
            final(self).start_nanos() == old(self).start_nanos(),
            final(self).previous_nanos() == old(self).previous_nanos(),
            final(self).current_nanos() == old(self).current_nanos(),
            final(self).fixed_delta_nanos() == old(self).fixed_delta_nanos(),
            final(self).elapsed_nanos() == old(self).elapsed_nanos(),
            old(self).accumulator_nanos() < old(self).fixed_delta_nanos() ==> {
                &&& step is None
                &&& final(self).accumulator_nanos() == old(self).accumulator_nanos()
            },
            old(self).accumulator_nanos() >= old(self).fixed_delta_nanos() ==> {
                &&& step is Some
                &&& final(self).accumulator_nanos() == old(self).accumulator_nanos()
                    - old(self).fixed_delta_nanos()
                &&& step->0.delta_nanos() == old(self).fixed_delta_nanos()
                &&& step->0.accumulator_nanos() == 0
                &&& step->0.elapsed_nanos() == old(self).elapsed_nanos()
                    - final(self).accumulator_nanos()
            },
    {
        proof {
            use_type_invariant(&*self);
        }
        if self.accumulator.0 < self.fixed_delta.0 {
            return None;
        }
        let accumulator = self.accumulator.sub(self.fixed_delta);
        *self = Clock {
            source: self.source,
            start: self.start,
            previous: self.previous,
            current: self.current,
            fixed_delta: self.fixed_delta,
            accumulator,
            elapsed: self.elapsed,
        };
        Some(
            TimeStep {
                elapsed: self.elapsed.sub(self.accumulator),
                delta_time: self.fixed_delta,
                accumulator: Duration(0),
            },
        )
    }

    /// Every fixed step that has accumulated, in order, leaving less than
    /// one step pending.
    pub fn fixed_steps(&mut self) -> (steps: Vec<TimeStep>)
        ensures
            clock_step(*old(self), *final(self)),
            final(self).start_nanos() == old(self).start_nanos(),
            final(self).previous_nanos() == old(self).previous_nanos(),
            final(self).current_nanos() == old(self).current_nanos(),
            final(self).fixed_delta_nanos() == old(self).fixed_delta_nanos(),
            final(self).elapsed_nanos() == old(self).elapsed_nanos(),
            steps.len() == old(self).accumulator_nanos() / old(self).fixed_delta_nanos(),
            final(self).accumulator_nanos() == old(self).accumulator_nanos()
                % old(self).fixed_delta_nanos(),
            final(self).accumulator_nanos() < final(self).fixed_delta_nanos(),
            forall|i: int|
                0 <= i < steps.len() ==> {
                    &&& (#[trigger] steps[i]).delta_nanos() == old(self).fixed_delta_nanos()
                    &&& steps[i].accumulator_nanos() == 0
                    &&& steps[i].elapsed_nanos() == old(self).elapsed_nanos()
                        - old(self).accumulator_nanos() + (i + 1) * old(
                        self,
                    ).fixed_delta_nanos()
                },
    {
        proof {
            use_type_invariant(&*self);
        }
        let ghost acc0 = self.accumulator_nanos() as int;
        let ghost el0 = self.elapsed_nanos() as int;
        let ghost fd = self.fixed_delta_nanos() as int;
        let mut steps: Vec<TimeStep> = Vec::new();
        proof {
            let n = steps.len() as int;
            assert(n * fd == 0) by (nonlinear_arith)
                requires n == 0;
        }
        loop
            invariant
                fd > 0,
                self.start_nanos() == old(self).start_nanos(),
                self.previous_nanos() == old(self).previous_nanos(),
                self.current_nanos() == old(self).current_nanos(),
                self.fixed_delta_nanos() == fd,
                self.elapsed_nanos() == el0,
                acc0 == old(self).accumulator_nanos(),
                el0 == old(self).elapsed_nanos(),
                fd == old(self).fixed_delta_nanos(),
                self.accumulator_nanos() + steps.len() * fd == acc0,
                forall|i: int|
                    0 <= i < steps.len() ==> {
                        &&& (#[trigger] steps[i]).delta_nanos() == fd
                        &&& steps[i].accumulator_nanos() == 0
                        &&& steps[i].elapsed_nanos() == el0 - acc0 + (i + 1) * fd
                    },
            ensures
                self.accumulator_nanos() < fd,
                self.fixed_delta_nanos() == fd,
                self.elapsed_nanos() == el0,
                self.start_nanos() == old(self).start_nanos(),
                self.previous_nanos() == old(self).previous_nanos(),
                self.current_nanos() == old(self).current_nanos(),
                self.accumulator_nanos() + steps.len() * fd == acc0,
                forall|i: int|
                    0 <= i < steps.len() ==> {
                        &&& (#[trigger] steps[i]).delta_nanos() == fd
                        &&& steps[i].accumulator_nanos() == 0
                        &&& steps[i].elapsed_nanos() == el0 - acc0 + (i + 1) * fd
                    },
            decreases self.accumulator_nanos(),
        {
            match self.next_fixed_step() {
                Some(step) => {
                    proof {
                        assert((steps.len() + 1) * fd == steps.len() * fd + fd) by (nonlinear_arith);
                    }
                    steps.push(step);
                },
                None => {
                    break;
                },
            }
        }
        proof {
            let k = steps.len() as int;
            let r = self.accumulator_nanos() as int;
            assert(acc0 == k * fd + r) by (nonlinear_arith)
                requires r + k * fd == acc0;
            vstd::arithmetic::div_mod::lemma_fundamental_div_mod_converse(acc0, fd, k, r);
        }
        steps
    }

    /// What the current frame sees: the simulated time, the last frame's
    /// delta and the time pending towards the next fixed step.
    pub fn frame(&self) -> (step: TimeStep)
        ensures
            self.fixed_delta_nanos() > 0,
            self.accumulator_nanos() <= self.elapsed_nanos(),
            step.accumulator_nanos() <= step.elapsed_nanos(),
            step.elapsed_nanos() == self.elapsed_nanos(),
            step.delta_nanos() == frame_delta(self.previous_nanos(), self.current_nanos()),
            step.accumulator_nanos() == self.accumulator_nanos(),
    {
        proof {
            use_type_invariant(self);
        }
        TimeStep { elapsed: self.elapsed, delta_time: self.delta_time(), accumulator: self.accumulator }
    }

    /// The length of one fixed step.
    pub fn fixed_delta(&self) -> (d: Duration)
        ensures
            d.nanos() == self.fixed_delta_nanos(),
    {
        self.fixed_delta
    }

    /// Wall time from the first reading to the last one.
    pub fn uptime(&self) -> (d: Duration)
        ensures
            d.nanos() == saturating_diff(self.current_nanos(), self.start_nanos()),
    {
        self.current.sub(self.start)
    }
}

/// One call on a clock, as the simulated and the wall time see it: the start
/// stays, and the simulated time grows by the clamped delta between the
/// last reading before and the last reading after. Advancing the clock is
/// such a step, and so is draining fixed steps, which reads nothing.
pub open spec fn clock_step(before: Clock, after: Clock) -> bool {
    &&& after.start_nanos() == before.start_nanos()
    &&& after.elapsed_nanos() == before.elapsed_nanos() + frame_delta(
        before.current_nanos(),
        after.current_nanos(),
    )
}

/// Whether each clock of `history` follows from the one before by a step.
pub open spec fn clock_history(history: Seq<Clock>) -> bool {
    forall|i: int| 0 <= i < history.len() - 1 ==> clock_step(#[trigger] history[i], history[i + 1])
}

/// Whether the readings along `history` never go backwards.
pub open spec fn readings_in_order(history: Seq<Clock>) -> bool {
    forall|i: int|
        0 <= i < history.len() - 1 ==> (#[trigger] history[i]).current_nanos() <= history[i
            + 1].current_nanos()
}

/// The simulated time the steps of `history` added: the sum of the clamped
/// deltas.
pub open spec fn clamped_total(history: Seq<Clock>) -> nat
    decreases history.len(),
{
    if history.len() <= 1 {
        0
    } else {
        let before = history[history.len() - 2];
        clamped_total(history.drop_last()) + frame_delta(
            before.current_nanos(),
            history.last().current_nanos(),
        )
    }
}

/// The wall time the clamp discarded along `history`: for each step, the
/// time between its readings minus the clamped delta.
pub open spec fn discarded_total(history: Seq<Clock>) -> nat
    decreases history.len(),
{
    if history.len() <= 1 {
        0
    } else {
        let before = history[history.len() - 2].current_nanos();
        let after = history.last().current_nanos();
        discarded_total(history.drop_last()) + (saturating_diff(after, before) - frame_delta(
            before,
            after,
        )) as nat
    }
}

/// Over any run of calls on a clock, the simulated time grows by exactly
/// the sum of the clamped frame deltas; draining fixed steps adds nothing.
/// While the readings do not go backwards, the uptime grows by the
/// simulated time plus what the clamp discarded, so the simulated time
/// falls behind the wall time since the start by exactly what was
/// discarded, and the uptime never shrinks.
pub proof fn law_clock_history(history: Seq<Clock>)
    requires
        history.len() >= 1,
        clock_history(history),
    ensures
        history.last().elapsed_nanos() == history[0].elapsed_nanos() + clamped_total(history),
        history.last().start_nanos() == history[0].start_nanos(),
        readings_in_order(history) && history[0].start_nanos() <= history[0].current_nanos()
            ==> {
            &&& saturating_diff(history.last().current_nanos(), history.last().start_nanos())
                == saturating_diff(history[0].current_nanos(), history[0].start_nanos())
                + clamped_total(history) + discarded_total(history)
            &&& saturating_diff(history[0].current_nanos(), history[0].start_nanos())
                <= saturating_diff(history.last().current_nanos(), history.last().start_nanos())
            &&& history[0].elapsed_nanos() <= saturating_diff(
                history[0].current_nanos(),
                history[0].start_nanos(),
            ) ==> history.last().elapsed_nanos() <= saturating_diff(
                history.last().current_nanos(),
                history.last().start_nanos(),
            )
        },
    decreases history.len(),
{
    if history.len() > 1 {
        let rest = history.drop_last();
        assert forall|i: int| 0 <= i < rest.len() - 1 implies clock_step(
            #[trigger] rest[i],
            rest[i + 1],
        ) by {
            assert(clock_step(history[i], history[i + 1]));
        }
        law_clock_history(rest);
        let n = history.len() as int;
        assert(clock_step(history[n - 2], history[n - 1]));
        assert(rest.last() == history[n - 2]);
        if readings_in_order(history) && history[0].start_nanos() <= history[0].current_nanos() {
            assert forall|i: int| 0 <= i < rest.len() - 1 implies (
            #[trigger] rest[i]).current_nanos() <= rest[i + 1].current_nanos() by {
                assert(history[i].current_nanos() <= history[i + 1].current_nanos());
            }
            assert(readings_in_order(rest));
            assert(history[n - 2].current_nanos() <= history[n - 1].current_nanos());
            law_clock_history_start_behind(rest);
        }
    }
}

/// Along readings in order, the last reading is no earlier than the start.
proof fn law_clock_history_start_behind(history: Seq<Clock>)
    requires
        history.len() >= 1,
        clock_history(history),
        readings_in_order(history),
        history[0].start_nanos() <= history[0].current_nanos(),
    ensures
        history.last().start_nanos() <= history.last().current_nanos(),
    decreases history.len(),
{
    if history.len() > 1 {
        let rest = history.drop_last();
        assert forall|i: int| 0 <= i < rest.len() - 1 implies clock_step(
            #[trigger] rest[i],
            rest[i + 1],
        ) by {
            assert(clock_step(history[i], history[i + 1]));
        }
        assert forall|i: int| 0 <= i < rest.len() - 1 implies (
        #[trigger] rest[i]).current_nanos() <= rest[i + 1].current_nanos() by {
            assert(history[i].current_nanos() <= history[i + 1].current_nanos());
        }
        law_clock_history_start_behind(rest);
        let n = history.len() as int;
        assert(clock_step(history[n - 2], history[n - 1]));
        assert(history[n - 2].current_nanos() <= history[n - 1].current_nanos());
    }
}

/// Moving an instant forward by a span and measuring back gives the span.
pub proof fn law_instant_add_then_sub(t: Instant, d: Duration)
    requires
        t.nanos() + d.nanos() <= u64::MAX,
    ensures
        saturating_diff(t.nanos() + d.nanos(), t.nanos()) == d.nanos(),
{
}

/// Lengthening a span and shortening it by the same amount gives it back.
pub proof fn law_duration_add_then_sub(a: Duration, b: Duration)
    requires
        a.nanos() + b.nanos() <= u64::MAX,
    ensures
        saturating_diff(a.nanos() + b.nanos(), b.nanos()) == a.nanos(),
{
}

/// No frame is worth more than `MAX_FRAME_DELTA_NANOS` of simulated time.
pub proof fn law_frame_delta_is_clamped(previous: nat, current: nat)
    ensures
        frame_delta(previous, current) <= MAX_FRAME_DELTA_NANOS,
        current >= previous && current - previous <= MAX_FRAME_DELTA_NANOS ==> frame_delta(
            previous,
            current,
        ) == current - previous,
{
}

/// While the readings do not go backwards, the simulated time stays behind
/// the wall time since the start: advancing the clock to `now` keeps it
/// there, since the new simulated time is the old one plus
/// `frame_delta(current, now)` and the new uptime is `now - start`.
pub proof fn law_simulated_time_behind_uptime(clock: Clock, now: Instant)
    requires
        clock.start_nanos() <= clock.current_nanos() <= now.nanos(),
        clock.elapsed_nanos() <= saturating_diff(clock.current_nanos(), clock.start_nanos()),
    ensures
        clock.elapsed_nanos() + frame_delta(clock.current_nanos(), now.nanos()) <= saturating_diff(
            now.nanos(),
            clock.start_nanos(),
        ),
{
}

/// The last of the fixed steps that `Clock::fixed_steps` hands out ends
/// where the simulated time, minus what is left pending, ends.
pub proof fn law_last_fixed_step_meets_simulated_time(clock: Clock)
    requires
        clock.fixed_delta_nanos() > 0,
        clock.accumulator_nanos() <= clock.elapsed_nanos(),
    ensures
        ({
            let steps = clock.accumulator_nanos() / clock.fixed_delta_nanos();
            clock.elapsed_nanos() - clock.accumulator_nanos() + steps * clock.fixed_delta_nanos()
                == clock.elapsed_nanos() - clock.accumulator_nanos() % clock.fixed_delta_nanos()
        }),
{
    let acc = clock.accumulator_nanos() as int;
    let fd = clock.fixed_delta_nanos() as int;
    vstd::arithmetic::div_mod::lemma_fundamental_div_mod(acc, fd);
    assert((acc / fd) * fd == fd * (acc / fd)) by (nonlinear_arith);
}

} // verus!
