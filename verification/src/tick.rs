//! The fixed-tick clock: wall-clock time goes in, whole simulation steps come out.

use vstd::prelude::*;
use vstd::arithmetic::div_mod::{
    lemma_div_multiples_vanish,
    lemma_fundamental_div_mod,
    lemma_fundamental_div_mod_converse,
    lemma_mod_multiples_vanish,
};
use crate::math::Fraction;

verus! {

/// Nanoseconds in one second.
pub const NANOS_PER_SECOND: u64 = 1_000_000_000;

/// The tick rate of a default clock, in ticks per second.
pub const PHYSICS_TICK_RATE: u32 = 20;

/// What one call of [`PhysicsTick::advance`] asks of the caller.
#[derive(Clone, Copy, Debug, PartialEq, Eq, Structural)]
pub enum TickSignal {
    /// Less than one tick is stored: run nothing.
    NoTick,
    /// Run the tick pipeline once.
    One,
    /// Run the tick pipeline once and call `advance` again within this frame.
    OneAndMore,
}

/// Why the clock refused a delta.
#[derive(Clone, Copy, Debug, PartialEq, Eq, Structural)]
pub enum ClockError {
    /// The frame delta was negative.
    InvalidDelta,
}

/// The mathematical state of a clock.
pub struct ClockModel {
    /// The tick rate, in ticks per second.
    pub rate: nat,
    /// Length of one tick, in nanoseconds.
    pub delta: nat,
    /// Time stored and not yet turned into ticks, in nanoseconds.
    pub accumulator: nat,
    /// Whether a backlog of ticks is being drained within one frame.
    pub looping: bool,
}

impl ClockModel {
    /// A clock is draining exactly while at least one whole tick is stored.
    pub open spec fn wf(self) -> bool {
        self.delta > 0 && (self.looping <==> self.accumulator >= self.delta)
    }

    /// The stored time once the frame delta is taken in; a draining clock takes none.
    pub open spec fn fed(self, dt: nat) -> nat {
        if self.looping {
            self.accumulator
        } else {
            self.accumulator + dt
        }
    }

    /// The signal that `advance` gives for a frame delta.
    pub open spec fn signal(self, dt: nat) -> TickSignal {
        let stored = self.fed(dt);
        if stored < self.delta {
            TickSignal::NoTick
        } else if stored - self.delta < self.delta {
            TickSignal::One
        } else {
            TickSignal::OneAndMore
        }
    }

    /// The clock after `advance` with a frame delta.
    pub open spec fn advance(self, dt: nat) -> ClockModel {
        let stored = self.fed(dt);
        let rest = if stored >= self.delta { (stored - self.delta) as nat } else { stored };
        ClockModel {
            rate: self.rate,
            delta: self.delta,
            accumulator: rest,
            looping: rest >= self.delta,
        }
    }

    /// The share of a tick that is stored.
    pub open spec fn percent(self) -> Fraction {
        Fraction { part: self.accumulator as u64, whole: self.delta as u64 }
    }

    /// What `advance` gives for a frame delta: a negative one is refused.
    pub open spec fn outcome(self, dt: int) -> Result<TickSignal, ClockError> {
        if dt < 0 {
            Err(ClockError::InvalidDelta)
        } else {
            Ok(self.signal(dt as nat))
        }
    }

    /// The clock after `advance` is called with a frame delta: a negative
    /// one leaves it as it was.
    pub open spec fn after(self, dt: int) -> ClockModel {
        if dt < 0 {
            self
        } else {
            self.advance(dt as nat)
        }
    }
}

impl ClockModel {
    /// The time that one call of `advance` takes in: none where the delta
    /// is refused, and none while the clock drains a backlog.
    pub open spec fn took(self, dt: int) -> nat {
        if dt < 0 || self.looping {
            0
        } else {
            dt as nat
        }
    }

    /// The number of ticks that one call of `advance` emits.
    pub open spec fn emits(self, dt: int) -> nat {
        match self.outcome(dt) {
            Ok(signal) => emitted(signal),
            Err(_) => 0,
        }
    }

    /// The clock after one call of `advance` for each delta of `dts`, in order.
    pub open spec fn run(self, dts: Seq<int>) -> ClockModel
        decreases dts.len(),
    {
        if dts.len() == 0 {
            self
        } else {
            self.after(dts[0]).run(dts.skip(1))
        }
    }

    /// The number of ticks that those calls emit.
    pub open spec fn ticks(self, dts: Seq<int>) -> nat
        decreases dts.len(),
    {
        if dts.len() == 0 {
            0
        } else {
            self.emits(dts[0]) + self.after(dts[0]).ticks(dts.skip(1))
        }
    }

    /// The time that those calls take in.
    pub open spec fn taken(self, dts: Seq<int>) -> nat
        decreases dts.len(),
    {
        if dts.len() == 0 {
            0
        } else {
            self.took(dts[0]) + self.after(dts[0]).taken(dts.skip(1))
        }
    }

    /// The clock once its backlog is drained by further calls of `advance`.
    pub open spec fn drain(self) -> ClockModel
        decreases self.accumulator,
    {
        if self.delta > 0 && self.accumulator >= self.delta {
            self.advance(0).drain()
        } else {
            self
        }
    }

    /// The number of ticks that draining the backlog emits.
    pub open spec fn drain_ticks(self) -> nat
        decreases self.accumulator,
    {
        if self.delta > 0 && self.accumulator >= self.delta {
            1 + self.advance(0).drain_ticks()
        } else {
            0
        }
    }

    /// One call of `advance` keeps the clock well formed and loses no time:
    /// what it emits and what it keeps make up what was stored and taken in.
    pub proof fn lemma_advance_conserves_time(self, dt: int)
        requires
            self.wf(),
        ensures
            self.after(dt).wf(),
            self.after(dt).delta == self.delta,
            self.after(dt).accumulator + self.emits(dt) * self.delta == self.accumulator
                + self.took(dt),
    {
        let ticks = self.emits(dt);
        assert(ticks * self.delta == (if ticks == 0 { 0 } else { self.delta })) by (nonlinear_arith)
            requires
                ticks == 0 || ticks == 1,
        ;
    }

    /// Over any sequence of calls of `advance`, the emitted ticks and the
    /// time still stored make up the time stored at first and the time
    /// taken in.
    pub proof fn lemma_time_conservation(self, dts: Seq<int>)
        requires
            self.wf(),
        ensures
            self.run(dts).wf(),
            self.run(dts).delta == self.delta,
            self.run(dts).accumulator + self.ticks(dts) * self.delta == self.accumulator
                + self.taken(dts),
        decreases dts.len(),
    {
        if dts.len() > 0 {
            let next = self.after(dts[0]);
            self.lemma_advance_conserves_time(dts[0]);
            next.lemma_time_conservation(dts.skip(1));
            let first = self.emits(dts[0]);
            let rest = next.ticks(dts.skip(1));
            assert((first + rest) * self.delta == first * self.delta + rest * self.delta)
                by (nonlinear_arith);
        } else {
            assert(self.ticks(dts) * self.delta == 0) by (nonlinear_arith)
                requires
                    self.ticks(dts) == 0,
            ;
        }
    }

    /// Taking one whole tick off leaves one tick less and the same rest.
    proof fn lemma_one_tick_less(a: int, d: int)
        requires
            0 < d <= a,
        ensures
            a / d == (a - d) / d + 1,
            a % d == (a - d) % d,
    {
        let q = (a - d) / d;
        lemma_fundamental_div_mod(a - d, d);
        assert((q + 1) * d == d * q + d) by (nonlinear_arith);
        lemma_fundamental_div_mod_converse(a, d, q + 1, (a - d) % d);
    }

    /// Draining emits one tick for each whole tick stored and keeps the rest.
    pub proof fn lemma_drain(self)
        requires
            self.wf(),
        ensures
            self.drain().wf(),
            !self.drain().looping,
            self.drain().delta == self.delta,
            self.drain().accumulator == self.accumulator % self.delta,
            self.drain_ticks() == self.accumulator / self.delta,
        decreases self.accumulator,
    {
        let d = self.delta as int;
        let a = self.accumulator as int;
        if self.accumulator >= self.delta {
            let next = self.advance(0);
            next.lemma_drain();
            Self::lemma_one_tick_less(a, d);
        } else {
            lemma_fundamental_div_mod_converse(a, d, 0, a);
        }
    }

    /// A settled clock that takes in a frame delta and is then drained has
    /// emitted one tick for each whole tick in what it held, and keeps the rest.
    pub proof fn lemma_catch_up(self, dt: nat)
        requires
            self.wf(),
            !self.looping,
        ensures
            !self.advance(dt).drain().looping,
            self.advance(dt).drain().accumulator == (self.accumulator + dt) % self.delta,
            emitted(self.signal(dt)) + self.advance(dt).drain_ticks() == (self.accumulator + dt)
                / self.delta,
    {
        let d = self.delta as int;
        let a = (self.accumulator + dt) as int;
        let next = self.advance(dt);
        next.lemma_drain();
        if a >= d {
            Self::lemma_one_tick_less(a, d);
        } else {
            lemma_fundamental_div_mod_converse(a, d, 0, a);
        }
    }

    /// An empty settled clock that takes in `count` whole ticks at once
    /// emits exactly `count` ticks and is empty again.
    pub proof fn lemma_catch_up_whole(self, count: nat)
        requires
            self.wf(),
            self.accumulator == 0,
        ensures
            self.advance(count * self.delta).drain().accumulator == 0,
            emitted(self.signal(count * self.delta)) + self.advance(
                count * self.delta,
            ).drain_ticks() == count,
    {
        self.lemma_catch_up(count * self.delta);
        lemma_div_multiples_vanish(count as int, self.delta as int);
        lemma_mod_multiples_vanish(count as int, 0, self.delta as int);
        assert(count * self.delta == self.delta * count) by (nonlinear_arith);
    }
}

/// The number of ticks that a signal stands for.
pub open spec fn emitted(signal: TickSignal) -> nat {
    match signal {
        TickSignal::NoTick => 0,
        TickSignal::One => 1,
        TickSignal::OneAndMore => 1,
    }
}

/// The fixed-tick clock.
pub struct PhysicsTick {
    rate: u32,
    delta: u64,
    accumulator: u64,
    looping: bool,
}

impl View for PhysicsTick {
    type V = ClockModel;

    closed spec fn view(&self) -> ClockModel {
        ClockModel {
            rate: self.rate as nat,
            delta: self.delta as nat,
            accumulator: self.accumulator as nat,
            looping: self.looping,
        }
    }
}

impl Default for PhysicsTick {
    /// A settled clock at the default tick rate.
    fn default() -> (r: Self)
        ensures
            r@ == (ClockModel { rate: 20, delta: 50_000_000, accumulator: 0, looping: false }),
            r@.wf(),
    {
        assert(1_000_000_000int / 20 == 50_000_000);
        PhysicsTick { rate: PHYSICS_TICK_RATE, delta: 50_000_000, accumulator: 0, looping: false }
    }
}

impl PhysicsTick {
    #[verifier::type_invariant]
    spec fn inv(self) -> bool {
        &&& 1 <= self.rate <= NANOS_PER_SECOND
        &&& self.delta == NANOS_PER_SECOND / (self.rate as u64)
        &&& 0 < self.delta <= NANOS_PER_SECOND
        &&& self.looping <==> self.accumulator >= self.delta
    }

    /// A settled clock at `rate` ticks per second, or `None` where no whole
    /// number of nanoseconds makes a tick at that rate.
    pub fn with_rate(rate: u32) -> (r: Option<Self>)
        ensures
            r.is_some() <==> 1 <= rate <= NANOS_PER_SECOND,
            r matches Some(c) ==> c@ == (ClockModel {
                rate: rate as nat,
                delta: (NANOS_PER_SECOND / (rate as u64)) as nat,
                accumulator: 0,
                looping: false,
            }) && c@.wf(),
    {
        if rate == 0 || rate as u64 > NANOS_PER_SECOND {
            return None;
        }
        let delta: u64 = NANOS_PER_SECOND / (rate as u64);
        assert(0 < delta <= 1_000_000_000) by (nonlinear_arith)
            requires
                1 <= rate <= 1_000_000_000,
                delta == 1_000_000_000int / (rate as int),
        ;
        Some(PhysicsTick { rate, delta, accumulator: 0, looping: false })
    }

    /// The tick rate, in ticks per second.
    pub fn rate(&self) -> (r: u32)
        ensures
            r == self@.rate,
            1 <= r <= NANOS_PER_SECOND,
    {
        proof {
            use_type_invariant(self);
        }
        self.rate
    }

    /// The length of one tick, in nanoseconds.
    pub fn delta(&self) -> (r: u64)
        ensures
            r == self@.delta,
            r == NANOS_PER_SECOND as nat / self@.rate,
            0 < r <= NANOS_PER_SECOND,
    {
        proof {
            use_type_invariant(self);
        }
        self.delta
    }

    /// Whether a backlog of ticks is being drained.
    pub fn is_looping(&self) -> (r: bool)
        ensures
            r == self@.looping,
            self@.wf(),
    {
        proof {
            use_type_invariant(self);
        }
        self.looping
    }

    /// How far the stored time reaches into the next tick: the share of a
    /// tick that is stored. On a settled clock it is less than one.
    pub fn percent(&self) -> (r: Fraction)
        ensures
            r == self@.percent(),
            r.part == self@.accumulator,
            r.whole == self@.delta,
            r.whole > 0,
            !self@.looping ==> r.part < r.whole,
    {
        proof {
            use_type_invariant(self);
        }
        Fraction { part: self.accumulator, whole: self.delta }
    }

    /// Takes in the frame delta `dt`, in nanoseconds, and says how to tick.
    ///
    /// A negative delta is refused and leaves the clock as it was.
    pub fn advance(&mut self, dt: i64) -> (r: Result<TickSignal, ClockError>)
        ensures
            r == old(self)@.outcome(dt as int),
            final(self)@ == old(self)@.after(dt as int),
            old(self)@.wf(),
            final(self)@.wf(),
        no_unwind
    {
        proof {
            use_type_invariant(&*self);
        }
        if dt < 0 {
            return Err(ClockError::InvalidDelta);
        }
        let stored: u64 = if self.looping {
            self.accumulator
        } else {
            self.accumulator + dt as u64
        };
        if stored >= self.delta {
            let rest: u64 = stored - self.delta;
            let more: bool = rest >= self.delta;
            *self = PhysicsTick { rate: self.rate, delta: self.delta, accumulator: rest, looping: more };
            if more {
                Ok(TickSignal::OneAndMore)
            } else {
                Ok(TickSignal::One)
            }
        } else {
            *self = PhysicsTick { rate: self.rate, delta: self.delta, accumulator: stored, looping: false };
            Ok(TickSignal::NoTick)
        }
    }
}

/// The length of a tick of the second clock, in nanoseconds.
pub const SIMULATION_TICK_RATE: u64 = 100_000_000;

/// The second clock of the simulation: a fixed-tick clock of ten ticks a second.
pub struct SimulationTick {
    clock: PhysicsTick,
}

impl View for SimulationTick {
    type V = ClockModel;

    closed spec fn view(&self) -> ClockModel {
        self.clock@
    }
}

impl Default for SimulationTick {
    /// A settled clock without stored time.
    fn default() -> (r: Self)
        ensures
            r@ == (ClockModel { rate: 10, delta: 100_000_000, accumulator: 0, looping: false }),
            r@.wf(),
    {
        assert(1_000_000_000int / 10 == 100_000_000);
        SimulationTick {
            clock: PhysicsTick { rate: 10, delta: 100_000_000, accumulator: 0, looping: false },
        }
    }
}

impl SimulationTick {
    #[verifier::type_invariant]
    spec fn inv(self) -> bool {
        self.clock.delta == SIMULATION_TICK_RATE
    }

    /// The length of one tick, in nanoseconds.
    pub fn rate(&self) -> (r: u64)
        ensures
            r == SIMULATION_TICK_RATE,
            r == self@.delta,
    {
        proof {
            use_type_invariant(self);
        }
        self.clock.delta()
    }

    /// Whether a backlog of ticks is being drained.
    pub fn is_looping(&self) -> (r: bool)
        ensures
            r == self@.looping,
            self@.wf(),
    {
        self.clock.is_looping()
    }

    /// The share of a tick that is stored. On a settled clock it is less
    /// than one.
    pub fn percent(&self) -> (r: Fraction)
        ensures
            r == self@.percent(),
            r.part == self@.accumulator,
            r.whole == SIMULATION_TICK_RATE,
            !self@.looping ==> r.part < r.whole,
    {
        proof {
            use_type_invariant(self);
        }
        self.clock.percent()
    }

    /// Takes in the frame delta `dt`, in nanoseconds, and says how to tick:
    /// a frame that holds several ticks is caught up tick by tick, by
    /// further calls within the frame, which take no time in.
    ///
    /// A negative delta is refused and leaves the clock as it was.
    pub fn tick(&mut self, dt: i64) -> (r: Result<TickSignal, ClockError>)
        ensures
            r == old(self)@.outcome(dt as int),
            final(self)@ == old(self)@.after(dt as int),
            final(self)@.delta == SIMULATION_TICK_RATE,
            old(self)@.wf(),
            final(self)@.wf(),
    {
        proof {
            use_type_invariant(&*self);
        }
        self.clock.advance(dt)
    }
}

} // verus!
