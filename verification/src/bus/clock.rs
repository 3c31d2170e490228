//! The two-phase non-overlapping clock.
//!
//! PHI1 and PHI2 are never high together. The usual clock runs at
//! 740 kHz, a period of 1.35 us.

use vstd::prelude::*;
use crate::sim::event::{Event, EventSource};
use crate::sim::signal::{lemma_update_keeps_wf, Signal, SignalId, SignalLevel, SignalState};
use crate::sim::simulator::{lemma_scheduled, scheduled, SimState, Simulator};
use crate::sim::timing::clock_spec;
use crate::sim::timing::Time;

verus! {

/// Clock configuration.
#[derive(Clone, Copy, Debug)]
pub struct ClockConfig {
    /// From one PHI1 rising edge to the next.
    pub period: Time,
    /// Width of the PHI1 pulse.
    pub phi1_width: Time,
    /// Width of the PHI2 pulse.
    pub phi2_width: Time,
    /// From PHI1 falling to PHI2 rising.
    pub phi1_to_phi2_delay: Time,
    /// From PHI2 falling to PHI1 rising.
    pub phi2_to_phi1_delay: Time,
    /// Rise time.
    pub rise_time: Time,
    /// Fall time.
    pub fall_time: Time,
}

impl ClockConfig {
    /// The data sheet's typical 740 kHz clock.
    pub open spec fn typical() -> ClockConfig {
        ClockConfig {
            period: 1_350_000,
            phi1_width: 380_000,
            phi2_width: 380_000,
            phi1_to_phi2_delay: 400_000,
            phi2_to_phi1_delay: 150_000,
            rise_time: 50_000,
            fall_time: 50_000,
        }
    }

    /// A clock of `hz` cycles per second: each pulse takes a third of
    /// the period and each gap a sixth.
    pub open spec fn at_frequency(hz: u64) -> ClockConfig {
        let period: u64 = (1_000_000_000_000u64 / hz) as u64;
        ClockConfig {
            period,
            phi1_width: period / 3,
            phi2_width: period / 3,
            phi1_to_phi2_delay: period / 6,
            phi2_to_phi1_delay: period / 6,
            rise_time: 50_000,
            fall_time: 50_000,
        }
    }

    /// When PHI2 rises, counted from the PHI1 rising edge.
    pub open spec fn phi2_start(self) -> int {
        self.phi1_width + self.phi1_to_phi2_delay
    }

    /// When PHI2 falls, counted from the PHI1 rising edge.
    pub open spec fn phi2_end(self) -> int {
        self.phi1_width + self.phi1_to_phi2_delay + self.phi2_width
    }

    /// One whole schedule of edges, from a PHI1 rising edge to the next.
    pub open spec fn span(self) -> int {
        self.phi2_end() + self.phi2_to_phi1_delay
    }

    /// Whether the edges of one period can be counted in a `Time`.
    pub open spec fn fits(self) -> bool {
        self.phi2_end() <= u64::MAX
    }

    /// A clock configuration for the frequency `hz`.
    pub fn for_frequency(hz: u64) -> (config: ClockConfig)
        requires
            hz > 0,
        ensures
            config == ClockConfig::at_frequency(hz),
            config.fits(),
    {
        let period: Time = 1_000_000_000_000 / hz;
        ClockConfig {
            period,
            phi1_width: period / 3,
            phi2_width: period / 3,
            phi1_to_phi2_delay: period / 6,
            phi2_to_phi1_delay: period / 6,
            rise_time: clock_spec::T0R,
            fall_time: clock_spec::T0F,
        }
    }

    /// The 740 kHz clock of a typical 4004.
    pub fn mcs4_typical() -> (config: ClockConfig)
        ensures
            config == ClockConfig::at_frequency(740_000),
            config.fits(),
    {
        ClockConfig::for_frequency(740_000)
    }

    /// The 500 kHz clock of a slow 4004.
    pub fn mcs4_slow() -> (config: ClockConfig)
        ensures
            config == ClockConfig::at_frequency(500_000),
            config.fits(),
    {
        ClockConfig::for_frequency(500_000)
    }
}

impl Default for ClockConfig {
    fn default() -> (config: ClockConfig)
        ensures
            config == ClockConfig::typical(),
            config.fits(),
    {
        ClockConfig {
            period: clock_spec::TCY_TYP,
            phi1_width: clock_spec::T0PW_MIN,
            phi2_width: clock_spec::T0PW_MIN,
            phi1_to_phi2_delay: clock_spec::T0D1_MIN,
            phi2_to_phi1_delay: clock_spec::T0D2_MIN,
            rise_time: clock_spec::T0R,
            fall_time: clock_spec::T0F,
        }
    }
}

/// A clock event: `target` goes to `value` at `time`.
pub open spec fn clock_event(time: int, target: SignalId, value: SignalLevel) -> Event {
    Event { time: time as u64, target, value, source: EventSource::Clock }
}

/// The queue with the four edges of the period that starts at `t`:
/// PHI1 rises at `t` and falls one pulse width later; after the delay
/// from PHI1 to PHI2, PHI2 rises, and it falls one pulse width later.
pub open spec fn with_period(
    queue: Seq<Event>,
    config: ClockConfig,
    phi1: SignalId,
    phi2: SignalId,
    t: int,
) -> Seq<Event> {
    scheduled(
        scheduled(
            scheduled(
                scheduled(queue, clock_event(t, phi1, SignalLevel::High)),
                clock_event(t + config.phi1_width, phi1, SignalLevel::Low),
            ),
            clock_event(t + config.phi2_start(), phi2, SignalLevel::High),
        ),
        clock_event(t + config.phi2_end(), phi2, SignalLevel::Low),
    )
}

/// The queue with the edges of `n` periods from `start` on, each
/// period one span after the one before.
pub open spec fn with_periods(
    queue: Seq<Event>,
    config: ClockConfig,
    phi1: SignalId,
    phi2: SignalId,
    start: int,
    n: nat,
) -> Seq<Event>
    decreases n,
{
    if n == 0 {
        queue
    } else {
        with_period(
            with_periods(queue, config, phi1, phi2, start, (n - 1) as nat),
            config,
            phi1,
            phi2,
            start + (n - 1) * config.span(),
        )
    }
}

/// Clock edges.
#[derive(Clone, Copy, Debug, PartialEq, Eq, Structural)]
pub enum ClockEdge {
    /// No edge.
    NoEdge,
    Phi1Rising,
    Phi1Falling,
    Phi2Rising,
    Phi2Falling,
}

impl ClockEdge {
    pub fn is_rising(self) -> (yes: bool)
        ensures
            yes == (self == ClockEdge::Phi1Rising || self == ClockEdge::Phi2Rising),
    {
        matches!(self, ClockEdge::Phi1Rising | ClockEdge::Phi2Rising)
    }

    pub fn is_falling(self) -> (yes: bool)
        ensures
            yes == (self == ClockEdge::Phi1Falling || self == ClockEdge::Phi2Falling),
    {
        matches!(self, ClockEdge::Phi1Falling | ClockEdge::Phi2Falling)
    }

    pub fn is_phi1(self) -> (yes: bool)
        ensures
            yes == (self == ClockEdge::Phi1Rising || self == ClockEdge::Phi1Falling),
    {
        matches!(self, ClockEdge::Phi1Rising | ClockEdge::Phi1Falling)
    }

    pub fn is_phi2(self) -> (yes: bool)
        ensures
            yes == (self == ClockEdge::Phi2Rising || self == ClockEdge::Phi2Falling),
    {
        matches!(self, ClockEdge::Phi2Rising | ClockEdge::Phi2Falling)
    }
}

/// What a clock generator is.
pub struct ClockState {
    pub config: ClockConfig,
    pub phi1: SignalState,
    pub phi2: SignalState,
    /// Where in the period the next edge is due.
    pub phase_time: Time,
    /// Periods completed.
    pub cycle_count: u64,
}

impl ClockState {
    /// Whether PHI1 is high.
    pub open spec fn phi1_high(self) -> bool {
        self.phi1.current == SignalLevel::High
    }

    /// Whether PHI2 is high.
    pub open spec fn phi2_high(self) -> bool {
        self.phi2.current == SignalLevel::High
    }

    /// PHI1 and PHI2 are not both high.
    pub open spec fn non_overlapping(self) -> bool {
        !(self.phi1_high() && self.phi2_high())
    }

    /// The edges of a period fit in a `Time`; the signals keep their
    /// histories within bounds; PHI1 is high only while its falling edge is
    /// due, and PHI2 only while its own falling edge is due and no other.
    pub open spec fn wf(self) -> bool {
        &&& self.config.fits()
        &&& self.phi1.wf()
        &&& self.phi2.wf()
        &&& self.phi1_high() ==> self.phase_time == self.config.phi1_width && !self.phi2_high()
        &&& self.phi2_high() ==> self.phase_time == self.config.phi2_end() && self.phase_time != 0
            && self.phase_time != self.config.phi1_width
    }

    /// The edge that a tick produces.
    pub open spec fn due(self) -> ClockEdge {
        if self.phase_time == 0 {
            ClockEdge::Phi1Rising
        } else if self.phase_time == self.config.phi1_width {
            ClockEdge::Phi1Falling
        } else if self.phase_time == self.config.phi2_start() {
            ClockEdge::Phi2Rising
        } else if self.phase_time == self.config.phi2_end() {
            ClockEdge::Phi2Falling
        } else {
            ClockEdge::NoEdge
        }
    }

    /// The clock after a tick at `time`: the due edge has happened, and
    /// the next one is due. The last falling edge completes a period.
    pub open spec fn ticked(self, time: Time) -> ClockState {
        match self.due() {
            ClockEdge::Phi1Rising => ClockState {
                phi1: self.phi1.updated(time, SignalLevel::High),
                phase_time: self.config.phi1_width,
                ..self
            },
            ClockEdge::Phi1Falling => ClockState {
                phi1: self.phi1.updated(time, SignalLevel::Low),
                phase_time: self.config.phi2_start() as u64,
                ..self
            },
            ClockEdge::Phi2Rising => ClockState {
                phi2: self.phi2.updated(time, SignalLevel::High),
                phase_time: self.config.phi2_end() as u64,
                ..self
            },
            ClockEdge::Phi2Falling => ClockState {
                phi2: self.phi2.updated(time, SignalLevel::Low),
                phase_time: 0,
                cycle_count: (self.cycle_count + 1) as u64,
                ..self
            },
            ClockEdge::NoEdge => self,
        }
    }

    /// A clock at rest: both phases low, a PHI1 rising edge due.
    pub open spec fn at_rest(config: ClockConfig) -> ClockState {
        ClockState {
            config,
            phi1: SignalState::fresh("PHI1"@, SignalLevel::Low, 10_000),
            phi2: SignalState::fresh("PHI2"@, SignalLevel::Low, 10_000),
            phase_time: 0,
            cycle_count: 0,
        }
    }
}

/// A tick keeps the clock well formed; so PHI1 and PHI2 are never high
/// together, whatever the configuration.
pub proof fn lemma_tick_keeps_non_overlap(clock: ClockState, time: Time)
    requires
        clock.wf(),
    ensures
        clock.ticked(time).wf(),
        clock.ticked(time).non_overlapping(),
        clock.non_overlapping(),
{
    lemma_update_keeps_wf(clock.phi1, time, SignalLevel::High);
    lemma_update_keeps_wf(clock.phi1, time, SignalLevel::Low);
    lemma_update_keeps_wf(clock.phi2, time, SignalLevel::High);
    lemma_update_keeps_wf(clock.phi2, time, SignalLevel::Low);
}

/// Two-phase clock generator.
#[derive(Debug)]
pub struct TwoPhaseClockTwoPhaseClock {
    /// Configuration.
    pub config: ClockConfig,
    /// PHI1.
    pub phi1: Signal,
    /// PHI2.
    pub phi2: Signal,
    /// Where in the period the next edge is due.
    phase_time: Time,
    /// Periods completed.
    cycle_count: u64,
}

impl View for TwoPhaseClockTwoPhaseClock {
    type V = ClockState;

    closed spec fn view(&self) -> ClockState {
        ClockState {
            config: self.config,
            phi1: self.phi1@,
            phi2: self.phi2@,
            phase_time: self.phase_time,
            cycle_count: self.cycle_count,
        }
    }
}

impl TwoPhaseClockTwoPhaseClock {
    /// A clock at rest.
    pub fn new(config: ClockConfig) -> (clock: TwoPhaseClockTwoPhaseClock)
        ensures
            clock@ == ClockState::at_rest(config),
            config.fits() ==> clock@.wf(),
    {
        TwoPhaseClockTwoPhaseClock {
            config,
            phi1: Signal::new("PHI1", SignalLevel::Low),
            phi2: Signal::new("PHI2", SignalLevel::Low),
            phase_time: 0,
            cycle_count: 0,
        }
    }

    /// A clock at rest with the typical configuration.
    pub fn default_config() -> (clock: TwoPhaseClockTwoPhaseClock)
        ensures
            clock@ == ClockState::at_rest(ClockConfig::typical()),
            clock@.wf(),
    {
        TwoPhaseClockTwoPhaseClock::new(ClockConfig::default())
    }

    /// The configuration.
    pub fn config(&self) -> (config: ClockConfig)
        ensures
            config == self@.config,
    {
        self.config
    }

    /// Periods completed.
    pub fn cycle_count(&self) -> (count: u64)
        ensures
            count == self@.cycle_count,
    {
        self.cycle_count
    }

    /// Whether PHI1 is high.
    pub fn phi1_high(&self) -> (high: bool)
        ensures
            high == self@.phi1_high(),
    {
        self.phi1.level() == SignalLevel::High
    }

    /// Whether PHI2 is high.
    pub fn phi2_high(&self) -> (high: bool)
        ensures
            high == self@.phi2_high(),
    {
        self.phi2.level() == SignalLevel::High
    }

    /// Schedules the edges of `num_cycles` periods from `start_time`
    /// on in `sim`, PHI1 on signal `phi1_id` and PHI2 on `phi2_id`.
    pub fn schedule_events(
        &self,
        sim: &mut Simulator,
        phi1_id: SignalId,
        phi2_id: SignalId,
        start_time: Time,
        num_cycles: u64,
    )
        requires
            old(sim)@.wf(),
            start_time >= old(sim)@.current_time,
            start_time + num_cycles * self@.config.span() <= u64::MAX,
        ensures
            final(sim)@ == (SimState {
                pending: with_periods(
                    old(sim)@.pending,
                    self@.config,
                    phi1_id,
                    phi2_id,
                    start_time as int,
                    num_cycles as nat,
                ),
                ..old(sim)@
            }),
            final(sim)@.wf(),
    {
        let mut t: Time = start_time;
        let mut done: u64 = 0;
        let ghost span = self@.config.span();
        while done < num_cycles
            invariant
                done <= num_cycles,
                span == self@.config.span(),
                span >= 0,
                start_time + num_cycles * span <= u64::MAX,
                t == start_time + done * span,
                t >= old(sim)@.current_time,
                sim@ == (SimState {
                    pending: with_periods(
                        old(sim)@.pending,
                        self@.config,
                        phi1_id,
                        phi2_id,
                        start_time as int,
                        done as nat,
                    ),
                    ..old(sim)@
                }),
                sim@.wf(),
            decreases num_cycles - done,
        {
            proof {
                assert((done + 1) * span <= num_cycles * span) by (nonlinear_arith)
                    requires
                        done + 1 <= num_cycles,
                        span >= 0,
                ;
                assert((done + 1) * span == done * span + span) by (nonlinear_arith);
            }
            sim.schedule(t, phi1_id, SignalLevel::High, EventSource::Clock);
            t += self.config.phi1_width;
            sim.schedule(t, phi1_id, SignalLevel::Low, EventSource::Clock);
            t += self.config.phi1_to_phi2_delay;
            sim.schedule(t, phi2_id, SignalLevel::High, EventSource::Clock);
            t += self.config.phi2_width;
            sim.schedule(t, phi2_id, SignalLevel::Low, EventSource::Clock);
            t += self.config.phi2_to_phi1_delay;
            done += 1;
        }
    }

    /// Advances the clock by one edge and returns it. The edges come in
    /// the order PHI1 rising, PHI1 falling, PHI2 rising, PHI2 falling;
    /// the last completes a period.
    pub fn tick(&mut self, current_time: Time) -> (edge: ClockEdge)
        requires
            old(self)@.wf(),
            old(self)@.cycle_count < u64::MAX,
        ensures
            edge == old(self)@.due(),
            final(self)@ == old(self)@.ticked(current_time),
            final(self)@.wf(),
            final(self)@.non_overlapping(),
    {
        proof {
            lemma_tick_keeps_non_overlap(self@, current_time);
        }
        let t: Time = self.phase_time;
        if t == 0 {
            self.phi1.update(current_time, SignalLevel::High);
            self.phase_time += self.config.phi1_width;
            return ClockEdge::Phi1Rising;
        }
        if t == self.config.phi1_width {
            self.phi1.update(current_time, SignalLevel::Low);
            self.phase_time += self.config.phi1_to_phi2_delay;
            return ClockEdge::Phi1Falling;
        }
        let phi2_start: Time = self.config.phi1_width + self.config.phi1_to_phi2_delay;
        if t == phi2_start {
            self.phi2.update(current_time, SignalLevel::High);
            self.phase_time += self.config.phi2_width;
            return ClockEdge::Phi2Rising;
        }
        let phi2_end: Time = phi2_start + self.config.phi2_width;
        if t == phi2_end {
            self.phi2.update(current_time, SignalLevel::Low);
            self.phase_time = 0;
            self.cycle_count += 1;
            return ClockEdge::Phi2Falling;
        }
        ClockEdge::NoEdge
    }

    /// Brings the clock to rest; the configuration stays.
    pub fn reset(&mut self)
        ensures
            final(self)@ == ClockState::at_rest(old(self)@.config),
            old(self)@.config.fits() ==> final(self)@.wf(),
    {
        self.phi1 = Signal::new("PHI1", SignalLevel::Low);
        self.phi2 = Signal::new("PHI2", SignalLevel::Low);
        self.phase_time = 0;
        self.cycle_count = 0;
    }
}

impl Clone for TwoPhaseClockTwoPhaseClock {
    fn clone(&self) -> (copy: TwoPhaseClockTwoPhaseClock)
        ensures
            copy@ == self@,
    {
        TwoPhaseClockTwoPhaseClock {
            config: self.config,
            phi1: self.phi1.clone(),
            phi2: self.phi2.clone(),
            phase_time: self.phase_time,
            cycle_count: self.cycle_count,
        }
    }
}

} // verus!
