//! The event-driven simulation engine.
//!
//! The simulator owns the signals and all gates. It keeps the pending
//! events in order of time and processes them one by one: an event that
//! changes its signal makes every gate that reads the signal compute its
//! output anew, and a gate whose output will change schedules an event
//! one propagation delay later.

use vstd::prelude::*;
use vstd::slice::slice_index_get;
use crate::sim::event::{Event, EventSource};
use crate::sim::gate::Gate;
use crate::sim::signal::{lemma_update_keeps_wf, Signal, SignalId, SignalLevel, SignalState};
use crate::sim::timing::Time;

verus! {

/// Configuration of the simulator.
#[derive(Clone, Copy, Debug)]
pub struct SimulatorConfig {
    /// The time after which no event is applied; 0 for no limit.
    pub max_time: Time,
    /// Whether signals take their history limit from `max_history`.
    pub record_history: bool,
    /// History limit of each signal.
    pub max_history: usize,
    /// The most events that are processed at one and the same time
    /// after the first: the guard against zero-delay loops.
    pub max_delta_cycles: usize,
}

impl SimulatorConfig {
    /// No time limit, 10000 history entries, 1000 delta cycles.
    pub open spec fn standard() -> SimulatorConfig {
        SimulatorConfig {
            max_time: 0,
            record_history: true,
            max_history: 10_000,
            max_delta_cycles: 1000,
        }
    }
}

impl Default for SimulatorConfig {
    fn default() -> (config: SimulatorConfig)
        ensures
            config == SimulatorConfig::standard(),
    {
        SimulatorConfig {
            max_time: 0,
            record_history: true,
            max_history: 10_000,
            max_delta_cycles: 1000,
        }
    }
}

/// Statistics of a simulation run. The counters stop at the largest
/// number they can hold.
#[derive(Clone, Copy, Debug)]
pub struct SimulatorStats {
    /// Events processed.
    pub events_processed: u64,
    /// Simulation time elapsed.
    pub time_elapsed: Time,
    /// Clock cycles completed.
    pub clock_cycles: u64,
    /// The most events that were pending after an event was taken.
    pub peak_queue_depth: usize,
}

impl SimulatorStats {
    /// All counters zero.
    pub open spec fn zero() -> SimulatorStats {
        SimulatorStats { events_processed: 0, time_elapsed: 0, clock_cycles: 0, peak_queue_depth: 0 }
    }
}

impl Default for SimulatorStats {
    fn default() -> (stats: SimulatorStats)
        ensures
            stats == SimulatorStats::zero(),
    {
        SimulatorStats { events_processed: 0, time_elapsed: 0, clock_cycles: 0, peak_queue_depth: 0 }
    }
}

/// How many of the events happen after `time`.
pub open spec fn events_after(queue: Seq<Event>, time: Time) -> nat
    decreases queue.len(),
{
    if queue.len() == 0 {
        0
    } else {
        events_after(queue.drop_last(), time) + if queue.last().time > time {
            1nat
        } else {
            0nat
        }
    }
}

/// Whether the queue holds its events latest first. Its last event is
/// the next to be processed.
pub open spec fn latest_first(queue: Seq<Event>) -> bool {
    forall|i: int, j: int| 0 <= i <= j < queue.len() ==> queue[i].time >= queue[j].time
}

/// Whether no event of the queue happens before `time`.
pub open spec fn none_before(queue: Seq<Event>, time: Time) -> bool {
    forall|i: int| 0 <= i < queue.len() ==> (#[trigger] queue[i]).time >= time
}

/// The queue with `event` in it: behind all events that happen later,
/// and in front of those that happen earlier or at the same time. So
/// of two events at one time the one scheduled first is processed first.
pub open spec fn scheduled(queue: Seq<Event>, event: Event) -> Seq<Event> {
    queue.insert(events_after(queue, event.time) as int, event)
}

/// `time` plus `delay`, or the last time there is.
pub open spec fn time_plus(time: Time, delay: Time) -> Time {
    if time + delay > u64::MAX {
        u64::MAX
    } else {
        (time + delay) as u64
    }
}

/// The level of signal `id`; `X` for a signal that does not exist.
pub open spec fn level_of(signals: Seq<SignalState>, id: SignalId) -> SignalLevel {
    if id.0 < signals.len() {
        signals[id.0 as int].current
    } else {
        SignalLevel::X
    }
}

/// The levels of the signals `ids`.
pub open spec fn levels_of(signals: Seq<SignalState>, ids: Seq<SignalId>) -> Seq<SignalLevel> {
    Seq::new(ids.len(), |k: int| level_of(signals, ids[k]))
}

/// The event that gate `g` schedules at `now`, if its output will
/// change: one propagation delay later, the output takes the level that
/// this gate gives for the current levels of its inputs.
pub open spec fn reaction(
    signals: Seq<SignalState>,
    gates: Seq<Box<dyn Gate>>,
    g: int,
    now: Time,
) -> Option<Event> {
    let level = gates[g].response(levels_of(signals, gates[g].input_ids()));
    if level != level_of(signals, gates[g].output_id()) {
        Some(
            Event {
                time: time_plus(now, gates[g].delay_ps()),
                target: gates[g].output_id(),
                value: level,
                source: EventSource::Gate(g as usize),
            },
        )
    } else {
        None
    }
}

/// The queue after the first `n` gates have reacted to a change of
/// `target`: each gate that reads `target`, in the order of all gates'
/// numbers, schedules at most one event.
pub open spec fn propagated(
    queue: Seq<Event>,
    signals: Seq<SignalState>,
    gates: Seq<Box<dyn Gate>>,
    target: SignalId,
    now: Time,
    n: int,
) -> Seq<Event>
    decreases n,
{
    if n <= 0 {
        queue
    } else {
        let before = propagated(queue, signals, gates, target, now, n - 1);
        if gates[n - 1].input_ids().contains(target) && reaction(signals, gates, n - 1, now) is Some {
            scheduled(before, reaction(signals, gates, n - 1, now)->0)
        } else {
            before
        }
    }
}

/// What a simulator is.
pub struct SimState {
    /// The time of the event processed last.
    pub current_time: Time,
    /// Pending events, latest first: the last one is processed next.
    pub pending: Seq<Event>,
    /// The signals; signal `i` has id `i`.
    pub signals: Seq<SignalState>,
    /// The gates; gate `g` has number `g`.
    pub gates: Seq<Box<dyn Gate>>,
    pub config: SimulatorConfig,
    pub stats: SimulatorStats,
    /// Events processed at the current time after the first.
    pub delta_cycles: usize,
}

impl SimState {
    /// The pending events are in order and none lies in the past; every
    /// signal has an ordered history that ends at or before the current
    /// time; and signal ids fit in 32 bits.
    pub open spec fn wf(self) -> bool {
        &&& latest_first(self.pending)
        &&& none_before(self.pending, self.current_time)
        &&& self.signals.len() <= u32::MAX
        &&& forall|i: int|
            0 <= i < self.signals.len() ==> (#[trigger] self.signals[i]).wf()
                && self.signals[i].ordered_until(self.current_time)
    }

    /// Whether the zero-delay guard holds back the next event: the
    /// event is due at the current time, and as many events as the
    /// configuration allows were processed at that time already.
    pub open spec fn blocked(self) -> bool {
        self.pending.len() > 0 && self.pending.last().time == self.current_time
            && self.delta_cycles >= self.config.max_delta_cycles
    }

    /// The simulator after `event` was applied at the current time. An
    /// event for a signal that does not exist, or one that leaves its
    /// signal's level as it is, does nothing. Else the signal changes,
    /// and every gate that reads it reacts.
    pub open spec fn applied(self, event: Event) -> SimState {
        if event.target.0 >= self.signals.len() || self.signals[event.target.0 as int].current
            == event.value {
            self
        } else {
            let signals = self.signals.update(
                event.target.0 as int,
                self.signals[event.target.0 as int].updated(event.time, event.value),
            );
            SimState {
                signals,
                pending: propagated(
                    self.pending,
                    signals,
                    self.gates,
                    event.target,
                    self.current_time,
                    self.gates.len() as int,
                ),
                ..self
            }
        }
    }

    /// The simulator after the next event was taken from the queue:
    /// time has moved to the event, and the statistics count it.
    pub open spec fn taken(self) -> SimState {
        let event = self.pending.last();
        let rest = self.pending.drop_last();
        SimState {
            current_time: event.time,
            pending: rest,
            stats: SimulatorStats {
                events_processed: if self.stats.events_processed == u64::MAX {
                    u64::MAX
                } else {
                    (self.stats.events_processed + 1) as u64
                },
                time_elapsed: event.time,
                peak_queue_depth: if rest.len() > self.stats.peak_queue_depth {
                    rest.len() as usize
                } else {
                    self.stats.peak_queue_depth
                },
                ..self.stats
            },
            delta_cycles: if event.time == self.current_time {
                (self.delta_cycles + 1) as usize
            } else {
                0
            },
            ..self
        }
    }

    /// Whether the next event lies beyond the configured end of time.
    pub open spec fn past_end(self) -> bool {
        self.config.max_time > 0 && self.pending.last().time > self.config.max_time
    }

    /// What a step returns: the time of the event that it applied, or
    /// `None` where the queue is empty, the zero-delay guard holds the
    /// event back, or the event lies beyond the end of time.
    pub open spec fn step_result(self) -> Option<Time> {
        if self.pending.len() == 0 || self.blocked() || self.past_end() {
            None
        } else {
            Some(self.pending.last().time)
        }
    }

    /// The simulator after a step. Without a pending event, or with the
    /// zero-delay guard in the way, nothing changes. An event beyond the
    /// end of time is taken and dropped. Any other event is taken and
    /// applied.
    pub open spec fn stepped(self) -> SimState {
        if self.pending.len() == 0 || self.blocked() {
            self
        } else if self.past_end() {
            self.taken()
        } else {
            self.taken().applied(self.pending.last())
        }
    }

    /// The simulator after `n` steps.
    #[verifier::opaque]
    pub open spec fn stepped_by(self, n: nat) -> SimState
        decreases n,
    {
        if n == 0 {
            self
        } else {
            self.stepped().stepped_by((n - 1) as nat)
        }
    }

    /// A simulator without signals, gates and events at time 0.
    pub open spec fn empty(config: SimulatorConfig) -> SimState {
        SimState {
            current_time: 0,
            pending: Seq::empty(),
            signals: Seq::empty(),
            gates: Seq::empty(),
            config,
            stats: SimulatorStats::zero(),
            delta_cycles: 0,
        }
    }

    /// The history limit that a new signal gets.
    pub open spec fn history_limit(self) -> usize {
        if self.config.record_history {
            self.config.max_history
        } else {
            10_000
        }
    }

    /// The simulator after reset: time 0, no pending event, statistics
    /// zero, and every signal without history. Signals keep their
    /// levels; all gates stay.
    pub open spec fn after_reset(self) -> SimState {
        SimState {
            current_time: 0,
            pending: Seq::empty(),
            signals: Seq::new(self.signals.len(), |i: int| self.signals[i].cleared()),
            stats: SimulatorStats::zero(),
            delta_cycles: 0,
            ..self
        }
    }
}

/// In a queue that is latest first, the events after `time` are the
/// first `k`, where `k` is any index that separates them from the rest.
pub proof fn lemma_events_after_split(queue: Seq<Event>, time: Time, k: int)
    requires
        0 <= k <= queue.len(),
        forall|i: int| 0 <= i < k ==> (#[trigger] queue[i]).time > time,
        forall|i: int| k <= i < queue.len() ==> (#[trigger] queue[i]).time <= time,
    ensures
        events_after(queue, time) == k,
    decreases queue.len(),
{
    if queue.len() > 0 {
        let shorter = queue.drop_last();
        if k == queue.len() {
            lemma_events_after_split(shorter, time, k - 1);
        } else {
            lemma_events_after_split(shorter, time, k);
        }
    }
}

/// The events after `time` are a prefix of a queue that is latest
/// first.
pub proof fn lemma_events_after_prefix(queue: Seq<Event>, time: Time)
    requires
        latest_first(queue),
    ensures
        0 <= events_after(queue, time) <= queue.len(),
        forall|i: int| 0 <= i < events_after(queue, time) ==> (#[trigger] queue[i]).time > time,
        forall|i: int| events_after(queue, time) <= i < queue.len() ==> (#[trigger] queue[i]).time <= time,
    decreases queue.len(),
{
    if queue.len() > 0 {
        let shorter = queue.drop_last();
        lemma_events_after_prefix(shorter, time);
        let k = events_after(shorter, time) as int;
        if queue.last().time > time {
            assert forall|i: int| 0 <= i < queue.len() implies (#[trigger] queue[i]).time > time by {
                assert(queue[i].time >= queue[queue.len() - 1].time);
            }
            lemma_events_after_split(shorter, time, shorter.len() as int);
        } else {
            assert forall|i: int| 0 <= i < k implies (#[trigger] queue[i]).time > time by {
                assert(shorter[i].time > time);
            }
            assert forall|i: int| k <= i < queue.len() implies (#[trigger] queue[i]).time <= time by {
                if i < shorter.len() {
                    assert(shorter[i].time <= time);
                }
            }
        }
    }
}

/// Scheduling keeps the queue in order, one event longer, and free of
/// events before `now` where the new event is not before `now`.
pub proof fn lemma_scheduled(queue: Seq<Event>, event: Event, now: Time)
    requires
        latest_first(queue),
        none_before(queue, now),
        event.time >= now,
    ensures
        latest_first(scheduled(queue, event)),
        none_before(scheduled(queue, event), now),
        scheduled(queue, event).len() == queue.len() + 1,
{
    lemma_events_after_prefix(queue, event.time);
    let k = events_after(queue, event.time) as int;
    let q = scheduled(queue, event);
    assert forall|i: int, j: int| 0 <= i <= j < q.len() implies q[i].time >= q[j].time by {
        if i < k {
            assert(q[i] == queue[i]);
        } else if i > k {
            assert(q[i] == queue[i - 1]);
        }
        if j < k {
            assert(q[j] == queue[j]);
        } else if j > k {
            assert(q[j] == queue[j - 1]);
        }
    }
    assert forall|i: int| 0 <= i < q.len() implies (#[trigger] q[i]).time >= now by {
        if i < k {
            assert(q[i] == queue[i]);
        } else if i > k {
            assert(q[i] == queue[i - 1]);
        }
    }
}

/// Propagation keeps the queue in order and free of events before
/// `now`: a gate's event is never earlier than the change that caused it.
pub proof fn lemma_propagated(
    queue: Seq<Event>,
    signals: Seq<SignalState>,
    gates: Seq<Box<dyn Gate>>,
    target: SignalId,
    now: Time,
    n: int,
)
    requires
        latest_first(queue),
        none_before(queue, now),
    ensures
        latest_first(propagated(queue, signals, gates, target, now, n)),
        none_before(propagated(queue, signals, gates, target, now, n), now),
    decreases n,
{
    if n > 0 {
        lemma_propagated(queue, signals, gates, target, now, n - 1);
        let before = propagated(queue, signals, gates, target, now, n - 1);
        if gates[n - 1].input_ids().contains(target) && reaction(signals, gates, n - 1, now) is Some {
            lemma_scheduled(before, reaction(signals, gates, n - 1, now)->0, now);
        }
    }
}

/// A step keeps the simulator well formed, and time never runs
/// backwards: the events that steps process have non-decreasing
/// timestamps.
pub proof fn lemma_step_keeps_wf(s: SimState)
    requires
        s.wf(),
    ensures
        s.stepped().wf(),
        s.stepped().current_time >= s.current_time,
        s.step_result() is Some ==> s.step_result()->0 == s.stepped().current_time,
        s.stepped().gates == s.gates,
        s.stepped().config == s.config,
        s.stepped().signals.len() == s.signals.len(),
{
    if s.pending.len() > 0 && !s.blocked() {
        let event = s.pending.last();
        let t = s.taken();
        assert(event == s.pending[s.pending.len() - 1]);
        assert(event.time >= s.current_time);
        assert forall|i: int, j: int| 0 <= i <= j < t.pending.len() implies t.pending[i].time
            >= t.pending[j].time by {
            assert(t.pending[i] == s.pending[i]);
            assert(t.pending[j] == s.pending[j]);
        }
        assert forall|i: int| 0 <= i < t.pending.len() implies (#[trigger] t.pending[i]).time
            >= t.current_time by {
            assert(t.pending[i] == s.pending[i]);
            assert(s.pending[i].time >= s.pending[s.pending.len() - 1].time);
        }
        assert forall|i: int| 0 <= i < t.signals.len() implies (#[trigger] t.signals[i]).wf()
            && t.signals[i].ordered_until(t.current_time) by {
            assert(s.signals[i].wf());
            assert(s.signals[i].ordered_until(s.current_time));
        }
        assert(t.wf());
        if !s.past_end() {
            lemma_applied_keeps_wf(t, event);
        }
    }
}

/// Applying an event at the current time keeps the simulator well
/// formed.
pub proof fn lemma_applied_keeps_wf(s: SimState, event: Event)
    requires
        s.wf(),
        event.time == s.current_time,
    ensures
        s.applied(event).wf(),
        s.applied(event).current_time == s.current_time,
        s.applied(event).gates == s.gates,
        s.applied(event).config == s.config,
        s.applied(event).signals.len() == s.signals.len(),
{
    if !(event.target.0 >= s.signals.len() || s.signals[event.target.0 as int].current == event.value) {
        let k = event.target.0 as int;
        lemma_update_keeps_wf(s.signals[k], event.time, event.value);
        let a = s.applied(event);
        lemma_propagated(s.pending, a.signals, s.gates, event.target, s.current_time, s.gates.len() as int);
        assert forall|i: int| 0 <= i < a.signals.len() implies (#[trigger] a.signals[i]).wf()
            && a.signals[i].ordered_until(a.current_time) by {
            if i != k {
                assert(s.signals[i].wf());
            } else {
                assert(s.signals[k].ordered_until(s.current_time));
            }
        }
    }
}

/// No step later is now, and one step more is one step further.
pub proof fn lemma_stepped_by_unfold(s: SimState, n: nat)
    ensures
        s.stepped_by(0) == s,
        s.stepped_by(n + 1) == s.stepped_by(n).stepped(),
    decreases n,
{
    reveal(SimState::stepped_by);
    if n > 0 {
        lemma_stepped_by_unfold(s.stepped(), (n - 1) as nat);
        assert(s.stepped_by(n) == s.stepped().stepped_by((n - 1) as nat));
        assert(s.stepped_by(n + 1) == s.stepped().stepped_by(n));
    } else {
        assert(s.stepped_by(1) == s.stepped().stepped_by(0));
    }
}

/// Across any number of steps time does not run backwards.
pub proof fn lemma_time_is_monotone(s: SimState, n: nat)
    requires
        s.wf(),
    ensures
        s.stepped_by(n).wf(),
        s.stepped_by(n).current_time >= s.current_time,
    decreases n,
{
    lemma_stepped_by_unfold(s, 0);
    if n > 0 {
        lemma_time_is_monotone(s, (n - 1) as nat);
        lemma_stepped_by_unfold(s, (n - 1) as nat);
        lemma_step_keeps_wf(s.stepped_by((n - 1) as nat));
    }
}

/// The views of the simulator's signals.
pub open spec fn signal_states(signals: Seq<Signal>) -> Seq<SignalState> {
    Seq::new(signals.len(), |i: int| signals[i]@)
}

/// The current level of signal `id`; `X` for a signal that does not
/// exist.
fn level_in(signals: &Vec<Signal>, id: SignalId) -> (level: SignalLevel)
    ensures
        level == level_of(signal_states(signals@), id),
{
    let index: usize = id.0 as usize;
    if index < signals.len() {
        signals[index].level()
    } else {
        SignalLevel::X
    }
}

/// Puts `event` into the queue: behind the events that happen later, in
/// front of all others.
fn insert_event(events: &mut Vec<Event>, event: Event)
    requires
        latest_first(old(events)@),
    ensures
        final(events)@ == scheduled(old(events)@, event),
{
    let mut pos: usize = 0;
    while pos < events.len() && events[pos].time > event.time
        invariant
            pos <= events@.len(),
            events@ == old(events)@,
            forall|i: int| 0 <= i < pos ==> (#[trigger] events@[i]).time > event.time,
        decreases events@.len() - pos,
    {
        pos += 1;
    }
    proof {
        assert forall|i: int| pos <= i < events@.len() implies (#[trigger] events@[i]).time
            <= event.time by {
            assert(events@[pos as int].time >= events@[i].time);
        }
        lemma_events_after_split(events@, event.time, pos as int);
    }
    events.insert(pos, event);
}

/// Whether `ids` holds `target`.
fn reads(ids: &[SignalId], target: SignalId) -> (found: bool)
    ensures
        found == ids@.contains(target),
{
    let mut i: usize = 0;
    while i < ids.len()
        invariant
            i <= ids@.len(),
            forall|k: int| 0 <= k < i ==> ids@[k] != target,
        decreases ids@.len() - i,
    {
        if *slice_index_get(ids, i) == target {
            return true;
        }
        i += 1;
    }
    false
}

/// `time` plus `delay`, or the last time there is.
fn add_delay(time: Time, delay: Time) -> (sum: Time)
    ensures
        sum == time_plus(time, delay),
{
    if delay > u64::MAX - time {
        u64::MAX
    } else {
        time + delay
    }
}

/// Computes the output of gate `gate_id` anew and schedules an event
/// if the output will change.
fn evaluate_gate(
    events: &mut Vec<Event>,
    signals: &Vec<Signal>,
    gates: &Vec<Box<dyn Gate>>,
    gate_id: usize,
    now: Time,
)
    requires
        gate_id < gates@.len(),
        latest_first(old(events)@),
    ensures
        final(events)@ == (match reaction(signal_states(signals@), gates@, gate_id as int, now) {
            Some(event) => scheduled(old(events)@, event),
            None => old(events)@,
        }),
{
    let ids = gates[gate_id].inputs();
    let mut inputs: Vec<SignalLevel> = Vec::new();
    let mut k: usize = 0;
    while k < ids.len()
        invariant
            k <= ids@.len(),
            inputs@.len() == k,
            forall|i: int| 0 <= i < k ==> inputs@[i] == level_of(signal_states(signals@), ids@[i]),
        decreases ids@.len() - k,
    {
        inputs.push(level_in(signals, *slice_index_get(ids, k)));
        k += 1;
    }
    assert(inputs@ =~= levels_of(signal_states(signals@), gates@[gate_id as int].input_ids()));
    let new_output: SignalLevel = gates[gate_id].evaluate(inputs.as_slice());
    let output_id: SignalId = gates[gate_id].output();
    let delay: Time = gates[gate_id].propagation_delay();
    let current_output: SignalLevel = level_in(signals, output_id);
    if new_output != current_output {
        insert_event(
            events,
            Event {
                time: add_delay(now, delay),
                target: output_id,
                value: new_output,
                source: EventSource::Gate(gate_id),
            },
        );
    }
}

/// Lets every gate that reads `target` react to its change.
fn propagate(
    events: &mut Vec<Event>,
    signals: &Vec<Signal>,
    gates: &Vec<Box<dyn Gate>>,
    target: SignalId,
    now: Time,
)
    requires
        latest_first(old(events)@),
        none_before(old(events)@, now),
    ensures
        final(events)@ == propagated(
            old(events)@,
            signal_states(signals@),
            gates@,
            target,
            now,
            gates@.len() as int,
        ),
{
    let mut g: usize = 0;
    while g < gates.len()
        invariant
            g <= gates@.len(),
            latest_first(old(events)@),
            none_before(old(events)@, now),
            events@ == propagated(old(events)@, signal_states(signals@), gates@, target, now, g as int),
        decreases gates@.len() - g,
    {
        proof {
            lemma_propagated(old(events)@, signal_states(signals@), gates@, target, now, g as int);
        }
        if reads(gates[g].inputs(), target) {
            evaluate_gate(events, signals, gates, g, now);
        }
        g += 1;
    }
}

/// Event-driven digital simulator.
pub struct Simulator {
    /// The time of the event processed last.
    current_time: Time,
    /// Pending events, latest first.
    events: Vec<Event>,
    /// The signals; signal `i` has id `i`.
    signals: Vec<Signal>,
    /// The gates.
    gates: Vec<Box<dyn Gate>>,
    /// Configuration.
    config: SimulatorConfig,
    /// Statistics.
    stats: SimulatorStats,
    /// Events processed at the current time after the first.
    delta_cycles: usize,
}

impl View for Simulator {
    type V = SimState;

    closed spec fn view(&self) -> SimState {
        SimState {
            current_time: self.current_time,
            pending: self.events@,
            signals: signal_states(self.signals@),
            gates: self.gates@,
            config: self.config,
            stats: self.stats,
            delta_cycles: self.delta_cycles,
        }
    }
}

impl Simulator {
    /// A simulator with the default configuration.
    pub fn new() -> (sim: Simulator)
        ensures
            sim@ == SimState::empty(SimulatorConfig::standard()),
            sim@.wf(),
    {
        Simulator::with_config(SimulatorConfig::default())
    }

    /// A simulator with the configuration `config`.
    pub fn with_config(config: SimulatorConfig) -> (sim: Simulator)
        ensures
            sim@ == SimState::empty(config),
            sim@.wf(),
    {
        let sim = Simulator {
            current_time: 0,
            events: Vec::new(),
            signals: Vec::new(),
            gates: Vec::new(),
            config,
            stats: SimulatorStats::default(),
            delta_cycles: 0,
        };
        assert(sim@.signals =~= SimState::empty(config).signals);
        sim
    }

    /// The current simulation time.
    pub fn time(&self) -> (time: Time)
        ensures
            time == self@.current_time,
    {
        self.current_time
    }

    /// The statistics.
    pub fn stats(&self) -> (stats: &SimulatorStats)
        ensures
            *stats == self@.stats,
    {
        &self.stats
    }

    /// Installs a signal named `name` at level `initial` and returns its
    /// id: the number of signals installed before it.
    pub fn alloc_signal(&mut self, name: &str, initial: SignalLevel) -> (id: SignalId)
        requires
            old(self)@.wf(),
            old(self)@.signals.len() < u32::MAX,
        ensures
            id.0 == old(self)@.signals.len(),
            final(self)@ == (SimState {
                signals: old(self)@.signals.push(
                    SignalState::fresh(name@, initial, old(self)@.history_limit()),
                ),
                ..old(self)@
            }),
            final(self)@.wf(),
    {
        let id = SignalId(self.signals.len() as u32);
        let signal = if self.config.record_history {
            Signal::with_history_limit(name, initial, self.config.max_history)
        } else {
            Signal::new(name, initial)
        };
        self.signals.push(signal);
        proof {
            assert(self@.signals =~= old(self)@.signals.push(
                SignalState::fresh(name@, initial, old(self)@.history_limit()),
            ));
            assert forall|i: int| 0 <= i < self@.signals.len() implies (#[trigger] self@.signals[i]).wf()
                && self@.signals[i].ordered_until(self@.current_time) by {
                if i < old(self)@.signals.len() {
                    assert(old(self)@.signals[i].wf());
                }
            }
        }
        id
    }

    /// Registers a gate and returns its number: the number of gates
    /// registered before it.
    pub fn add_gate(&mut self, gate: Box<dyn Gate>) -> (gate_id: usize)
        ensures
            gate_id == old(self)@.gates.len(),
            final(self)@ == (SimState { gates: old(self)@.gates.push(gate), ..old(self)@ }),
            old(self)@.wf() ==> final(self)@.wf(),
    {
        let gate_id: usize = self.gates.len();
        self.gates.push(gate);
        gate_id
    }

    /// Schedules the change of `target` to `value` at `time`, which
    /// must not lie in the past.
    pub fn schedule(&mut self, time: Time, target: SignalId, value: SignalLevel, source: EventSource)
        requires
            old(self)@.wf(),
            time >= old(self)@.current_time,
        ensures
            final(self)@ == (SimState {
                pending: scheduled(old(self)@.pending, Event { time, target, value, source }),
                ..old(self)@
            }),
            final(self)@.wf(),
    {
        let event = Event { time, target, value, source };
        proof {
            lemma_scheduled(self@.pending, event, self@.current_time);
        }
        insert_event(&mut self.events, event);
    }

    /// Schedules the change of `target` to `value` at `delay` after the
    /// current time.
    pub fn schedule_delta(&mut self, delay: Time, target: SignalId, value: SignalLevel, source: EventSource)
        requires
            old(self)@.wf(),
            old(self)@.current_time + delay <= u64::MAX,
        ensures
            final(self)@ == (SimState {
                pending: scheduled(
                    old(self)@.pending,
                    Event { time: (old(self)@.current_time + delay) as u64, target, value, source },
                ),
                ..old(self)@
            }),
            final(self)@.wf(),
    {
        let time: Time = self.current_time + delay;
        self.schedule(time, target, value, source);
    }

    /// The current level of signal `id`; `X` for a signal that does not
    /// exist.
    pub fn get_signal(&self, id: SignalId) -> (level: SignalLevel)
        ensures
            level == level_of(self@.signals, id),
    {
        level_in(&self.signals, id)
    }

    /// Signal `id`, if it exists.
    pub fn signal(&self, id: SignalId) -> (signal: Option<&Signal>)
        ensures
            id.0 < self@.signals.len() ==> signal is Some && signal->0@ == self@.signals[id.0 as int],
            id.0 >= self@.signals.len() ==> signal is None,
    {
        let index: usize = id.0 as usize;
        if index < self.signals.len() {
            Some(&self.signals[index])
        } else {
            None
        }
    }

    /// Signal `id` for changing, if it exists. Whoever changes the signal
    /// answers for its history: the simulator stays well formed only
    /// where the history stays ordered and ends at or before the
    /// current time.
    pub fn signal_mut(&mut self, id: SignalId) -> (signal: Option<&mut Signal>)
        ensures
            id.0 >= old(self)@.signals.len() ==> signal is None && final(self)@ == old(self)@,
            id.0 < old(self)@.signals.len() ==> signal is Some && (*signal->0)@ == old(self)@.signals[id.0 as int]
                && final(self)@ == (SimState {
                signals: old(self)@.signals.update(id.0 as int, (*final(signal->0))@),
                ..old(self)@
            }),
    {
        let index: usize = id.0 as usize;
        if index < self.signals.len() {
            let signal = &mut self.signals[index];
            proof {
                assert(signal_states(after_borrow(self.signals)@) =~= old(self)@.signals.update(
                    id.0 as int,
                    (*final(signal))@,
                ));
            }
            Some(signal)
        } else {
            None
        }
    }

    /// Processes the next event and returns its time, or `None` where
    /// there is none to process.
    pub fn step(&mut self) -> (time: Option<Time>)
        requires
            old(self)@.wf(),
        ensures
            time == old(self)@.step_result(),
            final(self)@ == old(self)@.stepped(),
            final(self)@.wf(),
            final(self)@.current_time >= old(self)@.current_time,
            time is Some ==> time->0 == final(self)@.current_time,
    {
        proof {
            lemma_step_keeps_wf(self@);
        }
        if self.events.len() == 0 {
            return None;
        }
        let next_time: Time = self.events[self.events.len() - 1].time;
        if next_time == self.current_time && self.delta_cycles >= self.config.max_delta_cycles {
            return None;
        }
        let event: Event = self.events.pop().unwrap();
        if self.events.len() > self.stats.peak_queue_depth {
            self.stats.peak_queue_depth = self.events.len();
        }
        self.delta_cycles = if event.time == self.current_time {
            self.delta_cycles + 1
        } else {
            0
        };
        self.current_time = event.time;
        if self.stats.events_processed < u64::MAX {
            self.stats.events_processed += 1;
        }
        self.stats.time_elapsed = self.current_time;
        assert(self@ == old(self)@.taken());
        if self.config.max_time > 0 && self.current_time > self.config.max_time {
            return None;
        }
        proof {
            lemma_applied_keeps_wf(self@, event);
        }
        self.apply_event(&event);
        Some(self.current_time)
    }

    /// Runs until an event at or after `end_time` was processed, or
    /// until no event is left to process: the run makes steps as long
    /// as each processes an event before `end_time`, and one step more.
    pub fn run_until(&mut self, end_time: Time)
        requires
            old(self)@.wf(),
        ensures
            final(self)@.wf(),
            final(self)@.current_time >= old(self)@.current_time,
            exists|m: nat|
                #[trigger] Simulator::ran_until(old(self)@, m, end_time) && final(self)@ == old(
                    self,
                )@.stepped_by(m).stepped() && (old(self)@.stepped_by(m).step_result() is None || old(
                    self,
                )@.stepped_by(m).step_result()->0 >= end_time),
    {
        let ghost mut n: nat = 0;
        proof {
            lemma_stepped_by_unfold(self@, 0);
        }
        loop
            invariant_except_break
                self@ == old(self)@.stepped_by(n),
            invariant
                old(self)@.wf(),
                self@.wf(),
                self@.current_time >= old(self)@.current_time,
                Simulator::ran_until(old(self)@, n, end_time),
            ensures
                self@.wf(),
                self@.current_time >= old(self)@.current_time,
                self@ == old(self)@.stepped_by(n).stepped(),
                Simulator::ran_until(old(self)@, n, end_time),
                old(self)@.stepped_by(n).step_result() is None || old(self)@.stepped_by(n).step_result()->0
                    >= end_time,
            decreases Simulator::time_left(self@, end_time), Simulator::deltas_left(self@),
        {
            let ghost before = self@;
            proof {
                lemma_stepped_by_unfold(old(self)@, n);
                lemma_step_makes_progress(before, end_time);
            }
            let result = self.step();
            match result {
                Some(time) => {
                    if time >= end_time {
                        break ;
                    }
                    proof {
                        assert forall|k: nat| k < n + 1 implies (#[trigger] old(self)@.stepped_by(k)).step_result() is Some
                            && old(self)@.stepped_by(k).step_result()->0 < end_time by {
                            if k == n {
                                assert(old(self)@.stepped_by(k) == before);
                            }
                        }
                        n = n + 1;
                    }
                },
                None => {
                    break ;
                },
            }
        }
    }

    /// Whether each of the first `n` steps from `s` processed an event
    /// before `end_time`.
    pub open spec fn ran_until(s: SimState, n: nat, end_time: Time) -> bool {
        forall|k: nat|
            k < n ==> (#[trigger] s.stepped_by(k)).step_result() is Some && s.stepped_by(
                k,
            ).step_result()->0 < end_time
    }

    /// The time that is left until `end_time`.
    pub open spec fn time_left(s: SimState, end_time: Time) -> int {
        if s.current_time < end_time {
            end_time - s.current_time
        } else {
            0
        }
    }

    /// The events that may still be processed at the current time.
    pub open spec fn deltas_left(s: SimState) -> int {
        if s.delta_cycles < s.config.max_delta_cycles {
            s.config.max_delta_cycles - s.delta_cycles
        } else {
            0
        }
    }

    /// Processes up to `count` events; stops early where none is left
    /// to process.
    pub fn run_events(&mut self, count: usize)
        requires
            old(self)@.wf(),
        ensures
            final(self)@.wf(),
            final(self)@.current_time >= old(self)@.current_time,
            exists|m: nat|
                #[trigger] Simulator::all_processed(old(self)@, m) && m <= count && ((m == count
                    && final(self)@ == old(self)@.stepped_by(m)) || (m < count && final(self)@ == old(
                    self,
                )@.stepped_by(m).stepped() && old(self)@.stepped_by(m).step_result() is None)),
    {
        let ghost mut n: nat = 0;
        let mut done: usize = 0;
        proof {
            lemma_stepped_by_unfold(self@, 0);
        }
        while done < count
            invariant_except_break
                self@ == old(self)@.stepped_by(n),
            invariant
                done <= count,
                n == done,
                old(self)@.wf(),
                self@.wf(),
                self@.current_time >= old(self)@.current_time,
                Simulator::all_processed(old(self)@, n),
            ensures
                self@.wf(),
                self@.current_time >= old(self)@.current_time,
                Simulator::all_processed(old(self)@, n),
                n <= count,
                (n == count && self@ == old(self)@.stepped_by(n)) || (n < count && self@ == old(
                    self,
                )@.stepped_by(n).stepped() && old(self)@.stepped_by(n).step_result() is None),
            decreases count - done,
        {
            let ghost before = self@;
            proof {
                lemma_stepped_by_unfold(old(self)@, n);
            }
            let result = self.step();
            if result.is_none() {
                break ;
            }
            done += 1;
            proof {
                assert forall|k: nat| k < n + 1 implies (#[trigger] old(self)@.stepped_by(k)).step_result() is Some by {
                    if k == n {
                        assert(old(self)@.stepped_by(k) == before);
                    }
                }
                n = n + 1;
            }
        }
    }

    /// Whether each of the first `n` steps from `s` processed an event.
    pub open spec fn all_processed(s: SimState, n: nat) -> bool {
        forall|k: nat| k < n ==> (#[trigger] s.stepped_by(k)).step_result() is Some
    }

    /// Applies `event` at the current time and lets the change
    /// propagate.
    fn apply_event(&mut self, event: &Event)
        requires
            old(self)@.wf(),
            event.time == old(self)@.current_time,
        ensures
            final(self)@ == old(self)@.applied(*event),
    {
        let index: usize = event.target.0 as usize;
        if index >= self.signals.len() {
            return ;
        }
        let old_value: SignalLevel = self.signals[index].level();
        if old_value == event.value {
            return ;
        }
        assert(self@.signals[index as int].wf());
        self.signals[index].update(event.time, event.value);
        proof {
            assert(self@.signals =~= old(self)@.signals.update(
                index as int,
                old(self)@.signals[index as int].updated(event.time, event.value),
            ));
        }
        propagate(&mut self.events, &self.signals, &self.gates, event.target, self.current_time);
    }

    /// Brings the simulation to its initial state: time 0, no pending
    /// event, statistics zero, histories empty.
    pub fn reset(&mut self)
        ensures
            final(self)@ == old(self)@.after_reset(),
            old(self)@.signals.len() <= u32::MAX ==> final(self)@.wf(),
    {
        self.current_time = 0;
        self.events.clear();
        self.stats = SimulatorStats::default();
        self.delta_cycles = 0;
        clear_histories(&mut self.signals);
        proof {
            assert(self@.signals =~= old(self)@.after_reset().signals);
        }
    }

    /// The ids of all signals, in ascending order.
    pub fn signal_ids(&self) -> (ids: Vec<SignalId>)
        requires
            self@.signals.len() <= u32::MAX,
        ensures
            ids@.len() == self@.signals.len(),
            forall|i: int| 0 <= i < ids@.len() ==> (#[trigger] ids@[i]).0 == i,
    {
        let mut ids: Vec<SignalId> = Vec::new();
        let mut i: usize = 0;
        while i < self.signals.len()
            invariant
                i <= self.signals@.len() <= u32::MAX,
                ids@.len() == i,
                forall|k: int| 0 <= k < i ==> (#[trigger] ids@[k]).0 == k,
            decreases self.signals@.len() - i,
        {
            ids.push(SignalId(i as u32));
            i += 1;
        }
        ids
    }

    /// The signal on which the simulation is stuck, if the zero-delay
    /// guard holds back the next event: that event's target.
    pub fn stalled_on(&self) -> (signal: Option<SignalId>)
        ensures
            signal == (if self@.blocked() {
                Some(self@.pending.last().target)
            } else {
                None
            }),
    {
        if self.events.len() == 0 {
            return None;
        }
        let next: Event = self.events[self.events.len() - 1];
        if next.time == self.current_time && self.delta_cycles >= self.config.max_delta_cycles {
            Some(next.target)
        } else {
            None
        }
    }

    /// Whether no event is pending.
    pub fn is_done(&self) -> (done: bool)
        ensures
            done == (self@.pending.len() == 0),
    {
        self.events.len() == 0
    }

    /// The number of pending events.
    pub fn pending_events(&self) -> (count: usize)
        ensures
            count == self@.pending.len(),
    {
        self.events.len()
    }
}

/// Clears the history of every signal.
fn clear_histories(signals: &mut Vec<Signal>)
    ensures
        final(signals)@.len() == old(signals)@.len(),
        forall|i: int| 0 <= i < old(signals)@.len() ==> (#[trigger] final(signals)@[i])@ == old(signals)@[i]@.cleared(),
{
    let mut i: usize = 0;
    while i < signals.len()
        invariant
            i <= signals@.len(),
            signals@.len() == old(signals)@.len(),
            forall|k: int| 0 <= k < i ==> (#[trigger] signals@[k])@ == old(signals)@[k]@.cleared(),
            forall|k: int| i <= k < signals@.len() ==> (#[trigger] signals@[k]) == old(signals)@[k],
        decreases signals@.len() - i,
    {
        signals[i].clear_history();
        i += 1;
    }
}

impl Default for Simulator {
    fn default() -> (sim: Simulator)
        ensures
            sim@ == SimState::empty(SimulatorConfig::standard()),
    {
        Simulator::new()
    }
}

/// A step that processes an event before `end_time` makes progress:
/// either time moves on, or one more of the events that may be
/// processed at the current time is used up. So a run cannot hang, not
/// even on a loop of gates without delay.
pub proof fn lemma_step_makes_progress(s: SimState, end_time: Time)
    requires
        s.wf(),
    ensures
        s.step_result() is Some && s.step_result()->0 < end_time ==> Simulator::time_left(
            s.stepped(),
            end_time,
        ) < Simulator::time_left(s, end_time) || (Simulator::time_left(s.stepped(), end_time)
            == Simulator::time_left(s, end_time) && Simulator::deltas_left(s.stepped())
            < Simulator::deltas_left(s)),
{
    lemma_step_keeps_wf(s);
    if s.step_result() is Some {
        let event = s.pending.last();
        assert(event == s.pending[s.pending.len() - 1]);
        lemma_applied_keeps_wf_delta(s.taken(), event);
    }
}

/// Applying an event leaves the count of delta cycles alone.
pub proof fn lemma_applied_keeps_wf_delta(s: SimState, event: Event)
    ensures
        s.applied(event).delta_cycles == s.delta_cycles,
        s.applied(event).current_time == s.current_time,
        s.applied(event).config == s.config,
{
}

} // verus!
