//! Four-valued signals and their transition history.

use vstd::prelude::*;
use vstd::slice::slice_index_get;
use crate::nibble;
use crate::sim::history::{
    empty_history,
    history_as_slice,
    history_clear,
    history_clone,
    history_drop_oldest,
    history_len,
    history_push,
    transitions,
    History,
    HISTORY_CAPACITY,
};
use crate::sim::timing::Time;

verus! {

/// Identifier of a signal, assigned densely by the simulator.
#[derive(Clone, Copy, Debug, PartialEq, Eq, Hash, Structural)]
pub struct SignalId(pub u32);

impl SignalId {
    /// The identifier that no signal ever has.
    pub fn invalid() -> (id: SignalId)
        ensures
            id == SignalId(0xFFFF_FFFF),
    {
        SignalId(0xFFFF_FFFF)
    }
}

/// Logic level of a digital signal.
///
/// The 4004 is a pMOS part with negative logic; the simulator abstracts
/// that to positive logic.
#[derive(Clone, Copy, Debug, PartialEq, Eq, Structural)]
pub enum SignalLevel {
    /// Logic 0.
    Low,
    /// Logic 1.
    High,
    /// High impedance: not driven.
    Z,
    /// Undefined: contention, or never set.
    X,
}

impl Default for SignalLevel {
    fn default() -> (level: SignalLevel)
        ensures
            level == SignalLevel::Z,
    {
        SignalLevel::Z
    }
}

impl SignalLevel {
    /// `Low` or `High`.
    pub open spec fn defined(self) -> bool {
        self == SignalLevel::Low || self == SignalLevel::High
    }

    /// NOT. An undefined input gives `X`.
    pub open spec fn not(self) -> SignalLevel {
        match self {
            SignalLevel::Low => SignalLevel::High,
            SignalLevel::High => SignalLevel::Low,
            _ => SignalLevel::X,
        }
    }

    /// AND. `Low` absorbs; otherwise an undefined input gives `X`.
    pub open spec fn conj(self, other: SignalLevel) -> SignalLevel {
        if self == SignalLevel::Low || other == SignalLevel::Low {
            SignalLevel::Low
        } else if self == SignalLevel::High && other == SignalLevel::High {
            SignalLevel::High
        } else {
            SignalLevel::X
        }
    }

    /// OR. `High` absorbs; otherwise an undefined input gives `X`.
    pub open spec fn disj(self, other: SignalLevel) -> SignalLevel {
        if self == SignalLevel::High || other == SignalLevel::High {
            SignalLevel::High
        } else if self == SignalLevel::Low && other == SignalLevel::Low {
            SignalLevel::Low
        } else {
            SignalLevel::X
        }
    }

    /// The level of a line with these drivers: `X` where a driver is `X`
    /// or two defined drivers disagree, the common level where the
    /// defined drivers agree, `Z` where none is defined.
    pub open spec fn resolution(drivers: Seq<SignalLevel>) -> SignalLevel {
        if drivers.contains(SignalLevel::X) {
            SignalLevel::X
        } else if drivers.contains(SignalLevel::High) && drivers.contains(SignalLevel::Low) {
            SignalLevel::X
        } else if drivers.contains(SignalLevel::High) {
            SignalLevel::High
        } else if drivers.contains(SignalLevel::Low) {
            SignalLevel::Low
        } else {
            SignalLevel::Z
        }
    }

    /// `High` for true, `Low` for false.
    pub open spec fn of_bool(b: bool) -> SignalLevel {
        if b {
            SignalLevel::High
        } else {
            SignalLevel::Low
        }
    }

    /// Whether the level is `Low` or `High`.
    #[inline]
    pub fn is_defined(self) -> (defined: bool)
        ensures
            defined == self.defined(),
    {
        matches!(self, SignalLevel::Low | SignalLevel::High)
    }

    /// Whether the level is `High`.
    #[inline]
    pub fn is_high(self) -> (high: bool)
        ensures
            high == (self == SignalLevel::High),
    {
        self == SignalLevel::High
    }

    /// Whether the level is `Low`.
    #[inline]
    pub fn is_low(self) -> (low: bool)
        ensures
            low == (self == SignalLevel::Low),
    {
        self == SignalLevel::Low
    }

    /// Logical NOT.
    #[inline]
    pub fn invert(self) -> (level: SignalLevel)
        ensures
            level == self.not(),
    {
        match self {
            SignalLevel::Low => SignalLevel::High,
            SignalLevel::High => SignalLevel::Low,
            SignalLevel::Z => SignalLevel::X,
            SignalLevel::X => SignalLevel::X,
        }
    }

    /// Logical AND.
    #[inline]
    pub fn and(self, other: SignalLevel) -> (level: SignalLevel)
        ensures
            level == self.conj(other),
    {
        match (self, other) {
            (SignalLevel::Low, _) | (_, SignalLevel::Low) => SignalLevel::Low,
            (SignalLevel::High, SignalLevel::High) => SignalLevel::High,
            _ => SignalLevel::X,
        }
    }

    /// Logical OR.
    #[inline]
    pub fn or(self, other: SignalLevel) -> (level: SignalLevel)
        ensures
            level == self.disj(other),
    {
        match (self, other) {
            (SignalLevel::High, _) | (_, SignalLevel::High) => SignalLevel::High,
            (SignalLevel::Low, SignalLevel::Low) => SignalLevel::Low,
            _ => SignalLevel::X,
        }
    }

    /// Resolves the level of a line from the levels of its drivers.
    pub fn resolve(drivers: &[SignalLevel]) -> (level: SignalLevel)
        ensures
            level == SignalLevel::resolution(drivers@),
    {
        let mut has_high: bool = false;
        let mut has_low: bool = false;
        let mut i: usize = 0;
        while i < drivers.len()
            invariant
                i <= drivers@.len(),
                !drivers@.subrange(0, i as int).contains(SignalLevel::X),
                has_high == drivers@.subrange(0, i as int).contains(SignalLevel::High),
                has_low == drivers@.subrange(0, i as int).contains(SignalLevel::Low),
            decreases drivers@.len() - i,
        {
            let level: SignalLevel = *slice_index_get(drivers, i);
            let ghost before = drivers@.subrange(0, i as int);
            let ghost after = drivers@.subrange(0, i as int + 1);
            assert(after =~= before.push(level));
            assert(forall|l: SignalLevel| after.contains(l) <==> (before.contains(l) || l == level)) by {
                assert forall|l: SignalLevel| after.contains(l) implies (before.contains(l) || l
                    == level) by {
                    let k = choose|k: int| 0 <= k < after.len() && after[k] == l;
                    if k < i {
                        assert(before[k] == l);
                    }
                }
                assert forall|l: SignalLevel| (before.contains(l) || l == level) implies after.contains(
                    l,
                ) by {
                    if before.contains(l) {
                        let k = choose|k: int| 0 <= k < before.len() && before[k] == l;
                        assert(after[k] == l);
                    } else {
                        assert(after[i as int] == l);
                    }
                }
            }
            match level {
                SignalLevel::High => {
                    has_high = true;
                },
                SignalLevel::Low => {
                    has_low = true;
                },
                SignalLevel::X => {
                    assert(drivers@[i as int] == SignalLevel::X);
                    return SignalLevel::X;
                },
                SignalLevel::Z => {},
            }
            i += 1;
        }
        assert(drivers@.subrange(0, i as int) =~= drivers@);
        match (has_high, has_low) {
            (true, true) => SignalLevel::X,
            (true, false) => SignalLevel::High,
            (false, true) => SignalLevel::Low,
            (false, false) => SignalLevel::Z,
        }
    }

    /// `High` for true, `Low` for false.
    pub fn from_bool(b: bool) -> (level: SignalLevel)
        ensures
            level == SignalLevel::of_bool(b),
    {
        if b {
            SignalLevel::High
        } else {
            SignalLevel::Low
        }
    }

    /// True for `High`, false for every other level.
    pub fn to_bool(self) -> (b: bool)
        ensures
            b == (self == SignalLevel::High),
    {
        self == SignalLevel::High
    }
}

/// Inverting twice gives back a defined level.
pub proof fn lemma_double_inversion(x: SignalLevel)
    requires
        x.defined(),
    ensures
        x.not().not() == x,
{
}

/// On defined levels NAND(a, NAND(a, b)) is `Low` exactly where `a` is
/// `High` and `b` is `Low`: it is the complement of `a AND NOT b`.
pub proof fn lemma_nand_nand(a: SignalLevel, b: SignalLevel)
    requires
        a.defined(),
        b.defined(),
    ensures
        a.conj(a.conj(b).not()).not() == a.conj(b.not()).not(),
        a.conj(a.conj(b).not()).not() == a.not().disj(b),
        a.conj(a.conj(b).not()).not().defined(),
{
}

/// How many of the transitions in `history` happen at or before `time`.
pub open spec fn transitions_until(history: Seq<(Time, SignalLevel)>, time: Time) -> nat
    decreases history.len(),
{
    if history.len() == 0 {
        0
    } else {
        transitions_until(history.drop_last(), time) + if history.last().0 <= time {
            1nat
        } else {
            0nat
        }
    }
}

/// Whether the transitions are in order of time.
pub open spec fn in_time_order(history: Seq<(Time, SignalLevel)>) -> bool {
    forall|i: int, j: int| 0 <= i <= j < history.len() ==> history[i].0 <= history[j].0
}

/// The time of the last transition, or 0 where there is none.
pub open spec fn last_time(history: Seq<(Time, SignalLevel)>) -> Time {
    if history.len() == 0 {
        0
    } else {
        history.last().0
    }
}

/// The most transitions that a signal with limit `max_history` keeps: the
/// limit itself, but at least 1 and at most [`HISTORY_CAPACITY`].
pub open spec fn history_bound(max_history: usize) -> usize {
    if max_history == 0 {
        1
    } else if max_history > HISTORY_CAPACITY {
        HISTORY_CAPACITY
    } else {
        max_history
    }
}

/// How many of the oldest transitions go when the bound is reached: a
/// quarter of the bound, but at least one.
pub open spec fn eviction_count(max_history: usize) -> usize {
    if history_bound(max_history) / 4 == 0 {
        1
    } else {
        (history_bound(max_history) / 4) as usize
    }
}

/// What a signal is: its name, its level and its recorded transitions.
pub struct SignalState {
    pub name: Seq<char>,
    pub current: SignalLevel,
    /// `(time, new level)`, oldest first.
    pub history: Seq<(Time, SignalLevel)>,
    pub max_history: usize,
}

impl SignalState {
    /// The history is within its bound.
    pub open spec fn wf(self) -> bool {
        self.history.len() <= history_bound(self.max_history)
    }

    /// The history is in order of time.
    pub open spec fn ordered(self) -> bool {
        in_time_order(self.history)
    }

    /// The history is in order of time and ends at or before `time`.
    pub open spec fn ordered_until(self, time: Time) -> bool {
        self.ordered() && last_time(self.history) <= time
    }

    /// A fresh signal.
    pub open spec fn fresh(name: Seq<char>, initial: SignalLevel, limit: usize) -> SignalState {
        SignalState { name, current: initial, history: Seq::empty(), max_history: limit }
    }

    /// The history after the oldest transitions have made room, where
    /// the bound was reached.
    pub open spec fn pruned(self) -> Seq<(Time, SignalLevel)> {
        if self.history.len() >= history_bound(self.max_history) {
            self.history.subrange(eviction_count(self.max_history) as int, self.history.len() as int)
        } else {
            self.history
        }
    }

    /// The signal after it was set to `value` at `time`: unchanged where
    /// it had that level already, else one transition longer.
    pub open spec fn updated(self, time: Time, value: SignalLevel) -> SignalState {
        if value == self.current {
            self
        } else {
            SignalState { current: value, history: self.pruned().push((time, value)), ..self }
        }
    }

    /// The level at `time`: that of the last transition at or before
    /// `time`. Before the first recorded transition the signal counts
    /// as having the level that this transition led to; without any
    /// transition it has the current level.
    pub open spec fn level_at(self, time: Time) -> SignalLevel {
        let k = transitions_until(self.history, time);
        if k > 0 {
            self.history[k - 1].1
        } else if self.history.len() > 0 {
            self.history[0].1
        } else {
            self.current
        }
    }

    /// The transitions from `start` to `end`, both included.
    pub open spec fn within(self, start: Time, end: Time) -> Seq<(Time, SignalLevel)> {
        self.history.filter(|t: (Time, SignalLevel)| start <= t.0 && t.0 <= end)
    }

    pub open spec fn cleared(self) -> SignalState {
        SignalState { history: Seq::empty(), ..self }
    }
}

/// In an ordered history the transitions at or before `time` are the
/// first `k`, where `k` is any index that separates them from the rest.
pub proof fn lemma_transitions_until_split(history: Seq<(Time, SignalLevel)>, time: Time, k: int)
    requires
        0 <= k <= history.len(),
        forall|i: int| 0 <= i < k ==> (#[trigger] history[i]).0 <= time,
        forall|i: int| k <= i < history.len() ==> (#[trigger] history[i]).0 > time,
    ensures
        transitions_until(history, time) == k,
    decreases history.len(),
{
    if history.len() > 0 {
        let shorter = history.drop_last();
        if k == history.len() {
            lemma_transitions_until_split(shorter, time, k - 1);
        } else {
            lemma_transitions_until_split(shorter, time, k);
        }
    }
}

/// Where no transition is recorded after `t1` and up to `t2`, as many
/// transitions happen until `t1` as until `t2`.
pub proof fn lemma_transitions_until_stable(history: Seq<(Time, SignalLevel)>, t1: Time, t2: Time)
    requires
        t1 <= t2,
        forall|i: int| 0 <= i < history.len() ==> !(t1 < (#[trigger] history[i]).0 && history[i].0 <= t2),
    ensures
        transitions_until(history, t1) == transitions_until(history, t2),
    decreases history.len(),
{
    if history.len() > 0 {
        let shorter = history.drop_last();
        assert forall|i: int| 0 <= i < shorter.len() implies !(t1 < (#[trigger] shorter[i]).0
            && shorter[i].0 <= t2) by {
            assert(shorter[i] == history[i]);
        }
        lemma_transitions_until_stable(shorter, t1, t2);
        assert(history.last() == history[history.len() - 1]);
    }
}

/// A signal's level does not change between two times unless a
/// transition is recorded between them.
pub proof fn lemma_level_stable_between(s: SignalState, t1: Time, t2: Time)
    requires
        t1 <= t2,
        forall|i: int|
            0 <= i < s.history.len() ==> !(t1 < (#[trigger] s.history[i]).0 && s.history[i].0 <= t2),
    ensures
        s.level_at(t1) == s.level_at(t2),
{
    lemma_transitions_until_stable(s.history, t1, t2);
}

/// An update keeps the history within its bound, and keeps it in order
/// where the update is not earlier than the last transition.
pub proof fn lemma_update_keeps_wf(s: SignalState, time: Time, value: SignalLevel)
    requires
        s.wf(),
    ensures
        s.updated(time, value).wf(),
        s.ordered_until(time) ==> s.updated(time, value).ordered_until(time),
        s.updated(time, value).current == value,
        s.updated(time, value).name == s.name,
        s.updated(time, value).max_history == s.max_history,
{
    if value != s.current {
        let p = s.pruned();
        let h = p.push((time, value));
        if s.ordered_until(time) {
            assert forall|i: int, j: int| 0 <= i <= j < h.len() implies h[i].0 <= h[j].0 by {
                let off: int = if s.history.len() >= history_bound(s.max_history) {
                    eviction_count(s.max_history) as int
                } else {
                    0
                };
                if j < p.len() {
                    assert(h[i] == s.history[i + off]);
                    assert(h[j] == s.history[j + off]);
                } else if i < p.len() {
                    assert(h[i] == s.history[i + off]);
                    assert(s.history[i + off].0 <= s.history[s.history.len() - 1].0);
                }
            }
        }
    }
}

/// A signal with its transition history.
#[derive(Debug)]
pub struct Signal {
    /// Name, such as "PHI1", "D0" or "SYNC".
    pub name: String,
    /// Current level.
    pub current: SignalLevel,
    /// Transitions `(time, new level)`, oldest first.
    history: History,
    /// Bound on the length of the history.
    max_history: usize,
}

impl View for Signal {
    type V = SignalState;

    closed spec fn view(&self) -> SignalState {
        SignalState {
            name: self.name@,
            current: self.current,
            history: transitions(self.history),
            max_history: self.max_history,
        }
    }
}

impl Clone for Signal {
    fn clone(&self) -> (copy: Signal)
        ensures
            copy@ == self@,
    {
        Signal {
            name: self.name.clone(),
            current: self.current,
            history: history_clone(&self.history),
            max_history: self.max_history,
        }
    }
}

impl Signal {
    /// A signal named `name` at level `initial`, which keeps up to
    /// 10000 transitions.
    pub fn new(name: &str, initial: SignalLevel) -> (signal: Signal)
        ensures
            signal@ == SignalState::fresh(name@, initial, 10_000),
            signal@.wf(),
    {
        Signal {
            name: name.to_owned(),
            current: initial,
            history: empty_history(),
            max_history: 10_000,
        }
    }

    /// A signal that keeps up to `limit` transitions: at least one, and
    /// at most [`HISTORY_CAPACITY`].
    pub fn with_history_limit(name: &str, initial: SignalLevel, limit: usize) -> (signal: Signal)
        ensures
            signal@ == SignalState::fresh(name@, initial, limit),
            signal@.wf(),
    {
        Signal {
            name: name.to_owned(),
            current: initial,
            history: empty_history(),
            max_history: limit,
        }
    }

    /// The current level.
    pub fn level(&self) -> (level: SignalLevel)
        ensures
            level == self@.current,
    {
        self.current
    }

    /// Sets the signal to `value` at `time`. A change of level is
    /// recorded; where the history has reached its bound, the oldest
    /// quarter of it goes first. Nothing happens where the signal has
    /// that level already.
    pub fn update(&mut self, time: Time, value: SignalLevel)
        requires
            old(self)@.wf(),
        ensures
            final(self)@ == old(self)@.updated(time, value),
            final(self)@.wf(),
            old(self)@.ordered_until(time) ==> final(self)@.ordered_until(time),
    {
        proof {
            lemma_update_keeps_wf(self@, time, value);
        }
        if value != self.current {
            let bound: usize = if self.max_history == 0 {
                1
            } else if self.max_history > HISTORY_CAPACITY {
                HISTORY_CAPACITY
            } else {
                self.max_history
            };
            if history_len(&self.history) >= bound {
                let quarter: usize = bound / 4;
                let remove_count: usize = if quarter == 0 {
                    1
                } else {
                    quarter
                };
                history_drop_oldest(&mut self.history, remove_count);
            }
            history_push(&mut self.history, time, value);
            self.current = value;
        }
    }

    /// The level at `time`, found by binary search in the history.
    pub fn value_at(&self, time: Time) -> (level: SignalLevel)
        requires
            self@.ordered(),
        ensures
            level == self@.level_at(time),
    {
        let history = history_as_slice(&self.history);
        let mut lo: usize = 0;
        let mut hi: usize = history.len();
        while lo < hi
            invariant
                history@ == self@.history,
                self@.ordered(),
                lo <= hi <= history@.len(),
                forall|i: int| 0 <= i < lo ==> (#[trigger] history@[i]).0 <= time,
                forall|i: int| hi <= i < history@.len() ==> (#[trigger] history@[i]).0 > time,
            decreases hi - lo,
        {
            let mid: usize = lo + (hi - lo) / 2;
            let entry: (Time, SignalLevel) = *slice_index_get(history, mid);
            if entry.0 <= time {
                assert forall|i: int| 0 <= i < mid + 1 implies (#[trigger] history@[i]).0 <= time by {
                    assert(history@[i].0 <= history@[mid as int].0);
                }
                lo = mid + 1;
            } else {
                assert forall|i: int| mid <= i < history@.len() implies (#[trigger] history@[i]).0
                    > time by {
                    assert(history@[mid as int].0 <= history@[i].0);
                }
                hi = mid;
            }
        }
        proof {
            lemma_transitions_until_split(self@.history, time, lo as int);
        }
        if lo > 0 {
            let entry: (Time, SignalLevel) = *slice_index_get(history, lo - 1);
            entry.1
        } else if history.len() > 0 {
            let first: (Time, SignalLevel) = *slice_index_get(history, 0);
            first.1
        } else {
            self.current
        }
    }

    /// The recorded transitions, oldest first.
    pub fn history(&self) -> (history: &[(Time, SignalLevel)])
        ensures
            history@ == self@.history,
    {
        history_as_slice(&self.history)
    }

    /// The recorded transitions from `start` to `end`, both included.
    pub fn transitions_in_range(&self, start: Time, end: Time) -> (found: Vec<(Time, SignalLevel)>)
        ensures
            found@ == self@.within(start, end),
    {
        let history = history_as_slice(&self.history);
        let ghost keep = |t: (Time, SignalLevel)| start <= t.0 && t.0 <= end;
        let mut found: Vec<(Time, SignalLevel)> = Vec::new();
        let mut i: usize = 0;
        assert(history@.subrange(0, 0).filter(keep) =~= Seq::<(Time, SignalLevel)>::empty()) by {
            reveal(Seq::filter);
        }
        while i < history.len()
            invariant
                history@ == self@.history,
                i <= history@.len(),
                keep == (|t: (Time, SignalLevel)| start <= t.0 && t.0 <= end),
                found@ == history@.subrange(0, i as int).filter(keep),
            decreases history@.len() - i,
        {
            let entry: (Time, SignalLevel) = *slice_index_get(history, i);
            proof {
                let before = history@.subrange(0, i as int);
                let after = history@.subrange(0, i as int + 1);
                assert(after.drop_last() =~= before);
                assert(after.last() == entry);
                reveal(Seq::filter);
            }
            if entry.0 >= start && entry.0 <= end {
                found.push(entry);
            }
            i += 1;
        }
        assert(history@.subrange(0, i as int) =~= history@);
        found
    }

    /// Forgets all transitions.
    pub fn clear_history(&mut self)
        ensures
            final(self)@ == old(self)@.cleared(),
            final(self)@.wf(),
    {
        history_clear(&mut self.history);
    }
}

/// The views of four lines, line 0 first.
pub open spec fn line_states(lines: [Signal; 4]) -> Seq<SignalState> {
    Seq::new(4, |i: int| lines[i]@)
}

/// Whether each of the lines keeps its history within its bound.
pub open spec fn lines_wf(lines: Seq<SignalState>) -> bool {
    lines.len() == 4 && forall|i: int| 0 <= i < 4 ==> (#[trigger] lines[i]).wf()
}

/// Whether each of the lines has an ordered history that ends at or
/// before `time`.
pub open spec fn lines_ordered_until(lines: Seq<SignalState>, time: Time) -> bool {
    forall|i: int| 0 <= i < lines.len() ==> (#[trigger] lines[i]).ordered_until(time)
}

/// The nibble on four lines: bit `i` is set where line `i` is `High`.
pub open spec fn lines_nibble(lines: Seq<SignalState>) -> int {
    nibble::nibble_of_bits(
        lines[0].current == SignalLevel::High,
        lines[1].current == SignalLevel::High,
        lines[2].current == SignalLevel::High,
        lines[3].current == SignalLevel::High,
    )
}

/// The lines after each was set to its bit of `value` at `time`.
pub open spec fn lines_driven(lines: Seq<SignalState>, time: Time, value: int) -> Seq<SignalState> {
    Seq::new(
        4,
        |i: int| lines[i].updated(time, SignalLevel::of_bool(nibble::bit_of(value, i))),
    )
}

/// The lines after each was set to `level` at `time`.
pub open spec fn lines_set(lines: Seq<SignalState>, time: Time, level: SignalLevel) -> Seq<
    SignalState,
> {
    Seq::new(4, |i: int| lines[i].updated(time, level))
}

/// Lines that were driven with a nibble carry that nibble, stay within
/// their bounds, and stay ordered where `time` is not in their past.
pub proof fn lemma_lines_driven(lines: Seq<SignalState>, time: Time, value: int)
    requires
        lines_wf(lines),
        0 <= value < 16,
    ensures
        lines_wf(lines_driven(lines, time, value)),
        lines_nibble(lines_driven(lines, time, value)) == value,
        forall|i: int| 0 <= i < 4 ==> (#[trigger] lines_driven(lines, time, value)[i]).current.defined(),
        lines_ordered_until(lines, time) ==> lines_ordered_until(
            lines_driven(lines, time, value),
            time,
        ),
{
    let driven = lines_driven(lines, time, value);
    assert forall|i: int| 0 <= i < 4 implies (#[trigger] driven[i]).wf() && driven[i].current
        == SignalLevel::of_bool(nibble::bit_of(value, i)) && (lines[i].ordered_until(time)
        ==> driven[i].ordered_until(time)) by {
        lemma_update_keeps_wf(lines[i], time, SignalLevel::of_bool(nibble::bit_of(value, i)));
    }
    nibble::lemma_nibble_bits(value);
    if lines_ordered_until(lines, time) {
        assert forall|i: int| 0 <= i < driven.len() implies (#[trigger] driven[i]).ordered_until(
            time,
        ) by {
            assert(lines[i].ordered_until(time));
        }
    }
}

/// Lines that were all set to one level have that level, stay within
/// their bounds, and stay ordered where `time` is not in their past.
pub proof fn lemma_lines_set(lines: Seq<SignalState>, time: Time, level: SignalLevel)
    requires
        lines_wf(lines),
    ensures
        lines_wf(lines_set(lines, time, level)),
        forall|i: int| 0 <= i < 4 ==> (#[trigger] lines_set(lines, time, level)[i]).current == level,
        lines_ordered_until(lines, time) ==> lines_ordered_until(lines_set(lines, time, level), time),
{
    let set = lines_set(lines, time, level);
    assert forall|i: int| 0 <= i < 4 implies (#[trigger] set[i]).wf() && set[i].current == level
        && (lines[i].ordered_until(time) ==> set[i].ordered_until(time)) by {
        lemma_update_keeps_wf(lines[i], time, level);
    }
    if lines_ordered_until(lines, time) {
        assert forall|i: int| 0 <= i < set.len() implies (#[trigger] set[i]).ordered_until(time) by {
            assert(lines[i].ordered_until(time));
        }
    }
}

/// Reads four lines as a nibble, line 0 the lowest bit.
pub fn read_lines(lines: &[Signal; 4]) -> (value: u8)
    ensures
        value == lines_nibble(line_states(*lines)),
        value < 16,
{
    nibble::from_bits(
        lines[0].current == SignalLevel::High,
        lines[1].current == SignalLevel::High,
        lines[2].current == SignalLevel::High,
        lines[3].current == SignalLevel::High,
    )
}

/// Sets each of four lines to its bit of the low nibble of `value`.
pub fn drive_lines(lines: &mut [Signal; 4], time: Time, value: u8)
    requires
        lines_wf(line_states(*old(lines))),
    ensures
        line_states(*final(lines)) == lines_driven(
            line_states(*old(lines)),
            time,
            (value % 16) as int,
        ),
        lines_wf(line_states(*final(lines))),
{
    let nibble: u8 = value % 16;
    let mut i: usize = 0;
    while i < 4
        invariant
            i <= 4,
            nibble == value % 16,
            lines_wf(line_states(*old(lines))),
            forall|j: int|
                0 <= j < i ==> (#[trigger] lines[j])@ == old(lines)[j]@.updated(
                    time,
                    SignalLevel::of_bool(nibble::bit_of(nibble as int, j)),
                ),
            forall|j: int| i <= j < 4 ==> (#[trigger] lines[j])@ == old(lines)[j]@,
        decreases 4 - i,
    {
        let level: SignalLevel = SignalLevel::from_bool(nibble::test_bit(nibble, i));
        assert(line_states(*old(lines))[i as int].wf());
        lines[i].update(time, level);
        i += 1;
    }
    proof {
        lemma_lines_driven(line_states(*old(lines)), time, nibble as int);
        assert(line_states(*lines) =~= lines_driven(line_states(*old(lines)), time, nibble as int));
    }
}

/// Sets each of four lines to `level`.
pub fn set_lines(lines: &mut [Signal; 4], time: Time, level: SignalLevel)
    requires
        lines_wf(line_states(*old(lines))),
    ensures
        line_states(*final(lines)) == lines_set(line_states(*old(lines)), time, level),
        lines_wf(line_states(*final(lines))),
{
    let mut i: usize = 0;
    while i < 4
        invariant
            i <= 4,
            lines_wf(line_states(*old(lines))),
            forall|j: int| 0 <= j < i ==> (#[trigger] lines[j])@ == old(lines)[j]@.updated(time, level),
            forall|j: int| i <= j < 4 ==> (#[trigger] lines[j])@ == old(lines)[j]@,
        decreases 4 - i,
    {
        assert(line_states(*old(lines))[i as int].wf());
        lines[i].update(time, level);
        i += 1;
    }
    proof {
        lemma_lines_set(line_states(*old(lines)), time, level);
        assert(line_states(*lines) =~= lines_set(line_states(*old(lines)), time, level));
    }
}

/// The character of the decimal digit `digit`.
pub open spec fn digit_char(digit: u8) -> char {
    if digit == 0 {
        '0'
    } else if digit == 1 {
        '1'
    } else if digit == 2 {
        '2'
    } else if digit == 3 {
        '3'
    } else if digit == 4 {
        '4'
    } else if digit == 5 {
        '5'
    } else if digit == 6 {
        '6'
    } else if digit == 7 {
        '7'
    } else if digit == 8 {
        '8'
    } else {
        '9'
    }
}

/// `format!` with a string and a one-digit number: the string followed
/// by the digit.
#[verifier::external_body]
fn numbered_name(prefix: &str, digit: u8) -> (name: String)
    requires
        digit < 10,
    ensures
        name@ == prefix@.push(digit_char(digit)),
{
    format!("{prefix}{digit}")
}

/// Four signals that carry a nibble, bit 0 on line 0.
#[derive(Debug)]
pub struct Bus4 {
    pub bits: [Signal; 4],
}

impl Clone for Bus4 {
    fn clone(&self) -> (copy: Bus4)
        ensures
            line_states(copy.bits) == line_states(self.bits),
    {
        let copy = Bus4 {
            bits: [
                self.bits[0].clone(),
                self.bits[1].clone(),
                self.bits[2].clone(),
                self.bits[3].clone(),
            ],
        };
        assert(line_states(copy.bits) =~= line_states(self.bits));
        copy
    }
}

impl Bus4 {
    /// The bus's lines, line 0 first.
    pub open spec fn lines(self) -> Seq<SignalState> {
        line_states(self.bits)
    }

    /// Four undriven lines named `name_prefix` followed by 0 to 3, each
    /// keeping up to 10000 transitions.
    pub fn new(name_prefix: &str) -> (bus: Bus4)
        ensures
            bus.lines() == Seq::new(
                4,
                |i: int|
                    SignalState::fresh(
                        name_prefix@.push(digit_char(i as u8)),
                        SignalLevel::Z,
                        10_000,
                    ),
            ),
            lines_wf(bus.lines()),
    {
        let bus = Bus4 {
            bits: [
                Signal::new(numbered_name(name_prefix, 0).as_str(), SignalLevel::Z),
                Signal::new(numbered_name(name_prefix, 1).as_str(), SignalLevel::Z),
                Signal::new(numbered_name(name_prefix, 2).as_str(), SignalLevel::Z),
                Signal::new(numbered_name(name_prefix, 3).as_str(), SignalLevel::Z),
            ],
        };
        assert(bus.lines() =~= Seq::new(
            4,
            |i: int|
                SignalState::fresh(name_prefix@.push(digit_char(i as u8)), SignalLevel::Z, 10_000),
        ));
        bus
    }

    /// The nibble on the bus: bit `i` is set where line `i` is `High`.
    pub fn value(&self) -> (value: u8)
        ensures
            value == lines_nibble(self.lines()),
            value < 16,
    {
        read_lines(&self.bits)
    }

    /// Puts the low nibble of `value` on the bus at `time`.
    pub fn update(&mut self, time: Time, value: u8)
        requires
            lines_wf(old(self).lines()),
        ensures
            final(self).lines() == lines_driven(old(self).lines(), time, (value % 16) as int),
            lines_wf(final(self).lines()),
            lines_nibble(final(self).lines()) == value % 16,
    {
        proof {
            lemma_lines_driven(self.lines(), time, (value % 16) as int);
        }
        drive_lines(&mut self.bits, time, value);
    }

    /// Sets all four lines to high impedance at `time`.
    pub fn tristate(&mut self, time: Time)
        requires
            lines_wf(old(self).lines()),
        ensures
            final(self).lines() == lines_set(old(self).lines(), time, SignalLevel::Z),
            lines_wf(final(self).lines()),
    {
        set_lines(&mut self.bits, time, SignalLevel::Z);
    }
}

} // verus!
