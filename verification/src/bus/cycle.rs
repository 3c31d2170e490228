//! The 8-phase machine cycle.
//!
//! - A1, A2, A3: the CPU sends the 12-bit ROM address.
//! - M1, M2: the ROM sends the 8-bit instruction.
//! - X1, X2, X3: execution.

use vstd::prelude::*;

pub mod cycle_timing;

verus! {

/// Phase within a machine cycle.
#[derive(Clone, Copy, Debug, PartialEq, Eq, Hash, Structural)]
pub enum BusCycle {
    /// The CPU sends address bits 0 to 3.
    A1,
    /// The CPU sends address bits 4 to 7.
    A2,
    /// The CPU sends address bits 8 to 11.
    A3,
    /// The ROM sends instruction bits 0 to 3.
    M1,
    /// The ROM sends instruction bits 4 to 7.
    M2,
    /// Execution phase 1.
    X1,
    /// Execution phase 2.
    X2,
    /// Execution phase 3.
    X3,
}

impl BusCycle {
    /// The phase's position in the cycle, 0 to 7.
    pub open spec fn number(self) -> int {
        match self {
            BusCycle::A1 => 0,
            BusCycle::A2 => 1,
            BusCycle::A3 => 2,
            BusCycle::M1 => 3,
            BusCycle::M2 => 4,
            BusCycle::X1 => 5,
            BusCycle::X2 => 6,
            BusCycle::X3 => 7,
        }
    }

    /// The phase that follows: `A1` follows `X3`.
    pub open spec fn successor(self) -> BusCycle {
        match self {
            BusCycle::A1 => BusCycle::A2,
            BusCycle::A2 => BusCycle::A3,
            BusCycle::A3 => BusCycle::M1,
            BusCycle::M1 => BusCycle::M2,
            BusCycle::M2 => BusCycle::X1,
            BusCycle::X1 => BusCycle::X2,
            BusCycle::X2 => BusCycle::X3,
            BusCycle::X3 => BusCycle::A1,
        }
    }

    /// The next phase in the cycle.
    pub fn next(self) -> (phase: BusCycle)
        ensures
            phase == self.successor(),
    {
        match self {
            BusCycle::A1 => BusCycle::A2,
            BusCycle::A2 => BusCycle::A3,
            BusCycle::A3 => BusCycle::M1,
            BusCycle::M1 => BusCycle::M2,
            BusCycle::M2 => BusCycle::X1,
            BusCycle::X1 => BusCycle::X2,
            BusCycle::X2 => BusCycle::X3,
            BusCycle::X3 => BusCycle::A1,
        }
    }

    /// Whether this is A1, A2 or A3.
    pub fn is_address_phase(self) -> (yes: bool)
        ensures
            yes == (self.number() <= 2),
    {
        matches!(self, BusCycle::A1 | BusCycle::A2 | BusCycle::A3)
    }

    /// Whether this is M1 or M2.
    pub fn is_memory_phase(self) -> (yes: bool)
        ensures
            yes == (3 <= self.number() <= 4),
    {
        matches!(self, BusCycle::M1 | BusCycle::M2)
    }

    /// Whether this is X1, X2 or X3.
    pub fn is_execution_phase(self) -> (yes: bool)
        ensures
            yes == (5 <= self.number()),
    {
        matches!(self, BusCycle::X1 | BusCycle::X2 | BusCycle::X3)
    }

    /// The phase's position in the cycle, 0 to 7.
    pub fn phase_number(self) -> (n: u8)
        ensures
            n == self.number(),
    {
        match self {
            BusCycle::A1 => 0,
            BusCycle::A2 => 1,
            BusCycle::A3 => 2,
            BusCycle::M1 => 3,
            BusCycle::M2 => 4,
            BusCycle::X1 => 5,
            BusCycle::X2 => 6,
            BusCycle::X3 => 7,
        }
    }
}

/// What the CPU is doing across machine cycles.
#[derive(Clone, Copy, Debug, PartialEq, Eq, Structural)]
pub enum MachineState {
    /// Fetching the first byte of an instruction.
    Fetch1,
    /// Fetching the second byte of a two-byte instruction.
    Fetch2,
    /// Executing.
    Execute,
    /// Halted (4040).
    Halted,
    /// Acknowledging an interrupt (4040).
    InterruptAck,
}

impl MachineState {
    /// Whether the CPU is fetching an instruction byte.
    pub fn is_fetching(self) -> (yes: bool)
        ensures
            yes == (self == MachineState::Fetch1 || self == MachineState::Fetch2),
    {
        matches!(self, MachineState::Fetch1 | MachineState::Fetch2)
    }
}

/// Where the machine stands: phase, state and counters.
#[derive(Clone, Copy, Debug)]
pub struct CycleState {
    /// Current phase.
    pub phase: BusCycle,
    /// Current machine state.
    pub state: MachineState,
    /// Machine cycles completed.
    pub cycle_count: u64,
    /// Instructions completed.
    pub instruction_count: u64,
    /// Whether the current instruction takes two machine cycles.
    pub two_cycle: bool,
    /// Whether this is the second of them.
    pub second_cycle: bool,
}

impl CycleState {
    /// The state at reset: phase A1 of the first fetch, counters zero.
    pub open spec fn initial() -> CycleState {
        CycleState {
            phase: BusCycle::A1,
            state: MachineState::Fetch1,
            cycle_count: 0,
            instruction_count: 0,
            two_cycle: false,
            second_cycle: false,
        }
    }

    /// The state when a machine cycle has ended: the cycle is counted,
    /// and the machine state moves on. A first fetch completes its
    /// instruction unless that takes two cycles; a second fetch always
    /// completes it; `Halted` and `InterruptAck` stay.
    pub open spec fn cycle_ended(self) -> CycleState {
        let counted = CycleState { cycle_count: (self.cycle_count + 1) as u64, ..self };
        match self.state {
            MachineState::Fetch1 => if self.two_cycle {
                CycleState { state: MachineState::Fetch2, second_cycle: true, ..counted }
            } else {
                CycleState { instruction_count: (self.instruction_count + 1) as u64, ..counted }
            },
            MachineState::Fetch2 => CycleState {
                state: MachineState::Fetch1,
                instruction_count: (self.instruction_count + 1) as u64,
                two_cycle: false,
                second_cycle: false,
                ..counted
            },
            MachineState::Execute => CycleState { state: MachineState::Fetch1, ..counted },
            _ => counted,
        }
    }

    /// The state one phase later.
    pub open spec fn advanced(self) -> CycleState {
        let moved = CycleState { phase: self.phase.successor(), ..self };
        if self.phase == BusCycle::X3 {
            moved.cycle_ended()
        } else {
            moved
        }
    }

    /// The state `n` phases later.
    pub open spec fn advanced_by(self, n: nat) -> CycleState
        decreases n,
    {
        if n == 0 {
            self
        } else {
            self.advanced().advanced_by((n - 1) as nat)
        }
    }

    /// Whether both counters can still count.
    pub open spec fn can_count(self) -> bool {
        self.cycle_count < u64::MAX && self.instruction_count < u64::MAX
    }

    /// The initial cycle state.
    pub fn new() -> (state: CycleState)
        ensures
            state == CycleState::initial(),
    {
        CycleState {
            phase: BusCycle::A1,
            state: MachineState::Fetch1,
            cycle_count: 0,
            instruction_count: 0,
            two_cycle: false,
            second_cycle: false,
        }
    }

    /// Advances by one phase.
    pub fn advance(&mut self)
        requires
            old(self).can_count(),
        ensures
            *final(self) == old(self).advanced(),
    {
        let prev_phase: BusCycle = self.phase;
        self.phase = self.phase.next();
        if prev_phase == BusCycle::X3 {
            self.cycle_count += 1;
            match self.state {
                MachineState::Fetch1 => {
                    if self.two_cycle {
                        self.state = MachineState::Fetch2;
                        self.second_cycle = true;
                    } else {
                        self.instruction_count += 1;
                        self.two_cycle = false;
                    }
                },
                MachineState::Fetch2 => {
                    self.state = MachineState::Fetch1;
                    self.instruction_count += 1;
                    self.two_cycle = false;
                    self.second_cycle = false;
                },
                MachineState::Execute => {
                    self.state = MachineState::Fetch1;
                },
                MachineState::Halted | MachineState::InterruptAck => {},
            }
        }
    }

    /// Marks the current instruction as taking two machine cycles.
    pub fn set_two_cycle(&mut self)
        ensures
            *final(self) == (CycleState { two_cycle: true, ..*old(self) }),
    {
        self.two_cycle = true;
    }

    /// Enters the halted state.
    pub fn halt(&mut self)
        ensures
            *final(self) == (CycleState { state: MachineState::Halted, ..*old(self) }),
    {
        self.state = MachineState::Halted;
    }

    /// Leaves the halted state for a first fetch; does nothing in any
    /// other state.
    pub fn resume(&mut self)
        ensures
            *final(self) == (if old(self).state == MachineState::Halted {
                CycleState { state: MachineState::Fetch1, ..*old(self) }
            } else {
                *old(self)
            }),
    {
        if self.state == MachineState::Halted {
            self.state = MachineState::Fetch1;
        }
    }

    /// Begins the interrupt acknowledge sequence.
    pub fn interrupt_ack(&mut self)
        ensures
            *final(self) == (CycleState { state: MachineState::InterruptAck, ..*old(self) }),
    {
        self.state = MachineState::InterruptAck;
    }

    /// Returns to the initial state.
    pub fn reset(&mut self)
        ensures
            *final(self) == CycleState::initial(),
    {
        *self = CycleState::new();
    }
}

impl Default for CycleState {
    fn default() -> (state: CycleState)
        ensures
            state == CycleState::initial(),
    {
        CycleState::new()
    }
}

/// Advancing by `a + b` phases is advancing by `a` and then by `b`.
pub proof fn lemma_advanced_by_sum(s: CycleState, a: nat, b: nat)
    ensures
        s.advanced_by(a + b) == s.advanced_by(a).advanced_by(b),
    decreases a,
{
    if a > 0 {
        lemma_advanced_by_sum(s.advanced(), (a - 1) as nat, b);
        assert(s.advanced_by(a + b) == s.advanced().advanced_by((a + b - 1) as nat));
    }
}

/// From A1 the first seven phases of a cycle change the phase only.
pub proof fn lemma_seven_phases(s: CycleState)
    requires
        s.phase == BusCycle::A1,
    ensures
        s.advanced_by(7) == (CycleState { phase: BusCycle::X3, ..s }),
{
    let s1 = s.advanced();
    let s2 = s1.advanced();
    let s3 = s2.advanced();
    let s4 = s3.advanced();
    let s5 = s4.advanced();
    let s6 = s5.advanced();
    let s7 = s6.advanced();
    assert(s7.advanced_by(0) == s7);
    assert(s6.advanced_by(1) == s7);
    assert(s5.advanced_by(2) == s7);
    assert(s4.advanced_by(3) == s7);
    assert(s3.advanced_by(4) == s7);
    assert(s2.advanced_by(5) == s7);
    assert(s1.advanced_by(6) == s7);
    assert(s.advanced_by(7) == s7);
}

/// From A1 eight phases are a whole machine cycle: the phase is A1
/// again and the cycle has ended.
pub proof fn lemma_eight_phases(s: CycleState)
    requires
        s.phase == BusCycle::A1,
    ensures
        s.advanced_by(8) == s.cycle_ended(),
{
    lemma_seven_phases(s);
    lemma_advanced_by_sum(s, 7, 1);
    let s7 = s.advanced_by(7);
    assert(s7.advanced_by(1) == s7.advanced()) by {
        assert(s7.advanced().advanced_by(0) == s7.advanced());
    }
}

/// A one-cycle instruction is counted once: from phase A1 of a first
/// fetch, eight phases later one more instruction is complete and the
/// machine is at a first fetch again.
pub proof fn lemma_one_cycle_instruction_counts_once(s: CycleState)
    requires
        s.phase == BusCycle::A1,
        s.state == MachineState::Fetch1,
        !s.two_cycle,
        s.can_count(),
    ensures
        s.advanced_by(8).instruction_count == s.instruction_count + 1,
        s.advanced_by(8).cycle_count == s.cycle_count + 1,
        s.advanced_by(8).state == MachineState::Fetch1,
        s.advanced_by(8).phase == BusCycle::A1,
        !s.advanced_by(8).two_cycle,
{
    lemma_eight_phases(s);
}

/// A two-cycle instruction is counted once as well: where the first
/// cycle is marked as the first of two, sixteen phases later one more
/// instruction is complete, and none was counted after the first eight.
pub proof fn lemma_two_cycle_instruction_counts_once(s: CycleState)
    requires
        s.phase == BusCycle::A1,
        s.state == MachineState::Fetch1,
        s.two_cycle,
        s.cycle_count < u64::MAX - 1,
        s.instruction_count < u64::MAX,
    ensures
        s.advanced_by(8).instruction_count == s.instruction_count,
        s.advanced_by(8).state == MachineState::Fetch2,
        s.advanced_by(8).second_cycle,
        s.advanced_by(16).instruction_count == s.instruction_count + 1,
        s.advanced_by(16).cycle_count == s.cycle_count + 2,
        s.advanced_by(16).state == MachineState::Fetch1,
        s.advanced_by(16).phase == BusCycle::A1,
        !s.advanced_by(16).two_cycle,
        !s.advanced_by(16).second_cycle,
{
    lemma_eight_phases(s);
    lemma_eight_phases(s.advanced_by(8));
    lemma_advanced_by_sum(s, 8, 8);
}

} // verus!
