//! Gate-level primitives.
//!
//! The 4004 is a pMOS design built mostly of NAND and NOR gates with
//! depletion-load inverters. A gate is pure: its output depends on its
//! inputs alone. The latch and the flip-flop keep a level.

use vstd::prelude::*;
use vstd::slice::slice_index_get;
use crate::sim::signal::{SignalId, SignalLevel};
use crate::sim::timing::gate_delay;
use crate::sim::timing::gate_delay::loaded_delay;
use crate::sim::timing::Delay;

verus! {

/// Gate types.
#[derive(Clone, Copy, Debug, PartialEq, Eq, Structural)]
pub enum GateType {
    Inv,
    Nand2,
    Nand3,
    Nand4,
    Nor2,
    Nor3,
    Nor4,
    And2,
    Or2,
    Xor2,
    Mux2,
    Latch,
    DFlipFlop,
}

impl GateType {
    /// The base delay of the type, in picoseconds: 3 ns for an
    /// inverter, 5 ns for NAND2 and AND2, 6 ns for NOR2 and OR2, 7 ns
    /// for NAND3, 8 ns for NOR3, 2 ns more for the 4-input gates, and
    /// two or three gate levels for the composite ones.
    pub open spec fn base(self) -> Delay {
        match self {
            GateType::Inv => 3_000,
            GateType::Nand2 | GateType::And2 => 5_000,
            GateType::Nand3 => 7_000,
            GateType::Nand4 => 9_000,
            GateType::Nor2 | GateType::Or2 => 6_000,
            GateType::Nor3 => 8_000,
            GateType::Nor4 => 10_000,
            GateType::Xor2 => 10_000,
            GateType::Mux2 => 10_000,
            GateType::Latch => 6_000,
            GateType::DFlipFlop => 15_000,
        }
    }

    /// The base propagation delay of this gate type; never zero.
    pub fn base_delay(self) -> (delay: Delay)
        ensures
            delay == self.base(),
            delay > 0,
    {
        match self {
            GateType::Inv => gate_delay::INV_BASE,
            GateType::Nand2 | GateType::And2 => gate_delay::NAND2_BASE,
            GateType::Nand3 => gate_delay::NAND3_BASE,
            GateType::Nand4 => gate_delay::NAND3_BASE + 2000,
            GateType::Nor2 | GateType::Or2 => gate_delay::NOR2_BASE,
            GateType::Nor3 => gate_delay::NOR3_BASE,
            GateType::Nor4 => gate_delay::NOR3_BASE + 2000,
            GateType::Xor2 => gate_delay::NAND2_BASE * 2,
            GateType::Mux2 => gate_delay::NAND2_BASE * 2,
            GateType::Latch => gate_delay::INV_BASE * 2,
            GateType::DFlipFlop => gate_delay::NAND2_BASE * 3,
        }
    }
}

/// What all gates have in common.
pub trait Gate: Send + Sync {
    /// The signals that this gate reads, in the order in which
    /// `evaluate` takes their levels.
    spec fn input_ids(&self) -> Seq<SignalId>;

    /// The signal that this gate drives.
    spec fn output_id(&self) -> SignalId;

    /// This gate's propagation delay.
    spec fn delay_ps(&self) -> Delay;

    /// The level that this gate gives for these input levels.
    spec fn response(&self, inputs: Seq<SignalLevel>) -> SignalLevel;

    /// This gate's type.
    fn gate_type(&self) -> GateType;

    /// The output for the current levels of the inputs, one level for
    /// each input.
    fn evaluate(&self, inputs: &[SignalLevel]) -> (level: SignalLevel)
        requires
            inputs@.len() == self.input_ids().len(),
        ensures
            level == self.response(inputs@),
    ;

    /// The propagation delay, load included.
    fn propagation_delay(&self) -> (delay: Delay)
        ensures
            delay == self.delay_ps(),
    ;

    /// The signal that this gate drives.
    fn output(&self) -> (id: SignalId)
        ensures
            id == self.output_id(),
    ;

    /// The signals that this gate reads.
    fn inputs(&self) -> (ids: &[SignalId])
        ensures
            ids@ == self.input_ids(),
    ;
}

/// `std::slice::from_ref`: a slice of length 1 that holds the value
/// behind the reference.
#[verifier::external_body]
fn single(id: &SignalId) -> (ids: &[SignalId])
    ensures
        ids@ == seq![*id],
{
    std::slice::from_ref(id)
}

/// Inverter.
#[derive(Clone, Copy, Debug)]
pub struct Inverter {
    pub input: SignalId,
    pub output: SignalId,
    pub delay: Delay,
}

impl Inverter {
    /// An inverter from `input` to `output` that drives `fanout` gate
    /// inputs.
    pub fn new(input: SignalId, output: SignalId, fanout: usize) -> (gate: Inverter)
        requires
            loaded_delay(3_000, fanout as int) <= u64::MAX,
        ensures
            gate == (Inverter { input, output, delay: loaded_delay(3_000, fanout as int) as u64 }),
            gate.delay > 0,
    {
        Inverter { input, output, delay: gate_delay::with_fanout(gate_delay::INV_BASE, fanout) }
    }
}

impl Gate for Inverter {
    open spec fn input_ids(&self) -> Seq<SignalId> {
        seq![self.input]
    }

    open spec fn output_id(&self) -> SignalId {
        self.output
    }

    open spec fn delay_ps(&self) -> Delay {
        self.delay
    }

    open spec fn response(&self, inputs: Seq<SignalLevel>) -> SignalLevel {
        inputs[0].not()
    }

    fn gate_type(&self) -> (t: GateType)
        ensures
            t == GateType::Inv,
    {
        GateType::Inv
    }

    fn evaluate(&self, inputs: &[SignalLevel]) -> (level: SignalLevel) {
        slice_index_get(inputs, 0).invert()
    }

    fn propagation_delay(&self) -> (delay: Delay) {
        self.delay
    }

    fn output(&self) -> (id: SignalId) {
        self.output
    }

    fn inputs(&self) -> (ids: &[SignalId]) {
        single(&self.input)
    }
}

/// 2-input NAND gate.
#[derive(Clone, Copy, Debug)]
pub struct Nand2 {
    pub inputs: [SignalId; 2],
    pub output: SignalId,
    pub delay: Delay,
}

impl Nand2 {
    pub fn new(a: SignalId, b: SignalId, output: SignalId, fanout: usize) -> (gate: Nand2)
        requires
            loaded_delay(5_000, fanout as int) <= u64::MAX,
        ensures
            gate.inputs@ == seq![a, b],
            gate.output == output,
            gate.delay == loaded_delay(5_000, fanout as int),
            gate.delay > 0,
    {
        Nand2 {
            inputs: [a, b],
            output,
            delay: gate_delay::with_fanout(gate_delay::NAND2_BASE, fanout),
        }
    }
}

impl Gate for Nand2 {
    open spec fn input_ids(&self) -> Seq<SignalId> {
        self.inputs@
    }

    open spec fn output_id(&self) -> SignalId {
        self.output
    }

    open spec fn delay_ps(&self) -> Delay {
        self.delay
    }

    open spec fn response(&self, inputs: Seq<SignalLevel>) -> SignalLevel {
        inputs[0].conj(inputs[1]).not()
    }

    fn gate_type(&self) -> (t: GateType)
        ensures
            t == GateType::Nand2,
    {
        GateType::Nand2
    }

    fn evaluate(&self, inputs: &[SignalLevel]) -> (level: SignalLevel) {
        slice_index_get(inputs, 0).and(*slice_index_get(inputs, 1)).invert()
    }

    fn propagation_delay(&self) -> (delay: Delay) {
        self.delay
    }

    fn output(&self) -> (id: SignalId) {
        self.output
    }

    fn inputs(&self) -> (ids: &[SignalId]) {
        self.inputs.as_slice()
    }
}

/// 3-input NAND gate.
#[derive(Clone, Copy, Debug)]
pub struct Nand3 {
    pub inputs: [SignalId; 3],
    pub output: SignalId,
    pub delay: Delay,
}

impl Nand3 {
    pub fn new(a: SignalId, b: SignalId, c: SignalId, output: SignalId, fanout: usize) -> (gate: Nand3)
        requires
            loaded_delay(7_000, fanout as int) <= u64::MAX,
        ensures
            gate.inputs@ == seq![a, b, c],
            gate.output == output,
            gate.delay == loaded_delay(7_000, fanout as int),
            gate.delay > 0,
    {
        Nand3 {
            inputs: [a, b, c],
            output,
            delay: gate_delay::with_fanout(gate_delay::NAND3_BASE, fanout),
        }
    }
}

impl Gate for Nand3 {
    open spec fn input_ids(&self) -> Seq<SignalId> {
        self.inputs@
    }

    open spec fn output_id(&self) -> SignalId {
        self.output
    }

    open spec fn delay_ps(&self) -> Delay {
        self.delay
    }

    open spec fn response(&self, inputs: Seq<SignalLevel>) -> SignalLevel {
        inputs[0].conj(inputs[1]).conj(inputs[2]).not()
    }

    fn gate_type(&self) -> (t: GateType)
        ensures
            t == GateType::Nand3,
    {
        GateType::Nand3
    }

    fn evaluate(&self, inputs: &[SignalLevel]) -> (level: SignalLevel) {
        slice_index_get(inputs, 0).and(*slice_index_get(inputs, 1)).and(
            *slice_index_get(inputs, 2),
        ).invert()
    }

    fn propagation_delay(&self) -> (delay: Delay) {
        self.delay
    }

    fn output(&self) -> (id: SignalId) {
        self.output
    }

    fn inputs(&self) -> (ids: &[SignalId]) {
        self.inputs.as_slice()
    }
}

/// 2-input NOR gate.
#[derive(Clone, Copy, Debug)]
pub struct Nor2 {
    pub inputs: [SignalId; 2],
    pub output: SignalId,
    pub delay: Delay,
}

impl Nor2 {
    pub fn new(a: SignalId, b: SignalId, output: SignalId, fanout: usize) -> (gate: Nor2)
        requires
            loaded_delay(6_000, fanout as int) <= u64::MAX,
        ensures
            gate.inputs@ == seq![a, b],
            gate.output == output,
            gate.delay == loaded_delay(6_000, fanout as int),
            gate.delay > 0,
    {
        Nor2 {
            inputs: [a, b],
            output,
            delay: gate_delay::with_fanout(gate_delay::NOR2_BASE, fanout),
        }
    }
}

impl Gate for Nor2 {
    open spec fn input_ids(&self) -> Seq<SignalId> {
        self.inputs@
    }

    open spec fn output_id(&self) -> SignalId {
        self.output
    }

    open spec fn delay_ps(&self) -> Delay {
        self.delay
    }

    open spec fn response(&self, inputs: Seq<SignalLevel>) -> SignalLevel {
        inputs[0].disj(inputs[1]).not()
    }

    fn gate_type(&self) -> (t: GateType)
        ensures
            t == GateType::Nor2,
    {
        GateType::Nor2
    }

    fn evaluate(&self, inputs: &[SignalLevel]) -> (level: SignalLevel) {
        slice_index_get(inputs, 0).or(*slice_index_get(inputs, 1)).invert()
    }

    fn propagation_delay(&self) -> (delay: Delay) {
        self.delay
    }

    fn output(&self) -> (id: SignalId) {
        self.output
    }

    fn inputs(&self) -> (ids: &[SignalId]) {
        self.inputs.as_slice()
    }
}

/// 3-input NOR gate.
#[derive(Clone, Copy, Debug)]
pub struct Nor3 {
    pub inputs: [SignalId; 3],
    pub output: SignalId,
    pub delay: Delay,
}

impl Nor3 {
    pub fn new(a: SignalId, b: SignalId, c: SignalId, output: SignalId, fanout: usize) -> (gate: Nor3)
        requires
            loaded_delay(8_000, fanout as int) <= u64::MAX,
        ensures
            gate.inputs@ == seq![a, b, c],
            gate.output == output,
            gate.delay == loaded_delay(8_000, fanout as int),
            gate.delay > 0,
    {
        Nor3 {
            inputs: [a, b, c],
            output,
            delay: gate_delay::with_fanout(gate_delay::NOR3_BASE, fanout),
        }
    }
}

impl Gate for Nor3 {
    open spec fn input_ids(&self) -> Seq<SignalId> {
        self.inputs@
    }

    open spec fn output_id(&self) -> SignalId {
        self.output
    }

    open spec fn delay_ps(&self) -> Delay {
        self.delay
    }

    open spec fn response(&self, inputs: Seq<SignalLevel>) -> SignalLevel {
        inputs[0].disj(inputs[1]).disj(inputs[2]).not()
    }

    fn gate_type(&self) -> (t: GateType)
        ensures
            t == GateType::Nor3,
    {
        GateType::Nor3
    }

    fn evaluate(&self, inputs: &[SignalLevel]) -> (level: SignalLevel) {
        slice_index_get(inputs, 0).or(*slice_index_get(inputs, 1)).or(
            *slice_index_get(inputs, 2),
        ).invert()
    }

    fn propagation_delay(&self) -> (delay: Delay) {
        self.delay
    }

    fn output(&self) -> (id: SignalId) {
        self.output
    }

    fn inputs(&self) -> (ids: &[SignalId]) {
        self.inputs.as_slice()
    }
}

/// 2-input AND gate: a NAND and an inverter, modelled as one gate.
#[derive(Clone, Copy, Debug)]
pub struct And2 {
    pub inputs: [SignalId; 2],
    pub output: SignalId,
    pub delay: Delay,
}

impl And2 {
    pub fn new(a: SignalId, b: SignalId, output: SignalId, fanout: usize) -> (gate: And2)
        requires
            loaded_delay(8_000, fanout as int) <= u64::MAX,
        ensures
            gate.inputs@ == seq![a, b],
            gate.output == output,
            gate.delay == loaded_delay(8_000, fanout as int),
            gate.delay > 0,
    {
        And2 {
            inputs: [a, b],
            output,
            delay: gate_delay::with_fanout(gate_delay::NAND2_BASE + gate_delay::INV_BASE, fanout),
        }
    }
}

impl Gate for And2 {
    open spec fn input_ids(&self) -> Seq<SignalId> {
        self.inputs@
    }

    open spec fn output_id(&self) -> SignalId {
        self.output
    }

    open spec fn delay_ps(&self) -> Delay {
        self.delay
    }

    open spec fn response(&self, inputs: Seq<SignalLevel>) -> SignalLevel {
        inputs[0].conj(inputs[1])
    }

    fn gate_type(&self) -> (t: GateType)
        ensures
            t == GateType::And2,
    {
        GateType::And2
    }

    fn evaluate(&self, inputs: &[SignalLevel]) -> (level: SignalLevel) {
        slice_index_get(inputs, 0).and(*slice_index_get(inputs, 1))
    }

    fn propagation_delay(&self) -> (delay: Delay) {
        self.delay
    }

    fn output(&self) -> (id: SignalId) {
        self.output
    }

    fn inputs(&self) -> (ids: &[SignalId]) {
        self.inputs.as_slice()
    }
}

/// 2-input OR gate: a NOR and an inverter, modelled as one gate.
#[derive(Clone, Copy, Debug)]
pub struct Or2 {
    pub inputs: [SignalId; 2],
    pub output: SignalId,
    pub delay: Delay,
}

impl Or2 {
    pub fn new(a: SignalId, b: SignalId, output: SignalId, fanout: usize) -> (gate: Or2)
        requires
            loaded_delay(9_000, fanout as int) <= u64::MAX,
        ensures
            gate.inputs@ == seq![a, b],
            gate.output == output,
            gate.delay == loaded_delay(9_000, fanout as int),
            gate.delay > 0,
    {
        Or2 {
            inputs: [a, b],
            output,
            delay: gate_delay::with_fanout(gate_delay::NOR2_BASE + gate_delay::INV_BASE, fanout),
        }
    }
}

impl Gate for Or2 {
    open spec fn input_ids(&self) -> Seq<SignalId> {
        self.inputs@
    }

    open spec fn output_id(&self) -> SignalId {
        self.output
    }

    open spec fn delay_ps(&self) -> Delay {
        self.delay
    }

    open spec fn response(&self, inputs: Seq<SignalLevel>) -> SignalLevel {
        inputs[0].disj(inputs[1])
    }

    fn gate_type(&self) -> (t: GateType)
        ensures
            t == GateType::Or2,
    {
        GateType::Or2
    }

    fn evaluate(&self, inputs: &[SignalLevel]) -> (level: SignalLevel) {
        slice_index_get(inputs, 0).or(*slice_index_get(inputs, 1))
    }

    fn propagation_delay(&self) -> (delay: Delay) {
        self.delay
    }

    fn output(&self) -> (id: SignalId) {
        self.output
    }

    fn inputs(&self) -> (ids: &[SignalId]) {
        self.inputs.as_slice()
    }
}

/// Two inverters in a row give back a defined level.
pub proof fn lemma_inverter_of_inverter(first: Inverter, second: Inverter, x: SignalLevel)
    requires
        x.defined(),
    ensures
        second.response(seq![first.response(seq![x])]) == x,
{
}

/// NAND(a, NAND(a, b)) on defined levels: the outer gate gives `Low`
/// exactly where `a` is `High` and `b` is `Low`.
pub proof fn lemma_nand_of_nand(inner: Nand2, outer: Nand2, a: SignalLevel, b: SignalLevel)
    requires
        a.defined(),
        b.defined(),
    ensures
        outer.response(seq![a, inner.response(seq![a, b])]) == (if a == SignalLevel::High && b
            == SignalLevel::Low {
            SignalLevel::Low
        } else {
            SignalLevel::High
        }),
{
}

/// The level that an SR latch holds after it saw `s` and `r`: set on
/// (High, Low), reset on (Low, High), and unchanged otherwise, also on
/// the forbidden (High, High).
pub open spec fn sr_next(state: SignalLevel, s: SignalLevel, r: SignalLevel) -> SignalLevel {
    if s == SignalLevel::High && r == SignalLevel::Low {
        SignalLevel::High
    } else if s == SignalLevel::Low && r == SignalLevel::High {
        SignalLevel::Low
    } else {
        state
    }
}

/// What an SR latch is: its pins, its delay and the level it holds.
pub struct LatchState {
    pub s: SignalId,
    pub r: SignalId,
    pub q: SignalId,
    pub q_bar: SignalId,
    pub delay: Delay,
    pub state: SignalLevel,
}

/// SR latch of cross-coupled NOR gates.
#[derive(Clone, Copy, Debug)]
pub struct SRLatch {
    pub s: SignalId,
    pub r: SignalId,
    pub q: SignalId,
    pub q_bar: SignalId,
    pub delay: Delay,
    state: SignalLevel,
}

impl View for SRLatch {
    type V = LatchState;

    closed spec fn view(&self) -> LatchState {
        LatchState {
            s: self.s,
            r: self.r,
            q: self.q,
            q_bar: self.q_bar,
            delay: self.delay,
            state: self.state,
        }
    }
}

impl SRLatch {
    /// A latch that holds `Low`.
    pub fn new(s: SignalId, r: SignalId, q: SignalId, q_bar: SignalId, fanout: usize) -> (latch: SRLatch)
        requires
            loaded_delay(12_000, fanout as int) <= u64::MAX,
        ensures
            latch@ == (LatchState {
                s,
                r,
                q,
                q_bar,
                delay: loaded_delay(12_000, fanout as int) as u64,
                state: SignalLevel::Low,
            }),
            latch@.delay > 0,
    {
        SRLatch {
            s,
            r,
            q,
            q_bar,
            delay: gate_delay::with_fanout(gate_delay::NOR2_BASE * 2, fanout),
            state: SignalLevel::Low,
        }
    }

    /// Applies `s` and `r` and returns Q and its complement.
    pub fn update(&mut self, s: SignalLevel, r: SignalLevel) -> (out: (SignalLevel, SignalLevel))
        ensures
            final(self)@ == (LatchState { state: sr_next(old(self)@.state, s, r), ..old(self)@ }),
            out.0 == final(self)@.state,
            out.1 == final(self)@.state.not(),
    {
        match (s, r) {
            (SignalLevel::High, SignalLevel::Low) => {
                self.state = SignalLevel::High;
            },
            (SignalLevel::Low, SignalLevel::High) => {
                self.state = SignalLevel::Low;
            },
            _ => {},
        }
        (self.state, self.state.invert())
    }

    /// The level that the latch holds.
    pub fn state(&self) -> (level: SignalLevel)
        ensures
            level == self@.state,
    {
        self.state
    }
}

/// What a D flip-flop is: its pins, its delay, the level it holds and
/// the clock level it saw last.
pub struct FlipFlopState {
    pub d: SignalId,
    pub clk: SignalId,
    pub q: SignalId,
    pub q_bar: SignalId,
    pub delay: Delay,
    /// The level held.
    pub state: SignalLevel,
    /// The clock level seen last.
    pub prev_clk: SignalLevel,
}

impl FlipFlopState {
    /// The flip-flop after it saw `d` and `clk`: it takes `d` on a
    /// rising edge, that is, where the clock was `Low` and is `High`.
    pub open spec fn next(self, d: SignalLevel, clk: SignalLevel) -> FlipFlopState {
        FlipFlopState {
            state: if self.prev_clk == SignalLevel::Low && clk == SignalLevel::High {
                d
            } else {
                self.state
            },
            prev_clk: clk,
            ..self
        }
    }
}

/// Edge-triggered D flip-flop.
#[derive(Clone, Copy, Debug)]
pub struct DFlipFlop {
    pub d: SignalId,
    pub clk: SignalId,
    pub q: SignalId,
    pub q_bar: SignalId,
    pub delay: Delay,
    state: SignalLevel,
    prev_clk: SignalLevel,
}

impl View for DFlipFlop {
    type V = FlipFlopState;

    closed spec fn view(&self) -> FlipFlopState {
        FlipFlopState {
            d: self.d,
            clk: self.clk,
            q: self.q,
            q_bar: self.q_bar,
            delay: self.delay,
            state: self.state,
            prev_clk: self.prev_clk,
        }
    }
}

impl DFlipFlop {
    /// A flip-flop that holds `Low` and has seen a low clock.
    pub fn new(d: SignalId, clk: SignalId, q: SignalId, q_bar: SignalId, fanout: usize) -> (ff: DFlipFlop)
        requires
            loaded_delay(15_000, fanout as int) <= u64::MAX,
        ensures
            ff@ == (FlipFlopState {
                d,
                clk,
                q,
                q_bar,
                delay: loaded_delay(15_000, fanout as int) as u64,
                state: SignalLevel::Low,
                prev_clk: SignalLevel::Low,
            }),
            ff@.delay > 0,
    {
        DFlipFlop {
            d,
            clk,
            q,
            q_bar,
            delay: gate_delay::with_fanout(gate_delay::NAND2_BASE * 3, fanout),
            state: SignalLevel::Low,
            prev_clk: SignalLevel::Low,
        }
    }

    /// Applies `d` and `clk` and returns Q and its complement.
    pub fn update(&mut self, d: SignalLevel, clk: SignalLevel) -> (out: (SignalLevel, SignalLevel))
        ensures
            final(self)@ == old(self)@.next(d, clk),
            out.0 == final(self)@.state,
            out.1 == final(self)@.state.not(),
    {
        if self.prev_clk == SignalLevel::Low && clk == SignalLevel::High {
            self.state = d;
        }
        self.prev_clk = clk;
        (self.state, self.state.invert())
    }

    /// The level that the flip-flop holds.
    pub fn state(&self) -> (level: SignalLevel)
        ensures
            level == self@.state,
    {
        self.state
    }
}

} // verus!
