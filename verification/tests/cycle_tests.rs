use mcs4_emu::bus::cycle::cycle_timing;
use mcs4_emu::bus::cycle::{BusCycle, CycleState, MachineState};

#[test]
fn test_phase_sequence() {
    let mut phase = BusCycle::A1;

    assert_eq!(phase, BusCycle::A1);
    phase = phase.next();
    assert_eq!(phase, BusCycle::A2);
    phase = phase.next();
    assert_eq!(phase, BusCycle::A3);
    phase = phase.next();
    assert_eq!(phase, BusCycle::M1);
    phase = phase.next();
    assert_eq!(phase, BusCycle::M2);
    phase = phase.next();
    assert_eq!(phase, BusCycle::X1);
    phase = phase.next();
    assert_eq!(phase, BusCycle::X2);
    phase = phase.next();
    assert_eq!(phase, BusCycle::X3);
    phase = phase.next();
    assert_eq!(phase, BusCycle::A1); // Wrap around
}

#[test]
fn test_phase_classification() {
    assert!(BusCycle::A1.is_address_phase());
    assert!(BusCycle::A2.is_address_phase());
    assert!(BusCycle::A3.is_address_phase());

    assert!(BusCycle::M1.is_memory_phase());
    assert!(BusCycle::M2.is_memory_phase());

    assert!(BusCycle::X1.is_execution_phase());
    assert!(BusCycle::X2.is_execution_phase());
    assert!(BusCycle::X3.is_execution_phase());
}

#[test]
fn test_cycle_state() {
    let mut state = CycleState::new();

    for _ in 0..8 {
        state.advance();
    }

    assert_eq!(state.cycle_count, 1);
    assert_eq!(state.instruction_count, 1);
}

#[test]
fn test_two_cycle_instruction() {
    let mut state = CycleState::new();
    state.set_two_cycle();

    for _ in 0..8 {
        state.advance();
    }
    assert_eq!(state.cycle_count, 1);
    assert_eq!(state.instruction_count, 0); // Not complete yet
    assert_eq!(state.state, MachineState::Fetch2);

    for _ in 0..8 {
        state.advance();
    }
    assert_eq!(state.cycle_count, 2);
    assert_eq!(state.instruction_count, 1); // Now complete
    assert_eq!(state.state, MachineState::Fetch1);
}

#[test]
fn phase_numbers_and_groups_exclude_each_other() {
    let phases = [
        BusCycle::A1,
        BusCycle::A2,
        BusCycle::A3,
        BusCycle::M1,
        BusCycle::M2,
        BusCycle::X1,
        BusCycle::X2,
        BusCycle::X3,
    ];
    for (i, p) in phases.iter().enumerate() {
        assert_eq!(p.phase_number() as usize, i);
        let groups = [p.is_address_phase(), p.is_memory_phase(), p.is_execution_phase()];
        assert_eq!(groups.iter().filter(|g| **g).count(), 1);
    }
    assert!(!BusCycle::M1.is_address_phase());
    assert!(!BusCycle::X1.is_memory_phase());
}

#[test]
fn machine_state_fetching() {
    assert!(MachineState::Fetch1.is_fetching());
    assert!(MachineState::Fetch2.is_fetching());
    assert!(!MachineState::Execute.is_fetching());
    assert!(!MachineState::Halted.is_fetching());
    assert!(!MachineState::InterruptAck.is_fetching());
}

#[test]
fn halt_resume_and_interrupt_ack() {
    let mut state = CycleState::new();
    state.resume();
    assert_eq!(state.state, MachineState::Fetch1);
    state.halt();
    assert_eq!(state.state, MachineState::Halted);
    for _ in 0..16 {
        state.advance();
    }
    assert_eq!(state.state, MachineState::Halted);
    assert_eq!(state.cycle_count, 2);
    assert_eq!(state.instruction_count, 0);
    state.resume();
    assert_eq!(state.state, MachineState::Fetch1);
    state.interrupt_ack();
    assert_eq!(state.state, MachineState::InterruptAck);
    state.resume();
    assert_eq!(state.state, MachineState::InterruptAck);
    state.reset();
    assert_eq!(state.phase, BusCycle::A1);
    assert_eq!(state.cycle_count, 0);
    assert_eq!(state.state, MachineState::Fetch1);
}

#[test]
fn execute_state_returns_to_fetch() {
    let mut state = CycleState::new();
    state.state = MachineState::Execute;
    for _ in 0..8 {
        state.advance();
    }
    assert_eq!(state.state, MachineState::Fetch1);
    assert_eq!(state.instruction_count, 0);
    assert_eq!(state.cycle_count, 1);
    let fresh = CycleState::default();
    assert!(!fresh.two_cycle);
    assert!(!fresh.second_cycle);
}

#[test]
fn cycle_timing_phases() {
    assert_eq!(cycle_timing::SYNC_ASSERT, BusCycle::A1);
    assert_eq!(cycle_timing::SYNC_DEASSERT, BusCycle::A2);
    assert_eq!(cycle_timing::CM_ROM_VALID, BusCycle::A3);
    assert_eq!(cycle_timing::CM_RAM_VALID, BusCycle::X2);
}
