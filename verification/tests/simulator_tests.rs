use mcs4_emu::bus::clock::{ClockConfig, TwoPhaseClockTwoPhaseClock};
use mcs4_emu::sim::event::{Event, EventSource};
use mcs4_emu::sim::gate::{Inverter, Nand2};
use mcs4_emu::sim::signal::{SignalId, SignalLevel};
use mcs4_emu::sim::simulator::{Simulator, SimulatorConfig, SimulatorStats};
use mcs4_emu::sim::timing::NANOSECOND;

#[test]
fn test_basic_simulation() {
    let mut sim = Simulator::new();

    let input = sim.alloc_signal("IN", SignalLevel::Low);
    let output = sim.alloc_signal("OUT", SignalLevel::High);

    let inv = Box::new(Inverter::new(input, output, 1));
    sim.add_gate(inv);

    sim.schedule(100 * NANOSECOND, input, SignalLevel::High, EventSource::Stimulus);

    sim.run_until(200 * NANOSECOND);

    assert_eq!(sim.get_signal(output), SignalLevel::Low);
}

#[test]
fn simulator_test_signal_history() {
    let mut sim = Simulator::new();

    let sig = sim.alloc_signal("test", SignalLevel::Low);

    sim.schedule(100, sig, SignalLevel::High, EventSource::Stimulus);
    sim.schedule(200, sig, SignalLevel::Low, EventSource::Stimulus);
    sim.schedule(300, sig, SignalLevel::High, EventSource::Stimulus);

    sim.run_until(400);

    let signal = sim.signal(sig).unwrap();
    assert_eq!(signal.history().len(), 3);
}

#[test]
fn test_event_ordering() {
    let mut sim = Simulator::new();

    let sig = sim.alloc_signal("test", SignalLevel::Low);

    sim.schedule(300, sig, SignalLevel::High, EventSource::Stimulus);
    sim.schedule(100, sig, SignalLevel::High, EventSource::Stimulus);
    sim.schedule(200, sig, SignalLevel::Low, EventSource::Stimulus);

    let time = sim.step().unwrap();
    assert_eq!(time, 100);

    let time = sim.step().unwrap();
    assert_eq!(time, 200);

    let time = sim.step().unwrap();
    assert_eq!(time, 300);
}

#[test]
fn signal_ids_are_dense() {
    let mut sim = Simulator::new();
    let a = sim.alloc_signal("a", SignalLevel::Low);
    let b = sim.alloc_signal("b", SignalLevel::High);
    assert_eq!(a, SignalId(0));
    assert_eq!(b, SignalId(1));
    assert_eq!(sim.signal_ids(), vec![SignalId(0), SignalId(1)]);
    assert_eq!(sim.signal(b).unwrap().name, "b");
    assert!(sim.signal(SignalId(2)).is_none());
}

#[test]
fn unknown_signal_reads_x_and_ignores_writes() {
    let mut sim = Simulator::new();
    let a = sim.alloc_signal("a", SignalLevel::Low);
    assert_eq!(sim.get_signal(SignalId(7)), SignalLevel::X);
    assert_eq!(sim.get_signal(SignalId::invalid()), SignalLevel::X);
    sim.schedule(10, SignalId(7), SignalLevel::High, EventSource::Stimulus);
    assert_eq!(sim.step(), Some(10));
    assert_eq!(sim.get_signal(a), SignalLevel::Low);
    assert_eq!(sim.time(), 10);
}

#[test]
fn events_at_one_time_come_in_insertion_order() {
    let mut sim = Simulator::new();
    let a = sim.alloc_signal("a", SignalLevel::Low);
    sim.schedule(50, a, SignalLevel::High, EventSource::Stimulus);
    sim.schedule(50, a, SignalLevel::Z, EventSource::Stimulus);
    sim.schedule(50, a, SignalLevel::Low, EventSource::Stimulus);
    assert_eq!(sim.pending_events(), 3);
    assert_eq!(sim.step(), Some(50));
    assert_eq!(sim.get_signal(a), SignalLevel::High);
    assert_eq!(sim.step(), Some(50));
    assert_eq!(sim.get_signal(a), SignalLevel::Z);
    assert_eq!(sim.step(), Some(50));
    assert_eq!(sim.get_signal(a), SignalLevel::Low);
    assert!(sim.is_done());
    assert_eq!(sim.step(), None);
}

#[test]
fn no_op_events_leave_history_alone() {
    let mut sim = Simulator::new();
    let input = sim.alloc_signal("in", SignalLevel::Low);
    let output = sim.alloc_signal("out", SignalLevel::High);
    sim.add_gate(Box::new(Inverter::new(input, output, 0)));
    sim.schedule(10, input, SignalLevel::Low, EventSource::Stimulus);
    assert_eq!(sim.step(), Some(10));
    assert_eq!(sim.signal(input).unwrap().history().len(), 0);
    assert_eq!(sim.pending_events(), 0);
}

#[test]
fn gate_event_comes_one_delay_later() {
    let mut sim = Simulator::new();
    let input = sim.alloc_signal("in", SignalLevel::Low);
    let output = sim.alloc_signal("out", SignalLevel::High);
    let id = sim.add_gate(Box::new(Inverter::new(input, output, 1)));
    assert_eq!(id, 0);
    sim.schedule(1_000, input, SignalLevel::High, EventSource::Stimulus);
    assert_eq!(sim.step(), Some(1_000));
    assert_eq!(sim.pending_events(), 1);
    assert_eq!(sim.get_signal(output), SignalLevel::High);
    assert_eq!(sim.step(), Some(4_500));
    assert_eq!(sim.get_signal(output), SignalLevel::Low);
    assert_eq!(sim.signal(output).unwrap().history(), &[(4_500, SignalLevel::Low)]);
}

#[test]
fn step_times_never_decrease() {
    let mut sim = Simulator::new();
    let a = sim.alloc_signal("a", SignalLevel::Low);
    let b = sim.alloc_signal("b", SignalLevel::Low);
    let c = sim.alloc_signal("c", SignalLevel::High);
    sim.add_gate(Box::new(Nand2::new(a, b, c, 1)));
    for (i, t) in [500u64, 100, 300, 100, 700, 200].iter().enumerate() {
        let level = if i % 2 == 0 { SignalLevel::High } else { SignalLevel::Low };
        let target = if i % 3 == 0 { a } else { b };
        sim.schedule(*t, target, level, EventSource::Stimulus);
    }
    let mut last = 0;
    while let Some(t) = sim.step() {
        assert!(t >= last);
        assert_eq!(sim.time(), t);
        last = t;
    }
    assert!(sim.is_done());
}

#[test]
fn max_time_stops_the_run() {
    let config = SimulatorConfig { max_time: 150, ..SimulatorConfig::default() };
    let mut sim = Simulator::with_config(config);
    let a = sim.alloc_signal("a", SignalLevel::Low);
    sim.schedule(100, a, SignalLevel::High, EventSource::Stimulus);
    sim.schedule(200, a, SignalLevel::Low, EventSource::Stimulus);
    assert_eq!(sim.step(), Some(100));
    assert_eq!(sim.step(), None);
    assert_eq!(sim.get_signal(a), SignalLevel::High);
}

#[test]
fn zero_delay_loop_does_not_hang() {
    // An inverter without delay that feeds itself would oscillate for ever.
    let config = SimulatorConfig { max_delta_cycles: 5, ..SimulatorConfig::default() };
    let mut sim = Simulator::with_config(config);
    let a = sim.alloc_signal("a", SignalLevel::Low);
    let mut inv = Inverter::new(a, a, 0);
    inv.delay = 0;
    sim.add_gate(Box::new(inv));
    sim.schedule(10, a, SignalLevel::High, EventSource::Stimulus);
    sim.run_until(1_000);
    assert_eq!(sim.time(), 10);
    assert!(!sim.is_done());
    assert_eq!(sim.step(), None);
    assert_eq!(sim.stalled_on(), Some(a));
    assert!(sim.stats().events_processed <= 7);
}

#[test]
fn run_events_counts_steps() {
    let mut sim = Simulator::new();
    let a = sim.alloc_signal("a", SignalLevel::Low);
    for t in 1..=5u64 {
        let level = if t % 2 == 1 { SignalLevel::High } else { SignalLevel::Low };
        sim.schedule(t * 10, a, level, EventSource::Stimulus);
    }
    sim.run_events(3);
    assert_eq!(sim.time(), 30);
    assert_eq!(sim.pending_events(), 2);
    sim.run_events(10);
    assert_eq!(sim.time(), 50);
    assert!(sim.is_done());
    assert_eq!(sim.stats().events_processed, 5);
    assert_eq!(sim.stats().time_elapsed, 50);
    assert_eq!(sim.stats().peak_queue_depth, 4);
}

#[test]
fn schedule_delta_is_relative() {
    let mut sim = Simulator::new();
    let a = sim.alloc_signal("a", SignalLevel::Low);
    sim.schedule(100, a, SignalLevel::High, EventSource::Stimulus);
    assert_eq!(sim.step(), Some(100));
    sim.schedule_delta(25, a, SignalLevel::Low, EventSource::Reset);
    assert_eq!(sim.step(), Some(125));
}

#[test]
fn reset_clears_time_queue_and_history() {
    let mut sim = Simulator::new();
    let a = sim.alloc_signal("a", SignalLevel::Low);
    sim.schedule(100, a, SignalLevel::High, EventSource::Stimulus);
    sim.schedule(200, a, SignalLevel::Low, EventSource::Stimulus);
    sim.step();
    sim.reset();
    assert_eq!(sim.time(), 0);
    assert!(sim.is_done());
    assert_eq!(sim.signal(a).unwrap().history().len(), 0);
    assert_eq!(sim.stats().events_processed, 0);
    assert_eq!(sim.get_signal(a), SignalLevel::High);
}

#[test]
fn history_limit_comes_from_config() {
    let config = SimulatorConfig { max_history: 4, ..SimulatorConfig::default() };
    let mut sim = Simulator::with_config(config);
    let a = sim.alloc_signal("a", SignalLevel::Low);
    for t in 1..=6u64 {
        let level = if t % 2 == 1 { SignalLevel::High } else { SignalLevel::Low };
        sim.schedule(t, a, level, EventSource::Stimulus);
    }
    sim.run_until(100);
    assert_eq!(sim.signal(a).unwrap().history().len(), 4);
}

#[test]
fn config_and_stats_defaults() {
    let config = SimulatorConfig::default();
    assert_eq!(config.max_time, 0);
    assert!(config.record_history);
    assert_eq!(config.max_history, 10_000);
    assert_eq!(config.max_delta_cycles, 1000);
    let stats = SimulatorStats::default();
    assert_eq!(stats.events_processed, 0);
    assert_eq!(stats.time_elapsed, 0);
    assert_eq!(stats.clock_cycles, 0);
    assert_eq!(stats.peak_queue_depth, 0);
    let sim = Simulator::default();
    assert_eq!(sim.time(), 0);
}

#[test]
fn events_compare_by_time() {
    let a = Event { time: 5, target: SignalId(0), value: SignalLevel::Low, source: EventSource::Clock };
    let b = Event { time: 5, target: SignalId(1), value: SignalLevel::High, source: EventSource::Gate(3) };
    let c = Event { time: 9, target: SignalId(0), value: SignalLevel::Low, source: EventSource::Reset };
    assert!(a == b);
    assert!(a != c);
    assert!(a < c);
    assert!(c > b);
}

#[test]
fn clock_schedules_non_overlapping_edges() {
    let clock = TwoPhaseClockTwoPhaseClock::new(ClockConfig::default());
    let mut sim = Simulator::new();
    let phi1 = sim.alloc_signal("PHI1", SignalLevel::Low);
    let phi2 = sim.alloc_signal("PHI2", SignalLevel::Low);
    clock.schedule_events(&mut sim, phi1, phi2, 1_000, 3);
    assert_eq!(sim.pending_events(), 12);
    let mut times = Vec::new();
    while let Some(t) = sim.step() {
        times.push(t);
        assert!(
            !(sim.get_signal(phi1) == SignalLevel::High && sim.get_signal(phi2) == SignalLevel::High)
        );
    }
    assert_eq!(&times[..4], &[1_000, 381_000, 781_000, 1_161_000]);
    assert_eq!(times[4], 1_311_000);
    assert_eq!(times.len(), 12);
}

#[test]
fn signal_mut_changes_a_signal_in_place() {
    let mut sim = Simulator::new();
    let a = sim.alloc_signal("a", SignalLevel::Low);
    sim.signal_mut(a).unwrap().update(5, SignalLevel::High);
    assert_eq!(sim.get_signal(a), SignalLevel::High);
    assert_eq!(sim.signal(a).unwrap().history(), &[(5, SignalLevel::High)]);
    assert!(sim.signal_mut(SignalId(3)).is_none());
}
