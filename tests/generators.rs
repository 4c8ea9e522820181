use flight_computer::clk_out::{ClockData, ClockOut, Multiplier, GATE_HIGH, GATE_LOW};
use flight_computer::output::{ChannelArray, NoOutput, OutSignal, OutputChannel, ParamValue};
use flight_computer::output_core::{advance_cycle, OutputCore};

fn clock(steps_toward_div: usize, duty_steps_down: usize) -> ClockOut {
    let mut c = ClockOut::new();
    for _ in 0..steps_toward_div {
        c.multiplier_prev();
    }
    for _ in 0..duty_steps_down {
        c.duty_prev();
    }
    c
}

#[test]
fn default_clock_settings() {
    let c = ClockOut::new();
    assert_eq!(c.multiplier(), Multiplier::x1);
    assert_eq!(c.duty_cycle().value(), 50);
    assert_eq!(c.period(), 1);
    assert_eq!(c.num_parameters(), 2);
}

#[test]
fn clock_x2_half_duty_is_periodic() {
    let mut c = ClockOut::new();
    c.multiplier_next();
    assert_eq!(c.multiplier().as_ratio(), (2, 0));
    let p = c.period();
    assert_eq!(p, 1);
    // round(1 / 2) high ticks in each one-tick period
    for cycle in 0..20u32 {
        assert!(c.level(cycle));
        assert_eq!(c.level(cycle), c.level(cycle + p));
    }
}

#[test]
fn clock_div4_half_duty_pattern() {
    let c = clock(3, 0);
    assert_eq!(c.multiplier(), Multiplier::div4);
    assert_eq!(c.period(), 4);
    let pattern: Vec<bool> = (0..12u32).map(|t| c.level(t)).collect();
    assert_eq!(
        pattern,
        vec![true, true, false, false, true, true, false, false, true, true, false, false]
    );
}

#[test]
fn clock_div5_rounds_high_ticks() {
    // 50 % of 5 ticks rounds to 3 high ticks.
    let c = clock(4, 0);
    assert_eq!(c.period(), 5);
    let pattern: Vec<u16> = (0..5u32).map(|t| c.output(t)).collect();
    assert_eq!(pattern, vec![GATE_HIGH, GATE_HIGH, GATE_HIGH, GATE_LOW, GATE_LOW]);
}

#[test]
fn duty_edit_keeps_phase() {
    let mut c = clock(7, 0);
    assert_eq!(c.period(), 8);
    assert!(!c.level(13));
    c.duty_next();
    c.duty_next();
    assert_eq!(c.duty_cycle().value(), 60);
    // cycle 13 is tick 5 of its period; 60 % of 8 rounds to 5 high ticks
    assert!(!c.level(13));
    assert!(c.level(12));
    assert!(c.level(16));
}

#[test]
fn duty_zero_and_full() {
    let off = clock(3, 10);
    assert_eq!(off.duty_cycle().value(), 0);
    assert!((0..8u32).all(|t| !off.level(t)));
    let mut on = clock(3, 0);
    for _ in 0..12 {
        on.duty_next();
    }
    assert_eq!(on.duty_cycle().value(), 100);
    assert!((0..8u32).all(|t| on.level(t)));
}

#[test]
fn clock_parameters_report_values() {
    let c = clock(1, 2);
    let (name, v) = c.parameter(0).unwrap();
    assert_eq!(name, "Division");
    assert_eq!(v, ParamValue::Ratio(Multiplier::div2));
    let (name, v) = c.parameter(1).unwrap();
    assert_eq!(name, "Duty Cycle");
    assert_eq!(v, ParamValue::Level(40));
    assert!(c.parameter(2).is_none());
}

#[test]
fn mode_cycling_alternates() {
    let off = NoOutput::new();
    assert_eq!(off.num_parameters(), 0);
    assert!(off.parameter(0).is_none());
    let on = off.next();
    assert!(matches!(on, OutputChannel::ClockOut(_)));
    assert_eq!(on.num_parameters(), 2);
    assert!(matches!(on.next(), OutputChannel::NoOutput(_)));
    assert!(matches!(on.prev(), OutputChannel::NoOutput(_)));
    assert!(matches!(off.prev(), OutputChannel::ClockOut(_)));
}

#[test]
fn disabled_channel_is_low() {
    let off = OutputChannel::NoOutput(NoOutput::new());
    assert_eq!(off.output(0), GATE_LOW);
    assert_eq!(off.output(12345), GATE_LOW);
}

#[test]
fn channel_array_edits_one_channel() {
    let mut chans = ChannelArray::new();
    chans.mode_next(3);
    chans.edit_parameter(3, 0, false);
    chans.edit_parameter(3, 0, false);
    for ch in 0..8 {
        if ch == 3 {
            assert_eq!(chans.num_parameters(ch), 2);
        } else {
            assert_eq!(chans.num_parameters(ch), 0);
        }
    }
    match chans.channel(3) {
        OutputChannel::ClockOut(c) => assert_eq!(c.multiplier(), Multiplier::div3),
        _ => panic!("channel 3 should be a clock"),
    }
    let codes = chans.output_codes(0);
    assert_eq!(codes, [0, 0, 0, GATE_HIGH, 0, 0, 0, 0]);
    let codes = chans.output_codes(2);
    assert_eq!(codes, [0, 0, 0, GATE_LOW, 0, 0, 0, 0]);
}

#[test]
fn pass_fills_lanes_and_tracks_edges() {
    let mut chans = ChannelArray::new();
    chans.mode_next(1);
    chans.mode_next(6);
    chans.edit_parameter(6, 0, false);
    let mut core = OutputCore::new();
    let frame = core.pass(&chans, 0);
    assert_eq!(frame.lane_a, [0, GATE_HIGH, 0, 0]);
    assert_eq!(frame.lane_b, [0, 0, GATE_HIGH, 0]);
    assert_eq!(core.edges[6], ClockData { last_edge_cycle: 0, high: true });
    let frame = core.pass(&chans, 1);
    assert_eq!(frame.lane_b, [0, 0, GATE_LOW, 0]);
    assert_eq!(core.edges[6], ClockData { last_edge_cycle: 1, high: false });
    assert_eq!(core.edges[1], ClockData { last_edge_cycle: 0, high: true });
    assert_eq!(core.edges[0], ClockData::new());
}

#[test]
fn edge_record_only_on_change() {
    let mut d = ClockData::new();
    d.record(5, false);
    assert_eq!(d, ClockData { last_edge_cycle: 0, high: false });
    d.record(7, true);
    assert_eq!(d, ClockData { last_edge_cycle: 7, high: true });
    d.record(9, true);
    assert_eq!(d, ClockData { last_edge_cycle: 7, high: true });
}

#[test]
fn master_clock_wraps() {
    assert_eq!(advance_cycle(0), 1);
    assert_eq!(advance_cycle(41), 42);
    assert_eq!(advance_cycle(u32::MAX), 0);
}
