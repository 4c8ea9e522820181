use flight_computer::clk_out::Multiplier;
use flight_computer::menu::{add_wrap, InputEvent, MenuState};
use flight_computer::output::{ChannelArray, OutSignal, OutputChannel, ParamValue};

#[test]
fn add_wrap_wraps_both_ends() {
    assert_eq!(add_wrap(7, 1, 8), 0);
    assert_eq!(add_wrap(0, -1, 8), 7);
    assert_eq!(add_wrap(3, 1, 8), 4);
    assert_eq!(add_wrap(3, -1, 8), 2);
    assert_eq!(add_wrap(250, 10, 100), 255);
    assert_eq!(add_wrap(0, 1, 1), 0);
}

#[test]
fn channel_select_wraparound() {
    let mut chans = ChannelArray::new();
    assert_eq!(
        MenuState::ChannelSelect(0).transition(InputEvent::Decrement, &mut chans),
        MenuState::ChannelSelect(7)
    );
    assert_eq!(
        MenuState::ChannelSelect(7).transition(InputEvent::Increment, &mut chans),
        MenuState::ChannelSelect(0)
    );
}

#[test]
fn idle_and_settings() {
    let mut chans = ChannelArray::new();
    assert_eq!(MenuState::Idle.transition(InputEvent::Down, &mut chans), MenuState::Settings);
    assert_eq!(MenuState::Idle.transition(InputEvent::Up, &mut chans), MenuState::Idle);
    assert_eq!(MenuState::Idle.transition(InputEvent::NoInput, &mut chans), MenuState::Idle);
    assert_eq!(
        MenuState::Idle.transition(InputEvent::Decrement, &mut chans),
        MenuState::ChannelSelect(0)
    );
    for e in [
        InputEvent::Increment,
        InputEvent::Decrement,
        InputEvent::Confirm,
        InputEvent::Up,
        InputEvent::Down,
        InputEvent::NoInput,
    ] {
        assert_eq!(MenuState::Settings.transition(e, &mut chans), MenuState::Idle);
    }
}

#[test]
fn down_goes_back() {
    let mut chans = ChannelArray::new();
    assert_eq!(MenuState::ChannelSelect(2).transition(InputEvent::Down, &mut chans), MenuState::Idle);
    assert_eq!(
        MenuState::ModeSelect(2).transition(InputEvent::Down, &mut chans),
        MenuState::ChannelSelect(2)
    );
    chans.mode_next(2);
    assert_eq!(
        MenuState::ParameterSelect(2, 1).transition(InputEvent::Down, &mut chans),
        MenuState::ChannelSelect(2)
    );
    assert_eq!(
        MenuState::ParameterEdit(2, 1).transition(InputEvent::Down, &mut chans),
        MenuState::ParameterSelect(2, 1)
    );
    assert_eq!(
        MenuState::ParameterEdit(2, 1).transition(InputEvent::Up, &mut chans),
        MenuState::ParameterEdit(2, 1)
    );
}

#[test]
fn parameter_select_wraps_over_count() {
    let mut chans = ChannelArray::new();
    chans.mode_next(5);
    assert_eq!(
        MenuState::ParameterSelect(5, 1).transition(InputEvent::Increment, &mut chans),
        MenuState::ParameterSelect(5, 0)
    );
    assert_eq!(
        MenuState::ParameterSelect(5, 0).transition(InputEvent::Decrement, &mut chans),
        MenuState::ParameterSelect(5, 1)
    );
}

#[test]
fn swap_to_fewer_parameters_clamps_index() {
    let mut chans = ChannelArray::new();
    chans.mode_next(4);
    // channel 4 is back to two parameters, but the menu still holds index 5
    let s = MenuState::ParameterSelect(4, 5).transition(InputEvent::Confirm, &mut chans);
    assert_eq!(s, MenuState::ParameterEdit(4, 1));
    // a clock swapped back to disabled: no parameter can be edited
    let mut m = MenuState::ModeSelect(4);
    m = m.transition(InputEvent::Increment, &mut chans);
    assert_eq!(chans.num_parameters(4), 0);
    assert_eq!(
        MenuState::ParameterSelect(4, 1).transition(InputEvent::Confirm, &mut chans),
        MenuState::ParameterSelect(4, 0)
    );
    assert_eq!(
        MenuState::ParameterEdit(4, 1).transition(InputEvent::Increment, &mut chans),
        MenuState::ParameterSelect(4, 0)
    );
    assert_eq!(m, MenuState::ModeSelect(4));
}

#[test]
fn end_to_end_ratio_edit() {
    let mut chans = ChannelArray::new();
    let mut s = MenuState::Idle;
    s = s.transition(InputEvent::Confirm, &mut chans);
    assert_eq!(s, MenuState::ChannelSelect(0));
    s = s.transition(InputEvent::Confirm, &mut chans);
    assert_eq!(s, MenuState::ModeSelect(0));
    assert!(matches!(chans.channel(0), OutputChannel::NoOutput(_)));
    s = s.transition(InputEvent::Increment, &mut chans);
    assert_eq!(s, MenuState::ModeSelect(0));
    assert!(matches!(chans.channel(0), OutputChannel::ClockOut(_)));
    s = s.transition(InputEvent::Confirm, &mut chans);
    assert_eq!(s, MenuState::ParameterSelect(0, 0));
    s = s.transition(InputEvent::Confirm, &mut chans);
    assert_eq!(s, MenuState::ParameterEdit(0, 0));
    let ratio = |c: &ChannelArray| c.channel(0).parameter(0).unwrap().1;
    assert_eq!(ratio(&chans), ParamValue::Ratio(Multiplier::x1));
    s = s.transition(InputEvent::Increment, &mut chans);
    assert_eq!(ratio(&chans), ParamValue::Ratio(Multiplier::x2));
    s = s.transition(InputEvent::Increment, &mut chans);
    assert_eq!(ratio(&chans), ParamValue::Ratio(Multiplier::x3));
    assert_eq!(s, MenuState::ParameterEdit(0, 0));
}

#[test]
fn parameter_edit_steps_duty() {
    let mut chans = ChannelArray::new();
    chans.mode_next(0);
    let s = MenuState::ParameterEdit(0, 1).transition(InputEvent::Decrement, &mut chans);
    assert_eq!(s, MenuState::ParameterEdit(0, 1));
    assert_eq!(chans.channel(0).parameter(1).unwrap().1, ParamValue::Level(45));
}
