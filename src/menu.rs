use vstd::prelude::*;

use crate::output::{ChannelArray, OutSignal, OutputChannel, CHANNEL_COUNT};

verus! {

/// Steps `a` by `b`, wrapping at the ends of `[0, max)`: up from `max - 1`
/// gives 0 and down from 0 gives `max - 1`; any other step saturates within
/// `u8`.
pub fn add_wrap(a: u8, b: i8, max: u8) -> (r: u8)
    requires
        max > 0,
    ensures
        r == if a == max - 1 && b > 0 {
            0
        } else if a == 0 && b < 0 {
            max - 1
        } else if a + b < 0 {
            0
        } else if a + b > u8::MAX {
            u8::MAX as int
        } else {
            a + b
        },
        a < max && (b == 1 || b == -1) ==> r == (a + b) % (max as int),
{
    proof {
        let m = max as int;
        assert(m % m == 0) by (nonlinear_arith)
            requires
                m > 0,
        ;
        assert((-1int) % m == m - 1) by (nonlinear_arith)
            requires
                m > 0,
        ;
        assert(forall|x: int| 0 <= x < m ==> #[trigger] (x % m) == x) by (nonlinear_arith)
            requires
                m > 0,
        ;
    }
    if a == (max - 1) && b > 0 {
        0
    } else if a == 0 && b < 0 {
        max - 1
    } else {
        let sum: i16 = a as i16 + b as i16;
        if sum < 0 {
            0
        } else if sum > u8::MAX as i16 {
            u8::MAX
        } else {
            sum as u8
        }
    }
}

/// An input event of the encoder and its buttons.
#[derive(Clone, Copy, Debug, PartialEq, Eq, Structural)]
pub enum InputEvent {
    Increment,
    Decrement,
    Confirm,
    Up,
    Down,
    NoInput,
}

/// Where the menu stands: a channel `ch` and, when held, a parameter index.
#[derive(Clone, Copy, Debug, PartialEq, Eq, Structural)]
pub enum MenuState {
    Idle,
    Settings,
    ChannelSelect(u8),
    ModeSelect(u8),
    ParameterSelect(u8, u8),
    ParameterEdit(u8, u8),
}

/// A held parameter index brought into `[0, count)`; 0 when there is no
/// parameter at all.
pub open spec fn clamp_param(param: int, count: int) -> int {
    if count <= 0 {
        0
    } else if param >= count {
        count - 1
    } else {
        param
    }
}

/// `(param + 1) mod count`, or `(param - 1) mod count`; 0 when there is no
/// parameter.
pub open spec fn wrap_param(param: int, count: int, up: bool) -> int {
    if count <= 0 {
        0
    } else if up {
        (param + 1) % count
    } else {
        (param - 1) % count
    }
}

impl MenuState {
    /// Every held channel index is below 8.
    pub open spec fn channel_ok(self) -> bool {
        match self {
            MenuState::ChannelSelect(ch) => ch < CHANNEL_COUNT,
            MenuState::ModeSelect(ch) => ch < CHANNEL_COUNT,
            MenuState::ParameterSelect(ch, _) => ch < CHANNEL_COUNT,
            MenuState::ParameterEdit(ch, _) => ch < CHANNEL_COUNT,
            _ => true,
        }
    }

    /// The state holds a valid channel, and a parameter index that the
    /// channel has (or 0 in `ParameterSelect` when it has none).
    pub open spec fn valid_for(self, chans: Seq<OutputChannel>) -> bool {
        &&& self.channel_ok()
        &&& match self {
            MenuState::ParameterSelect(ch, p) => p < chans[ch as int].param_count() || (
            chans[ch as int].param_count() == 0 && p == 0),
            MenuState::ParameterEdit(ch, p) => p < chans[ch as int].param_count(),
            _ => true,
        }
    }

    /// The state that follows `self` on `input`, with the channels as they
    /// stand before the event. A held parameter index is clamped to the
    /// channel's current parameter count first.
    pub open spec fn next_state(self, input: InputEvent, chans: Seq<OutputChannel>) -> MenuState {
        match self {
            MenuState::Idle => match input {
                InputEvent::Increment | InputEvent::Decrement | InputEvent::Confirm => {
                    MenuState::ChannelSelect(0)
                },
                InputEvent::Down => MenuState::Settings,
                _ => MenuState::Idle,
            },
            MenuState::Settings => MenuState::Idle,
            MenuState::ChannelSelect(ch) => match input {
                InputEvent::Increment => MenuState::ChannelSelect(((ch + 1) % 8) as u8),
                InputEvent::Decrement => MenuState::ChannelSelect(((ch - 1) % 8) as u8),
                InputEvent::Confirm => MenuState::ModeSelect(ch),
                InputEvent::Down => MenuState::Idle,
                _ => self,
            },
            MenuState::ModeSelect(ch) => match input {
                InputEvent::Confirm => MenuState::ParameterSelect(ch, 0),
                InputEvent::Down => MenuState::ChannelSelect(ch),
                _ => self,
            },
            MenuState::ParameterSelect(ch, p) => {
                let n = chans[ch as int].param_count() as int;
                let q = clamp_param(p as int, n);
                match input {
                    InputEvent::Increment => MenuState::ParameterSelect(
                        ch,
                        wrap_param(q, n, true) as u8,
                    ),
                    InputEvent::Decrement => MenuState::ParameterSelect(
                        ch,
                        wrap_param(q, n, false) as u8,
                    ),
                    InputEvent::Confirm => if n > 0 {
                        MenuState::ParameterEdit(ch, q as u8)
                    } else {
                        MenuState::ParameterSelect(ch, 0)
                    },
                    InputEvent::Down => MenuState::ChannelSelect(ch),
                    _ => MenuState::ParameterSelect(ch, q as u8),
                }
            },
            MenuState::ParameterEdit(ch, p) => {
                let n = chans[ch as int].param_count() as int;
                let q = clamp_param(p as int, n);
                if n == 0 {
                    MenuState::ParameterSelect(ch, 0)
                } else {
                    match input {
                        InputEvent::Confirm | InputEvent::Down => MenuState::ParameterSelect(
                            ch,
                            q as u8,
                        ),
                        _ => MenuState::ParameterEdit(ch, q as u8),
                    }
                }
            },
        }
    }

    /// How the channels change on `input`: in `ModeSelect` Increment and
    /// Decrement swap the channel's generator for the next or previous one; in
    /// `ParameterEdit` they step the held parameter; nothing else changes them.
    pub open spec fn channels_after(
        self,
        input: InputEvent,
        before: Seq<OutputChannel>,
        after: Seq<OutputChannel>,
    ) -> bool {
        let up = input == InputEvent::Increment;
        let moves = input == InputEvent::Increment || input == InputEvent::Decrement;
        match self {
            MenuState::ModeSelect(ch) if moves => {
                &&& after.len() == before.len()
                &&& forall|j: int| 0 <= j < before.len() && j != ch ==> #[trigger] after[j] == before[j]
                &&& if up {
                    before[ch as int].is_next(after[ch as int])
                } else {
                    before[ch as int].is_prev(after[ch as int])
                }
            },
            MenuState::ParameterEdit(ch, p) if moves && before[ch as int].param_count() > 0 => {
                let q = clamp_param(p as int, before[ch as int].param_count() as int);
                &&& after.len() == before.len()
                &&& forall|j: int| 0 <= j < before.len() && j != ch ==> #[trigger] after[j] == before[j]
                &&& before[ch as int].edited(q, up, after[ch as int])
                &&& after[ch as int].param_count() == before[ch as int].param_count()
            },
            _ => after == before,
        }
    }

    /// Applies `input`: returns the next state and makes on `channels` the one
    /// change, if any, that the event calls for.
    pub fn transition(self, input: InputEvent, channels: &mut ChannelArray) -> (r: MenuState)
        requires
            old(channels).wf(),
            self.channel_ok(),
        ensures
            final(channels).wf(),
            r == self.next_state(input, old(channels)@),
            self.channels_after(input, old(channels)@, final(channels)@),
            r.valid_for(final(channels)@),
    {
        match self {
            MenuState::Idle => match input {
                InputEvent::Increment | InputEvent::Decrement | InputEvent::Confirm => {
                    MenuState::ChannelSelect(0)
                },
                InputEvent::Down => MenuState::Settings,
                _ => MenuState::Idle,
            },
            // Known stub: a settings menu is not there yet, so any input
            // leaves it.
            MenuState::Settings => MenuState::Idle,
            MenuState::ChannelSelect(ch) => match input {
                InputEvent::Increment => MenuState::ChannelSelect(add_wrap(ch, 1, 8)),
                InputEvent::Decrement => MenuState::ChannelSelect(add_wrap(ch, -1, 8)),
                InputEvent::Confirm => MenuState::ModeSelect(ch),
                InputEvent::Down => MenuState::Idle,
                _ => self,
            },
            MenuState::ModeSelect(ch) => match input {
                InputEvent::Increment => {
                    channels.mode_next(ch as usize);
                    self
                },
                InputEvent::Decrement => {
                    channels.mode_prev(ch as usize);
                    self
                },
                InputEvent::Confirm => MenuState::ParameterSelect(ch, 0),
                InputEvent::Down => MenuState::ChannelSelect(ch),
                _ => self,
            },
            MenuState::ParameterSelect(ch, p) => {
                let n = channels.num_parameters(ch as usize);
                let q = clamp_index(p, n);
                match input {
                    InputEvent::Increment => MenuState::ParameterSelect(ch, wrap_index(q, n, true)),
                    InputEvent::Decrement => MenuState::ParameterSelect(
                        ch,
                        wrap_index(q, n, false),
                    ),
                    InputEvent::Confirm => if n > 0 {
                        MenuState::ParameterEdit(ch, q)
                    } else {
                        MenuState::ParameterSelect(ch, 0)
                    },
                    InputEvent::Down => MenuState::ChannelSelect(ch),
                    _ => MenuState::ParameterSelect(ch, q),
                }
            },
            MenuState::ParameterEdit(ch, p) => {
                let n = channels.num_parameters(ch as usize);
                let q = clamp_index(p, n);
                if n == 0 {
                    MenuState::ParameterSelect(ch, 0)
                } else {
                    match input {
                        InputEvent::Increment => {
                            channels.edit_parameter(ch as usize, q as usize, true);
                            MenuState::ParameterEdit(ch, q)
                        },
                        InputEvent::Decrement => {
                            channels.edit_parameter(ch as usize, q as usize, false);
                            MenuState::ParameterEdit(ch, q)
                        },
                        InputEvent::Confirm | InputEvent::Down => MenuState::ParameterSelect(
                            ch,
                            q,
                        ),
                        _ => MenuState::ParameterEdit(ch, q),
                    }
                }
            },
        }
    }
}

/// `param` clamped into `[0, count)`, or 0 when `count` is 0.
fn clamp_index(param: u8, count: usize) -> (r: u8)
    ensures
        r == clamp_param(param as int, count as int),
{
    if count == 0 {
        0
    } else if param as usize >= count {
        (count - 1) as u8
    } else {
        param
    }
}

/// `param` stepped by one within `[0, count)`, wrapping at both ends.
fn wrap_index(param: u8, count: usize, up: bool) -> (r: u8)
    requires
        count == 0 || param < count,
        count <= u8::MAX,
    ensures
        r == wrap_param(param as int, count as int, up),
{
    if count == 0 {
        0
    } else if up {
        add_wrap(param, 1, count as u8)
    } else {
        add_wrap(param, -1, count as u8)
    }
}

/// When the generator of channel `ch` has been swapped for one with `M > 0`
/// parameters while the menu holds `ParameterSelect(ch, param)` with
/// `param >= M`, the held index is clamped into `[0, M)` before any further
/// access: Confirm enters `ParameterEdit(ch, M - 1)`, and every other event
/// leaves the menu holding an index below `M`.
pub proof fn lemma_swap_clamps_param(
    ch: u8,
    param: u8,
    input: InputEvent,
    chans: Seq<OutputChannel>,
)
    requires
        ch < CHANNEL_COUNT,
        chans.len() == CHANNEL_COUNT,
        0 < chans[ch as int].param_count() <= param,
    ensures
        ({
            let m = chans[ch as int].param_count();
            let s = MenuState::ParameterSelect(ch, param).next_state(input, chans);
            &&& input == InputEvent::Confirm ==> s == MenuState::ParameterEdit(ch, (m - 1) as u8)
            &&& s.valid_for(chans)
        }),
{
    let m = chans[ch as int].param_count() as int;
    let q = clamp_param(param as int, m);
    assert(q == m - 1);
    assert(0 <= wrap_param(q, m, true) < m);
    assert(0 <= wrap_param(q, m, false) < m);
}

} // verus!
