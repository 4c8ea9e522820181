use vstd::prelude::*;

use crate::clk_out::{ClockOut, Multiplier, GATE_LOW};

verus! {

/// Number of physical output channels.
pub const CHANNEL_COUNT: usize = 8;

/// Display value of a parameter.
#[derive(Clone, Copy, Debug, PartialEq, Eq, Structural)]
pub enum ParamValue {
    /// A position on the clock-ratio scale.
    Ratio(Multiplier),
    /// A plain number.
    Level(i32),
}

/// What every generator of a channel can do.
pub trait OutSignal: Sized {
    /// The generator's own well-formedness.
    spec fn inv(&self) -> bool;

    /// Number of editable parameters.
    spec fn param_count(&self) -> nat;

    /// Display value of parameter `param`, if there is one.
    spec fn spec_parameter(&self, param: int) -> Option<ParamValue>;

    /// Display name of parameter `param`.
    spec fn param_name(&self, param: int) -> Seq<char>;

    /// Output code at master cycle `cycle`.
    spec fn spec_output(&self, cycle: int) -> u16;

    /// `after` is `self` with parameter `param` stepped up (`up`) or down;
    /// an index past the last parameter changes nothing.
    spec fn edited(&self, param: int, up: bool, after: Self) -> bool;

    /// `r` is the generator that follows this one in mode-cycling order.
    spec fn is_next(&self, r: OutputChannel) -> bool;

    /// `r` is the generator that precedes this one in mode-cycling order.
    spec fn is_prev(&self, r: OutputChannel) -> bool;

    fn num_parameters(&self) -> (r: usize)
        ensures
            r as nat == self.param_count(),
    ;

    /// Name and display value of parameter `param`.
    fn parameter(&self, param: usize) -> (r: Option<(&'static str, ParamValue)>)
        requires
            self.inv(),
        ensures
            r.is_some() == (param < self.param_count()),
            r.is_some() ==> Some(r.unwrap().1) == self.spec_parameter(param as int),
            r.is_some() ==> r.unwrap().0@ == self.param_name(param as int),
    ;

    fn parameter_next(&mut self, param: usize)
        requires
            old(self).inv(),
        ensures
            final(self).inv(),
            final(self).param_count() == old(self).param_count(),
            old(self).edited(param as int, true, *final(self)),
    ;

    fn parameter_prev(&mut self, param: usize)
        requires
            old(self).inv(),
        ensures
            final(self).inv(),
            final(self).param_count() == old(self).param_count(),
            old(self).edited(param as int, false, *final(self)),
    ;

    fn output(&self, cycle: u32) -> (r: u16)
        requires
            self.inv(),
        ensures
            r == self.spec_output(cycle as int),
    ;

    /// The next generator in mode-cycling order, with its default settings.
    fn next(&self) -> (r: OutputChannel)
        ensures
            self.is_next(r),
            r.wf(),
    ;

    /// The previous generator in mode-cycling order, with its default settings.
    fn prev(&self) -> (r: OutputChannel)
        ensures
            self.is_prev(r),
            r.wf(),
    ;
}

/// A disabled channel: no parameters, output held low.
#[derive(Clone, Copy, Debug)]
pub struct NoOutput;

impl NoOutput {
    pub fn new() -> (r: NoOutput) {
        NoOutput {}
    }
}

/// The generator of one channel.
#[derive(Clone, Copy, Debug)]
pub enum OutputChannel {
    NoOutput(NoOutput),
    ClockOut(ClockOut),
}

impl OutputChannel {
    pub open spec fn wf(&self) -> bool {
        match self {
            OutputChannel::NoOutput(_) => true,
            OutputChannel::ClockOut(c) => c.wf(),
        }
    }

    /// A clock at its default settings.
    pub open spec fn is_fresh_clock(&self) -> bool {
        match self {
            OutputChannel::ClockOut(c) => c.is_fresh(),
            _ => false,
        }
    }
}

impl OutSignal for NoOutput {
    open spec fn inv(&self) -> bool {
        true
    }

    open spec fn param_count(&self) -> nat {
        0
    }

    open spec fn spec_parameter(&self, param: int) -> Option<ParamValue> {
        None
    }

    open spec fn param_name(&self, param: int) -> Seq<char> {
        Seq::empty()
    }

    open spec fn spec_output(&self, cycle: int) -> u16 {
        GATE_LOW
    }

    open spec fn edited(&self, param: int, up: bool, after: NoOutput) -> bool {
        true
    }

    open spec fn is_next(&self, r: OutputChannel) -> bool {
        r.is_fresh_clock()
    }

    open spec fn is_prev(&self, r: OutputChannel) -> bool {
        r.is_fresh_clock()
    }

    fn num_parameters(&self) -> (r: usize) {
        0
    }

    fn parameter(&self, param: usize) -> (r: Option<(&'static str, ParamValue)>) {
        None
    }

    fn parameter_next(&mut self, param: usize) {
    }

    fn parameter_prev(&mut self, param: usize) {
    }

    fn output(&self, cycle: u32) -> (r: u16) {
        GATE_LOW
    }

    fn next(&self) -> (r: OutputChannel) {
        OutputChannel::ClockOut(ClockOut::new())
    }

    fn prev(&self) -> (r: OutputChannel) {
        OutputChannel::ClockOut(ClockOut::new())
    }
}

impl OutSignal for OutputChannel {
    open spec fn inv(&self) -> bool {
        self.wf()
    }

    open spec fn param_count(&self) -> nat {
        match self {
            OutputChannel::NoOutput(n) => n.param_count(),
            OutputChannel::ClockOut(c) => c.param_count(),
        }
    }

    open spec fn spec_parameter(&self, param: int) -> Option<ParamValue> {
        match self {
            OutputChannel::NoOutput(n) => n.spec_parameter(param),
            OutputChannel::ClockOut(c) => c.spec_parameter(param),
        }
    }

    open spec fn param_name(&self, param: int) -> Seq<char> {
        match self {
            OutputChannel::NoOutput(n) => n.param_name(param),
            OutputChannel::ClockOut(c) => c.param_name(param),
        }
    }

    open spec fn spec_output(&self, cycle: int) -> u16 {
        match self {
            OutputChannel::NoOutput(n) => n.spec_output(cycle),
            OutputChannel::ClockOut(c) => c.spec_output(cycle),
        }
    }

    open spec fn edited(&self, param: int, up: bool, after: OutputChannel) -> bool {
        match (*self, after) {
            (OutputChannel::NoOutput(a), OutputChannel::NoOutput(b)) => a.edited(param, up, b),
            (OutputChannel::ClockOut(a), OutputChannel::ClockOut(b)) => a.edited(param, up, b),
            _ => false,
        }
    }

    open spec fn is_next(&self, r: OutputChannel) -> bool {
        match self {
            OutputChannel::NoOutput(n) => n.is_next(r),
            OutputChannel::ClockOut(c) => c.is_next(r),
        }
    }

    open spec fn is_prev(&self, r: OutputChannel) -> bool {
        match self {
            OutputChannel::NoOutput(n) => n.is_prev(r),
            OutputChannel::ClockOut(c) => c.is_prev(r),
        }
    }

    fn num_parameters(&self) -> (r: usize) {
        match self {
            OutputChannel::NoOutput(n) => n.num_parameters(),
            OutputChannel::ClockOut(c) => c.num_parameters(),
        }
    }

    fn parameter(&self, param: usize) -> (r: Option<(&'static str, ParamValue)>) {
        match self {
            OutputChannel::NoOutput(n) => n.parameter(param),
            OutputChannel::ClockOut(c) => c.parameter(param),
        }
    }

    fn parameter_next(&mut self, param: usize) {
        match self {
            OutputChannel::NoOutput(n) => n.parameter_next(param),
            OutputChannel::ClockOut(c) => c.parameter_next(param),
        }
    }

    fn parameter_prev(&mut self, param: usize) {
        match self {
            OutputChannel::NoOutput(n) => n.parameter_prev(param),
            OutputChannel::ClockOut(c) => c.parameter_prev(param),
        }
    }

    fn output(&self, cycle: u32) -> (r: u16) {
        match self {
            OutputChannel::NoOutput(n) => n.output(cycle),
            OutputChannel::ClockOut(c) => c.output(cycle),
        }
    }

    fn next(&self) -> (r: OutputChannel) {
        match self {
            OutputChannel::NoOutput(n) => n.next(),
            OutputChannel::ClockOut(c) => c.next(),
        }
    }

    fn prev(&self) -> (r: OutputChannel) {
        match self {
            OutputChannel::NoOutput(n) => n.prev(),
            OutputChannel::ClockOut(c) => c.prev(),
        }
    }
}

/// The generators of the eight output channels, indexed by channel number.
#[derive(Clone, Copy, Debug)]
pub struct ChannelArray {
    channels: [OutputChannel; 8],
}

impl View for ChannelArray {
    type V = Seq<OutputChannel>;

    closed spec fn view(&self) -> Seq<OutputChannel> {
        self.channels@
    }
}

impl ChannelArray {
    /// Eight channels, each well-formed.
    pub open spec fn wf(&self) -> bool {
        &&& self@.len() == CHANNEL_COUNT
        &&& forall|i: int| 0 <= i < CHANNEL_COUNT ==> #[trigger] self@[i].wf()
    }

    /// Every channel disabled.
    pub fn new() -> (r: ChannelArray)
        ensures
            r.wf(),
            forall|i: int| 0 <= i < CHANNEL_COUNT ==> #[trigger] r@[i] is NoOutput,
    {
        let off = OutputChannel::NoOutput(NoOutput::new());
        ChannelArray { channels: [off, off, off, off, off, off, off, off] }
    }

    /// The generator of channel `ch`.
    pub fn channel(&self, ch: usize) -> (r: OutputChannel)
        requires
            self.wf(),
            ch < CHANNEL_COUNT,
        ensures
            r == self@[ch as int],
    {
        self.channels[ch]
    }

    /// Number of parameters of channel `ch`.
    pub fn num_parameters(&self, ch: usize) -> (r: usize)
        requires
            self.wf(),
            ch < CHANNEL_COUNT,
        ensures
            r as nat == self@[ch as int].param_count(),
    {
        self.channels[ch].num_parameters()
    }

    /// Replaces channel `ch` by the next generator in mode-cycling order;
    /// its former settings are dropped.
    pub fn mode_next(&mut self, ch: usize)
        requires
            old(self).wf(),
            ch < CHANNEL_COUNT,
        ensures
            final(self).wf(),
            final(self)@.len() == CHANNEL_COUNT,
            forall|j: int| 0 <= j < CHANNEL_COUNT && j != ch ==> #[trigger] final(self)@[j] == old(self)@[j],
            old(self)@[ch as int].is_next(final(self)@[ch as int]),
    {
        let swapped = self.channels[ch].next();
        self.channels[ch] = swapped;
    }

    /// Replaces channel `ch` by the previous generator in mode-cycling order;
    /// its former settings are dropped.
    pub fn mode_prev(&mut self, ch: usize)
        requires
            old(self).wf(),
            ch < CHANNEL_COUNT,
        ensures
            final(self).wf(),
            final(self)@.len() == CHANNEL_COUNT,
            forall|j: int| 0 <= j < CHANNEL_COUNT && j != ch ==> #[trigger] final(self)@[j] == old(self)@[j],
            old(self)@[ch as int].is_prev(final(self)@[ch as int]),
    {
        let swapped = self.channels[ch].prev();
        self.channels[ch] = swapped;
    }

    /// Steps parameter `param` of channel `ch` up (`up`) or down.
    pub fn edit_parameter(&mut self, ch: usize, param: usize, up: bool)
        requires
            old(self).wf(),
            ch < CHANNEL_COUNT,
        ensures
            final(self).wf(),
            final(self)@.len() == CHANNEL_COUNT,
            forall|j: int| 0 <= j < CHANNEL_COUNT && j != ch ==> #[trigger] final(self)@[j] == old(self)@[j],
            old(self)@[ch as int].edited(param as int, up, final(self)@[ch as int]),
            final(self)@[ch as int].param_count() == old(self)@[ch as int].param_count(),
    {
        let mut c = self.channels[ch];
        if up {
            c.parameter_next(param);
        } else {
            c.parameter_prev(param);
        }
        self.channels[ch] = c;
    }

    /// The output code of every channel at master cycle `cycle`.
    pub fn output_codes(&self, cycle: u32) -> (r: [u16; 8])
        requires
            self.wf(),
        ensures
            forall|i: int| 0 <= i < CHANNEL_COUNT ==> #[trigger] r@[i] == self@[i].spec_output(cycle as int),
    {
        let mut codes: [u16; 8] = [0, 0, 0, 0, 0, 0, 0, 0];
        let mut i: usize = 0;
        while i < CHANNEL_COUNT
            invariant
                self.wf(),
                i <= CHANNEL_COUNT,
                codes@.len() == CHANNEL_COUNT,
                forall|j: int| 0 <= j < i ==> #[trigger] codes@[j] == self@[j].spec_output(cycle as int),
            decreases CHANNEL_COUNT - i,
        {
            codes[i] = self.channels[i].output(cycle);
            i = i + 1;
        }
        codes
    }
}

} // verus!
