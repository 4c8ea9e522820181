use vstd::prelude::*;

use crate::output::{NoOutput, OutSignal, OutputChannel, ParamValue};
use crate::parameters::{ParamModel, Parameter};

verus! {

/// Output code of a gate that is high: the full scale of a 12-bit converter.
pub const GATE_HIGH: u16 = 4095;

/// Output code of a gate that is low.
pub const GATE_LOW: u16 = 0;

/// The clock-ratio scale: multiply factors from x64 down to x1, then divide
/// factors from /2 to /16.
#[allow(non_camel_case_types)]
#[derive(Clone, Copy, Debug, PartialEq, Eq, Structural)]
pub enum Multiplier {
    x64,
    x32,
    x16,
    x8,
    x4,
    x3,
    x2,
    x1,
    div2,
    div3,
    div4,
    div5,
    div6,
    div7,
    div8,
    div16,
}

/// The last position on the scale.
pub open spec fn last_rank() -> int {
    15
}

impl Multiplier {
    /// Position on the scale, x64 first.
    pub open spec fn rank(self) -> int {
        match self {
            Multiplier::x64 => 0,
            Multiplier::x32 => 1,
            Multiplier::x16 => 2,
            Multiplier::x8 => 3,
            Multiplier::x4 => 4,
            Multiplier::x3 => 5,
            Multiplier::x2 => 6,
            Multiplier::x1 => 7,
            Multiplier::div2 => 8,
            Multiplier::div3 => 9,
            Multiplier::div4 => 10,
            Multiplier::div5 => 11,
            Multiplier::div6 => 12,
            Multiplier::div7 => 13,
            Multiplier::div8 => 14,
            Multiplier::div16 => 15,
        }
    }

    /// The exact ratio `(num, den)`: a multiply factor has `den == 0`, a
    /// divide factor has `num == 0`.
    pub open spec fn ratio(self) -> (u16, u16) {
        match self {
            Multiplier::x64 => (64, 0),
            Multiplier::x32 => (32, 0),
            Multiplier::x16 => (16, 0),
            Multiplier::x8 => (8, 0),
            Multiplier::x4 => (4, 0),
            Multiplier::x3 => (3, 0),
            Multiplier::x2 => (2, 0),
            Multiplier::x1 => (1, 0),
            Multiplier::div2 => (0, 2),
            Multiplier::div3 => (0, 3),
            Multiplier::div4 => (0, 4),
            Multiplier::div5 => (0, 5),
            Multiplier::div6 => (0, 6),
            Multiplier::div7 => (0, 7),
            Multiplier::div8 => (0, 8),
            Multiplier::div16 => (0, 16),
        }
    }

    /// One step toward x64, staying at x64.
    pub open spec fn spec_next(self) -> Multiplier {
        match self {
            Multiplier::x64 => Multiplier::x64,
            Multiplier::x32 => Multiplier::x64,
            Multiplier::x16 => Multiplier::x32,
            Multiplier::x8 => Multiplier::x16,
            Multiplier::x4 => Multiplier::x8,
            Multiplier::x3 => Multiplier::x4,
            Multiplier::x2 => Multiplier::x3,
            Multiplier::x1 => Multiplier::x2,
            Multiplier::div2 => Multiplier::x1,
            Multiplier::div3 => Multiplier::div2,
            Multiplier::div4 => Multiplier::div3,
            Multiplier::div5 => Multiplier::div4,
            Multiplier::div6 => Multiplier::div5,
            Multiplier::div7 => Multiplier::div6,
            Multiplier::div8 => Multiplier::div7,
            Multiplier::div16 => Multiplier::div8,
        }
    }

    /// One step toward /16, staying at /16.
    pub open spec fn spec_prev(self) -> Multiplier {
        match self {
            Multiplier::x64 => Multiplier::x32,
            Multiplier::x32 => Multiplier::x16,
            Multiplier::x16 => Multiplier::x8,
            Multiplier::x8 => Multiplier::x4,
            Multiplier::x4 => Multiplier::x3,
            Multiplier::x3 => Multiplier::x2,
            Multiplier::x2 => Multiplier::x1,
            Multiplier::x1 => Multiplier::div2,
            Multiplier::div2 => Multiplier::div3,
            Multiplier::div3 => Multiplier::div4,
            Multiplier::div4 => Multiplier::div5,
            Multiplier::div5 => Multiplier::div6,
            Multiplier::div6 => Multiplier::div7,
            Multiplier::div7 => Multiplier::div8,
            Multiplier::div8 => Multiplier::div16,
            Multiplier::div16 => Multiplier::div16,
        }
    }

    pub fn as_ratio(&self) -> (r: (u16, u16))
        ensures
            r == self.ratio(),
    {
        match self {
            Multiplier::x64 => (64, 0),
            Multiplier::x32 => (32, 0),
            Multiplier::x16 => (16, 0),
            Multiplier::x8 => (8, 0),
            Multiplier::x4 => (4, 0),
            Multiplier::x3 => (3, 0),
            Multiplier::x2 => (2, 0),
            Multiplier::x1 => (1, 0),
            Multiplier::div2 => (0, 2),
            Multiplier::div3 => (0, 3),
            Multiplier::div4 => (0, 4),
            Multiplier::div5 => (0, 5),
            Multiplier::div6 => (0, 6),
            Multiplier::div7 => (0, 7),
            Multiplier::div8 => (0, 8),
            Multiplier::div16 => (0, 16),
        }
    }

    /// The neighbour toward x64; x64 stays.
    pub fn next(&self) -> (r: Multiplier)
        ensures
            r == self.spec_next(),
            r.rank() == if self.rank() == 0 { 0 } else { self.rank() - 1 },
    {
        match self {
            Multiplier::x64 => Multiplier::x64,
            Multiplier::x32 => Multiplier::x64,
            Multiplier::x16 => Multiplier::x32,
            Multiplier::x8 => Multiplier::x16,
            Multiplier::x4 => Multiplier::x8,
            Multiplier::x3 => Multiplier::x4,
            Multiplier::x2 => Multiplier::x3,
            Multiplier::x1 => Multiplier::x2,
            Multiplier::div2 => Multiplier::x1,
            Multiplier::div3 => Multiplier::div2,
            Multiplier::div4 => Multiplier::div3,
            Multiplier::div5 => Multiplier::div4,
            Multiplier::div6 => Multiplier::div5,
            Multiplier::div7 => Multiplier::div6,
            Multiplier::div8 => Multiplier::div7,
            Multiplier::div16 => Multiplier::div8,
        }
    }

    /// The neighbour toward /16; /16 stays.
    pub fn prev(&self) -> (r: Multiplier)
        ensures
            r == self.spec_prev(),
            r.rank() == if self.rank() == last_rank() { last_rank() } else { self.rank() + 1 },
    {
        match self {
            Multiplier::x64 => Multiplier::x32,
            Multiplier::x32 => Multiplier::x16,
            Multiplier::x16 => Multiplier::x8,
            Multiplier::x8 => Multiplier::x4,
            Multiplier::x4 => Multiplier::x3,
            Multiplier::x3 => Multiplier::x2,
            Multiplier::x2 => Multiplier::x1,
            Multiplier::x1 => Multiplier::div2,
            Multiplier::div2 => Multiplier::div3,
            Multiplier::div3 => Multiplier::div4,
            Multiplier::div4 => Multiplier::div5,
            Multiplier::div5 => Multiplier::div6,
            Multiplier::div6 => Multiplier::div7,
            Multiplier::div7 => Multiplier::div8,
            Multiplier::div8 => Multiplier::div16,
            Multiplier::div16 => Multiplier::div16,
        }
    }
}

/// Ticks per clock cycle for the ratio `(num, den)`: `den` when dividing,
/// else `max(1, round(1 / num))`.
pub open spec fn period_of(num: int, den: int) -> int {
    if den > 0 {
        den
    } else {
        // round(1 / num), halves rounded up, for num > 0
        let r = (2 + num) / (2 * num);
        if r < 1 {
            1
        } else {
            r
        }
    }
}

/// Ticks at the start of each cycle during which the output is high:
/// `round(duty * period)` with the duty given in percent.
pub open spec fn high_ticks(period: int, duty_pct: int) -> int {
    (duty_pct * period + 50) / 100
}

/// Whether a clock with ratio `(num, den)` and the given duty is high at `cycle`.
pub open spec fn clock_level(num: int, den: int, duty_pct: int, cycle: int) -> bool {
    let p = period_of(num, den);
    cycle % p < high_ticks(p, duty_pct)
}

/// Every ratio of the scale has a period of 1 to 16 ticks.
pub proof fn lemma_period_bounds(m: Multiplier)
    ensures
        1 <= period_of(m.ratio().0 as int, m.ratio().1 as int) <= 16,
{
    match m {
        Multiplier::x64 => assert((2 + 64) / (2 * 64) == 0) by (nonlinear_arith),
        Multiplier::x32 => assert((2 + 32) / (2 * 32) == 0) by (nonlinear_arith),
        Multiplier::x16 => assert((2 + 16) / (2 * 16) == 0) by (nonlinear_arith),
        Multiplier::x8 => assert((2 + 8) / (2 * 8) == 0) by (nonlinear_arith),
        Multiplier::x4 => assert((2 + 4) / (2 * 4) == 0) by (nonlinear_arith),
        Multiplier::x3 => assert((2 + 3) / (2 * 3) == 0) by (nonlinear_arith),
        Multiplier::x2 => assert((2 + 2) / (2 * 2) == 1) by (nonlinear_arith),
        Multiplier::x1 => assert((2 + 1) / (2 * 1) == 1) by (nonlinear_arith),
        _ => {},
    }
}

/// Clock divider and multiplier: a square wave whose period follows a ratio
/// of the master clock and whose duty cycle is given in percent.
#[derive(Clone, Copy, Debug)]
pub struct ClockOut {
    multiplier: Multiplier,
    duty_cycle: Parameter,
}

impl ClockOut {
    pub closed spec fn spec_multiplier(&self) -> Multiplier {
        self.multiplier
    }

    pub closed spec fn spec_duty(&self) -> ParamModel {
        self.duty_cycle@
    }

    /// The duty cycle is a well-formed parameter within `[0, 100]` percent.
    pub open spec fn wf(&self) -> bool {
        &&& self.spec_duty().wf()
        &&& self.spec_duty().min == 0
        &&& self.spec_duty().max == 100
    }

    /// Default settings: x1 with a saturating duty cycle of 50 % in steps of 5 %.
    pub open spec fn is_fresh(&self) -> bool {
        &&& self.spec_multiplier() == Multiplier::x1
        &&& self.spec_duty() == (ParamModel { min: 0, max: 100, step: 5, value: 50, rollover: false })
    }

    /// Level at `cycle`, as the ratio and duty stand now.
    pub open spec fn spec_level(&self, cycle: int) -> bool {
        clock_level(
            self.spec_multiplier().ratio().0 as int,
            self.spec_multiplier().ratio().1 as int,
            self.spec_duty().value,
            cycle,
        )
    }

    /// x1, with a saturating duty cycle of 50 % in steps of 5 %.
    pub fn new() -> (r: ClockOut)
        ensures
            r.wf(),
            r.is_fresh(),
    {
        ClockOut {
            multiplier: Multiplier::x1,
            duty_cycle: Parameter::new_saturating(0, 100, 5, 50),
        }
    }

    pub fn multiplier(&self) -> (r: Multiplier)
        ensures
            r == self.spec_multiplier(),
    {
        self.multiplier
    }

    pub fn duty_cycle(&self) -> (r: Parameter)
        ensures
            r@ == self.spec_duty(),
    {
        self.duty_cycle
    }

    /// Ticks per cycle at the current ratio.
    pub fn period(&self) -> (r: u32)
        ensures
            r as int == period_of(
                self.spec_multiplier().ratio().0 as int,
                self.spec_multiplier().ratio().1 as int,
            ),
            1 <= r <= 16,
    {
        let (num, den) = self.multiplier.as_ratio();
        proof {
            lemma_period_bounds(self.multiplier);
        }
        if den > 0 {
            den as u32
        } else {
            let r: u32 = (2 + num as u32) / (2 * num as u32);
            if r < 1 {
                1
            } else {
                r
            }
        }
    }

    /// Whether the clock is high at `cycle`; the phase is `cycle` modulo the
    /// period, so an edit of ratio or duty never restarts the waveform.
    pub fn level(&self, cycle: u32) -> (r: bool)
        requires
            self.wf(),
        ensures
            r == self.spec_level(cycle as int),
    {
        let p = self.period();
        let pct = self.duty_cycle.value();
        assert(0 <= pct <= 100);
        assert(0 <= pct * p <= 1600) by (nonlinear_arith)
            requires
                0 <= pct <= 100,
                1 <= p <= 16,
        ;
        let high: u32 = (pct as u32 * p + 50) / 100;
        cycle % p < high
    }

    /// Ratio one step toward x64.
    pub fn multiplier_next(&mut self)
        requires
            old(self).wf(),
        ensures
            final(self).wf(),
            final(self).spec_multiplier() == old(self).spec_multiplier().spec_next(),
            final(self).spec_duty() == old(self).spec_duty(),
    {
        self.multiplier = self.multiplier.next();
    }

    /// Ratio one step toward /16.
    pub fn multiplier_prev(&mut self)
        requires
            old(self).wf(),
        ensures
            final(self).wf(),
            final(self).spec_multiplier() == old(self).spec_multiplier().spec_prev(),
            final(self).spec_duty() == old(self).spec_duty(),
    {
        self.multiplier = self.multiplier.prev();
    }

    /// Duty cycle one step up.
    pub fn duty_next(&mut self)
        requires
            old(self).wf(),
        ensures
            final(self).wf(),
            final(self).spec_multiplier() == old(self).spec_multiplier(),
            final(self).spec_duty() == old(self).spec_duty().stepped_up(),
    {
        self.duty_cycle.next();
    }

    /// Duty cycle one step down.
    pub fn duty_prev(&mut self)
        requires
            old(self).wf(),
        ensures
            final(self).wf(),
            final(self).spec_multiplier() == old(self).spec_multiplier(),
            final(self).spec_duty() == old(self).spec_duty().stepped_down(),
    {
        self.duty_cycle.prev();
    }
}

impl OutSignal for ClockOut {
    open spec fn inv(&self) -> bool {
        self.wf()
    }

    open spec fn param_count(&self) -> nat {
        2
    }

    /// Parameter 0 is the ratio, parameter 1 the duty cycle in percent.
    open spec fn spec_parameter(&self, param: int) -> Option<ParamValue> {
        if param == 0 {
            Some(ParamValue::Ratio(self.spec_multiplier()))
        } else if param == 1 {
            Some(ParamValue::Level(self.spec_duty().value as i32))
        } else {
            None
        }
    }

    open spec fn param_name(&self, param: int) -> Seq<char> {
        if param == 0 {
            "Division"@
        } else {
            "Duty Cycle"@
        }
    }

    open spec fn spec_output(&self, cycle: int) -> u16 {
        if self.spec_level(cycle) {
            GATE_HIGH
        } else {
            GATE_LOW
        }
    }

    open spec fn edited(&self, param: int, up: bool, after: ClockOut) -> bool {
        if param == 0 {
            &&& after.spec_multiplier() == if up {
                self.spec_multiplier().spec_next()
            } else {
                self.spec_multiplier().spec_prev()
            }
            &&& after.spec_duty() == self.spec_duty()
        } else if param == 1 {
            &&& after.spec_multiplier() == self.spec_multiplier()
            &&& after.spec_duty() == if up {
                self.spec_duty().stepped_up()
            } else {
                self.spec_duty().stepped_down()
            }
        } else {
            &&& after.spec_multiplier() == self.spec_multiplier()
            &&& after.spec_duty() == self.spec_duty()
        }
    }

    open spec fn is_next(&self, r: OutputChannel) -> bool {
        r is NoOutput
    }

    open spec fn is_prev(&self, r: OutputChannel) -> bool {
        r is NoOutput
    }

    fn num_parameters(&self) -> (r: usize) {
        2
    }

    fn parameter(&self, param: usize) -> (r: Option<(&'static str, ParamValue)>) {
        proof {
            reveal_strlit("Division");
            reveal_strlit("Duty Cycle");
        }
        if param == 0 {
            Some(("Division", ParamValue::Ratio(self.multiplier)))
        } else if param == 1 {
            Some(("Duty Cycle", ParamValue::Level(self.duty_cycle.value())))
        } else {
            None
        }
    }

    fn parameter_next(&mut self, param: usize) {
        if param == 0 {
            self.multiplier_next();
        } else if param == 1 {
            self.duty_next();
        }
    }

    fn parameter_prev(&mut self, param: usize) {
        if param == 0 {
            self.multiplier_prev();
        } else if param == 1 {
            self.duty_prev();
        }
    }

    fn output(&self, cycle: u32) -> (r: u16) {
        if self.level(cycle) {
            GATE_HIGH
        } else {
            GATE_LOW
        }
    }

    fn next(&self) -> (r: OutputChannel) {
        OutputChannel::NoOutput(NoOutput::new())
    }

    fn prev(&self) -> (r: OutputChannel) {
        OutputChannel::NoOutput(NoOutput::new())
    }
}

impl Default for ClockOut {
    fn default() -> (r: ClockOut)
        ensures
            r.wf(),
            r.is_fresh(),
    {
        ClockOut::new()
    }
}

/// Edge bookkeeping of one channel: the level last seen and the cycle at
/// which it last changed.
#[derive(Clone, Copy, Debug, PartialEq, Eq, Structural)]
pub struct ClockData {
    pub last_edge_cycle: u32,
    pub high: bool,
}

impl ClockData {
    /// Low, with no edge seen yet.
    pub fn new() -> (r: ClockData)
        ensures
            r == (ClockData { last_edge_cycle: 0, high: false }),
    {
        ClockData { last_edge_cycle: 0, high: false }
    }

    /// The bookkeeping after seeing `high` at `cycle`: a change of level is
    /// an edge.
    pub open spec fn recorded(self, cycle: u32, high: bool) -> ClockData {
        if high != self.high {
            ClockData { last_edge_cycle: cycle, high }
        } else {
            self
        }
    }

    /// Records the level seen at `cycle`.
    pub fn record(&mut self, cycle: u32, high: bool)
        ensures
            *final(self) == old(self).recorded(cycle, high),
    {
        if high != self.high {
            self.last_edge_cycle = cycle;
            self.high = high;
        }
    }
}

/// A clock with a ratio of the scale and a duty in `[0, 100]` percent repeats
/// itself every period: at cycle `c + period` it is at the level of cycle `c`,
/// and each period opens with `round(duty * period)` high ticks followed by
/// low ones. The level depends on the cycle count and the settings alone,
/// never on when a setting was edited, so the phase is never reset.
pub proof fn lemma_clock_periodic(m: Multiplier, duty_pct: int, k: nat, i: int)
    requires
        0 <= duty_pct <= 100,
        0 <= i < period_of(m.ratio().0 as int, m.ratio().1 as int),
    ensures
        ({
            let (num, den) = (m.ratio().0 as int, m.ratio().1 as int);
            let p = period_of(num, den);
            &&& 1 <= p
            &&& high_ticks(p, duty_pct) <= p
            &&& clock_level(num, den, duty_pct, k * p + i) == (i < high_ticks(p, duty_pct))
            &&& clock_level(num, den, duty_pct, k * p + i + p) == clock_level(
                num,
                den,
                duty_pct,
                k * p + i,
            )
        }),
{
    let (num, den) = (m.ratio().0 as int, m.ratio().1 as int);
    let p = period_of(num, den);
    lemma_period_bounds(m);
    assert(high_ticks(p, duty_pct) <= p) by (nonlinear_arith)
        requires
            0 <= duty_pct <= 100,
            1 <= p,
            high_ticks(p, duty_pct) == (duty_pct * p + 50) / 100,
    ;
    assert((k * p + i) % p == i) by (nonlinear_arith)
        requires
            0 <= i < p,
            k >= 0,
    ;
    assert((k * p + i + p) % p == i) by (nonlinear_arith)
        requires
            0 <= i < p,
            k >= 0,
    ;
}

} // verus!
