use vstd::prelude::*;

verus! {

/// Mathematical model of a bounded, steppable value.
pub struct ParamModel {
    pub min: int,
    pub max: int,
    pub step: int,
    pub value: int,
    pub rollover: bool,
}

impl ParamModel {
    /// The value lies in `[min, max]` and the step is positive.
    pub open spec fn wf(self) -> bool {
        &&& self.min <= self.value <= self.max
        &&& self.step > 0
    }

    /// The model after one `next()`: up by `step`; past `max` it becomes
    /// `min` (rollover) or `max` (saturate).
    pub open spec fn stepped_up(self) -> ParamModel {
        let v = self.value + self.step;
        ParamModel {
            value: if v > self.max {
                if self.rollover {
                    self.min
                } else {
                    self.max
                }
            } else {
                v
            },
            ..self
        }
    }

    /// The model after one `prev()`: down by `step`; below `min` it becomes
    /// `max` (rollover) or `min` (saturate).
    pub open spec fn stepped_down(self) -> ParamModel {
        let v = self.value - self.step;
        ParamModel {
            value: if v < self.min {
                if self.rollover {
                    self.max
                } else {
                    self.min
                }
            } else {
                v
            },
            ..self
        }
    }

    /// The model after a sequence of steps: `true` is `next()`, `false` is `prev()`.
    pub open spec fn stepped(self, moves: Seq<bool>) -> ParamModel
        decreases moves.len(),
    {
        if moves.len() == 0 {
            self
        } else {
            let one = if moves[0] {
                self.stepped_up()
            } else {
                self.stepped_down()
            };
            one.stepped(moves.drop_first())
        }
    }
}

/// A bounded integer value edited one step at a time, with a wrap policy.
#[derive(Clone, Copy, Debug)]
pub struct Parameter {
    min: i32,
    max: i32,
    step: i32,
    value: i32,
    rollover: bool,
}

impl View for Parameter {
    type V = ParamModel;

    closed spec fn view(&self) -> ParamModel {
        ParamModel {
            min: self.min as int,
            max: self.max as int,
            step: self.step as int,
            value: self.value as int,
            rollover: self.rollover,
        }
    }
}

impl Parameter {
    pub open spec fn wf(&self) -> bool {
        self@.wf()
    }

    /// A parameter that stops at `min` and `max`.
    pub fn new_saturating(min: i32, max: i32, step: i32, value: i32) -> (r: Parameter)
        requires
            min <= value <= max,
            step > 0,
        ensures
            r.wf(),
            r@ == (ParamModel {
                min: min as int,
                max: max as int,
                step: step as int,
                value: value as int,
                rollover: false,
            }),
    {
        Parameter { min, max, value, step, rollover: false }
    }

    /// A parameter that wraps from `max` to `min` and back.
    pub fn new_rollover(min: i32, max: i32, step: i32, value: i32) -> (r: Parameter)
        requires
            min <= value <= max,
            step > 0,
        ensures
            r.wf(),
            r@ == (ParamModel {
                min: min as int,
                max: max as int,
                step: step as int,
                value: value as int,
                rollover: true,
            }),
    {
        Parameter { min, max, value, step, rollover: true }
    }

    /// Steps the value up.
    pub fn next(&mut self)
        requires
            old(self).wf(),
        ensures
            final(self).wf(),
            final(self)@ == old(self)@.stepped_up(),
    {
        let raised: i64 = self.value as i64 + self.step as i64;
        if raised > self.max as i64 {
            self.value = if self.rollover {
                self.min
            } else {
                self.max
            };
        } else {
            self.value = raised as i32;
        }
    }

    /// Steps the value down.
    pub fn prev(&mut self)
        requires
            old(self).wf(),
        ensures
            final(self).wf(),
            final(self)@ == old(self)@.stepped_down(),
    {
        let lowered: i64 = self.value as i64 - self.step as i64;
        if lowered < self.min as i64 {
            self.value = if self.rollover {
                self.max
            } else {
                self.min
            };
        } else {
            self.value = lowered as i32;
        }
    }

    pub fn value(&self) -> (r: i32)
        ensures
            r == self@.value,
    {
        self.value
    }

    pub fn min(&self) -> (r: i32)
        ensures
            r == self@.min,
    {
        self.min
    }

    pub fn max(&self) -> (r: i32)
        ensures
            r == self@.max,
    {
        self.max
    }

    pub fn step(&self) -> (r: i32)
        ensures
            r == self@.step,
    {
        self.step
    }

    pub fn rolls_over(&self) -> (r: bool)
        ensures
            r == self@.rollover,
    {
        self.rollover
    }
}

/// Whatever sequence of `next()` and `prev()` calls is made on a well-formed
/// parameter, its value stays within `[min, max]` after every call.
pub proof fn lemma_steps_stay_in_range(p: ParamModel, moves: Seq<bool>)
    requires
        p.wf(),
    ensures
        forall|k: int|
            0 <= k <= moves.len() ==> #[trigger] p.stepped(moves.take(k)).wf(),
    decreases moves.len(),
{
    if moves.len() > 0 {
        let one = if moves[0] {
            p.stepped_up()
        } else {
            p.stepped_down()
        };
        lemma_steps_stay_in_range(one, moves.drop_first());
        assert forall|k: int| 0 <= k <= moves.len() implies #[trigger] p.stepped(
            moves.take(k),
        ).wf() by {
            if k > 0 {
                assert(moves.take(k).drop_first() =~= moves.drop_first().take(k - 1));
                assert(one.stepped(moves.drop_first().take(k - 1)).wf());
            } else {
                assert(moves.take(k).len() == 0);
            }
        }
    } else {
        assert forall|k: int| 0 <= k <= moves.len() implies #[trigger] p.stepped(
            moves.take(k),
        ).wf() by {
            assert(moves.take(k).len() == 0);
        }
    }
}

/// A saturating parameter at `max` stays there on `next()`, and one at `min`
/// stays there on `prev()`.
pub proof fn lemma_saturate_pins(p: ParamModel)
    requires
        p.wf(),
        !p.rollover,
    ensures
        p.value == p.max ==> p.stepped_up() == p,
        p.value == p.min ==> p.stepped_down() == p,
{
}

/// A rollover parameter at `max` moves to `min` on `next()`, and one at `min`
/// moves to `max` on `prev()`.
pub proof fn lemma_rollover_wraps(p: ParamModel)
    requires
        p.wf(),
        p.rollover,
    ensures
        p.value == p.max ==> p.stepped_up() == (ParamModel { value: p.min, ..p }),
        p.value == p.min ==> p.stepped_down() == (ParamModel { value: p.max, ..p }),
{
}

} // verus!
