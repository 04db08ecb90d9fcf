//! Queues of actions with run-length encoded step pulses.
//!
//! A stepper move is thousands of identical pulses. A [`Script`] stores such a
//! train as one entry and unfolds it action by action as the host asks for
//! the next thing to do; its view is the flat sequence of actions still to
//! be handed out.

use vstd::prelude::*;
use crate::signal::{Action, Line};

verus! {

/// The action at place `phase` (0 to 3) of one step pulse on `line`.
pub open spec fn pulse_action(line: Line, half_period: u64, phase: int) -> Action {
    if phase == 0 {
        Action::Drive { line, high: true }
    } else if phase == 2 {
        Action::Drive { line, high: false }
    } else {
        Action::Sleep { micros: half_period }
    }
}

/// One step pulse: the step line goes high, stays so for `half_period`
/// microseconds, goes low, and stays so for as long again.
pub open spec fn pulse(line: Line, half_period: u64) -> Seq<Action> {
    seq![
        Action::Drive { line, high: true },
        Action::Sleep { micros: half_period },
        Action::Drive { line, high: false },
        Action::Sleep { micros: half_period },
    ]
}

/// `count` step pulses in a row.
pub open spec fn pulse_train(line: Line, count: nat, half_period: u64) -> Seq<Action> {
    Seq::new(4 * count, |i: int| pulse_action(line, half_period, i % 4))
}

/// A train of `count + 1` pulses is a train of `count` pulses and one pulse more.
pub proof fn lemma_pulse_train_grows(line: Line, count: nat, half_period: u64)
    ensures
        pulse_train(line, count + 1, half_period) == pulse_train(line, count, half_period) + pulse(
            line,
            half_period,
        ),
{
    let longer = pulse_train(line, count + 1, half_period);
    let joined = pulse_train(line, count, half_period) + pulse(line, half_period);
    assert forall|i: int| 0 <= i < longer.len() implies longer[i] == joined[i] by {
        if i >= 4 * count {
            let k = i - 4 * count;
            assert(i % 4 == k) by (nonlinear_arith)
                requires
                    i == 4 * count + k,
                    0 <= k < 4,
            ;
        }
    }
}

/// One entry of a script.
#[derive(Clone, Copy, Debug)]
enum Segment {
    Once(Action),
    Pulses { line: Line, count: u32, half_period: u64 },
}

impl Segment {
    spec fn actions(self) -> Seq<Action> {
        match self {
            Segment::Once(action) => seq![action],
            Segment::Pulses { line, count, half_period } => pulse_train(
                line,
                count as nat,
                half_period,
            ),
        }
    }
}

spec fn flatten(segments: Seq<Segment>) -> Seq<Action>
    decreases segments.len(),
{
    if segments.len() == 0 {
        Seq::empty()
    } else {
        segments[0].actions() + flatten(segments.drop_first())
    }
}

proof fn lemma_flatten_push(segments: Seq<Segment>, last: Segment)
    ensures
        flatten(segments.push(last)) == flatten(segments) + last.actions(),
    decreases segments.len(),
{
    if segments.len() == 0 {
        assert(flatten(segments.push(last).drop_first()) =~= Seq::<Action>::empty());
    } else {
        lemma_flatten_push(segments.drop_first(), last);
        assert(segments.push(last).drop_first() =~= segments.drop_first().push(last));
    }
}

/// A queue of actions.
pub struct Script {
    segments: Vec<Segment>,
    /// Entry that holds the next action, or the number of entries.
    index: usize,
    /// Actions of that entry already handed out.
    offset: u64,
}

impl View for Script {
    type V = Seq<Action>;

    /// The actions still to be handed out, next one first.
    closed spec fn view(&self) -> Seq<Action> {
        flatten(self.segments@.skip(self.index as int)).skip(self.offset as int)
    }
}

impl Script {
    #[verifier::type_invariant]
    spec fn well_formed(self) -> bool {
        &&& self.index <= self.segments@.len()
        &&& self.index < self.segments@.len() ==> self.offset < self.segments@[self.index as int].actions().len()
        &&& self.index == self.segments@.len() ==> self.offset == 0
        &&& forall|i: int|
            0 <= i < self.segments@.len() ==> (#[trigger] self.segments@[i]).actions().len() > 0
    }

    /// An empty script.
    pub fn new() -> (script: Script)
        ensures
            script@ == Seq::<Action>::empty(),
    {
        Script { segments: Vec::new(), index: 0, offset: 0 }
    }

    /// Whether every action has been handed out.
    pub fn is_empty(&self) -> (empty: bool)
        ensures
            empty == (self@.len() == 0),
    {
        proof {
            use_type_invariant(self);
        }
        self.index >= self.segments.len()
    }

    fn append(&mut self, segment: Segment)
        requires
            segment.actions().len() > 0,
        ensures
            final(self)@ == old(self)@ + segment.actions(),
    {
        let mut taken = Script::new();
        std::mem::swap(self, &mut taken);
        proof {
            use_type_invariant(&taken);
        }
        let Script { mut segments, index, offset } = taken;
        let ghost before = segments@;
        segments.push(segment);
        proof {
            let kept = before.skip(index as int);
            assert(segments@.skip(index as int) =~= kept.push(segment));
            lemma_flatten_push(kept, segment);
        }
        *self = Script { segments, index, offset };
    }

    /// Appends one action.
    pub fn push(&mut self, action: Action)
        ensures
            final(self)@ == old(self)@.push(action),
    {
        self.append(Segment::Once(action));
    }

    /// Appends `count` step pulses on `line`.
    pub fn pulses(&mut self, line: Line, count: u32, half_period: u64)
        ensures
            final(self)@ == old(self)@ + pulse_train(line, count as nat, half_period),
    {
        if count > 0 {
            self.append(Segment::Pulses { line, count, half_period });
        }
    }

    /// Hands out the next action, if any is left.
    pub fn next(&mut self) -> (action: Option<Action>)
        ensures
            old(self)@.len() == 0 ==> action.is_none() && final(self)@ == old(self)@,
            old(self)@.len() > 0 ==> action == Some(old(self)@[0]) && final(self)@ == old(
                self,
            )@.drop_first(),
    {
        proof {
            use_type_invariant(&*self);
        }
        if self.index >= self.segments.len() {
            return None;
        }
        let segment = self.segments[self.index];
        proof {
            let rest = self.segments@.skip(self.index as int);
            assert(rest.drop_first() =~= self.segments@.skip(self.index + 1));
        }
        match segment {
            Segment::Once(action) => {
                self.offset = 0;
                self.index = self.index + 1;
                Some(action)
            },
            Segment::Pulses { line, count, half_period } => {
                let phase: u64 = self.offset % 4;
                let action = if phase == 0 {
                    Action::Drive { line, high: true }
                } else if phase == 2 {
                    Action::Drive { line, high: false }
                } else {
                    Action::Sleep { micros: half_period }
                };
                let total: u64 = 4 * (count as u64);
                if self.offset + 1 == total {
                    self.offset = 0;
                    self.index = self.index + 1;
                } else {
                    self.offset = self.offset + 1;
                }
                Some(action)
            },
        }
    }
}

} // verus!
