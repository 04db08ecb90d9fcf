//! What a sequence of actions does once the host has performed it: the time
//! it takes and the level it leaves on a line.

use vstd::prelude::*;
use crate::script::{lemma_pulse_train_grows, pulse, pulse_train};
use crate::signal::{Action, Line};

verus! {

/// Microseconds that `action` suspends the host for.
pub open spec fn pause(action: Action) -> nat {
    match action {
        Action::Sleep { micros } => micros as nat,
        _ => 0,
    }
}

/// Microseconds that `actions` take in all, counting the waits alone.
pub open spec fn duration(actions: Seq<Action>) -> nat
    decreases actions.len(),
{
    if actions.len() == 0 {
        0
    } else {
        duration(actions.drop_last()) + pause(actions.last())
    }
}

/// Level of `line` after `action`, given its level before.
pub open spec fn level_past(action: Action, line: Line, before: bool) -> bool {
    match action {
        Action::Drive { line: driven, high } => if driven == line {
            high
        } else {
            before
        },
        _ => before,
    }
}

/// Level of `line` after `actions`, given its level before them.
pub open spec fn level_after(actions: Seq<Action>, line: Line, before: bool) -> bool
    decreases actions.len(),
{
    if actions.len() == 0 {
        before
    } else {
        level_past(actions.last(), line, level_after(actions.drop_last(), line, before))
    }
}

/// Whether `action` drives `line`.
pub open spec fn drives(action: Action, line: Line) -> bool {
    action matches Action::Drive { line: driven, .. } && driven == line
}

/// The time of two sequences in a row is the sum of their times.
pub proof fn lemma_duration_concat(first: Seq<Action>, second: Seq<Action>)
    ensures
        duration(first + second) == duration(first) + duration(second),
    decreases second.len(),
{
    if second.len() > 0 {
        lemma_duration_concat(first, second.drop_last());
        assert((first + second).drop_last() =~= first + second.drop_last());
    }
}

/// What a single action takes.
pub proof fn lemma_duration_single(action: Action)
    ensures
        duration(seq![action]) == pause(action),
{
    assert(duration(seq![action].drop_last()) == 0);
}

/// A train of `count` pulses takes `count` times two half-periods.
pub proof fn lemma_duration_pulse_train(line: Line, count: nat, half_period: u64)
    ensures
        duration(pulse_train(line, count, half_period)) == count * (2 * half_period),
    decreases count,
{
    if count == 0 {
    } else {
        let shorter = (count - 1) as nat;
        lemma_duration_pulse_train(line, shorter, half_period);
        lemma_pulse_train_grows(line, shorter, half_period);
        let one = pulse(line, half_period);
        lemma_duration_concat(pulse_train(line, shorter, half_period), one);
        let up = seq![Action::Drive { line, high: true }, Action::Sleep { micros: half_period }];
        let down = seq![
            Action::Drive { line, high: false },
            Action::Sleep { micros: half_period },
        ];
        assert(one =~= up + down);
        lemma_duration_concat(up, down);
        lemma_duration_pair(Action::Drive { line, high: true }, Action::Sleep { micros: half_period });
        lemma_duration_pair(
            Action::Drive { line, high: false },
            Action::Sleep { micros: half_period },
        );
        assert(count * (2 * half_period) == shorter * (2 * half_period) + 2 * half_period)
            by (nonlinear_arith)
            requires
                count == shorter + 1,
        ;
    }
}

/// What two actions in a row take.
pub proof fn lemma_duration_pair(first: Action, second: Action)
    ensures
        duration(seq![first, second]) == pause(first) + pause(second),
{
    assert(seq![first, second] =~= seq![first] + seq![second]);
    lemma_duration_concat(seq![first], seq![second]);
    lemma_duration_single(first);
    lemma_duration_single(second);
}

/// The level after two sequences in a row is the level after the second,
/// begun at the level after the first.
pub proof fn lemma_level_concat(first: Seq<Action>, second: Seq<Action>, line: Line, before: bool)
    ensures
        level_after(first + second, line, before) == level_after(
            second,
            line,
            level_after(first, line, before),
        ),
    decreases second.len(),
{
    if second.len() > 0 {
        lemma_level_concat(first, second.drop_last(), line, before);
        assert((first + second).drop_last() =~= first + second.drop_last());
    }
}

/// Actions that do not drive a line leave its level as it was.
pub proof fn lemma_level_untouched(actions: Seq<Action>, line: Line, before: bool)
    requires
        forall|i: int| 0 <= i < actions.len() ==> !drives(#[trigger] actions[i], line),
    ensures
        level_after(actions, line, before) == before,
    decreases actions.len(),
{
    if actions.len() > 0 {
        let front = actions.drop_last();
        lemma_level_untouched(front, line, before);
    }
}

/// The last action that drives a line decides its level: if the action at
/// place `at` drives `line` to `high` and none after it drives `line`, the
/// level after all of `actions` is `high`.
pub proof fn lemma_level_last_driven(
    actions: Seq<Action>,
    line: Line,
    before: bool,
    at: int,
    high: bool,
)
    requires
        0 <= at < actions.len(),
        actions[at] == (Action::Drive { line, high }),
        forall|i: int| at < i < actions.len() ==> !drives(#[trigger] actions[i], line),
    ensures
        level_after(actions, line, before) == high,
{
    let head = actions.take(at + 1);
    let rest = actions.skip(at + 1);
    assert(actions =~= head + rest);
    lemma_level_concat(head, rest, line, before);
    lemma_level_untouched(rest, line, high);
}

} // verus!
