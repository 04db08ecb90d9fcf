//! The changer as a machine that the host steps.
//!
//! The host owns the hardware and the clock. It calls
//! [`FilamentChanger::run`] with what the last action yielded, performs the
//! action it gets back, and calls again. Between two readings the machine
//! hands out a script action by action; when a script has run dry, the
//! reading that its last action asked for decides what comes next.

use vstd::prelude::*;
use crate::decoder::{Command, decode_hold, decoded};
use crate::profile::{BLINK_INTERVAL, HELD_POLL_INTERVAL, IDLE_POLL_INTERVAL, SLOT_COUNT};
use crate::script::Script;
use crate::signal::{Action, Event, Line, elapsed, elapsed_between};
use crate::state::ChangerState;

verus! {

/// What the machine is waiting to learn once its script has run dry.
#[derive(Clone, Copy, Debug, PartialEq, Eq, Structural)]
pub enum Stage {
    /// Nothing has been done yet; homing comes first.
    Boot,
    /// Idle: the sensor level.
    Idle,
    /// The sensor has just been seen asserted: the time at which that was.
    Asserted,
    /// The sensor is being held: its level. The hold began at `since`, and
    /// the indicator last changed at `toggled`.
    Held { since: u64, toggled: u64 },
    /// The sensor is still held: the time, to see whether the indicator is due.
    Blinking { since: u64, toggled: u64 },
    /// The sensor has been let go: the time, which ends the hold.
    Released { since: u64 },
    /// A change to `target` has released the old strand: the time at which
    /// the selector move begins.
    Selecting { target: usize },
    /// The selector has moved to the new slot: the time, which tells how long
    /// the move that began at `started` took.
    Equalizing { started: u64 },
}

/// The machine as a value: bookkeeping, indicator level, stage, and the
/// actions still to be handed out.
pub struct Machine {
    /// Where the mechanism will be once the pending actions have been performed.
    pub state: ChangerState,
    /// Level last driven on the indicator line.
    pub indicator: bool,
    /// What the reading that ends the pending actions will be taken for.
    pub stage: Stage,
    /// The actions still to be handed out, next one first.
    pub pending: Seq<Action>,
}

/// The pause that ends every round of the idle loop, and the next sample.
pub open spec fn idle_round() -> Seq<Action> {
    seq![Action::Sleep { micros: IDLE_POLL_INTERVAL }, Action::ReadSensor]
}

/// The pause that ends every round of the loop that watches a hold, and the next sample.
pub open spec fn held_round() -> Seq<Action> {
    seq![Action::Sleep { micros: HELD_POLL_INTERVAL }, Action::ReadSensor]
}

impl Machine {
    /// The bookkeeping is valid, a change under way aims at a slot that
    /// exists, and outside a change the selector is parked.
    pub open spec fn wf(self) -> bool {
        &&& self.state.wf()
        &&& match self.stage {
            Stage::Selecting { target } => target < SLOT_COUNT,
            Stage::Equalizing { started } => self.state.current_filament.is_some(),
            _ => self.state.parked(),
        }
    }

    /// The machine at power-up.
    pub open spec fn initial() -> Machine {
        Machine {
            state: ChangerState::origin(),
            indicator: false,
            stage: Stage::Boot,
            pending: Seq::empty(),
        }
    }

    /// The machine with the one action `reading` pending and nothing else changed.
    pub open spec fn asking(self, reading: Action) -> Machine {
        Machine { pending: seq![reading], ..self }
    }

    /// The machine going back to idle polling.
    pub open spec fn idling(self) -> Machine {
        Machine { pending: idle_round(), stage: Stage::Idle, ..self }
    }

    /// The machine acting on a decoded hold.
    ///
    /// No command, or the slot that is engaged already: back to idle.
    /// Home: homing, then back to idle. Another slot: the release of the
    /// engaged strand, then the clock reading that starts the selection.
    pub open spec fn dispatch(self, command: Option<Command>) -> Machine {
        match command {
            None => self.idling(),
            Some(Command::Home) => Machine {
                state: ChangerState::origin(),
                pending: self.state.home_ops() + idle_round(),
                stage: Stage::Idle,
                ..self
            },
            Some(Command::Select(slot)) => if self.state.current_filament == Some(slot) {
                self.idling()
            } else {
                Machine {
                    state: self.state.released(),
                    pending: self.state.release_ops() + seq![Action::ReadClock],
                    stage: Stage::Selecting { target: slot },
                    ..self
                }
            },
        }
    }

    /// The machine after the reading `event` has arrived with no action pending.
    ///
    /// A reading of the wrong kind is asked for again.
    pub open spec fn react(self, event: Event) -> Machine {
        match self.stage {
            Stage::Boot => Machine {
                state: ChangerState::origin(),
                pending: self.state.home_ops() + seq![Action::ReadSensor],
                stage: Stage::Idle,
                ..self
            },
            Stage::Idle => match event {
                Event::Sensor { asserted } => if asserted {
                    Machine {
                        indicator: false,
                        pending: seq![
                            Action::Drive { line: Line::Indicator, high: false },
                            Action::ReadClock,
                        ],
                        stage: Stage::Asserted,
                        ..self
                    }
                } else {
                    self.idling()
                },
                _ => self.asking(Action::ReadSensor),
            },
            Stage::Asserted => match event {
                Event::Clock { micros } => Machine {
                    pending: seq![Action::ReadSensor],
                    stage: Stage::Held { since: micros, toggled: micros },
                    ..self
                },
                _ => self.asking(Action::ReadClock),
            },
            Stage::Held { since, toggled } => match event {
                Event::Sensor { asserted } => Machine {
                    pending: seq![Action::ReadClock],
                    stage: if asserted {
                        Stage::Blinking { since, toggled }
                    } else {
                        Stage::Released { since }
                    },
                    ..self
                },
                _ => self.asking(Action::ReadSensor),
            },
            Stage::Blinking { since, toggled } => match event {
                Event::Clock { micros } => if elapsed_between(toggled, micros) >= BLINK_INTERVAL {
                    Machine {
                        indicator: !self.indicator,
                        pending: seq![
                            Action::Drive { line: Line::Indicator, high: !self.indicator },
                        ] + held_round(),
                        stage: Stage::Held { since, toggled: micros },
                        ..self
                    }
                } else {
                    Machine {
                        pending: held_round(),
                        stage: Stage::Held { since, toggled },
                        ..self
                    }
                },
                _ => self.asking(Action::ReadClock),
            },
            Stage::Released { since } => match event {
                Event::Clock { micros } => self.dispatch(
                    decoded(elapsed_between(since, micros) as int / 1000),
                ),
                _ => self.asking(Action::ReadClock),
            },
            Stage::Selecting { target } => match event {
                Event::Clock { micros } => Machine {
                    state: ChangerState::selecting(target),
                    pending: self.state.select_ops(target) + seq![Action::ReadClock],
                    stage: Stage::Equalizing { started: micros },
                    ..self
                },
                _ => self.asking(Action::ReadClock),
            },
            Stage::Equalizing { started } => match event {
                Event::Clock { micros } => Machine {
                    state: self.state.parked_state(),
                    pending: self.state.settle_ops(elapsed_between(started, micros))
                        + idle_round(),
                    stage: Stage::Idle,
                    ..self
                },
                _ => self.asking(Action::ReadClock),
            },
        }
    }

    /// The machine that has an action to hand out: itself while actions are
    /// pending, else what the reading `event` makes of it.
    pub open spec fn ready(self, event: Event) -> Machine {
        if self.pending.len() > 0 {
            self
        } else {
            self.react(event)
        }
    }

    /// One step: the action handed out for `event`.
    pub open spec fn action(self, event: Event) -> Action {
        self.ready(event).pending[0]
    }

    /// One step: the machine after it has handed out that action.
    pub open spec fn step(self, event: Event) -> Machine {
        Machine { pending: self.ready(event).pending.drop_first(), ..self.ready(event) }
    }

    /// The machine after one step for each of `events`.
    pub open spec fn after(self, events: Seq<Event>) -> Machine
        decreases events.len(),
    {
        if events.len() == 0 {
            self
        } else {
            self.step(events[0]).after(events.drop_first())
        }
    }

    /// The actions handed out over one step for each of `events`.
    pub open spec fn handed_out(self, events: Seq<Event>) -> Seq<Action>
        decreases events.len(),
    {
        if events.len() == 0 {
            Seq::empty()
        } else {
            seq![self.action(events[0])] + self.step(events[0]).handed_out(events.drop_first())
        }
    }

    /// The machine once the host has been handed every pending action.
    pub open spec fn drained(self) -> Machine {
        Machine { pending: Seq::empty(), ..self }
    }

    /// The machine after a whole change to `slot`, begun with nothing
    /// pending: the clock read `begun` before the selector move and `moved`
    /// after it, and every script has been handed out.
    pub open spec fn changed(self, slot: usize, begun: u64, moved: u64) -> Machine {
        let released = self.dispatch(Some(Command::Select(slot))).drained();
        if self.state.current_filament == Some(slot) {
            released
        } else {
            released.react(Event::Clock { micros: begun }).drained().react(
                Event::Clock { micros: moved },
            ).drained()
        }
    }
}

/// The changer.
pub struct FilamentChanger {
    state: ChangerState,
    indicator: bool,
    stage: Stage,
    script: Script,
}

impl View for FilamentChanger {
    type V = Machine;

    closed spec fn view(&self) -> Machine {
        Machine {
            state: self.state,
            indicator: self.indicator,
            stage: self.stage,
            pending: self.script@,
        }
    }
}

impl FilamentChanger {
    #[verifier::type_invariant]
    spec fn valid(self) -> bool {
        self@.wf()
    }

    /// The changer at power-up: nothing engaged, nothing done.
    pub fn new() -> (changer: FilamentChanger)
        ensures
            changer@ == Machine::initial(),
            changer@.wf(),
    {
        FilamentChanger {
            state: ChangerState::new(),
            indicator: false,
            stage: Stage::Boot,
            script: Script::new(),
        }
    }

    /// The slot whose strand is engaged, if any.
    pub fn current_filament(&self) -> (slot: Option<usize>)
        ensures
            slot == self@.state.current_filament,
    {
        self.state.current_filament
    }

    /// Steps of the selector from the hard stop, once the pending actions
    /// have been performed.
    pub fn current_position(&self) -> (position: u32)
        ensures
            position == self@.state.current_position,
    {
        self.state.current_position
    }

    /// What the machine is waiting to learn.
    pub fn stage(&self) -> (stage: Stage)
        ensures
            stage == self@.stage,
    {
        self.stage
    }

    /// Level last driven on the indicator line.
    pub fn indicator(&self) -> (high: bool)
        ensures
            high == self@.indicator,
    {
        self.indicator
    }

    /// Whether actions of the current script are still to be handed out.
    pub fn is_busy(&self) -> (busy: bool)
        ensures
            busy == (self@.pending.len() > 0),
    {
        !self.script.is_empty()
    }

    /// A machine with one action pending.
    fn asking(&self, reading: Action) -> (next: FilamentChanger)
        ensures
            next@ == self@.asking(reading),
    {
        proof {
            use_type_invariant(self);
        }
        let mut script = Script::new();
        script.push(reading);
        FilamentChanger { state: self.state, indicator: self.indicator, stage: self.stage, script }
    }

    /// A machine going back to idle polling.
    fn idling(&self) -> (next: FilamentChanger)
        requires
            self@.state.parked(),
        ensures
            next@ == self@.idling(),
    {
        proof {
            use_type_invariant(self);
        }
        let mut script = Script::new();
        script.push(Action::Sleep { micros: IDLE_POLL_INTERVAL });
        script.push(Action::ReadSensor);
        proof {
            assert(script@ =~= idle_round());
        }
        FilamentChanger {
            state: self.state,
            indicator: self.indicator,
            stage: Stage::Idle,
            script,
        }
    }

    /// Acts on a decoded hold.
    fn dispatch(&self, command: Option<Command>) -> (next: FilamentChanger)
        requires
            self@.state.parked(),
            command matches Some(Command::Select(slot)) ==> slot < SLOT_COUNT,
        ensures
            next@ == self@.dispatch(command),
    {
        proof {
            use_type_invariant(self);
        }
        match command {
            None => self.idling(),
            Some(Command::Home) => {
                let mut state = self.state;
                let mut script = Script::new();
                state.home(&mut script);
                script.push(Action::Sleep { micros: IDLE_POLL_INTERVAL });
                script.push(Action::ReadSensor);
                proof {
                    assert(script@ =~= self@.state.home_ops() + idle_round());
                }
                FilamentChanger { state, indicator: self.indicator, stage: Stage::Idle, script }
            },
            Some(Command::Select(slot)) => {
                let mut state = self.state;
                let mut script = Script::new();
                match state.change_filament(&mut script, Some(slot)) {
                    None => self.idling(),
                    Some(target) => {
                        script.push(Action::ReadClock);
                        proof {
                            assert(script@ =~= self@.state.release_ops() + seq![
                                Action::ReadClock,
                            ]);
                        }
                        FilamentChanger {
                            state,
                            indicator: self.indicator,
                            stage: Stage::Selecting { target },
                            script,
                        }
                    },
                }
            },
        }
    }

    /// Takes the reading that the last action of the finished script asked for.
    fn react(&self, event: Event) -> (next: FilamentChanger)
        ensures
            next@ == self@.react(event),
    {
        proof {
            use_type_invariant(self);
        }
        match self.stage {
            Stage::Boot => {
                let mut state = self.state;
                let mut script = Script::new();
                state.home(&mut script);
                script.push(Action::ReadSensor);
                proof {
                    assert(script@ =~= self@.state.home_ops() + seq![Action::ReadSensor]);
                }
                FilamentChanger { state, indicator: self.indicator, stage: Stage::Idle, script }
            },
            Stage::Idle => match event {
                Event::Sensor { asserted } => if asserted {
                    let mut script = Script::new();
                    script.push(Action::Drive { line: Line::Indicator, high: false });
                    script.push(Action::ReadClock);
                    proof {
                        assert(script@ =~= seq![
                            Action::Drive { line: Line::Indicator, high: false },
                            Action::ReadClock,
                        ]);
                    }
                    FilamentChanger {
                        state: self.state,
                        indicator: false,
                        stage: Stage::Asserted,
                        script,
                    }
                } else {
                    self.idling()
                },
                _ => self.asking(Action::ReadSensor),
            },
            Stage::Asserted => match event {
                Event::Clock { micros } => {
                    let mut script = Script::new();
                    script.push(Action::ReadSensor);
                    FilamentChanger {
                        state: self.state,
                        indicator: self.indicator,
                        stage: Stage::Held { since: micros, toggled: micros },
                        script,
                    }
                },
                _ => self.asking(Action::ReadClock),
            },
            Stage::Held { since, toggled } => match event {
                Event::Sensor { asserted } => {
                    let mut script = Script::new();
                    script.push(Action::ReadClock);
                    let stage = if asserted {
                        Stage::Blinking { since, toggled }
                    } else {
                        Stage::Released { since }
                    };
                    FilamentChanger {
                        state: self.state,
                        indicator: self.indicator,
                        stage,
                        script,
                    }
                },
                _ => self.asking(Action::ReadSensor),
            },
            Stage::Blinking { since, toggled } => match event {
                Event::Clock { micros } => {
                    let mut script = Script::new();
                    let mut indicator = self.indicator;
                    let mut last_toggle = toggled;
                    if elapsed(toggled, micros) >= BLINK_INTERVAL {
                        indicator = !indicator;
                        last_toggle = micros;
                        script.push(Action::Drive { line: Line::Indicator, high: indicator });
                    }
                    script.push(Action::Sleep { micros: HELD_POLL_INTERVAL });
                    script.push(Action::ReadSensor);
                    proof {
                        if elapsed_between(toggled, micros) >= BLINK_INTERVAL {
                            assert(script@ =~= seq![
                                Action::Drive { line: Line::Indicator, high: indicator },
                            ] + held_round());
                        } else {
                            assert(script@ =~= held_round());
                        }
                    }
                    FilamentChanger {
                        state: self.state,
                        indicator,
                        stage: Stage::Held { since, toggled: last_toggle },
                        script,
                    }
                },
                _ => self.asking(Action::ReadClock),
            },
            Stage::Released { since } => match event {
                Event::Clock { micros } => {
                    let duration = elapsed(since, micros);
                    self.dispatch(decode_hold(duration))
                },
                _ => self.asking(Action::ReadClock),
            },
            Stage::Selecting { target } => match event {
                Event::Clock { micros } => {
                    let mut state = self.state;
                    let mut script = Script::new();
                    state.move_to_filament(&mut script, target);
                    script.push(Action::ReadClock);
                    proof {
                        assert(script@ =~= self@.state.select_ops(target) + seq![
                            Action::ReadClock,
                        ]);
                    }
                    FilamentChanger {
                        state,
                        indicator: self.indicator,
                        stage: Stage::Equalizing { started: micros },
                        script,
                    }
                },
                _ => self.asking(Action::ReadClock),
            },
            Stage::Equalizing { started } => match event {
                Event::Clock { micros } => {
                    let mut state = self.state;
                    let mut script = Script::new();
                    state.settle(&mut script, elapsed(started, micros));
                    script.push(Action::Sleep { micros: IDLE_POLL_INTERVAL });
                    script.push(Action::ReadSensor);
                    proof {
                        assert(script@ =~= self@.state.settle_ops(
                            elapsed_between(started, micros),
                        ) + idle_round());
                    }
                    FilamentChanger { state, indicator: self.indicator, stage: Stage::Idle, script }
                },
                _ => self.asking(Action::ReadClock),
            },
        }
    }

    /// Runs the machine by one step.
    ///
    /// `event` is what the action handed out by the last call yielded; on the
    /// first call it is not looked at. While a script is being handed out
    /// the event is not looked at either: the next action of the script comes
    /// back. When the script has run dry, `event` must carry the reading that
    /// its last action asked for, and decides the next script; a reading of
    /// the wrong kind is asked for again.
    pub fn run(&mut self, event: Event) -> (action: Action)
        ensures
            old(self)@.wf(),
            final(self)@.wf(),
            action == old(self)@.action(event),
            final(self)@ == old(self)@.step(event),
    {
        proof {
            use_type_invariant(&*self);
        }
        if self.script.is_empty() {
            let next = self.react(event);
            *self = next;
        }
        proof {
            use_type_invariant(&*self);
        }
        let mut script = Script::new();
        std::mem::swap(&mut self.script, &mut script);
        let action = script.next();
        self.script = script;
        match action {
            Some(action) => action,
            None => {
                // Every script is planned with at least one action.
                proof {
                    assert(false);
                }
                Action::ReadSensor
            },
        }
    }
}

} // verus!
