//! Bookkeeping of the changer: which slot is engaged and where the selector
//! stands, and the procedures that move between such states.
//!
//! Position is counted, never measured. A procedure appends its actions to a
//! [`Script`] and moves the bookkeeping to where the mechanism will be once
//! the host has performed them.

use vstd::prelude::*;
use crate::motion::{
    cut, cut_filament, extruder_move, homing_sweep, load, move_selector_to,
    move_stepper_extruder, sweep_home, travel, unload,
};
use crate::profile::{
    EXTRUDER_FAST_LOAD_STEP_SPEED, EXTRUDER_SLOW_LOAD_STEP_SPEED, EXTRUDER_STEP_SPEED,
    FAST_LOAD_STEPS, FILAMENT_POSITIONS, MAX_POSITION, MAX_TRAVEL_TIME, SELECTOR_STEP_SPEED,
    SLOT_COUNT, SLOW_LOAD_STEPS, UNLOAD_STEPS, filament_position, filament_resting_position,
    rest_position, select_position, unload_direction,
};
use crate::script::Script;
use crate::signal::Action;

verus! {

/// The engaged slot and the selector position.
#[derive(Clone, Copy, Debug, PartialEq, Eq)]
pub struct ChangerState {
    /// The slot whose strand is in the extruder path, if any.
    pub current_filament: Option<usize>,
    /// Steps of the selector from the hard stop.
    pub current_position: u32,
}

/// Time still to wait after a selector move that took `elapsed` microseconds,
/// so that every selection takes as long as the longest one.
pub open spec fn equalization_delay(elapsed: u64) -> u64 {
    if elapsed < MAX_TRAVEL_TIME {
        (MAX_TRAVEL_TIME - elapsed) as u64
    } else {
        0
    }
}

/// The wait that equalises a selector move that took `elapsed` microseconds.
pub open spec fn equalization(elapsed: u64) -> Seq<Action> {
    if equalization_delay(elapsed) > 0 {
        seq![Action::Sleep { micros: equalization_delay(elapsed) }]
    } else {
        Seq::empty()
    }
}

impl ChangerState {
    /// The position is on the axis and the slot, if any, exists.
    pub open spec fn wf(self) -> bool {
        &&& self.current_position <= MAX_POSITION
        &&& self.current_filament matches Some(slot) ==> slot < SLOT_COUNT
    }

    /// The selector stands at the rest position of the engaged slot, if there is one.
    pub open spec fn parked(self) -> bool {
        self.current_filament matches Some(slot) ==> self.current_position == rest_position(
            slot as int,
        )
    }

    /// Nothing engaged, selector at the hard stop.
    pub open spec fn origin() -> ChangerState {
        ChangerState { current_filament: None, current_position: 0 }
    }

    /// `slot` engaged, selector at its select position.
    pub open spec fn selecting(slot: usize) -> ChangerState {
        ChangerState {
            current_filament: Some(slot),
            current_position: select_position(slot as int) as u32,
        }
    }

    /// `slot` engaged, selector at its rest position.
    pub open spec fn resting(slot: usize) -> ChangerState {
        ChangerState {
            current_filament: Some(slot),
            current_position: rest_position(slot as int) as u32,
        }
    }

    /// Releasing the engaged strand: the cut, the selector move back to the
    /// select position of the engaged slot, and the retraction. Nothing if no
    /// strand is engaged.
    pub open spec fn release_ops(self) -> Seq<Action> {
        match self.current_filament {
            Some(slot) => cut() + travel(
                self.current_position,
                select_position(slot as int) as u32,
            ) + unload(slot),
            None => Seq::empty(),
        }
    }

    /// The state after `release_ops`.
    pub open spec fn released(self) -> ChangerState {
        match self.current_filament {
            Some(slot) => ChangerState::selecting(slot),
            None => self,
        }
    }

    /// Homing: the release of the engaged strand, then the blind sweep.
    pub open spec fn home_ops(self) -> Seq<Action> {
        self.release_ops() + homing_sweep()
    }

    /// The selector move to the select position of `slot`.
    pub open spec fn select_ops(self, slot: usize) -> Seq<Action> {
        travel(self.current_position, select_position(slot as int) as u32)
    }

    /// Feeding the engaged strand.
    pub open spec fn load_ops(self) -> Seq<Action> {
        match self.current_filament {
            Some(slot) => load(slot),
            None => Seq::empty(),
        }
    }

    /// The selector move to the rest position of the engaged slot.
    pub open spec fn park_ops(self) -> Seq<Action> {
        match self.current_filament {
            Some(slot) => travel(self.current_position, rest_position(slot as int) as u32),
            None => Seq::empty(),
        }
    }

    /// The state after `park_ops`.
    pub open spec fn parked_state(self) -> ChangerState {
        match self.current_filament {
            Some(slot) => ChangerState::resting(slot),
            None => self,
        }
    }

    /// What follows a selector move that took `elapsed` microseconds: the
    /// equalising wait, the feeding, and the move to the rest position.
    pub open spec fn settle_ops(self, elapsed: u64) -> Seq<Action> {
        equalization(elapsed) + self.load_ops() + self.park_ops()
    }

    /// The state at power-up: nothing engaged, position provisionally zero.
    pub fn new() -> (state: ChangerState)
        ensures
            state == ChangerState::origin(),
    {
        ChangerState { current_filament: None, current_position: 0 }
    }

    /// Moves the selector to the select position of `filament` and engages it.
    pub fn move_to_filament(&mut self, script: &mut Script, filament: usize)
        requires
            filament < SLOT_COUNT,
        ensures
            final(script)@ == old(script)@ + old(self).select_ops(filament),
            *final(self) == ChangerState::selecting(filament),
    {
        let target_position = filament_position(filament);
        move_selector_to(script, self.current_position, target_position);
        self.current_position = target_position;
        self.current_filament = Some(filament);
    }

    /// Moves the selector to the rest position of the engaged slot.
    pub fn move_to_resting_position(&mut self, script: &mut Script)
        requires
            old(self).wf(),
        ensures
            final(script)@ == old(script)@ + old(self).park_ops(),
            *final(self) == old(self).parked_state(),
    {
        if let Some(current_filament) = self.current_filament {
            let target_position = filament_resting_position(current_filament);
            move_selector_to(script, self.current_position, target_position);
            self.current_position = target_position;
        }
    }

    /// Retracts the engaged strand by `steps` steps.
    pub fn unload_filament_by(&self, script: &mut Script, steps: u32, speed: u64)
        ensures
            final(script)@ == old(script)@ + (match self.current_filament {
                Some(slot) => extruder_move(steps as nat, unload_direction(slot as int), speed),
                None => Seq::empty(),
            }),
    {
        if let Some(current_filament) = self.current_filament {
            move_stepper_extruder(script, steps, current_filament < 2, speed);
        }
    }

    /// Retracts the engaged strand out of the shared path.
    pub fn unload_filament(&self, script: &mut Script)
        ensures
            final(script)@ == old(script)@ + (match self.current_filament {
                Some(slot) => unload(slot),
                None => Seq::empty(),
            }),
    {
        self.unload_filament_by(script, UNLOAD_STEPS, EXTRUDER_STEP_SPEED);
    }

    /// Feeds the engaged strand: a fast part, then a slow part.
    pub fn load_filament(&self, script: &mut Script)
        ensures
            final(script)@ == old(script)@ + self.load_ops(),
    {
        if let Some(current_filament) = self.current_filament {
            let direction = current_filament >= 2;
            move_stepper_extruder(
                script,
                FAST_LOAD_STEPS,
                direction,
                EXTRUDER_FAST_LOAD_STEP_SPEED,
            );
            move_stepper_extruder(
                script,
                SLOW_LOAD_STEPS,
                direction,
                EXTRUDER_SLOW_LOAD_STEP_SPEED,
            );
        }
    }

    /// Begins a change to `new_filament`.
    ///
    /// Nothing happens if that is the engaged slot already. Otherwise the
    /// engaged strand, if any, is released. A change to no slot ends there,
    /// with nothing engaged. A change to a slot is owed the selection, which
    /// waits for a clock reading: the slot comes back as the result.
    pub fn change_filament(&mut self, script: &mut Script, new_filament: Option<usize>) -> (owed:
        Option<usize>)
        requires
            old(self).wf(),
        ensures
            new_filament == old(self).current_filament ==> {
                &&& final(script)@ == old(script)@
                &&& *final(self) == *old(self)
                &&& owed.is_none()
            },
            new_filament != old(self).current_filament ==> {
                &&& final(script)@ == old(script)@ + old(self).release_ops()
                &&& owed == new_filament
                &&& final(self).current_position == old(self).released().current_position
                &&& final(self).current_filament == (if new_filament.is_some() {
                    old(self).current_filament
                } else {
                    None
                })
            },
    {
        if new_filament == self.current_filament {
            return None;
        }
        if let Some(current_filament_id) = self.current_filament {
            cut_filament(script);
            self.move_to_filament(script, current_filament_id);
            self.unload_filament(script);
        }
        if new_filament.is_none() {
            self.current_filament = None;
        }
        new_filament
    }

    /// Time still to wait after a selector move that took `elapsed`
    /// microseconds: what the longest move takes, less `elapsed`.
    pub fn remaining_time(elapsed: u64) -> (remaining: u64)
        ensures
            remaining == equalization_delay(elapsed),
    {
        let max_steps = FILAMENT_POSITIONS[3];
        let step_time = SELECTOR_STEP_SPEED * 2;
        let max_movement_time = step_time * (max_steps as u64);
        if elapsed < max_movement_time {
            max_movement_time - elapsed
        } else {
            0
        }
    }

    /// Completes a change after a selector move that took `elapsed`
    /// microseconds: waits out the rest of the longest move, feeds the
    /// strand, and parks the selector.
    pub fn settle(&mut self, script: &mut Script, elapsed: u64)
        requires
            old(self).wf(),
        ensures
            final(script)@ == old(script)@ + old(self).settle_ops(elapsed),
            *final(self) == old(self).parked_state(),
    {
        let remaining_time = Self::remaining_time(elapsed);
        if remaining_time > 0 {
            script.push(Action::Sleep { micros: remaining_time });
        }
        self.load_filament(script);
        self.move_to_resting_position(script);
    }

    /// Homes the selector: releases the engaged strand, sweeps against the
    /// hard stop, and takes the position reached for zero.
    pub fn home(&mut self, script: &mut Script)
        requires
            old(self).wf(),
        ensures
            final(script)@ == old(script)@ + old(self).home_ops(),
            *final(self) == ChangerState::origin(),
    {
        let _ = self.change_filament(script, None);
        sweep_home(script);
        self.current_filament = None;
        self.current_position = 0;
    }
}

} // verus!
