//! An earlier form of the remembered state, with one watering day per plant.

use vstd::prelude::*;
use crate::calendar::Date;
use crate::calendar::DateTime;
use crate::state::IoFailure;

verus! {

/// What is remembered of the device.
#[derive(Debug, PartialEq, Eq)]
pub struct State {
    /// The day for which each plant's watering was last planned.
    pub last_planned_watering: Vec<Date>,
    /// When the device last asked for its jobs.
    pub last_seen: DateTime,
    /// The charge that it reported then, in thousandths of a percent.
    pub last_accu_percentage: i32,
}

/// Why the state cannot be had.
#[derive(Clone, Copy, Debug, PartialEq, Eq)]
pub enum StateError {
    /// The file could not be opened or read.
    Io(IoFailure),
    /// The file holds no state.
    Parse,
}

/// What the state file was last seen to hold.
#[derive(Debug, PartialEq, Eq)]
pub enum HeldFile {
    /// The file could not be opened or read.
    Unreadable(IoFailure),
    /// The file holds no state.
    Malformed,
    /// The file holds this state.
    Valid(State),
}

/// Keeper of the state.
#[derive(Debug)]
pub struct Stateholder {
    file: HeldFile,
}

impl Stateholder {
    /// What the file was last seen to hold, with the changes made since.
    pub closed spec fn file(&self) -> HeldFile {
        self.file
    }

    /// A holder that has seen no file yet: to it there is none.
    pub fn new() -> (holder: Stateholder)
        ensures
            holder.file() == HeldFile::Unreadable(IoFailure::NotFound),
    {
        Stateholder { file: HeldFile::Unreadable(IoFailure::NotFound) }
    }

    /// Takes note of what the file holds.
    pub fn load(&mut self, file: HeldFile)
        ensures
            final(self).file() == file,
    {
        self.file = file;
    }

    /// The state, or why there is none.
    pub fn get(&self) -> (state: Result<State, StateError>)
        ensures
            match self.file() {
                HeldFile::Unreadable(failure) => state == Err::<State, StateError>(
                    StateError::Io(failure),
                ),
                HeldFile::Malformed => state == Err::<State, StateError>(StateError::Parse),
                HeldFile::Valid(held) => {
                    &&& state is Ok
                    &&& state.unwrap().last_planned_watering@ == held.last_planned_watering@
                    &&& state.unwrap().last_seen == held.last_seen
                    &&& state.unwrap().last_accu_percentage == held.last_accu_percentage
                },
            },
    {
        match &self.file {
            HeldFile::Unreadable(failure) => Err(StateError::Io(*failure)),
            HeldFile::Malformed => Err(StateError::Parse),
            HeldFile::Valid(held) => {
                let mut days: Vec<Date> = Vec::new();
                let mut i: usize = 0;
                while i < held.last_planned_watering.len()
                    invariant
                        i <= held.last_planned_watering@.len(),
                        days@ == held.last_planned_watering@.subrange(0, i as int),
                    decreases held.last_planned_watering@.len() - i,
                {
                    days.push(held.last_planned_watering[i]);
                    i += 1;
                    assert(days@ =~= held.last_planned_watering@.subrange(0, i as int));
                }
                assert(held.last_planned_watering@.subrange(0, i as int)
                    =~= held.last_planned_watering@);
                Ok(
                    State {
                        last_planned_watering: days,
                        last_seen: held.last_seen,
                        last_accu_percentage: held.last_accu_percentage,
                    },
                )
            },
        }
    }

    /// Replaces the state, whatever the file held.
    pub fn set(&mut self, state: State)
        ensures
            final(self).file() == HeldFile::Valid(state),
    {
        self.file = HeldFile::Valid(state);
    }
}

} // verus!
