//! What the job service remembers of the device between requests.
//!
//! The manager holds what the state file was last seen to hold. The caller
//! reads the file into it and writes changes back.

use vstd::prelude::*;
use crate::calendar::Date;
use crate::calendar::DateTime;
use crate::config::HostAddr;
use crate::config::LOCALHOST;

verus! {

/// What is remembered of the device.
#[derive(Clone, Copy, Debug, PartialEq, Eq)]
pub struct JsonState {
    /// The day for which watering was last planned.
    pub last_planned_watering: Date,
    /// When the device last asked for its jobs.
    pub last_seen: DateTime,
    /// The charge that it reported then, in thousandths of a percent.
    pub last_accu_percentage: i32,
    /// The address from which it asked.
    pub last_ip: HostAddr,
}

/// What went wrong with a file.
#[derive(Clone, Copy, Debug, PartialEq, Eq)]
pub enum IoFailure {
    /// There is no such file.
    NotFound,
    /// Anything else.
    Other,
}

/// Why the state cannot be had.
#[derive(Clone, Copy, Debug, PartialEq, Eq)]
pub enum StateError {
    /// The file could not be opened or read.
    Io(IoFailure),
    /// The file holds no state.
    Parse,
}

/// What the state file was last seen to hold.
#[derive(Clone, Copy, Debug, PartialEq, Eq)]
pub enum StateFile {
    /// There is no file.
    Missing,
    /// The file could not be opened or read.
    Unreadable,
    /// The file holds no state.
    Malformed,
    /// The file holds this state.
    Valid(JsonState),
}

/// The state of a device that was never seen: everything at the epoch, no
/// charge, the local address.
pub open spec fn default_state() -> JsonState {
    JsonState {
        last_planned_watering: Date { epoch_days: 0 },
        last_seen: DateTime::at(0, 0),
        last_accu_percentage: 0,
        last_ip: HostAddr::V4(LOCALHOST),
    }
}

/// What reading a file gives.
pub open spec fn read_state(file: StateFile) -> Result<JsonState, StateError> {
    match file {
        StateFile::Missing => Err(StateError::Io(IoFailure::NotFound)),
        StateFile::Unreadable => Err(StateError::Io(IoFailure::Other)),
        StateFile::Malformed => Err(StateError::Parse),
        StateFile::Valid(state) => Ok(state),
    }
}

/// Keeper of the state.
#[derive(Clone, Copy, Debug)]
pub struct JsonStateManager {
    file: StateFile,
    unsaved: bool,
}

impl JsonStateManager {
    /// What the file was last seen to hold, with the changes made since.
    pub closed spec fn file(&self) -> StateFile {
        self.file
    }

    /// Whether the state was changed since the file was last read or written.
    pub closed spec fn unsaved(&self) -> bool {
        self.unsaved
    }

    /// A manager that has seen no file yet: to it there is none.
    pub fn new() -> (manager: JsonStateManager)
        ensures
            manager.file() == StateFile::Missing,
            !manager.unsaved(),
    {
        JsonStateManager { file: StateFile::Missing, unsaved: false }
    }

    /// Takes note of what the file holds.
    pub fn load(&mut self, file: StateFile)
        ensures
            final(self).file() == file,
            !final(self).unsaved(),
    {
        self.file = file;
        self.unsaved = false;
    }

    /// Whether there is a change that the file does not hold yet.
    pub fn is_unsaved(&self) -> (unsaved: bool)
        ensures
            unsaved == self.unsaved(),
    {
        self.unsaved
    }

    /// Takes note that the file holds every change.
    pub fn mark_saved(&mut self)
        ensures
            final(self).file() == old(self).file(),
            !final(self).unsaved(),
    {
        self.unsaved = false;
    }

    /// The state, or why there is none.
    pub fn get(&self) -> (state: Result<JsonState, StateError>)
        ensures
            state == read_state(self.file()),
    {
        match self.file {
            StateFile::Missing => Err(StateError::Io(IoFailure::NotFound)),
            StateFile::Unreadable => Err(StateError::Io(IoFailure::Other)),
            StateFile::Malformed => Err(StateError::Parse),
            StateFile::Valid(state) => Ok(state),
        }
    }

    /// Replaces the state, whatever the file held.
    pub fn set(&mut self, state: JsonState)
        ensures
            final(self).file() == StateFile::Valid(state),
            final(self).unsaved(),
    {
        self.file = StateFile::Valid(state);
        self.unsaved = true;
    }

    /// The state, which is first set to that of a device never seen where
    /// there is no file. A file that cannot be read or holds no state is left
    /// alone and reported.
    pub fn ensure_state(&mut self) -> (state: Result<JsonState, StateError>)
        ensures
            match old(self).file() {
                StateFile::Missing => {
                    &&& state == Ok::<JsonState, StateError>(default_state())
                    &&& final(self).file() == StateFile::Valid(default_state())
                    &&& final(self).unsaved()
                },
                _ => {
                    &&& state == read_state(old(self).file())
                    &&& final(self).file() == old(self).file()
                    &&& final(self).unsaved() == old(self).unsaved()
                },
            },
    {
        match self.get() {
            Ok(state) => Ok(state),
            Err(StateError::Io(IoFailure::NotFound)) => {
                let fresh = JsonState {
                    last_planned_watering: Date { epoch_days: 0 },
                    last_seen: DateTime::epoch(),
                    last_accu_percentage: 0,
                    last_ip: HostAddr::V4(LOCALHOST),
                };
                self.set(fresh);
                Ok(fresh)
            },
            Err(error) => Err(error),
        }
    }
}

} // verus!
