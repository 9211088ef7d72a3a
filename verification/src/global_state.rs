//! Everything the job service keeps between requests.

use vstd::prelude::*;
use crate::config::ConfigManager;
use crate::state::JsonStateManager;
use crate::watering_test::PendingWateringTest;

verus! {

/// The configuration, the remembered state and the slot of the test job.
pub struct GlobalState {
    pub config: ConfigManager,
    pub json_state: JsonStateManager,
    pub pending_warting_test: PendingWateringTest,
}

impl GlobalState {
    /// The configuration and the remembered state are those of `other`.
    pub open spec fn same_files(&self, other: &GlobalState) -> bool {
        &&& self.config.file() == other.config.file()
        &&& self.config.unsaved() == other.config.unsaved()
        &&& self.json_state.file() == other.json_state.file()
        &&& self.json_state.unsaved() == other.json_state.unsaved()
    }

    /// The slot of the test job is that of `other`.
    pub open spec fn same_slot(&self, other: &GlobalState) -> bool {
        &&& self.pending_warting_test.pending() == other.pending_warting_test.pending()
        &&& self.pending_warting_test.next_ticket() == other.pending_warting_test.next_ticket()
    }

    /// A service that has seen no file yet and holds no test job: nothing
    /// waits to be written, and the first test will get ticket 0.
    pub fn new() -> (state: GlobalState)
        ensures
            state.config.file() == crate::config::ConfigFile::OpenFailed,
            !state.config.unsaved(),
            state.json_state.file() == crate::state::StateFile::Missing,
            !state.json_state.unsaved(),
            state.pending_warting_test.pending() is None,
            state.pending_warting_test.next_ticket() == 0,
            state.pending_warting_test.wf(),
    {
        GlobalState {
            config: ConfigManager::new(),
            json_state: JsonStateManager::new(),
            pending_warting_test: PendingWateringTest::new(),
        }
    }
}

} // verus!
