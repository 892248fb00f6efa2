//! The record of one execution: what the process has printed so far, and
//! how it ended.

use vstd::prelude::*;
use crate::status::ProcessStatus;

verus! {

/// The state of the execution of a process.
#[derive(Debug)]
pub struct ExecutionState {
    /// The lines captured from standard output, oldest first.
    pub output: Vec<String>,
    /// The lines captured from standard error, oldest first.
    pub error_output: Vec<String>,
    /// Whether the process is still running, and how it ended if not.
    pub status: ProcessStatus,
}

/// What an [`ExecutionState`] holds, as plain sequences of characters.
pub struct Snapshot {
    pub output: Seq<Seq<char>>,
    pub error_output: Seq<Seq<char>>,
    pub status: ProcessStatus,
}

impl Snapshot {
    /// The state of an execution that has just been launched.
    pub open spec fn initial() -> Snapshot {
        Snapshot { output: Seq::empty(), error_output: Seq::empty(), status: ProcessStatus::Running }
    }

    /// Whether `later` can be observed after `self` in one execution: both
    /// sequences of lines have only grown at their ends, and a terminal
    /// state has not changed at all.
    pub open spec fn precedes(self, later: Snapshot) -> bool {
        &&& self.output.is_prefix_of(later.output)
        &&& self.error_output.is_prefix_of(later.error_output)
        &&& self.status.finished() ==> later == self
    }
}

impl View for ExecutionState {
    type V = Snapshot;

    open spec fn view(&self) -> Snapshot {
        Snapshot {
            output: self.output.deep_view(),
            error_output: self.error_output.deep_view(),
            status: self.status,
        }
    }
}

impl ExecutionState {
    /// The state of an execution that has just been launched: nothing
    /// captured, and the process running.
    pub fn new() -> (state: Self)
        ensures
            state@ == Snapshot::initial(),
    {
        let state = ExecutionState {
            output: Vec::new(),
            error_output: Vec::new(),
            status: ProcessStatus::Running,
        };
        assert(state.output.deep_view() =~= Seq::<Seq<char>>::empty());
        assert(state.error_output.deep_view() =~= Seq::<Seq<char>>::empty());
        state
    }
}

impl Default for ExecutionState {
    fn default() -> (state: Self)
        ensures
            state@ == Snapshot::initial(),
    {
        ExecutionState::new()
    }
}

impl Clone for ExecutionState {
    /// An independent copy of the state.
    fn clone(&self) -> (copy: Self)
        ensures
            copy@ == self@,
    {
        let copy = ExecutionState {
            output: self.output.clone(),
            error_output: self.error_output.clone(),
            status: self.status,
        };
        assert(copy.output.deep_view() =~= self.output.deep_view());
        assert(copy.error_output.deep_view() =~= self.error_output.deep_view());
        copy
    }
}

} // verus!
