//! The status of a launched process.

use vstd::prelude::*;

verus! {

/// The status of a process.
#[derive(Clone, Copy, Debug, PartialEq, Eq, Structural)]
pub enum ProcessStatus {
    /// The process has not been seen to exit yet.
    Running,
    /// The process exited with code zero.
    Success,
    /// The process exited with another code, or its exit status could not
    /// be determined.
    Failure,
}

impl ProcessStatus {
    /// Whether the status is terminal.
    pub open spec fn finished(self) -> bool {
        self != ProcessStatus::Running
    }

    /// Check whether the underlying process is finished.
    pub fn is_finished(&self) -> (finished: bool)
        ensures
            finished == self.finished(),
            finished == (*self == ProcessStatus::Success || *self == ProcessStatus::Failure),
    {
        matches!(self, ProcessStatus::Success | ProcessStatus::Failure)
    }

    /// The status that an exit report resolves to: `Some(true)` is an exit
    /// with code zero, `Some(false)` an exit with another code, and `None` an
    /// exit status that could not be determined.
    pub open spec fn of_exit(exit: Option<bool>) -> ProcessStatus {
        match exit {
            Some(true) => ProcessStatus::Success,
            _ => ProcessStatus::Failure,
        }
    }

    /// Resolve an exit report to a terminal status. Anything but a clean
    /// exit counts as a failure.
    pub fn from_exit(exit: Option<bool>) -> (status: ProcessStatus)
        ensures
            status == Self::of_exit(exit),
            status.finished(),
    {
        match exit {
            Some(true) => ProcessStatus::Success,
            Some(false) => ProcessStatus::Failure,
            None => ProcessStatus::Failure,
        }
    }
}

impl Default for ProcessStatus {
    fn default() -> (status: Self)
        ensures
            status == ProcessStatus::Running,
    {
        ProcessStatus::Running
    }
}

} // verus!
