use vstd::prelude::*;

verus! {

/// What went wrong, or looks likely to go wrong, with a worker's job.
pub struct JobError {
    pub job_index: usize,
    pub error: bool,
    pub warning: bool,
    pub warn_message: String,
    pub message: String,
}

/// What to do with the marker sprites that flag a worker.
#[derive(Clone, Copy, PartialEq, Eq, Structural, Debug)]
pub enum MarkerAction {
    /// Leave the markers as they are.
    Keep,
    /// Add one marker.
    Spawn,
    /// Remove every marker.
    RemoveAll,
}

/// A flag is shown by exactly one marker: spawn one when the flag is up and
/// none exists, remove them all when the flag is down and some exist.
pub open spec fn marker_action(flag: bool, markers: nat) -> MarkerAction {
    if flag {
        if markers > 0 { MarkerAction::Keep } else { MarkerAction::Spawn }
    } else {
        if markers == 0 { MarkerAction::Keep } else { MarkerAction::RemoveAll }
    }
}

impl JobError {
    /// No error, no warning, empty messages.
    pub fn new() -> (e: JobError)
        ensures
            e.job_index == 0,
            !e.error,
            !e.warning,
            e.warn_message@ == Seq::<char>::empty(),
            e.message@ == Seq::<char>::empty(),
    {
        JobError {
            job_index: 0,
            error: false,
            warning: false,
            warn_message: String::new(),
            message: String::new(),
        }
    }

    /// Raises the error flag with `message`.
    pub fn set_error(&mut self, message: &str)
        ensures
            final(self).error,
            final(self).message@ == message@,
            final(self).warning == old(self).warning,
            final(self).warn_message@ == old(self).warn_message@,
            final(self).job_index == old(self).job_index,
    {
        self.error = true;
        self.message = message.to_owned();
    }

    /// Raises the warning flag with `message`.
    pub fn set_warning(&mut self, message: &str)
        ensures
            final(self).warning,
            final(self).warn_message@ == message@,
            final(self).error == old(self).error,
            final(self).message@ == old(self).message@,
            final(self).job_index == old(self).job_index,
    {
        self.warning = true;
        self.warn_message = message.to_owned();
    }

    /// Lowers both flags and empties the error message; the warning's
    /// message is kept.
    pub fn clear_error(&mut self)
        ensures
            !final(self).error,
            !final(self).warning,
            final(self).message@ == Seq::<char>::empty(),
            final(self).warn_message@ == old(self).warn_message@,
            final(self).job_index == old(self).job_index,
    {
        self.error = false;
        self.warning = false;
        self.message = String::new();
    }
}

/// The marker that flags a worker's job error.
pub fn job_error_marker(job_error: &JobError, markers: usize) -> (action: MarkerAction)
    ensures
        action == marker_action(job_error.error, markers as nat),
{
    if job_error.error {
        if markers > 0 { MarkerAction::Keep } else { MarkerAction::Spawn }
    } else {
        if markers == 0 { MarkerAction::Keep } else { MarkerAction::RemoveAll }
    }
}

/// The marker that flags a worker's job warning; a warning is shown only
/// while there is no error.
pub fn job_warning_marker(job_error: &JobError, markers: usize) -> (action: MarkerAction)
    ensures
        action == marker_action(job_error.warning && !job_error.error, markers as nat),
{
    if job_error.warning && !job_error.error {
        if markers > 0 { MarkerAction::Keep } else { MarkerAction::Spawn }
    } else {
        if markers == 0 { MarkerAction::Keep } else { MarkerAction::RemoveAll }
    }
}

/// Once a worker's error is cleared, neither its error nor its warning
/// marker is shown, and both markers are removed where they exist.
pub proof fn lemma_cleared_error_hides_markers(e: JobError, error_markers: nat, warning_markers: nat)
    requires
        !e.error,
        !e.warning,
    ensures
        marker_action(e.error, error_markers) != MarkerAction::Spawn,
        marker_action(e.warning && !e.error, warning_markers) != MarkerAction::Spawn,
        error_markers > 0 ==> marker_action(e.error, error_markers) == MarkerAction::RemoveAll,
        warning_markers > 0 ==> marker_action(e.warning && !e.error, warning_markers) == MarkerAction::RemoveAll,
{
}

} // verus!
