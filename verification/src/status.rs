//! The state a task is in.
use vstd::prelude::*;

use apalis_core::task::status::Status;

verus! {

/// The state a task is in.
#[derive(Clone, Copy, Debug, PartialEq, Eq, Structural)]
pub enum TaskStatus {
    /// Waiting to be queued.
    Pending,
    /// Queued for execution; no worker has picked it up.
    Queued,
    /// Being executed.
    Running,
    /// Finished successfully.
    Done,
    /// Finished with a failure.
    Failed,
    /// Stopped before it finished.
    Killed,
}

/// The state named by `text`, if it names one: the state's name, spelled
/// exactly.
pub open spec fn status_named(text: Seq<char>) -> Option<TaskStatus> {
    if text == "Pending"@ {
        Some(TaskStatus::Pending)
    } else if text == "Queued"@ {
        Some(TaskStatus::Queued)
    } else if text == "Running"@ {
        Some(TaskStatus::Running)
    } else if text == "Done"@ {
        Some(TaskStatus::Done)
    } else if text == "Failed"@ {
        Some(TaskStatus::Failed)
    } else if text == "Killed"@ {
        Some(TaskStatus::Killed)
    } else {
        None
    }
}

/// `apalis_core`'s `Status::from_str`: it accepts exactly the six names
/// `Pending`, `Queued`, `Running`, `Done`, `Failed` and `Killed`, and gives
/// the state of that name; on any other text it fails.
#[verifier::external_body]
pub(crate) fn parse_status(text: &str) -> (r: Option<TaskStatus>)
    ensures
        r == status_named(text@),
{
    match text.parse::<Status>() {
        Ok(Status::Pending) => Some(TaskStatus::Pending),
        Ok(Status::Queued) => Some(TaskStatus::Queued),
        Ok(Status::Running) => Some(TaskStatus::Running),
        Ok(Status::Done) => Some(TaskStatus::Done),
        Ok(Status::Failed) => Some(TaskStatus::Failed),
        Ok(Status::Killed) => Some(TaskStatus::Killed),
        Ok(_) => None,
        Err(_) => None,
    }
}

/// The name of a state.
pub open spec fn status_text(status: TaskStatus) -> Seq<char> {
    match status {
        TaskStatus::Pending => "Pending"@,
        TaskStatus::Queued => "Queued"@,
        TaskStatus::Running => "Running"@,
        TaskStatus::Done => "Done"@,
        TaskStatus::Failed => "Failed"@,
        TaskStatus::Killed => "Killed"@,
    }
}

/// A state's name names that state.
pub proof fn lemma_status_text_round_trip(status: TaskStatus)
    ensures
        status_named(status_text(status)) == Some(status),
{
    reveal_strlit("Pending");
    reveal_strlit("Queued");
    reveal_strlit("Running");
    reveal_strlit("Done");
    reveal_strlit("Failed");
    reveal_strlit("Killed");
    assert("Pending"@[0] == 'P' && "Queued"@[0] == 'Q' && "Running"@[0] == 'R');
    assert("Done"@[0] == 'D' && "Failed"@[0] == 'F' && "Killed"@[0] == 'K');
    assert("Pending"@ != "Queued"@ && "Pending"@ != "Running"@ && "Pending"@ != "Done"@);
    assert("Pending"@ != "Failed"@ && "Pending"@ != "Killed"@);
    assert("Queued"@ != "Running"@ && "Queued"@ != "Done"@ && "Queued"@ != "Failed"@);
    assert("Queued"@ != "Killed"@ && "Running"@ != "Done"@ && "Running"@ != "Failed"@);
    assert("Running"@ != "Killed"@ && "Done"@ != "Failed"@ && "Done"@ != "Killed"@);
    assert("Failed"@ != "Killed"@);
}

/// Different states have different names.
pub proof fn lemma_status_text_injective(a: TaskStatus, b: TaskStatus)
    ensures
        status_text(a) == status_text(b) ==> a == b,
{
    lemma_status_text_round_trip(a);
    lemma_status_text_round_trip(b);
}

impl TaskStatus {
    /// The name of the state.
    pub fn name(&self) -> (s: &'static str)
        ensures
            s@ == status_text(*self),
    {
        match self {
            TaskStatus::Pending => "Pending",
            TaskStatus::Queued => "Queued",
            TaskStatus::Running => "Running",
            TaskStatus::Done => "Done",
            TaskStatus::Failed => "Failed",
            TaskStatus::Killed => "Killed",
        }
    }
}

} // verus!
