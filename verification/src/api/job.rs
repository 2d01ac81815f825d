use vstd::prelude::*;

verus! {

/// The finalizer that the controller puts on jobs.
pub const DASH_JOB_FINALIZER_NAME: &'static str = "dash.ulagbulag.io/finalizer-jobs";

/// The label that names the task a job runs.
pub const DASH_JOB_LABEL_TARGET_TASK: &'static str = "dash.ulagbulag.io/target-task";

/// The label that names the namespace of the task a job runs.
pub const DASH_JOB_LABEL_TARGET_TASK_NAMESPACE: &'static str = "dash.ulagbulag.io/target-task-namespace";

/// The job resource.
pub struct DashJobCrd {}

impl DashJobCrd {
    /// The schema extension that keeps the free-form values of a job: its
    /// key and its value.
    pub fn preserve_arbitrary() -> (r: (&'static str, bool))
        ensures
            r.0@ == "x-kubernetes-preserve-unknown-fields"@,
            r.1,
    {
        ("x-kubernetes-preserve-unknown-fields", true)
    }
}

/// The life cycle of a job.
#[derive(Copy, Clone, Debug, PartialEq, Eq, Structural, PartialOrd, Ord, Hash)]
pub enum DashJobState {
    Pending,
    Running,
    Error,
    Completed,
    Deleting,
}

impl Default for DashJobState {
    fn default() -> (s: Self)
        ensures
            s == DashJobState::Pending,
    {
        DashJobState::Pending
    }
}

} // verus!
