//! The states of a job, the actions that start one, and the results of a
//! deployment, with the names under which they are stored.

use vstd::prelude::*;
use vstd::string::*;

use crate::text::{join2, same_text};

verus! {

/// A stored name that stands for nothing.
#[derive(Debug)]
pub enum UnknownName {
    JobStatus(String),
    JobAction(String),
    DeploymentStatus(String),
}

impl UnknownName {
    /// The message that names the kind of value and the name found.
    pub open spec fn message_text(self) -> Seq<char> {
        match self {
            UnknownName::JobStatus(name) => "unknown job status: "@ + name@,
            UnknownName::JobAction(name) => "unknown job action: "@ + name@,
            UnknownName::DeploymentStatus(name) => "unknown deployment status: "@ + name@,
        }
    }

    /// Describes the error.
    pub fn message(&self) -> (message: String)
        ensures
            message@ == self.message_text(),
    {
        match self {
            UnknownName::JobStatus(name) => join2("unknown job status: ", name.as_str()),
            UnknownName::JobAction(name) => join2("unknown job action: ", name.as_str()),
            UnknownName::DeploymentStatus(name) => join2(
                "unknown deployment status: ",
                name.as_str(),
            ),
        }
    }
}

/// The state of a job.
#[derive(Clone, Copy, Debug, PartialEq, Eq, Structural)]
pub enum JobStatus {
    Queued,
    Running,
    Success,
    Failed,
    Cancelled,
}

impl JobStatus {
    /// The name under which the state is stored.
    pub open spec fn name(self) -> Seq<char> {
        match self {
            JobStatus::Queued => "queued"@,
            JobStatus::Running => "running"@,
            JobStatus::Success => "success"@,
            JobStatus::Failed => "failed"@,
            JobStatus::Cancelled => "cancelled"@,
        }
    }

    /// The name under which the state is stored.
    pub fn as_str(&self) -> (name: &'static str)
        ensures
            name@ == self.name(),
    {
        match self {
            JobStatus::Queued => "queued",
            JobStatus::Running => "running",
            JobStatus::Success => "success",
            JobStatus::Failed => "failed",
            JobStatus::Cancelled => "cancelled",
        }
    }

    /// Reads a stored name back.
    pub fn from_db(value: &str) -> (status: Result<JobStatus, UnknownName>)
        ensures
            match status {
                Ok(status) => status.name() == value@,
                Err(error) => {
                    &&& forall|status: JobStatus| #[trigger] status.name() != value@
                    &&& error matches UnknownName::JobStatus(name) && name@ == value@
                },
            },
            forall|written: JobStatus| #[trigger]
                written.name() == value@ ==> status == Ok::<JobStatus, UnknownName>(written),
    {
        proof {
            assert forall|a: JobStatus, b: JobStatus| #[trigger] a.name() == #[trigger] b.name() implies a
                == b by {
                job_status_names_are_distinct(a, b);
            }
            assert(JobStatus::Queued.name() == "queued"@);
            assert(JobStatus::Running.name() == "running"@);
            assert(JobStatus::Success.name() == "success"@);
            assert(JobStatus::Failed.name() == "failed"@);
            assert(JobStatus::Cancelled.name() == "cancelled"@);
        }
        if same_text(value, "queued") {
            Ok(JobStatus::Queued)
        } else if same_text(value, "running") {
            Ok(JobStatus::Running)
        } else if same_text(value, "success") {
            Ok(JobStatus::Success)
        } else if same_text(value, "failed") {
            Ok(JobStatus::Failed)
        } else if same_text(value, "cancelled") {
            Ok(JobStatus::Cancelled)
        } else {
            Err(UnknownName::JobStatus(value.to_owned()))
        }
    }

    /// The name of the variant, as it appears in log messages.
    pub open spec fn variant(self) -> Seq<char> {
        match self {
            JobStatus::Queued => "Queued"@,
            JobStatus::Running => "Running"@,
            JobStatus::Success => "Success"@,
            JobStatus::Failed => "Failed"@,
            JobStatus::Cancelled => "Cancelled"@,
        }
    }

    /// The name of the variant, as it appears in log messages.
    pub fn variant_name(&self) -> (name: &'static str)
        ensures
            name@ == self.variant(),
    {
        match self {
            JobStatus::Queued => "Queued",
            JobStatus::Running => "Running",
            JobStatus::Success => "Success",
            JobStatus::Failed => "Failed",
            JobStatus::Cancelled => "Cancelled",
        }
    }
}

/// What started a job.
#[derive(Clone, Copy, Debug, PartialEq, Eq, Structural)]
pub enum JobAction {
    Webhook,
    Retry,
    Manual,
    Rollback,
}

impl JobAction {
    /// The name under which the action is stored and by which steps are filtered.
    pub open spec fn name(self) -> Seq<char> {
        match self {
            JobAction::Webhook => "webhook"@,
            JobAction::Retry => "retry"@,
            JobAction::Manual => "manual"@,
            JobAction::Rollback => "rollback"@,
        }
    }

    /// The name under which the action is stored and by which steps are filtered.
    pub fn as_str(&self) -> (name: &'static str)
        ensures
            name@ == self.name(),
    {
        match self {
            JobAction::Webhook => "webhook",
            JobAction::Retry => "retry",
            JobAction::Manual => "manual",
            JobAction::Rollback => "rollback",
        }
    }

    /// Reads a stored name back.
    pub fn from_db(value: &str) -> (action: Result<JobAction, UnknownName>)
        ensures
            match action {
                Ok(action) => action.name() == value@,
                Err(error) => {
                    &&& forall|action: JobAction| #[trigger] action.name() != value@
                    &&& error matches UnknownName::JobAction(name) && name@ == value@
                },
            },
            forall|written: JobAction| #[trigger]
                written.name() == value@ ==> action == Ok::<JobAction, UnknownName>(written),
    {
        proof {
            assert forall|a: JobAction, b: JobAction| #[trigger] a.name() == #[trigger] b.name() implies a
                == b by {
                job_action_names_are_distinct(a, b);
            }
            assert(JobAction::Webhook.name() == "webhook"@);
            assert(JobAction::Retry.name() == "retry"@);
            assert(JobAction::Manual.name() == "manual"@);
            assert(JobAction::Rollback.name() == "rollback"@);
        }
        if same_text(value, "webhook") {
            Ok(JobAction::Webhook)
        } else if same_text(value, "retry") {
            Ok(JobAction::Retry)
        } else if same_text(value, "manual") {
            Ok(JobAction::Manual)
        } else if same_text(value, "rollback") {
            Ok(JobAction::Rollback)
        } else {
            Err(UnknownName::JobAction(value.to_owned()))
        }
    }
}

/// The result of a deployment.
#[derive(Clone, Copy, Debug, PartialEq, Eq, Structural)]
pub enum DeploymentStatus {
    Success,
    Failed,
}

impl DeploymentStatus {
    /// The name under which the result is stored.
    pub open spec fn name(self) -> Seq<char> {
        match self {
            DeploymentStatus::Success => "success"@,
            DeploymentStatus::Failed => "failed"@,
        }
    }

    /// The name under which the result is stored.
    pub fn as_str(&self) -> (name: &'static str)
        ensures
            name@ == self.name(),
    {
        match self {
            DeploymentStatus::Success => "success",
            DeploymentStatus::Failed => "failed",
        }
    }

    /// Reads a stored name back.
    pub fn from_db(value: &str) -> (status: Result<DeploymentStatus, UnknownName>)
        ensures
            match status {
                Ok(status) => status.name() == value@,
                Err(error) => {
                    &&& forall|status: DeploymentStatus| #[trigger] status.name() != value@
                    &&& error matches UnknownName::DeploymentStatus(name) && name@ == value@
                },
            },
            forall|written: DeploymentStatus| #[trigger]
                written.name() == value@ ==> status == Ok::<DeploymentStatus, UnknownName>(written),
    {
        proof {
            assert forall|a: DeploymentStatus, b: DeploymentStatus| #[trigger] a.name() == #[trigger] b.name() implies a
                == b by {
                deployment_status_names_are_distinct(a, b);
            }
            assert(DeploymentStatus::Success.name() == "success"@);
            assert(DeploymentStatus::Failed.name() == "failed"@);
        }
        if same_text(value, "success") {
            Ok(DeploymentStatus::Success)
        } else if same_text(value, "failed") {
            Ok(DeploymentStatus::Failed)
        } else {
            Err(UnknownName::DeploymentStatus(value.to_owned()))
        }
    }
}

/// Law: no two states of a job share a stored name, so that a name read back is
/// the state that was written.
pub proof fn job_status_names_are_distinct(a: JobStatus, b: JobStatus)
    ensures
        a.name() == b.name() <==> a == b,
{
    reveal_strlit("queued");
    reveal_strlit("running");
    reveal_strlit("success");
    reveal_strlit("failed");
    reveal_strlit("cancelled");
    if a != b && a.name() == b.name() {
        assert(a.name().len() == b.name().len());
        assert(a.name()[0] == b.name()[0]);
    }
}

/// Law: no two actions share a stored name.
pub proof fn job_action_names_are_distinct(a: JobAction, b: JobAction)
    ensures
        a.name() == b.name() <==> a == b,
{
    reveal_strlit("webhook");
    reveal_strlit("retry");
    reveal_strlit("manual");
    reveal_strlit("rollback");
    if a != b && a.name() == b.name() {
        assert(a.name().len() == b.name().len());
        assert(a.name()[1] == b.name()[1]);
    }
}

/// Law: the two results of a deployment have different stored names.
pub proof fn deployment_status_names_are_distinct(a: DeploymentStatus, b: DeploymentStatus)
    ensures
        a.name() == b.name() <==> a == b,
{
    reveal_strlit("success");
    reveal_strlit("failed");
    if a != b && a.name() == b.name() {
        assert(a.name().len() == b.name().len());
    }
}

/// Law: an unknown name is reported whole, with what it should have been a name of.
pub proof fn unknown_names_are_quoted(name: String)
    ensures
        UnknownName::JobStatus(name).message_text() == "unknown job status: "@ + name@,
        UnknownName::JobAction(name).message_text() == "unknown job action: "@ + name@,
        UnknownName::DeploymentStatus(name).message_text() == "unknown deployment status: "@
            + name@,
{
}

/// Law: the states, the actions and the results are stored under these names, and a job
/// that did not succeed is logged under these.
pub proof fn names_are_these()
    ensures
        JobStatus::Queued.name() == "queued"@,
        JobStatus::Running.name() == "running"@,
        JobStatus::Success.name() == "success"@,
        JobStatus::Failed.name() == "failed"@,
        JobStatus::Cancelled.name() == "cancelled"@,
        JobAction::Webhook.name() == "webhook"@,
        JobAction::Retry.name() == "retry"@,
        JobAction::Manual.name() == "manual"@,
        JobAction::Rollback.name() == "rollback"@,
        DeploymentStatus::Success.name() == "success"@,
        DeploymentStatus::Failed.name() == "failed"@,
        JobStatus::Failed.variant() == "Failed"@,
        JobStatus::Cancelled.variant() == "Cancelled"@,
{
}

} // verus!
