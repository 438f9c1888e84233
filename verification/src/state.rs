use vstd::prelude::*;

verus! {

/// Upper bound on the number of stages a template may hold.
pub const MAX_STAGES: usize = 32;

/// What kind of work a stage represents, which decides where a successful
/// result submission sends the task.
#[derive(Clone, Copy, Debug, PartialEq, Eq, Structural)]
pub enum StageKind {
    ManualApproval,
    OperatorExecution,
    Finalization,
}

/// One step of a template's pipeline: a kind, an opaque role tag (stored,
/// not validated here), and a time budget in seconds for the stage's task.
#[derive(Clone, Copy, Debug, PartialEq, Eq, Structural)]
pub struct StageDefinition {
    pub kind: StageKind,
    pub required_role: u8,
    pub sla_seconds: i64,
}

/// Per-administrator namespace holding the counters that derive template and
/// run identifiers. Created once; mutated only by counter increments.
#[derive(Clone, Copy, Debug, PartialEq, Eq, Structural)]
pub struct Workspace {
    /// Storage key of this workspace record.
    pub key: u64,
    /// Identity of the administrator who owns the workspace.
    pub admin: u64,
    pub workspace_id: u64,
    /// Number of templates created so far; the next template's index.
    pub template_count: u32,
    /// Number of runs started so far; the next run's identifier.
    pub run_count: u32,
    pub created_at: i64,
}

/// A validated, immutable workflow blueprint.
#[derive(Clone, Debug, PartialEq, Eq)]
pub struct WorkflowTemplate {
    /// Storage key of this template record.
    pub key: u64,
    /// Storage key of the owning workspace.
    pub workspace: u64,
    /// Identity of the administrator who created the template.
    pub creator: u64,
    pub max_tasks: u16,
    /// Retry budget copied into each task at run start.
    pub retry_limit: u8,
    /// Validated at creation; reserved for a future escalation timer.
    pub escalation_seconds: i64,
    /// Always equals `stages.len()`.
    pub stage_count: u8,
    /// Ordered, non-empty, at most `MAX_STAGES` entries.
    pub stages: Vec<StageDefinition>,
}

/// Status of a run: `Active` until a final approval completes it, an
/// escalation marks it `Escalated`, or an explicit closure makes it `Closed`.
/// `Closed` is terminal.
#[derive(Clone, Copy, Debug, PartialEq, Eq, Structural)]
pub enum RunStatus {
    Active,
    Escalated,
    Completed,
    Closed,
}

/// One instantiation of a template, tracked to completion or closure.
#[derive(Clone, Copy, Debug, PartialEq, Eq, Structural)]
pub struct WorkflowRun {
    /// Storage key of this run record.
    pub key: u64,
    /// Storage key of the owning workspace.
    pub workspace: u64,
    /// Storage key of the template the run was started from.
    pub template: u64,
    /// Identity of the operator who started the run.
    pub creator: u64,
    /// Sequential per workspace.
    pub run_id: u64,
    pub status: RunStatus,
    /// Recorded at run start; never advanced by the current logic.
    pub current_stage_index: u8,
    pub created_at: i64,
    /// Zero until the run is completed or closed.
    pub closed_at: i64,
}

/// Status of a task. `Escalated` and `Completed` are terminal; `Failed` can
/// return to `InProgress` through a bounded retry.
#[derive(Clone, Copy, Debug, PartialEq, Eq, Structural)]
pub enum TaskStatus {
    InProgress,
    AwaitingApproval,
    Failed,
    Escalated,
    Completed,
}

/// The unit of work for a run's current stage. A run has exactly one task,
/// created at run start.
#[derive(Clone, Copy, Debug, PartialEq, Eq, Structural)]
pub struct Task {
    /// Storage key of the owning workspace.
    pub workspace: u64,
    /// Storage key of the owning run.
    pub run: u64,
    /// Zero, since a run holds a single task.
    pub task_index: u16,
    /// Which of the template's stages the task executes.
    pub stage_index: u8,
    /// Role tag copied from the stage at creation.
    pub required_role: u8,
    /// Retry budget copied from the template at creation.
    pub max_retries: u8,
    pub retry_count: u8,
    /// Absolute deadline; a submission with `now > due_at` is rejected.
    pub due_at: i64,
    pub status: TaskStatus,
    /// Zero after any success; the submitted code after a failure.
    pub last_error_code: u16,
}

/// Arguments supplied by the administrator to create a template.
#[derive(Clone, Debug, PartialEq, Eq)]
pub struct CreateTemplateArgs {
    pub max_tasks: u16,
    pub retry_limit: u8,
    pub escalation_seconds: i64,
    pub stages: Vec<StageDefinition>,
}

/// The bounds enforced on template creation: a non-empty stage list of at
/// most `MAX_STAGES` entries, `0 < max_tasks <= 20`, `retry_limit <= 3`, and
/// a positive escalation budget.
pub open spec fn template_args_valid(args: CreateTemplateArgs) -> bool {
    &&& 1 <= args.stages@.len() <= MAX_STAGES
    &&& 0 < args.max_tasks <= 20
    &&& args.retry_limit <= 3
    &&& args.escalation_seconds > 0
}

impl CreateTemplateArgs {
    /// Checks the template-creation bounds.
    pub fn valid(&self) -> (b: bool)
        ensures
            b == template_args_valid(*self),
    {
        1 <= self.stages.len() && self.stages.len() <= MAX_STAGES && 0 < self.max_tasks
            && self.max_tasks <= 20 && self.retry_limit <= 3 && self.escalation_seconds > 0
    }
}

/// A task never holds more retries than its budget allows.
pub open spec fn task_retries_bounded(task: Task) -> bool {
    task.retry_count <= task.max_retries
}

/// A template as the store keeps it: bounds validated and the recorded stage
/// count consistent with the stage list.
pub open spec fn template_well_formed(template: WorkflowTemplate) -> bool {
    &&& 1 <= template.stages@.len() <= MAX_STAGES
    &&& 0 < template.max_tasks <= 20
    &&& template.retry_limit <= 3
    &&& template.escalation_seconds > 0
    &&& template.stage_count == template.stages@.len()
}

} // verus!
