//! The operations of the orchestration core. Each operation has a spec-level
//! transition function stating, for every input, either the exact records it
//! produces or the exact error it is rejected with, and an executable
//! counterpart proved to follow it. Mutation is all-or-nothing: a rejected
//! operation leaves every record unchanged.

use vstd::prelude::*;

use crate::errors::WorkflowError;
use crate::state::{
    CreateTemplateArgs, StageKind, Task, TaskStatus, WorkflowRun, WorkflowTemplate, Workspace,
    RunStatus, template_args_valid,
};

verus! {

/// True when `v` fits in a signed 64-bit timestamp.
pub open spec fn in_i64_range(v: int) -> bool {
    i64::MIN <= v <= i64::MAX
}

/// Creates a new workspace for `admin` with both counters at zero. The store
/// is responsible for rejecting a second workspace under the same key.
pub fn create_workspace(key: u64, admin: u64, workspace_id: u64, now: i64) -> (workspace: Workspace)
    ensures
        workspace == (Workspace {
            key,
            admin,
            workspace_id,
            template_count: 0,
            run_count: 0,
            created_at: now,
        }),
{
    Workspace { key, admin, workspace_id, template_count: 0, run_count: 0, created_at: now }
}

/// The records produced by a successful `create_template`, or the error it is
/// rejected with: only the workspace administrator may create a template, the
/// arguments must satisfy their bounds, and on success the template is stored
/// under the workspace's current template counter, which then increments
/// (saturating).
pub open spec fn create_template_spec(
    workspace: Workspace,
    admin: u64,
    template_key: u64,
    args: CreateTemplateArgs,
) -> Result<(Workspace, WorkflowTemplate), WorkflowError> {
    if admin != workspace.admin {
        Err(WorkflowError::Unauthorized)
    } else if !template_args_valid(args) {
        Err(WorkflowError::InvalidTemplate)
    } else {
        Ok((
            Workspace { template_count: workspace.template_count.saturating_add(1), ..workspace },
            WorkflowTemplate {
                key: template_key,
                workspace: workspace.key,
                creator: admin,
                max_tasks: args.max_tasks,
                retry_limit: args.retry_limit,
                escalation_seconds: args.escalation_seconds,
                stage_count: args.stages@.len() as u8,
                stages: args.stages,
            },
        ))
    }
}

/// Validates `args` and stores a new immutable template in the workspace,
/// incrementing the workspace's template counter.
pub fn create_template(
    workspace: &mut Workspace,
    admin: u64,
    template_key: u64,
    args: CreateTemplateArgs,
) -> (r: Result<WorkflowTemplate, WorkflowError>)
    ensures
        (match create_template_spec(*old(workspace), admin, template_key, args) {
            Ok((w, t)) => r == Ok::<WorkflowTemplate, WorkflowError>(t) && *final(workspace) == w,
            Err(e) => r == Err::<WorkflowTemplate, WorkflowError>(e)
                && *final(workspace) == *old(workspace),
        }),
{
    if admin != workspace.admin {
        return Err(WorkflowError::Unauthorized);
    }
    if !args.valid() {
        return Err(WorkflowError::InvalidTemplate);
    }
    let template = WorkflowTemplate {
        key: template_key,
        workspace: workspace.key,
        creator: admin,
        max_tasks: args.max_tasks,
        retry_limit: args.retry_limit,
        escalation_seconds: args.escalation_seconds,
        stage_count: args.stages.len() as u8,
        stages: args.stages,
    };
    workspace.template_count = workspace.template_count.saturating_add(1);
    Ok(template)
}

/// The records produced by a successful `start_workflow_run`, or the error it
/// is rejected with: the template must belong to the workspace and hold at
/// least one stage. On success a run starts `Active` at stage zero, its first
/// (and only) task starts `InProgress` with the first stage's role and a
/// deadline of `now` plus the first stage's budget, and the workspace's run
/// counter increments (saturating).
pub open spec fn start_workflow_run_spec(
    workspace: Workspace,
    template: WorkflowTemplate,
    creator: u64,
    run_key: u64,
    now: i64,
) -> Result<(Workspace, WorkflowRun, Task), WorkflowError> {
    if template.workspace != workspace.key {
        Err(WorkflowError::InvalidTemplate)
    } else if template.stages@.len() == 0 {
        Err(WorkflowError::InvalidTemplate)
    } else {
        Ok((
            Workspace { run_count: workspace.run_count.saturating_add(1), ..workspace },
            WorkflowRun {
                key: run_key,
                workspace: workspace.key,
                template: template.key,
                creator,
                run_id: workspace.run_count as u64,
                status: RunStatus::Active,
                current_stage_index: 0,
                created_at: now,
                closed_at: 0,
            },
            Task {
                workspace: workspace.key,
                run: run_key,
                task_index: 0,
                stage_index: 0,
                required_role: template.stages@[0].required_role,
                max_retries: template.retry_limit,
                retry_count: 0,
                due_at: (now + template.stages@[0].sla_seconds) as i64,
                status: TaskStatus::InProgress,
                last_error_code: 0,
            },
        ))
    }
}

/// Seeds a new run and its first task from a template, under a run key the
/// store derived from the workspace's current run counter, and increments
/// that counter. This is the only place a task is created.
pub fn start_workflow_run(
    workspace: &mut Workspace,
    template: &WorkflowTemplate,
    creator: u64,
    run_key: u64,
    now: i64,
) -> (r: Result<(WorkflowRun, Task), WorkflowError>)
    requires
        start_workflow_run_spec(*old(workspace), *template, creator, run_key, now) is Ok
            ==> in_i64_range(now + template.stages@[0].sla_seconds),
    ensures
        (match start_workflow_run_spec(*old(workspace), *template, creator, run_key, now) {
            Ok((w, run, task)) => r == Ok::<(WorkflowRun, Task), WorkflowError>((run, task))
                && *final(workspace) == w,
            Err(e) => r == Err::<(WorkflowRun, Task), WorkflowError>(e)
                && *final(workspace) == *old(workspace),
        }),
{
    if template.workspace != workspace.key {
        return Err(WorkflowError::InvalidTemplate);
    }
    if template.stages.len() == 0 {
        return Err(WorkflowError::InvalidTemplate);
    }
    let first_stage = template.stages[0];
    let run = WorkflowRun {
        key: run_key,
        workspace: workspace.key,
        template: template.key,
        creator,
        run_id: workspace.run_count as u64,
        status: RunStatus::Active,
        current_stage_index: 0,
        created_at: now,
        closed_at: 0,
    };
    let task = Task {
        workspace: workspace.key,
        run: run_key,
        task_index: 0,
        stage_index: 0,
        required_role: first_stage.required_role,
        max_retries: template.retry_limit,
        retry_count: 0,
        due_at: now + first_stage.sla_seconds,
        status: TaskStatus::InProgress,
        last_error_code: 0,
    };
    workspace.run_count = workspace.run_count.saturating_add(1);
    Ok((run, task))
}

/// Where a result submission sends the task: a successful `Finalization`
/// stage completes it, any other successful stage parks it for approval, and
/// any failure marks it `Failed`.
pub open spec fn submitted_status(kind: StageKind, success: bool) -> TaskStatus {
    if !success {
        TaskStatus::Failed
    } else if kind is Finalization {
        TaskStatus::Completed
    } else {
        TaskStatus::AwaitingApproval
    }
}

/// The task produced by a successful `submit_task_result`, or the error it is
/// rejected with. The records must be mutually consistent, the actor must be
/// the run's creator or the workspace administrator, the deadline must still
/// be open (`now <= due_at`), the task must be `InProgress` or `Failed`, and
/// the task's stage index must resolve in the template. On success the task
/// moves per `submitted_status`, and `last_error_code` is cleared on success
/// or set to `error_code` on failure. The run is never touched.
pub open spec fn submit_task_result_spec(
    actor: u64,
    workspace: Workspace,
    run: WorkflowRun,
    template: WorkflowTemplate,
    task: Task,
    success: bool,
    error_code: u16,
    now: i64,
) -> Result<Task, WorkflowError> {
    if run.workspace != workspace.key {
        Err(WorkflowError::InvalidTransition)
    } else if template.key != run.template {
        Err(WorkflowError::InvalidTemplate)
    } else if task.run != run.key {
        Err(WorkflowError::InvalidTransition)
    } else if actor != run.creator && actor != workspace.admin {
        Err(WorkflowError::Unauthorized)
    } else if now > task.due_at {
        Err(WorkflowError::DeadlinePassed)
    } else if !(task.status is InProgress || task.status is Failed) {
        Err(WorkflowError::InvalidTransition)
    } else if task.stage_index >= template.stages@.len() {
        Err(WorkflowError::InvalidStageIndex)
    } else {
        Ok(Task {
            status: submitted_status(template.stages@[task.stage_index as int].kind, success),
            last_error_code: if success { 0 } else { error_code },
            ..task
        })
    }
}

/// Records the outcome of the task's current stage, submitted by the run's
/// creator or the workspace administrator before the deadline.
pub fn submit_task_result(
    actor: u64,
    workspace: &Workspace,
    run: &WorkflowRun,
    template: &WorkflowTemplate,
    task: &mut Task,
    success: bool,
    error_code: u16,
    now: i64,
) -> (r: Result<(), WorkflowError>)
    ensures
        (match submit_task_result_spec(
            actor, *workspace, *run, *template, *old(task), success, error_code, now,
        ) {
            Ok(t) => r == Ok::<(), WorkflowError>(()) && *final(task) == t,
            Err(e) => r == Err::<(), WorkflowError>(e) && *final(task) == *old(task),
        }),
{
    if run.workspace != workspace.key {
        return Err(WorkflowError::InvalidTransition);
    }
    if template.key != run.template {
        return Err(WorkflowError::InvalidTemplate);
    }
    if task.run != run.key {
        return Err(WorkflowError::InvalidTransition);
    }
    if actor != run.creator && actor != workspace.admin {
        return Err(WorkflowError::Unauthorized);
    }
    if now > task.due_at {
        return Err(WorkflowError::DeadlinePassed);
    }
    if !(task.status == TaskStatus::InProgress || task.status == TaskStatus::Failed) {
        return Err(WorkflowError::InvalidTransition);
    }
    if (task.stage_index as usize) >= template.stages.len() {
        return Err(WorkflowError::InvalidStageIndex);
    }
    let stage = template.stages[task.stage_index as usize];
    task.status = match stage.kind {
        StageKind::ManualApproval => if success {
            TaskStatus::AwaitingApproval
        } else {
            TaskStatus::Failed
        },
        StageKind::OperatorExecution => if success {
            TaskStatus::AwaitingApproval
        } else {
            TaskStatus::Failed
        },
        StageKind::Finalization => if success {
            TaskStatus::Completed
        } else {
            TaskStatus::Failed
        },
    };
    task.last_error_code = if success { 0 } else { error_code };
    Ok(())
}

/// The records produced by a successful `approve_task`, or the error it is
/// rejected with: only the workspace administrator may approve, the records
/// must be mutually consistent, the run must still be `Active`, and the task
/// must be `AwaitingApproval`. On success the task and the run both complete,
/// and the run's closing time is stamped: the task that reaches approval is
/// the run's final step. A run that has left `Active` — closed, escalated,
/// or already completed — is never moved by an approval.
pub open spec fn approve_task_spec(
    admin: u64,
    workspace: Workspace,
    run: WorkflowRun,
    task: Task,
    now: i64,
) -> Result<(WorkflowRun, Task), WorkflowError> {
    if admin != workspace.admin {
        Err(WorkflowError::Unauthorized)
    } else if run.workspace != workspace.key {
        Err(WorkflowError::Unauthorized)
    } else if task.run != run.key {
        Err(WorkflowError::InvalidTransition)
    } else if !(run.status is Active) {
        Err(WorkflowError::InvalidTransition)
    } else if !(task.status is AwaitingApproval) {
        Err(WorkflowError::InvalidTransition)
    } else {
        Ok((
            WorkflowRun { status: RunStatus::Completed, closed_at: now, ..run },
            Task { status: TaskStatus::Completed, ..task },
        ))
    }
}

/// Completes a task awaiting approval, and with it the whole run.
pub fn approve_task(
    admin: u64,
    workspace: &Workspace,
    run: &mut WorkflowRun,
    task: &mut Task,
    now: i64,
) -> (r: Result<(), WorkflowError>)
    ensures
        (match approve_task_spec(admin, *workspace, *old(run), *old(task), now) {
            Ok((r2, t2)) => r == Ok::<(), WorkflowError>(()) && *final(run) == r2
                && *final(task) == t2,
            Err(e) => r == Err::<(), WorkflowError>(e) && *final(run) == *old(run)
                && *final(task) == *old(task),
        }),
{
    if admin != workspace.admin {
        return Err(WorkflowError::Unauthorized);
    }
    if run.workspace != workspace.key {
        return Err(WorkflowError::Unauthorized);
    }
    if task.run != run.key {
        return Err(WorkflowError::InvalidTransition);
    }
    if run.status != RunStatus::Active {
        return Err(WorkflowError::InvalidTransition);
    }
    if task.status != TaskStatus::AwaitingApproval {
        return Err(WorkflowError::InvalidTransition);
    }
    task.status = TaskStatus::Completed;
    run.status = RunStatus::Completed;
    run.closed_at = now;
    Ok(())
}

/// The task produced by a successful `retry_task`, or the error it is
/// rejected with: only the workspace administrator may retry, the records
/// must be mutually consistent, the task must be `Failed` with retries left,
/// and its stage index must resolve in the template. On success the retry
/// counter increments (saturating), the task returns to `InProgress` under a
/// fresh deadline window of the stage's full budget, and the last error code
/// is cleared.
pub open spec fn retry_task_spec(
    admin: u64,
    workspace: Workspace,
    run: WorkflowRun,
    template: WorkflowTemplate,
    task: Task,
    now: i64,
) -> Result<Task, WorkflowError> {
    if admin != workspace.admin {
        Err(WorkflowError::Unauthorized)
    } else if run.workspace != workspace.key {
        Err(WorkflowError::Unauthorized)
    } else if template.key != run.template {
        Err(WorkflowError::InvalidTemplate)
    } else if task.run != run.key {
        Err(WorkflowError::InvalidTransition)
    } else if !(task.status is Failed) {
        Err(WorkflowError::InvalidTransition)
    } else if task.retry_count >= task.max_retries {
        Err(WorkflowError::RetryLimitExceeded)
    } else if task.stage_index >= template.stages@.len() {
        Err(WorkflowError::InvalidStageIndex)
    } else {
        Ok(Task {
            retry_count: task.retry_count.saturating_add(1),
            status: TaskStatus::InProgress,
            due_at: (now + template.stages@[task.stage_index as int].sla_seconds) as i64,
            last_error_code: 0,
            ..task
        })
    }
}

/// Returns a failed task to `InProgress` under a fresh deadline, spending one
/// of its bounded retries.
pub fn retry_task(
    admin: u64,
    workspace: &Workspace,
    run: &WorkflowRun,
    template: &WorkflowTemplate,
    task: &mut Task,
    now: i64,
) -> (r: Result<(), WorkflowError>)
    requires
        retry_task_spec(admin, *workspace, *run, *template, *old(task), now) is Ok
            ==> in_i64_range(
            now + template.stages@[old(task).stage_index as int].sla_seconds,
        ),
    ensures
        (match retry_task_spec(admin, *workspace, *run, *template, *old(task), now) {
            Ok(t) => r == Ok::<(), WorkflowError>(()) && *final(task) == t,
            Err(e) => r == Err::<(), WorkflowError>(e) && *final(task) == *old(task),
        }),
{
    if admin != workspace.admin {
        return Err(WorkflowError::Unauthorized);
    }
    if run.workspace != workspace.key {
        return Err(WorkflowError::Unauthorized);
    }
    if template.key != run.template {
        return Err(WorkflowError::InvalidTemplate);
    }
    if task.run != run.key {
        return Err(WorkflowError::InvalidTransition);
    }
    if task.status != TaskStatus::Failed {
        return Err(WorkflowError::InvalidTransition);
    }
    if task.retry_count >= task.max_retries {
        return Err(WorkflowError::RetryLimitExceeded);
    }
    if (task.stage_index as usize) >= template.stages.len() {
        return Err(WorkflowError::InvalidStageIndex);
    }
    let stage = template.stages[task.stage_index as usize];
    task.retry_count = task.retry_count.saturating_add(1);
    task.status = TaskStatus::InProgress;
    task.due_at = now + stage.sla_seconds;
    task.last_error_code = 0;
    Ok(())
}

/// The records produced by a successful `escalate_task`, or the error it is
/// rejected with. Escalation is a deliberately permissionless deadline
/// watchdog: any holder of consistent records may trigger it once the
/// deadline has strictly passed (`now > due_at`), while the run is still
/// `Active`, from any of the live task statuses. On success the task and the
/// run both become `Escalated`, terminal for the task. A run that has left
/// `Active` — closed, escalated, or completed — is never moved by an
/// escalation.
pub open spec fn escalate_task_spec(
    run: WorkflowRun,
    task: Task,
    now: i64,
) -> Result<(WorkflowRun, Task), WorkflowError> {
    if task.run != run.key {
        Err(WorkflowError::InvalidTransition)
    } else if now <= task.due_at {
        Err(WorkflowError::DeadlineNotReached)
    } else if !(run.status is Active) {
        Err(WorkflowError::InvalidTransition)
    } else if !(task.status is InProgress || task.status is AwaitingApproval
        || task.status is Failed) {
        Err(WorkflowError::InvalidTransition)
    } else {
        Ok((
            WorkflowRun { status: RunStatus::Escalated, ..run },
            Task { status: TaskStatus::Escalated, ..task },
        ))
    }
}

/// Escalates a task whose deadline has passed, marking task and run
/// `Escalated`.
pub fn escalate_task(run: &mut WorkflowRun, task: &mut Task, now: i64) -> (r: Result<
    (),
    WorkflowError,
>)
    ensures
        (match escalate_task_spec(*old(run), *old(task), now) {
            Ok((r2, t2)) => r == Ok::<(), WorkflowError>(()) && *final(run) == r2
                && *final(task) == t2,
            Err(e) => r == Err::<(), WorkflowError>(e) && *final(run) == *old(run)
                && *final(task) == *old(task),
        }),
{
    if task.run != run.key {
        return Err(WorkflowError::InvalidTransition);
    }
    if now <= task.due_at {
        return Err(WorkflowError::DeadlineNotReached);
    }
    if run.status != RunStatus::Active {
        return Err(WorkflowError::InvalidTransition);
    }
    if !(task.status == TaskStatus::InProgress || task.status == TaskStatus::AwaitingApproval
        || task.status == TaskStatus::Failed) {
        return Err(WorkflowError::InvalidTransition);
    }
    task.status = TaskStatus::Escalated;
    run.status = RunStatus::Escalated;
    Ok(())
}

/// The run produced by a successful `close_run`, or the error it is rejected
/// with: the run must belong to the workspace, the actor must be the
/// workspace administrator or the run's creator, and the run must not
/// already be `Closed`. On success the run becomes `Closed` — terminal — and
/// its closing time is stamped.
pub open spec fn close_run_spec(
    actor: u64,
    workspace: Workspace,
    run: WorkflowRun,
    now: i64,
) -> Result<WorkflowRun, WorkflowError> {
    if run.workspace != workspace.key {
        Err(WorkflowError::Unauthorized)
    } else if actor != workspace.admin && actor != run.creator {
        Err(WorkflowError::Unauthorized)
    } else if run.status is Closed {
        Err(WorkflowError::InvalidTransition)
    } else {
        Ok(WorkflowRun { status: RunStatus::Closed, closed_at: now, ..run })
    }
}

/// Explicitly closes a run from any status but `Closed`; a closed run is
/// never reopened and never re-closed.
pub fn close_run(actor: u64, workspace: &Workspace, run: &mut WorkflowRun, now: i64) -> (r: Result<
    (),
    WorkflowError,
>)
    ensures
        (match close_run_spec(actor, *workspace, *old(run), now) {
            Ok(r2) => r == Ok::<(), WorkflowError>(()) && *final(run) == r2,
            Err(e) => r == Err::<(), WorkflowError>(e) && *final(run) == *old(run),
        }),
{
    if run.workspace != workspace.key {
        return Err(WorkflowError::Unauthorized);
    }
    if actor != workspace.admin && actor != run.creator {
        return Err(WorkflowError::Unauthorized);
    }
    if run.status == RunStatus::Closed {
        return Err(WorkflowError::InvalidTransition);
    }
    run.status = RunStatus::Closed;
    run.closed_at = now;
    Ok(())
}

} // verus!
