//! The engine-wide guarantees, stated over the spec-level transition
//! functions of `ops` and proved once for all inputs.

use vstd::prelude::*;

use crate::errors::WorkflowError;
use crate::ops::{
    approve_task_spec, close_run_spec, create_template_spec, escalate_task_spec, in_i64_range,
    retry_task_spec, start_workflow_run_spec, submit_task_result_spec,
};
use crate::state::{
    CreateTemplateArgs, RunStatus, Task, TaskStatus, WorkflowRun, WorkflowTemplate, Workspace,
    task_retries_bounded, template_args_valid, template_well_formed, MAX_STAGES,
};

verus! {

/// For all valid `create_template` arguments handed in by the workspace's
/// administrator, the stored template's stage count equals `stages.len()`,
/// the stage list is stored as given, and the workspace's template counter
/// increments by exactly one. (At a counter already at `u32::MAX` the
/// increment saturates instead, so that input is left out here.)
pub proof fn lemma_create_template_valid(
    workspace: Workspace,
    admin: u64,
    template_key: u64,
    args: CreateTemplateArgs,
)
    requires
        admin == workspace.admin,
        template_args_valid(args),
        workspace.template_count < u32::MAX,
    ensures
        (match create_template_spec(workspace, admin, template_key, args) {
            Ok((w, t)) => {
                &&& t.stage_count == args.stages@.len()
                &&& t.stages@ == args.stages@
                &&& template_well_formed(t)
                &&& w.template_count == workspace.template_count + 1
            },
            Err(_) => false,
        }),
{
}

/// `create_template` with an empty stage list, or one longer than
/// `MAX_STAGES`, always fails with `InvalidTemplate` — and, by the ensures of
/// `create_template`, leaves the workspace's template counter unchanged.
pub proof fn lemma_create_template_bad_stages(
    workspace: Workspace,
    admin: u64,
    template_key: u64,
    args: CreateTemplateArgs,
)
    requires
        admin == workspace.admin,
        args.stages@.len() == 0 || args.stages@.len() > MAX_STAGES,
    ensures
        create_template_spec(workspace, admin, template_key, args)
            == Err::<(Workspace, WorkflowTemplate), WorkflowError>(WorkflowError::InvalidTemplate),
{
}

/// Whenever `start_workflow_run` succeeds, the run's first task starts
/// `InProgress`, with `due_at` exactly `now` plus the first stage's budget,
/// no retries spent, and its retry budget respected.
pub proof fn lemma_start_run_first_task(
    workspace: Workspace,
    template: WorkflowTemplate,
    creator: u64,
    run_key: u64,
    now: i64,
)
    requires
        start_workflow_run_spec(workspace, template, creator, run_key, now) is Ok
            ==> in_i64_range(now + template.stages@[0].sla_seconds),
    ensures
        (match start_workflow_run_spec(workspace, template, creator, run_key, now) {
            Ok((_, _, task)) => {
                &&& task.status == TaskStatus::InProgress
                &&& task.due_at == now + template.stages@[0].sla_seconds
                &&& task.retry_count == 0
                &&& task_retries_bounded(task)
            },
            Err(_) => true,
        }),
{
}

/// A result submitted after the deadline (`now > due_at`) by an authorized
/// actor over mutually consistent records always fails with `DeadlinePassed`,
/// regardless of stage kind, success flag, or error code.
pub proof fn lemma_submit_after_deadline(
    actor: u64,
    workspace: Workspace,
    run: WorkflowRun,
    template: WorkflowTemplate,
    task: Task,
    success: bool,
    error_code: u16,
    now: i64,
)
    requires
        run.workspace == workspace.key,
        template.key == run.template,
        task.run == run.key,
        actor == run.creator || actor == workspace.admin,
        now > task.due_at,
    ensures
        submit_task_result_spec(actor, workspace, run, template, task, success, error_code, now)
            == Err::<Task, WorkflowError>(WorkflowError::DeadlinePassed),
{
}

/// Whenever a successful result (`success == true`) is accepted, the task
/// moves to `Completed` if its stage is of `Finalization` kind, and to
/// `AwaitingApproval` for any other kind; its retry count is untouched.
pub proof fn lemma_submit_success_target(
    actor: u64,
    workspace: Workspace,
    run: WorkflowRun,
    template: WorkflowTemplate,
    task: Task,
    error_code: u16,
    now: i64,
)
    ensures
        (match submit_task_result_spec(
            actor, workspace, run, template, task, true, error_code, now,
        ) {
            Ok(t) => {
                &&& t.status == (if template.stages@[task.stage_index as int].kind is Finalization {
                    TaskStatus::Completed
                } else {
                    TaskStatus::AwaitingApproval
                })
                &&& t.last_error_code == 0
                &&& t.retry_count == task.retry_count
            },
            Err(_) => true,
        }),
{
}

/// A failed result submission is accepted exactly like a successful one but
/// marks the task `Failed` and records the submitted error code; its retry
/// count is untouched.
pub proof fn lemma_submit_failure_target(
    actor: u64,
    workspace: Workspace,
    run: WorkflowRun,
    template: WorkflowTemplate,
    task: Task,
    error_code: u16,
    now: i64,
)
    ensures
        (match submit_task_result_spec(
            actor, workspace, run, template, task, false, error_code, now,
        ) {
            Ok(t) => {
                &&& t.status == TaskStatus::Failed
                &&& t.last_error_code == error_code
                &&& t.retry_count == task.retry_count
            },
            Err(_) => true,
        }),
{
}

/// A retry of a failed task whose counter has reached its budget
/// (`retry_count == max_retries`) always fails with `RetryLimitExceeded`,
/// wherever its stage index points.
pub proof fn lemma_retry_at_limit(
    admin: u64,
    workspace: Workspace,
    run: WorkflowRun,
    template: WorkflowTemplate,
    task: Task,
    now: i64,
)
    requires
        admin == workspace.admin,
        run.workspace == workspace.key,
        template.key == run.template,
        task.run == run.key,
        task.status == TaskStatus::Failed,
        task.retry_count == task.max_retries,
    ensures
        retry_task_spec(admin, workspace, run, template, task, now)
            == Err::<Task, WorkflowError>(WorkflowError::RetryLimitExceeded),
{
}

/// `retry_task` is the only operation that touches `retry_count`, and it
/// never pushes it past `max_retries`: a task within its retry budget stays
/// within it.
pub proof fn lemma_retry_keeps_retries_bounded(
    admin: u64,
    workspace: Workspace,
    run: WorkflowRun,
    template: WorkflowTemplate,
    task: Task,
    now: i64,
)
    requires
        task_retries_bounded(task),
    ensures
        (match retry_task_spec(admin, workspace, run, template, task, now) {
            Ok(t) => task_retries_bounded(t) && t.retry_count == task.retry_count + 1,
            Err(_) => true,
        }),
{
}

/// Escalation while the deadline is still open (`now <= due_at`) always
/// fails with `DeadlineNotReached`, whatever the task's status.
pub proof fn lemma_escalate_before_deadline(run: WorkflowRun, task: Task, now: i64)
    requires
        task.run == run.key,
        now <= task.due_at,
    ensures
        escalate_task_spec(run, task, now)
            == Err::<(WorkflowRun, Task), WorkflowError>(WorkflowError::DeadlineNotReached),
{
}

/// Once the deadline has passed, escalation of an `Active` run from any of
/// `InProgress`, `AwaitingApproval`, or `Failed` succeeds and moves both the
/// task and the run to `Escalated`.
pub proof fn lemma_escalate_after_deadline(run: WorkflowRun, task: Task, now: i64)
    requires
        task.run == run.key,
        now > task.due_at,
        run.status is Active,
        task.status is InProgress || task.status is AwaitingApproval || task.status is Failed,
    ensures
        (match escalate_task_spec(run, task, now) {
            Ok((r2, t2)) => {
                &&& t2.status == TaskStatus::Escalated
                &&& r2.status == RunStatus::Escalated
            },
            Err(_) => false,
        }),
{
}

/// Closing an already-`Closed` run always fails with `InvalidTransition`,
/// even for an authorized actor.
pub proof fn lemma_close_closed_run(actor: u64, workspace: Workspace, run: WorkflowRun, now: i64)
    requires
        run.workspace == workspace.key,
        actor == workspace.admin || actor == run.creator,
        run.status == RunStatus::Closed,
    ensures
        close_run_spec(actor, workspace, run, now)
            == Err::<WorkflowRun, WorkflowError>(WorkflowError::InvalidTransition),
{
}

/// An authorized closure from any status other than `Closed` succeeds and
/// stamps the closing time.
pub proof fn lemma_close_open_run(actor: u64, workspace: Workspace, run: WorkflowRun, now: i64)
    requires
        run.workspace == workspace.key,
        actor == workspace.admin || actor == run.creator,
        run.status != RunStatus::Closed,
    ensures
        (match close_run_spec(actor, workspace, run, now) {
            Ok(r2) => r2.status == RunStatus::Closed && r2.closed_at == now,
            Err(_) => false,
        }),
{
}

/// Closure succeeds at most once: whatever a successful `close_run`
/// produced, no later closure of that run can succeed, whoever attempts it
/// and whenever.
pub proof fn lemma_close_run_once(
    actor: u64,
    workspace: Workspace,
    run: WorkflowRun,
    now: i64,
    actor2: u64,
    now2: i64,
)
    ensures
        (match close_run_spec(actor, workspace, run, now) {
            Ok(r2) => close_run_spec(actor2, workspace, r2, now2) is Err,
            Err(_) => true,
        }),
{
}

/// No transition reopens a `Closed` run: once a run is `Closed`, approval,
/// escalation, and closure all reject it, whoever calls and whenever.
pub proof fn lemma_closed_run_is_terminal(
    admin: u64,
    workspace: Workspace,
    run: WorkflowRun,
    task: Task,
    now: i64,
)
    requires
        run.status is Closed,
    ensures
        approve_task_spec(admin, workspace, run, task, now) is Err,
        escalate_task_spec(run, task, now) is Err,
        close_run_spec(admin, workspace, run, now) is Err,
{
}

/// The run a task belongs to is never changed by any task transition, and an
/// approval completes run and task together.
pub proof fn lemma_approve_completes_both(
    admin: u64,
    workspace: Workspace,
    run: WorkflowRun,
    task: Task,
    now: i64,
)
    ensures
        (match approve_task_spec(admin, workspace, run, task, now) {
            Ok((r2, t2)) => {
                &&& t2.status == TaskStatus::Completed
                &&& r2.status == RunStatus::Completed
                &&& r2.closed_at == now
                &&& t2.run == task.run
            },
            Err(_) => true,
        }),
{
}

} // verus!
