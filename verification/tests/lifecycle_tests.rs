use workflow_engine::errors::WorkflowError;
use workflow_engine::ops::{
    approve_task, close_run, create_template, create_workspace, escalate_task, retry_task,
    start_workflow_run, submit_task_result,
};
use workflow_engine::state::{
    CreateTemplateArgs, RunStatus, StageDefinition, StageKind, Task, TaskStatus, WorkflowRun,
    WorkflowTemplate, Workspace,
};

const ADMIN: u64 = 11;
const OPERATOR: u64 = 22;
const STRANGER: u64 = 33;
const WS_KEY: u64 = 1;
const TPL_KEY: u64 = 7;
const RUN_KEY: u64 = 70;

fn started(
    kind: StageKind,
    sla_seconds: i64,
    retry_limit: u8,
    now: i64,
) -> (Workspace, WorkflowTemplate, WorkflowRun, Task) {
    let mut w = create_workspace(WS_KEY, ADMIN, 42, 1_000);
    let args = CreateTemplateArgs {
        max_tasks: 5,
        retry_limit,
        escalation_seconds: 600,
        stages: vec![StageDefinition { kind, required_role: 3, sla_seconds }],
    };
    let t = create_template(&mut w, ADMIN, TPL_KEY, args).unwrap();
    let (run, task) = start_workflow_run(&mut w, &t, OPERATOR, RUN_KEY, now).unwrap();
    (w, t, run, task)
}

#[test]
fn approval_completes_task_and_run() {
    let (w, t, mut run, mut task) = started(StageKind::ManualApproval, 100, 2, 2_000);
    submit_task_result(OPERATOR, &w, &run, &t, &mut task, true, 0, 2_050).unwrap();
    assert_eq!(task.status, TaskStatus::AwaitingApproval);
    approve_task(ADMIN, &w, &mut run, &mut task, 2_060).unwrap();
    assert_eq!(task.status, TaskStatus::Completed);
    assert_eq!(run.status, RunStatus::Completed);
    assert_eq!(run.closed_at, 2_060);
}

#[test]
fn only_the_admin_may_approve() {
    let (w, t, mut run, mut task) = started(StageKind::ManualApproval, 100, 2, 2_000);
    submit_task_result(OPERATOR, &w, &run, &t, &mut task, true, 0, 2_050).unwrap();
    let r = approve_task(OPERATOR, &w, &mut run, &mut task, 2_060);
    assert_eq!(r, Err(WorkflowError::Unauthorized));
    assert_eq!(task.status, TaskStatus::AwaitingApproval);
    assert_eq!(run.status, RunStatus::Active);
}

#[test]
fn approval_needs_a_task_awaiting_it() {
    let (w, _t, mut run, mut task) = started(StageKind::ManualApproval, 100, 2, 2_000);
    let r = approve_task(ADMIN, &w, &mut run, &mut task, 2_060);
    assert_eq!(r, Err(WorkflowError::InvalidTransition));
    assert_eq!(task.status, TaskStatus::InProgress);
}

#[test]
fn approval_never_reopens_a_closed_run() {
    let (w, t, mut run, mut task) = started(StageKind::ManualApproval, 100, 2, 2_000);
    submit_task_result(OPERATOR, &w, &run, &t, &mut task, true, 0, 2_050).unwrap();
    assert_eq!(task.status, TaskStatus::AwaitingApproval);
    close_run(OPERATOR, &w, &mut run, 2_055).unwrap();
    let r = approve_task(ADMIN, &w, &mut run, &mut task, 2_060);
    assert_eq!(r, Err(WorkflowError::InvalidTransition));
    assert_eq!(run.status, RunStatus::Closed);
    assert_eq!(run.closed_at, 2_055);
    assert_eq!(task.status, TaskStatus::AwaitingApproval);
}

#[test]
fn approval_needs_an_active_run() {
    for status in [RunStatus::Escalated, RunStatus::Completed, RunStatus::Closed] {
        let (w, t, mut run, mut task) = started(StageKind::ManualApproval, 100, 2, 2_000);
        submit_task_result(OPERATOR, &w, &run, &t, &mut task, true, 0, 2_050).unwrap();
        run.status = status;
        let r = approve_task(ADMIN, &w, &mut run, &mut task, 2_060);
        assert_eq!(r, Err(WorkflowError::InvalidTransition));
        assert_eq!(run.status, status);
        assert_eq!(task.status, TaskStatus::AwaitingApproval);
    }
}

#[test]
fn retry_resets_the_task_under_a_fresh_deadline() {
    let (w, t, run, mut task) = started(StageKind::OperatorExecution, 100, 2, 2_000);
    submit_task_result(OPERATOR, &w, &run, &t, &mut task, false, 9, 2_050).unwrap();
    retry_task(ADMIN, &w, &run, &t, &mut task, 2_070).unwrap();
    assert_eq!(task.retry_count, 1);
    assert_eq!(task.status, TaskStatus::InProgress);
    assert_eq!(task.due_at, 2_170);
    assert_eq!(task.last_error_code, 0);
}

#[test]
fn retry_needs_a_failed_task() {
    let (w, t, run, mut task) = started(StageKind::OperatorExecution, 100, 2, 2_000);
    let r = retry_task(ADMIN, &w, &run, &t, &mut task, 2_070);
    assert_eq!(r, Err(WorkflowError::InvalidTransition));
}

#[test]
fn retry_is_admin_only() {
    let (w, t, run, mut task) = started(StageKind::OperatorExecution, 100, 2, 2_000);
    submit_task_result(OPERATOR, &w, &run, &t, &mut task, false, 9, 2_050).unwrap();
    let r = retry_task(OPERATOR, &w, &run, &t, &mut task, 2_070);
    assert_eq!(r, Err(WorkflowError::Unauthorized));
    assert_eq!(task.retry_count, 0);
}

#[test]
fn retry_at_the_limit_is_rejected() {
    let (w, t, run, mut task) = started(StageKind::OperatorExecution, 100, 1, 2_000);
    submit_task_result(OPERATOR, &w, &run, &t, &mut task, false, 9, 2_050).unwrap();
    retry_task(ADMIN, &w, &run, &t, &mut task, 2_070).unwrap();
    assert_eq!(task.retry_count, 1);
    submit_task_result(OPERATOR, &w, &run, &t, &mut task, false, 9, 2_080).unwrap();
    let r = retry_task(ADMIN, &w, &run, &t, &mut task, 2_090);
    assert_eq!(r, Err(WorkflowError::RetryLimitExceeded));
    assert_eq!(task.retry_count, 1);
    assert!(task.retry_count <= task.max_retries);
}

#[test]
fn retry_rejects_a_dangling_stage_index() {
    let (w, t, run, mut task) = started(StageKind::OperatorExecution, 100, 2, 2_000);
    submit_task_result(OPERATOR, &w, &run, &t, &mut task, false, 9, 2_050).unwrap();
    task.stage_index = 3;
    let r = retry_task(ADMIN, &w, &run, &t, &mut task, 2_070);
    assert_eq!(r, Err(WorkflowError::InvalidStageIndex));
}

#[test]
fn escalation_before_the_deadline_is_rejected() {
    let (_w, _t, mut run, mut task) = started(StageKind::ManualApproval, 100, 2, 2_000);
    let r = escalate_task(&mut run, &mut task, 2_100);
    assert_eq!(r, Err(WorkflowError::DeadlineNotReached));
    assert_eq!(task.status, TaskStatus::InProgress);
    assert_eq!(run.status, RunStatus::Active);
}

#[test]
fn escalation_after_the_deadline_marks_task_and_run() {
    let (w, t, _run, _task) = started(StageKind::ManualApproval, 100, 2, 2_000);
    for status in [TaskStatus::InProgress, TaskStatus::AwaitingApproval, TaskStatus::Failed] {
        let (mut run2, mut task2) = {
            let mut w2 = w;
            start_workflow_run(&mut w2, &t, OPERATOR, RUN_KEY, 2_000).unwrap()
        };
        task2.status = status;
        escalate_task(&mut run2, &mut task2, 2_101).unwrap();
        assert_eq!(task2.status, TaskStatus::Escalated);
        assert_eq!(run2.status, RunStatus::Escalated);
    }
}

#[test]
fn escalation_of_a_terminal_task_is_rejected() {
    let (_w, _t, mut run, mut task) = started(StageKind::ManualApproval, 100, 2, 2_000);
    task.status = TaskStatus::Completed;
    let r = escalate_task(&mut run, &mut task, 2_101);
    assert_eq!(r, Err(WorkflowError::InvalidTransition));
    task.status = TaskStatus::Escalated;
    let r = escalate_task(&mut run, &mut task, 2_101);
    assert_eq!(r, Err(WorkflowError::InvalidTransition));
}

#[test]
fn escalation_never_touches_a_closed_run() {
    let (w, _t, mut run, mut task) = started(StageKind::ManualApproval, 100, 2, 2_000);
    close_run(ADMIN, &w, &mut run, 2_050).unwrap();
    let r = escalate_task(&mut run, &mut task, 2_101);
    assert_eq!(r, Err(WorkflowError::InvalidTransition));
    assert_eq!(run.status, RunStatus::Closed);
    assert_eq!(task.status, TaskStatus::InProgress);
}

#[test]
fn escalation_needs_an_active_run() {
    for status in [RunStatus::Escalated, RunStatus::Completed, RunStatus::Closed] {
        let (_w, _t, mut run, mut task) = started(StageKind::ManualApproval, 100, 2, 2_000);
        run.status = status;
        let r = escalate_task(&mut run, &mut task, 2_101);
        assert_eq!(r, Err(WorkflowError::InvalidTransition));
        assert_eq!(run.status, status);
        assert_eq!(task.status, TaskStatus::InProgress);
    }
}

#[test]
fn escalation_checks_the_task_run_relationship() {
    let (_w, _t, mut run, mut task) = started(StageKind::ManualApproval, 100, 2, 2_000);
    task.run = RUN_KEY + 1;
    let r = escalate_task(&mut run, &mut task, 2_101);
    assert_eq!(r, Err(WorkflowError::InvalidTransition));
}

#[test]
fn close_run_is_for_admin_or_creator_only() {
    let (w, _t, mut run, _task) = started(StageKind::ManualApproval, 100, 2, 2_000);
    let r = close_run(STRANGER, &w, &mut run, 3_000);
    assert_eq!(r, Err(WorkflowError::Unauthorized));
    assert_eq!(run.status, RunStatus::Active);
    close_run(OPERATOR, &w, &mut run, 3_000).unwrap();
    assert_eq!(run.status, RunStatus::Closed);
    assert_eq!(run.closed_at, 3_000);
}

#[test]
fn an_escalated_run_can_still_be_closed() {
    let (w, _t, mut run, mut task) = started(StageKind::ManualApproval, 100, 2, 2_000);
    escalate_task(&mut run, &mut task, 2_101).unwrap();
    assert_eq!(run.status, RunStatus::Escalated);
    close_run(ADMIN, &w, &mut run, 3_000).unwrap();
    assert_eq!(run.status, RunStatus::Closed);
}

#[test]
fn a_closed_run_cannot_be_closed_again() {
    let (w, _t, mut run, _task) = started(StageKind::ManualApproval, 100, 2, 2_000);
    close_run(ADMIN, &w, &mut run, 3_000).unwrap();
    let before = run;
    let r = close_run(ADMIN, &w, &mut run, 3_100);
    assert_eq!(r, Err(WorkflowError::InvalidTransition));
    assert_eq!(run, before);
    assert_eq!(run.closed_at, 3_000);
}

#[test]
fn finalization_run_completes_end_to_end() {
    let start: i64 = 50_000;
    let mut w = create_workspace(WS_KEY, ADMIN, 42, start);
    let args = CreateTemplateArgs {
        max_tasks: 1,
        retry_limit: 1,
        escalation_seconds: 600,
        stages: vec![StageDefinition {
            kind: StageKind::Finalization,
            required_role: 3,
            sla_seconds: 100,
        }],
    };
    let t = create_template(&mut w, ADMIN, TPL_KEY, args).unwrap();
    let (run, mut task) = start_workflow_run(&mut w, &t, OPERATOR, RUN_KEY, start).unwrap();
    assert_eq!(task.due_at, start + 100);
    submit_task_result(OPERATOR, &w, &run, &t, &mut task, true, 0, start + 50).unwrap();
    assert_eq!(task.status, TaskStatus::Completed);
    // The run record is untouched by submission; its completion is the
    // approval path's business, and a finalization stage leaves it `Active`
    // until it is explicitly closed.
    assert_eq!(run.status, RunStatus::Active);
}

#[test]
fn failed_finalization_run_exhausts_its_single_retry() {
    let start: i64 = 50_000;
    let mut w = create_workspace(WS_KEY, ADMIN, 42, start);
    let args = CreateTemplateArgs {
        max_tasks: 1,
        retry_limit: 1,
        escalation_seconds: 600,
        stages: vec![StageDefinition {
            kind: StageKind::Finalization,
            required_role: 3,
            sla_seconds: 100,
        }],
    };
    let t = create_template(&mut w, ADMIN, TPL_KEY, args).unwrap();
    let (run, mut task) = start_workflow_run(&mut w, &t, OPERATOR, RUN_KEY, start).unwrap();
    submit_task_result(OPERATOR, &w, &run, &t, &mut task, false, 77, start + 50).unwrap();
    assert_eq!(task.status, TaskStatus::Failed);
    assert_eq!(task.last_error_code, 77);
    let retry_at = start + 60;
    retry_task(ADMIN, &w, &run, &t, &mut task, retry_at).unwrap();
    assert_eq!(task.retry_count, 1);
    assert_eq!(task.due_at, retry_at + 100);
    assert_eq!(task.status, TaskStatus::InProgress);
    submit_task_result(OPERATOR, &w, &run, &t, &mut task, false, 78, retry_at + 10).unwrap();
    assert_eq!(task.status, TaskStatus::Failed);
    let r = retry_task(ADMIN, &w, &run, &t, &mut task, retry_at + 20);
    assert_eq!(r, Err(WorkflowError::RetryLimitExceeded));
}
