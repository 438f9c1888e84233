use vstd::prelude::*;

verus! {

/// Every operation either fully succeeds or is rejected with one of these
/// errors and no partial state mutation.
#[derive(Clone, Copy, Debug, PartialEq, Eq, Structural)]
pub enum WorkflowError {
    /// Caller identity does not match the required admin/creator relationship.
    Unauthorized,
    /// The operation is not legal from the entity's current status, or a
    /// referenced record does not belong to the expected parent.
    InvalidTransition,
    /// Escalation was requested while the task's deadline is still open.
    DeadlineNotReached,
    /// A result was submitted after the task's deadline had passed.
    DeadlinePassed,
    /// A retry was attempted with `retry_count >= max_retries`.
    RetryLimitExceeded,
    /// Template creation arguments violate their bounds, or a referenced
    /// template is structurally invalid.
    InvalidTemplate,
    /// A bounded sequence exceeds its fixed capacity.
    VectorTooLarge,
    /// A task's `stage_index` does not resolve to an entry in the template's
    /// stage list.
    InvalidStageIndex,
}

} // verus!
