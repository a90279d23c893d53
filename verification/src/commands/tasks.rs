//! Task status updates: checked against the state machine, with a history
//! record when the task reaches a final status.

use vstd::prelude::*;

use crate::domain::task::entity::{
    status_is_finished, status_text, transition_allowed, TaskStatus,
};
use crate::error::AppError;

verus! {

/// The message for a task that does not exist.
pub open spec fn missing_task_message(task_id: Seq<char>) -> Seq<char> {
    "任务不存在: "@ + task_id
}

/// The message for a move the state machine refuses.
pub open spec fn illegal_transition_message(from: TaskStatus, to: TaskStatus) -> Seq<char> {
    "非法状态迁移: "@ + status_text(from) + " → "@ + status_text(to)
}

/// Decides a status update of task `task_id`, whose stored status is
/// `current` (`None` when there is no such task), to `next`.
///
/// Refused when the task does not exist or the state machine does not allow
/// the move; otherwise the update is applied, and the result says whether a
/// history record is written (the new status is final).
pub fn check_status_update(task_id: &str, current: Option<TaskStatus>, next: TaskStatus) -> (r:
    Result<bool, AppError>)
    ensures
        match current {
            None => (r matches Err(AppError::Other(m)) && m@ == missing_task_message(task_id@)),
            Some(c) => if transition_allowed(c, next) {
                r == Ok::<bool, AppError>(status_is_finished(next))
            } else {
                (r matches Err(AppError::Other(m)) && m@ == illegal_transition_message(c, next))
            },
        },
{
    let c = match current {
        Some(c) => c,
        None => {
            return Err(AppError::Other(String::from_str("任务不存在: ").concat(task_id)));
        },
    };
    if !c.can_transition_to(next) {
        return Err(
            AppError::Other(
                String::from_str("非法状态迁移: ").concat(c.as_str()).concat(" → ").concat(
                    next.as_str(),
                ),
            ),
        );
    }
    Ok(next.is_finished())
}

} // verus!
