use vstd::prelude::*;

use crate::error::AppError;
use crate::text::str_eq;

verus! {

/// Status of a download task.
#[derive(Debug, Clone, Copy, PartialEq, Eq, Structural)]
pub enum TaskStatus {
    /// Waiting (including waiting for a scheduled start).
    Pending,
    /// Analyzing the stream.
    Analyzing,
    /// Downloading.
    Downloading,
    /// Binary merging.
    Merging,
    /// Muxing.
    Muxing,
    /// Paused.
    Paused,
    /// Completed.
    Completed,
    /// Failed.
    Failed,
    /// Cancelled.
    Cancelled,
}

/// The persisted string of a status.
pub open spec fn status_text(s: TaskStatus) -> Seq<char> {
    match s {
        TaskStatus::Pending => "pending"@,
        TaskStatus::Analyzing => "analyzing"@,
        TaskStatus::Downloading => "downloading"@,
        TaskStatus::Merging => "merging"@,
        TaskStatus::Muxing => "muxing"@,
        TaskStatus::Paused => "paused"@,
        TaskStatus::Completed => "completed"@,
        TaskStatus::Failed => "failed"@,
        TaskStatus::Cancelled => "cancelled"@,
    }
}

/// The status whose persisted string is `s`, if any.
pub open spec fn status_from_text(s: Seq<char>) -> Option<TaskStatus> {
    if s == "pending"@ {
        Some(TaskStatus::Pending)
    } else if s == "analyzing"@ {
        Some(TaskStatus::Analyzing)
    } else if s == "downloading"@ {
        Some(TaskStatus::Downloading)
    } else if s == "merging"@ {
        Some(TaskStatus::Merging)
    } else if s == "muxing"@ {
        Some(TaskStatus::Muxing)
    } else if s == "paused"@ {
        Some(TaskStatus::Paused)
    } else if s == "completed"@ {
        Some(TaskStatus::Completed)
    } else if s == "failed"@ {
        Some(TaskStatus::Failed)
    } else if s == "cancelled"@ {
        Some(TaskStatus::Cancelled)
    } else {
        None
    }
}

/// Whether the task is being processed.
pub open spec fn status_is_active(s: TaskStatus) -> bool {
    s == TaskStatus::Analyzing || s == TaskStatus::Downloading || s == TaskStatus::Merging
        || s == TaskStatus::Muxing
}

/// Whether the status is terminal.
pub open spec fn status_is_finished(s: TaskStatus) -> bool {
    s == TaskStatus::Completed || s == TaskStatus::Failed || s == TaskStatus::Cancelled
}

/// The legal moves of the task state machine: staying put, or one of the
/// listed moves.
pub open spec fn transition_allowed(from: TaskStatus, to: TaskStatus) -> bool {
    from == to || match from {
        TaskStatus::Pending => to == TaskStatus::Analyzing || to == TaskStatus::Downloading || to
            == TaskStatus::Paused || to == TaskStatus::Failed || to == TaskStatus::Cancelled,
        TaskStatus::Analyzing => to == TaskStatus::Downloading || to == TaskStatus::Paused || to
            == TaskStatus::Failed || to == TaskStatus::Cancelled,
        TaskStatus::Downloading => to == TaskStatus::Merging || to == TaskStatus::Muxing || to
            == TaskStatus::Completed || to == TaskStatus::Paused || to == TaskStatus::Failed || to
            == TaskStatus::Cancelled,
        TaskStatus::Merging => to == TaskStatus::Muxing || to == TaskStatus::Completed || to
            == TaskStatus::Failed || to == TaskStatus::Cancelled,
        TaskStatus::Muxing => to == TaskStatus::Completed || to == TaskStatus::Failed || to
            == TaskStatus::Cancelled,
        TaskStatus::Paused => to == TaskStatus::Analyzing || to == TaskStatus::Downloading || to
            == TaskStatus::Failed || to == TaskStatus::Cancelled,
        TaskStatus::Completed | TaskStatus::Failed | TaskStatus::Cancelled => to
            == TaskStatus::Pending,
    }
}

impl TaskStatus {
    /// Whether the task is being processed (analyzing, downloading, merging, muxing).
    pub fn is_active(self) -> (r: bool)
        ensures
            r == status_is_active(self),
    {
        match self {
            TaskStatus::Analyzing | TaskStatus::Downloading | TaskStatus::Merging
            | TaskStatus::Muxing => true,
            _ => false,
        }
    }

    /// Whether the status is terminal (completed, failed, cancelled).
    pub fn is_finished(self) -> (r: bool)
        ensures
            r == status_is_finished(self),
    {
        match self {
            TaskStatus::Completed | TaskStatus::Failed | TaskStatus::Cancelled => true,
            _ => false,
        }
    }

    /// The string under which the status is persisted.
    pub fn as_str(self) -> (r: &'static str)
        ensures
            r@ == status_text(self),
    {
        match self {
            TaskStatus::Pending => "pending",
            TaskStatus::Analyzing => "analyzing",
            TaskStatus::Downloading => "downloading",
            TaskStatus::Merging => "merging",
            TaskStatus::Muxing => "muxing",
            TaskStatus::Paused => "paused",
            TaskStatus::Completed => "completed",
            TaskStatus::Failed => "failed",
            TaskStatus::Cancelled => "cancelled",
        }
    }

    /// Parses a persisted status string; any other string is a parse error
    /// whose message names it.
    pub fn parse(s: &str) -> (r: Result<TaskStatus, AppError>)
        ensures
            status_from_text(s@) matches Some(t) ==> r == Ok::<TaskStatus, AppError>(t),
            status_from_text(s@) is None ==> (r matches Err(AppError::Parse(m)) && m@
                == "未知任务状态: "@ + s@),
    {
        if str_eq(s, "pending") {
            Ok(TaskStatus::Pending)
        } else if str_eq(s, "analyzing") {
            Ok(TaskStatus::Analyzing)
        } else if str_eq(s, "downloading") {
            Ok(TaskStatus::Downloading)
        } else if str_eq(s, "merging") {
            Ok(TaskStatus::Merging)
        } else if str_eq(s, "muxing") {
            Ok(TaskStatus::Muxing)
        } else if str_eq(s, "paused") {
            Ok(TaskStatus::Paused)
        } else if str_eq(s, "completed") {
            Ok(TaskStatus::Completed)
        } else if str_eq(s, "failed") {
            Ok(TaskStatus::Failed)
        } else if str_eq(s, "cancelled") {
            Ok(TaskStatus::Cancelled)
        } else {
            let m = String::from_str("未知任务状态: ").concat(s);
            Err(AppError::Parse(m))
        }
    }

    /// Whether the state machine allows moving from `self` to `next`.
    ///
    /// Staying in the same status is always allowed; a terminal status only
    /// goes back to pending.
    pub fn can_transition_to(self, next: TaskStatus) -> (r: bool)
        ensures
            r == transition_allowed(self, next),
    {
        if self == next {
            return true;
        }
        match (self, next) {
            (TaskStatus::Pending, TaskStatus::Analyzing)
            | (TaskStatus::Pending, TaskStatus::Downloading)
            | (TaskStatus::Pending, TaskStatus::Paused)
            | (TaskStatus::Pending, TaskStatus::Failed)
            | (TaskStatus::Pending, TaskStatus::Cancelled) => true,
            (TaskStatus::Analyzing, TaskStatus::Downloading)
            | (TaskStatus::Analyzing, TaskStatus::Paused)
            | (TaskStatus::Analyzing, TaskStatus::Failed)
            | (TaskStatus::Analyzing, TaskStatus::Cancelled) => true,
            (TaskStatus::Downloading, TaskStatus::Merging)
            | (TaskStatus::Downloading, TaskStatus::Muxing)
            | (TaskStatus::Downloading, TaskStatus::Completed)
            | (TaskStatus::Downloading, TaskStatus::Paused)
            | (TaskStatus::Downloading, TaskStatus::Failed)
            | (TaskStatus::Downloading, TaskStatus::Cancelled) => true,
            (TaskStatus::Merging, TaskStatus::Muxing)
            | (TaskStatus::Merging, TaskStatus::Completed)
            | (TaskStatus::Merging, TaskStatus::Failed)
            | (TaskStatus::Merging, TaskStatus::Cancelled) => true,
            (TaskStatus::Muxing, TaskStatus::Completed)
            | (TaskStatus::Muxing, TaskStatus::Failed)
            | (TaskStatus::Muxing, TaskStatus::Cancelled) => true,
            (TaskStatus::Paused, TaskStatus::Analyzing)
            | (TaskStatus::Paused, TaskStatus::Downloading)
            | (TaskStatus::Paused, TaskStatus::Failed)
            | (TaskStatus::Paused, TaskStatus::Cancelled) => true,
            (TaskStatus::Completed, TaskStatus::Pending)
            | (TaskStatus::Failed, TaskStatus::Pending)
            | (TaskStatus::Cancelled, TaskStatus::Pending) => true,
            _ => false,
        }
    }
}

/// Every status has a persisted string that parses back to it.
pub proof fn lemma_status_text_round_trip(s: TaskStatus)
    ensures
        status_from_text(status_text(s)) == Some(s),
{
    reveal_strlit("pending");
    reveal_strlit("analyzing");
    reveal_strlit("downloading");
    reveal_strlit("merging");
    reveal_strlit("muxing");
    reveal_strlit("paused");
    reveal_strlit("completed");
    reveal_strlit("failed");
    reveal_strlit("cancelled");
    let t = status_text(s);
    assert(t.len() != 7 ==> t != "pending"@);
    assert(t.len() != 9 ==> t != "analyzing"@ && t != "completed"@ && t != "cancelled"@);
    assert(t.len() != 11 ==> t != "downloading"@);
    assert(t.len() != 7 ==> t != "merging"@);
    assert(t.len() != 6 ==> t != "muxing"@ && t != "paused"@ && t != "failed"@);
    assert(t[0] != 'p' ==> t != "pending"@ && t != "paused"@);
    assert(t[0] != 'a' ==> t != "analyzing"@);
    assert(t[0] != 'c' ==> t != "completed"@ && t != "cancelled"@);
    assert(t[0] != 'm' ==> t != "merging"@ && t != "muxing"@);
    assert(t[0] != 'f' ==> t != "failed"@);
    assert(t[1] != 'o' ==> t != "completed"@);
    assert(t[1] != 'a' ==> t != "cancelled"@ && t != "paused"@);
}

/// Distinct statuses are persisted under distinct strings.
pub proof fn lemma_status_text_injective(s: TaskStatus, t: TaskStatus)
    ensures
        status_text(s) == status_text(t) ==> s == t,
{
    lemma_status_text_round_trip(s);
    lemma_status_text_round_trip(t);
}

/// Re-writing the current status (an idempotent update) is always allowed.
pub proof fn lemma_transition_reflexive(s: TaskStatus)
    ensures
        transition_allowed(s, s),
{
}

/// No status is both active and terminal.
pub proof fn lemma_active_excludes_finished(s: TaskStatus)
    ensures
        !(status_is_active(s) && status_is_finished(s)),
{
}

/// A task that has not finished can always fail or be cancelled.
pub proof fn lemma_unfinished_can_fail_or_cancel(s: TaskStatus)
    requires
        !status_is_finished(s),
    ensures
        transition_allowed(s, TaskStatus::Failed),
        transition_allowed(s, TaskStatus::Cancelled),
{
}

/// A terminal status only moves back to pending (retry / re-download).
pub proof fn lemma_finished_only_back_to_pending(s: TaskStatus, t: TaskStatus)
    requires
        status_is_finished(s),
        transition_allowed(s, t),
        t != s,
    ensures
        t == TaskStatus::Pending,
{
}

/// The place of a status in the download pipeline (pending, analyzing,
/// downloading, merging, muxing, completed); none for the others.
pub open spec fn pipeline_rank(s: TaskStatus) -> int {
    match s {
        TaskStatus::Pending => 0,
        TaskStatus::Analyzing => 1,
        TaskStatus::Downloading => 2,
        TaskStatus::Merging => 3,
        TaskStatus::Muxing => 4,
        TaskStatus::Completed => 5,
        _ => -1,
    }
}

/// A task moves forward through the pipeline and may skip the optional
/// steps: before the download it may go on to analysing or straight to
/// downloading; once downloading it may go on to merging, muxing or straight
/// to completion.
pub proof fn lemma_pipeline_moves_forward(s: TaskStatus, t: TaskStatus)
    requires
        0 <= pipeline_rank(s) < pipeline_rank(t),
        pipeline_rank(t) <= 2 || pipeline_rank(s) >= 2,
    ensures
        transition_allowed(s, t),
{
}

/// A task completes directly from downloading, merging or muxing, and from
/// no other status.
pub proof fn lemma_completion_steps(s: TaskStatus)
    ensures
        (s != TaskStatus::Completed && transition_allowed(s, TaskStatus::Completed)) <==> (s
            == TaskStatus::Downloading || s == TaskStatus::Merging || s == TaskStatus::Muxing),
{
}

/// A task may be paused before or while downloading, and a paused task
/// resumes by analysing or downloading.
pub proof fn lemma_pause_and_resume(s: TaskStatus)
    ensures
        s == TaskStatus::Pending || s == TaskStatus::Analyzing || s == TaskStatus::Downloading
            ==> transition_allowed(s, TaskStatus::Paused),
        transition_allowed(TaskStatus::Paused, TaskStatus::Analyzing),
        transition_allowed(TaskStatus::Paused, TaskStatus::Downloading),
{
}

/// A task completes only from downloading, merging or muxing.
pub proof fn lemma_completion_follows_work(s: TaskStatus)
    requires
        transition_allowed(s, TaskStatus::Completed),
        s != TaskStatus::Completed,
    ensures
        s == TaskStatus::Downloading || s == TaskStatus::Merging || s == TaskStatus::Muxing,
{
}

/// A download task.
#[derive(Debug, Clone)]
pub struct TaskEntity {
    /// Unique identifier.
    pub id: String,
    /// Download URL.
    pub url: String,
    /// File name.
    pub file_name: String,
    /// Save directory.
    pub save_dir: String,
    /// Output path (once completed).
    pub output_path: Option<String>,
    /// Current status.
    pub status: TaskStatus,
    /// Error message.
    pub error: Option<String>,
    /// Whether the task was interrupted (active when the application quit).
    pub was_interrupted: bool,
}

/// Progress of a task, as pushed to the front end and persisted with it.
#[derive(Debug, Clone, PartialEq)]
pub struct ProgressData {
    /// Percent of the current stream.
    pub percent: i32,
    /// Overall percent (video and audio together).
    pub overall_percent: i32,
    /// Speed in bytes per second.
    pub speed: i64,
    /// Bytes downloaded.
    pub downloaded_size: i64,
    /// Total bytes.
    pub total_size: i64,
    /// Segments downloaded.
    pub downloaded_segments: i32,
    /// Total segments.
    pub total_segments: i32,
    /// Estimated seconds left.
    pub eta: i32,
    /// What is being done now.
    pub current_action: String,
}

impl Default for ProgressData {
    fn default() -> (r: ProgressData)
        ensures
            r.percent == 0 && r.overall_percent == 0 && r.speed == 0 && r.downloaded_size == 0
                && r.total_size == 0 && r.downloaded_segments == 0 && r.total_segments == 0
                && r.eta == 0 && r.current_action@ == Seq::<char>::empty(),
    {
        ProgressData {
            percent: 0,
            overall_percent: 0,
            speed: 0,
            downloaded_size: 0,
            total_size: 0,
            downloaded_segments: 0,
            total_segments: 0,
            eta: 0,
            current_action: String::new(),
        }
    }
}

} // verus!
