//! Sampling and buffering of download progress before it is persisted.
//!
//! A point is kept when the percent moved by the progress interval since the
//! last kept point, or when the speed changed by more than the threshold
//! (20 %) against the last buffered point; the very first report of a task is
//! kept once any progress is made.
//! Kept points are handed out for saving in batches, at most once per save
//! interval, and all at once when the task ends.

use dashmap::DashMap;
use vstd::prelude::*;

verus! {

/// One sampled point.
#[derive(Debug, Clone, Copy)]
pub struct ProgressPoint {
    /// Percent (0-100).
    pub percent: i32,
    /// Speed in bytes per second.
    pub speed: i64,
    /// Bytes downloaded.
    pub downloaded_size: i64,
    /// Time in milliseconds.
    pub timestamp: i64,
}

/// How progress is sampled.
#[derive(Debug, Clone, Copy)]
pub struct SamplingPolicy {
    /// Least time between two saves, in milliseconds.
    pub save_interval_ms: i64,
    /// Percent points between two kept points.
    pub progress_interval: i32,
    /// Change of speed, in percent of the last kept speed, beyond which a
    /// point is kept.
    pub speed_change_percent: u32,
}

impl SamplingPolicy {
    /// The policy of the tracker: save every 2 s, keep every 2 %, and keep a
    /// speed change of more than 20 %.
    pub fn new() -> (r: SamplingPolicy)
        ensures
            r.save_interval_ms == 2000,
            r.progress_interval == 2,
            r.speed_change_percent == 20,
    {
        SamplingPolicy { save_interval_ms: 2000, progress_interval: 2, speed_change_percent: 20 }
    }
}

/// The points of one task not yet saved.
#[derive(Debug)]
pub struct TaskProgressBuffer {
    /// Kept points, oldest first.
    pub points: Vec<ProgressPoint>,
    /// When points were last handed out for saving (milliseconds).
    pub last_save_time: i64,
    /// Percent of the last kept point.
    pub last_recorded_percent: i32,
    /// Whether a point was ever kept (a save empties `points`, not this).
    pub has_recorded: bool,
}

impl Default for TaskProgressBuffer {
    fn default() -> (r: TaskProgressBuffer)
        ensures
            r.points@.len() == 0,
            r.last_save_time == 0,
            r.last_recorded_percent == -100,
            !r.has_recorded,
    {
        TaskProgressBuffer {
            points: Vec::new(),
            last_save_time: 0,
            last_recorded_percent: -100,
            has_recorded: false,
        }
    }
}

/// The absolute value of an integer.
pub open spec fn abs(x: int) -> int {
    if x < 0 {
        -x
    } else {
        x
    }
}

/// Whether a point with this percent and speed is kept: the percent moved by
/// the interval; or else, with points buffered, both speeds are positive and
/// the speed changed by more than the threshold relative to the last buffered
/// one; or else, when no point was ever kept for the task, some progress was
/// made (the first point).
pub open spec fn should_keep(
    points: Seq<ProgressPoint>,
    last_percent: i32,
    recorded: bool,
    percent: i32,
    speed: i64,
    policy: SamplingPolicy,
) -> bool {
    if percent - last_percent >= policy.progress_interval {
        true
    } else if points.len() > 0 {
        let last = points.last().speed;
        last > 0 && speed > 0 && 100 * abs(speed - last) > policy.speed_change_percent * last
    } else {
        !recorded && percent > 0
    }
}

/// Whether kept points are due for saving at `now`.
pub open spec fn save_due(last_save_time: i64, now: i64, policy: SamplingPolicy) -> bool {
    now - last_save_time >= policy.save_interval_ms
}

/// A buffer after a report of `point`, as its kept points, last save time,
/// last kept percent and whether a point was ever kept, with the batch handed
/// out for saving: an unkept point changes nothing; a kept point is appended,
/// and when a save is due at its time the whole buffer is handed out and
/// emptied.
pub open spec fn after_report(
    points: Seq<ProgressPoint>,
    last_save_time: i64,
    last_percent: i32,
    recorded: bool,
    point: ProgressPoint,
    policy: SamplingPolicy,
) -> (Seq<ProgressPoint>, i64, i32, bool, Option<Seq<ProgressPoint>>) {
    if !should_keep(points, last_percent, recorded, point.percent, point.speed, policy) {
        (points, last_save_time, last_percent, recorded, None)
    } else if save_due(last_save_time, point.timestamp, policy) {
        (Seq::empty(), point.timestamp, point.percent, true, Some(points.push(point)))
    } else {
        (points.push(point), last_save_time, point.percent, true, None)
    }
}

impl TaskProgressBuffer {
    /// Records a progress report made at `now`. Returns the points to save
    /// when a kept point makes a save due; the buffer is then empty.
    pub fn record(
        &mut self,
        percent: i32,
        speed: i64,
        downloaded_size: i64,
        now: i64,
        policy: SamplingPolicy,
    ) -> (r: Option<Vec<ProgressPoint>>)
        ensures
            after_report(
                old(self).points@,
                old(self).last_save_time,
                old(self).last_recorded_percent,
                old(self).has_recorded,
                (ProgressPoint { percent, speed, downloaded_size, timestamp: now }),
                policy,
            ) == (
                final(self).points@,
                final(self).last_save_time,
                final(self).last_recorded_percent,
                final(self).has_recorded,
                match r {
                    Some(v) => Some(v@),
                    None => None,
                },
            ),
    {
        let moved = (percent as i64) - (self.last_recorded_percent as i64) >= (
        policy.progress_interval as i64);
        let keep = if moved {
            true
        } else if self.points.len() > 0 {
            let last = self.points[self.points.len() - 1].speed;
            if last > 0 && speed > 0 {
                let diff: i128 = (speed as i128) - (last as i128);
                let change: i128 = if diff < 0 {
                    -diff
                } else {
                    diff
                };
                let pct = policy.speed_change_percent;
                assert(0 <= (pct as int) * (last as int) <= 0x1_0000_0000 * 0x8000_0000_0000_0000)
                    by (nonlinear_arith)
                    requires
                        0 <= pct <= 0x1_0000_0000,
                        0 < last <= 0x8000_0000_0000_0000,
                ;
                100 * change > (pct as i128) * (last as i128)
            } else {
                false
            }
        } else {
            !self.has_recorded && percent > 0
        };
        if !keep {
            return None;
        }
        self.points.push(ProgressPoint { percent, speed, downloaded_size, timestamp: now });
        self.last_recorded_percent = percent;
        self.has_recorded = true;
        if (now as i128) - (self.last_save_time as i128) >= (policy.save_interval_ms as i128) {
            let mut batch: Vec<ProgressPoint> = Vec::new();
            std::mem::swap(&mut batch, &mut self.points);
            self.last_save_time = now;
            Some(batch)
        } else {
            None
        }
    }

    /// The points left when a task ends: all of them, or `None` when there
    /// are none (nothing is saved then).
    pub fn into_remaining(self) -> (r: Option<Vec<ProgressPoint>>)
        ensures
            self.points@.len() == 0 ==> r is None,
            self.points@.len() > 0 ==> (r matches Some(v) && v@ == self.points@),
    {
        if self.points.len() == 0 {
            None
        } else {
            Some(self.points)
        }
    }
}

/// No kept point is lost: after a report, the points handed out for saving
/// followed by those still buffered are the points buffered before, then the
/// reported point when it is kept.
pub proof fn lemma_record_keeps_every_point(
    points: Seq<ProgressPoint>,
    last_save_time: i64,
    last_percent: i32,
    recorded: bool,
    point: ProgressPoint,
    policy: SamplingPolicy,
)
    ensures
        ({
            let (after, _, _, _, saved) = after_report(
                points,
                last_save_time,
                last_percent,
                recorded,
                point,
                policy,
            );
            (match saved {
                Some(b) => b,
                None => Seq::<ProgressPoint>::empty(),
            }) + after == if should_keep(
                points,
                last_percent,
                recorded,
                point.percent,
                point.speed,
                policy,
            ) {
                points.push(point)
            } else {
                points
            }
        }),
{
    let (after, _, _, _, saved) = after_report(
        points,
        last_save_time,
        last_percent,
        recorded,
        point,
        policy,
    );
    match saved {
        Some(b) => {
            assert(b + after =~= b);
        },
        None => {
            assert(Seq::<ProgressPoint>::empty() + after =~= after);
        },
    }
}

/// Once a point was kept, only the two sampling rules keep another: the
/// percent moved by the interval since the last kept point, or the speed
/// changed by more than the threshold against the last buffered point. In
/// particular a buffer emptied by a save keeps no point for progress under
/// the interval.
pub proof fn lemma_sampling_rules_after_first(
    points: Seq<ProgressPoint>,
    last_percent: i32,
    percent: i32,
    speed: i64,
    policy: SamplingPolicy,
)
    ensures
        should_keep(points, last_percent, true, percent, speed, policy) <==> (percent - last_percent
            >= policy.progress_interval || (points.len() > 0 && points.last().speed > 0 && speed
            > 0 && 100 * abs(speed - points.last().speed) > policy.speed_change_percent
            * points.last().speed)),
{
}

/// A fresh buffer keeps its first report exactly when some progress was made
/// or the percent already moved by the interval from the initial -100.
pub proof fn lemma_first_report(percent: i32, speed: i64, policy: SamplingPolicy)
    requires
        0 <= policy.progress_interval <= 100,
    ensures
        percent >= 0 ==> should_keep(Seq::empty(), -100i32, false, percent, speed, policy),
        should_keep(Seq::empty(), -100i32, false, percent, speed, policy) <==> (percent + 100
            >= policy.progress_interval || percent > 0),
{
}

// ---------------------------------------------------------------------
// The tracker: one buffer per task
// ---------------------------------------------------------------------

#[verifier::external_type_specification]
#[verifier::external_body]
#[verifier::reject_recursive_types(K)]
#[verifier::reject_recursive_types(V)]
#[verifier::reject_recursive_types(S)]
pub struct ExDashMap<K, V, S>(DashMap<K, V, S>);

/// A buffer as plain values: its points, last save time, last kept percent
/// and whether a point was ever kept.
pub type BufferView = (Seq<ProgressPoint>, i64, i32, bool);

/// The plain values of a buffer.
pub open spec fn buffer_view(b: TaskProgressBuffer) -> BufferView {
    (b.points@, b.last_save_time, b.last_recorded_percent, b.has_recorded)
}

/// A fresh buffer.
pub open spec fn fresh_buffer() -> BufferView {
    (Seq::empty(), 0i64, -100i32, false)
}

/// The map of buffers by task id.
pub type TaskBuffers = DashMap<String, TaskProgressBuffer>;

/// The buffers a `DashMap` holds, by task id.
pub uninterp spec fn dashmap_buffers(m: TaskBuffers) -> Map<
    Seq<char>,
    BufferView,
>;

/// `DashMap::new`: an empty map.
#[verifier::external_body]
fn new_buffers() -> (r: TaskBuffers)
    ensures
        dashmap_buffers(r).dom() == Set::<Seq<char>>::empty(),
{
    DashMap::new()
}

/// `DashMap::remove`: takes the buffer of a task out of the map, if any.
#[verifier::external_body]
fn take_buffer(m: &mut TaskBuffers, key: &str) -> (r: Option<
    TaskProgressBuffer,
>)
    ensures
        dashmap_buffers(*final(m)) == dashmap_buffers(*old(m)).remove(key@),
        match r {
            Some(b) => dashmap_buffers(*old(m)).contains_key(key@) && dashmap_buffers(*old(m))[key@]
                == buffer_view(b),
            None => !dashmap_buffers(*old(m)).contains_key(key@),
        },
{
    m.remove(key).map(|(_, b)| b)
}

/// `DashMap::insert`: the buffer of a task, replacing any other.
#[verifier::external_body]
fn put_buffer(m: &mut TaskBuffers, key: &str, b: TaskProgressBuffer)
    ensures
        dashmap_buffers(*final(m)) == dashmap_buffers(*old(m)).insert(key@, buffer_view(b)),
{
    m.insert(key.to_string(), b);
}

/// The buffer of a task in the tracker: its own, else a fresh one.
pub open spec fn buffer_of(buffers: Map<Seq<char>, BufferView>, task: Seq<char>) -> BufferView {
    if buffers.contains_key(task) {
        buffers[task]
    } else {
        fresh_buffer()
    }
}

/// The buffers after a report for `task`, with the batch handed out for
/// saving: the task's buffer (a fresh one if it had none) takes the report
/// as `after_report` says; the other tasks' buffers are kept.
pub open spec fn after_task_report(
    buffers: Map<Seq<char>, BufferView>,
    task: Seq<char>,
    point: ProgressPoint,
    policy: SamplingPolicy,
) -> (Map<Seq<char>, BufferView>, Option<Seq<ProgressPoint>>) {
    let b = buffer_of(buffers, task);
    let (points, saved_at, percent, recorded, batch) = after_report(b.0, b.1, b.2, b.3, point, policy);
    (buffers.insert(task, (points, saved_at, percent, recorded)), batch)
}

/// Collects, buffers and hands out for saving the progress of every task.
pub struct ProgressTracker {
    buffers: TaskBuffers,
    policy: SamplingPolicy,
}

impl ProgressTracker {
    /// The buffers, by task id.
    pub closed spec fn buffers(&self) -> Map<Seq<char>, BufferView> {
        dashmap_buffers(self.buffers)
    }

    /// The sampling policy.
    pub closed spec fn policy(&self) -> SamplingPolicy {
        self.policy
    }

    /// A tracker with no buffer, sampling by the tracker's policy.
    pub fn new() -> (r: ProgressTracker)
        ensures
            r.buffers().dom() == Set::<Seq<char>>::empty(),
            r.policy().save_interval_ms == 2000,
            r.policy().progress_interval == 2,
            r.policy().speed_change_percent == 20,
    {
        ProgressTracker { buffers: new_buffers(), policy: SamplingPolicy::new() }
    }

    /// Records a progress report of a task made at `now`; returns the points
    /// to save when a save is due.
    pub fn record_progress(
        &mut self,
        task_id: &str,
        percent: i32,
        speed: i64,
        downloaded_size: i64,
        now: i64,
    ) -> (r: Option<Vec<ProgressPoint>>)
        ensures
            final(self).policy() == old(self).policy(),
            after_task_report(
                old(self).buffers(),
                task_id@,
                (ProgressPoint { percent, speed, downloaded_size, timestamp: now }),
                old(self).policy(),
            ) == (
                final(self).buffers(),
                match r {
                    Some(v) => Some(v@),
                    None => None,
                },
            ),
    {
        let ghost before_map = old(self).buffers();
        let mut b = match take_buffer(&mut self.buffers, task_id) {
            Some(b) => b,
            None => TaskProgressBuffer::default(),
        };
        proof {
            assert(buffer_view(b) =~= buffer_of(before_map, task_id@));
        }
        let ghost start = buffer_view(b);
        let due = b.record(percent, speed, downloaded_size, now, self.policy);
        let ghost after = buffer_view(b);
        proof {
            let point = ProgressPoint { percent, speed, downloaded_size, timestamp: now };
            let rep = after_report(start.0, start.1, start.2, start.3, point, self.policy);
            assert(after == (rep.0, rep.1, rep.2, rep.3));
        }
        put_buffer(&mut self.buffers, task_id, b);
        proof {
            assert(dashmap_buffers(self.buffers) =~= before_map.insert(task_id@, after));
        }
        due
    }

    /// Ends the tracking of a task: its buffer is dropped and its remaining
    /// points, if any, are handed out for saving.
    pub fn flush(&mut self, task_id: &str) -> (r: Option<Vec<ProgressPoint>>)
        ensures
            final(self).policy() == old(self).policy(),
            final(self).buffers() == old(self).buffers().remove(task_id@),
            match r {
                Some(v) => old(self).buffers().contains_key(task_id@) && v@ == old(self).buffers()[task_id@].0
                    && v@.len() > 0,
                None => !old(self).buffers().contains_key(task_id@) || old(self).buffers()[task_id@].0.len() == 0,
            },
    {
        match take_buffer(&mut self.buffers, task_id) {
            Some(b) => b.into_remaining(),
            None => None,
        }
    }

    /// Drops the buffer of a task without saving it.
    pub fn clear(&mut self, task_id: &str)
        ensures
            final(self).policy() == old(self).policy(),
            final(self).buffers() == old(self).buffers().remove(task_id@),
    {
        let _ = take_buffer(&mut self.buffers, task_id);
    }
}

/// A report touches only its own task's buffer.
pub proof fn lemma_report_keeps_other_tasks(
    buffers: Map<Seq<char>, BufferView>,
    task: Seq<char>,
    other: Seq<char>,
    point: ProgressPoint,
    policy: SamplingPolicy,
)
    requires
        other != task,
    ensures
        after_task_report(buffers, task, point, policy).0.contains_key(other) == buffers.contains_key(
            other,
        ),
        buffers.contains_key(other) ==> after_task_report(buffers, task, point, policy).0[other]
            == buffers[other],
{
}

/// A task flushed or cleared starts afresh: its next report is taken as the
/// first one.
pub proof fn lemma_flushed_task_starts_afresh(
    buffers: Map<Seq<char>, BufferView>,
    task: Seq<char>,
    point: ProgressPoint,
    policy: SamplingPolicy,
)
    ensures
        buffer_of(buffers.remove(task), task) == fresh_buffer(),
{
}

} // verus!
