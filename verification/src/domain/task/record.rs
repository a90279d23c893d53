//! The stored record of a task (one row of the task table), and the history
//! record written when a task reaches a final status.

use vstd::prelude::*;

use super::entity::{status_is_active, status_is_finished, ProgressData, TaskStatus};
use super::overrides::{no_overrides, TaskOverrides, TaskSpec};
use crate::domain::download::url_type::{url_kind, UrlType};
use crate::domain::media::info::MediaInfo;
use crate::text::{chars_of, decimal_string, lowercase_of, nat_decimal, push_char};

verus! {

/// A task as stored.
#[derive(Debug, Clone)]
pub struct TaskRecord {
    pub id: String,
    pub url: String,
    pub file_name: String,
    pub save_dir: String,
    pub output_path: Option<String>,
    pub status: TaskStatus,
    pub error: Option<String>,
    pub was_interrupted: bool,
    pub created_at: String,
    pub updated_at: String,
    pub started_at: Option<String>,
    pub completed_at: Option<String>,
    /// Live progress.
    pub progress: ProgressData,
    /// Media metadata.
    pub media_info: Option<MediaInfo>,
    /// Task-level overrides.
    pub overrides: Option<TaskOverrides>,
}

/// A local date and time as the clock gives it.
#[derive(Debug, Clone, Copy)]
pub struct LocalDateTime {
    pub year: i32,
    /// 1-12.
    pub month: u32,
    /// 1-31.
    pub day: u32,
    /// 0-23.
    pub hour: u32,
    /// 0-59.
    pub minute: u32,
    /// 0-60 (60 for a leap second).
    pub second: u32,
}

/// The fields of a clock reading lie in their ranges.
pub open spec fn valid_local_time(t: LocalDateTime) -> bool {
    &&& 1 <= t.month <= 12
    &&& 1 <= t.day <= 31
    &&& t.hour <= 23
    &&& t.minute <= 59
    &&& t.second <= 60
}

/// `d` with zeros in front up to `width` characters.
pub open spec fn zero_padded(d: Seq<char>, width: nat) -> Seq<char> {
    if d.len() >= width {
        d
    } else {
        Seq::new((width - d.len()) as nat, |i: int| '0') + d
    }
}

/// A year as `%Y` writes it: four digits (zero-padded) for the years 0 to
/// 9999, else a sign and at least four digits.
pub open spec fn year_text(y: i32) -> Seq<char> {
    if 0 <= y <= 9999 {
        zero_padded(nat_decimal(y as nat), 4)
    } else if y > 9999 {
        seq!['+'] + zero_padded(nat_decimal(y as nat), 4)
    } else {
        seq!['-'] + zero_padded(nat_decimal((-y) as nat), 4)
    }
}

/// A field written on two digits, zero-padded.
pub open spec fn two_digit_text(v: u32) -> Seq<char> {
    zero_padded(nat_decimal(v as nat), 2)
}

/// A local time as `%Y-%m-%dT%H:%M:%S` writes it (ISO 8601 without a time
/// zone).
pub open spec fn timestamp_text(t: LocalDateTime) -> Seq<char> {
    year_text(t.year) + seq!['-'] + two_digit_text(t.month) + seq!['-'] + two_digit_text(t.day)
        + seq!['T'] + two_digit_text(t.hour) + seq![':'] + two_digit_text(t.minute) + seq![':']
        + two_digit_text(t.second)
}

/// The decimal form of `v` with zeros in front up to `width` characters.
fn padded_decimal(v: u32, width: usize) -> (r: String)
    ensures
        r@ == zero_padded(nat_decimal(v as nat), width as nat),
{
    let digits = decimal_string(v as i128);
    let mut out = String::new();
    let mut k: usize = digits.as_str().unicode_len();
    let ghost d = nat_decimal(v as nat);
    assert(digits@ == d);
    while k < width
        invariant
            digits@ == d,
            d.len() <= k <= width || (d.len() > width && k == d.len()),
            k >= d.len(),
            out@ == Seq::new((k - d.len()) as nat, |i: int| '0'),
        decreases width - k,
    {
        push_char(&mut out, '0');
        proof {
            assert(out@ =~= Seq::new((k + 1 - d.len()) as nat, |i: int| '0'));
        }
        k = k + 1;
    }
    let r = out.concat(digits.as_str());
    proof {
        if d.len() >= width {
            assert(out@ =~= Seq::<char>::empty());
            assert(r@ =~= d);
        } else {
            assert(k == width);
        }
    }
    r
}

/// Appends one character.
fn with_char(s: String, c: char) -> (r: String)
    ensures
        r@ == s@.push(c),
{
    let mut t = s;
    push_char(&mut t, c);
    t
}

impl TaskRecord {
    /// A clock reading written as ISO 8601 without a time zone
    /// (`%Y-%m-%dT%H:%M:%S`).
    pub fn now(t: LocalDateTime) -> (r: String)
        requires
            valid_local_time(t),
        ensures
            r@ == timestamp_text(t),
    {
        let year = if t.year < 0 {
            let m: u32 = if t.year == i32::MIN {
                2147483648u32
            } else {
                (-t.year) as u32
            };
            with_char(String::new(), '-').concat(padded_decimal(m, 4).as_str())
        } else if t.year > 9999 {
            with_char(String::new(), '+').concat(padded_decimal(t.year as u32, 4).as_str())
        } else {
            padded_decimal(t.year as u32, 4)
        };
        let s = with_char(year, '-').concat(padded_decimal(t.month, 2).as_str());
        let s = with_char(s, '-').concat(padded_decimal(t.day, 2).as_str());
        let s = with_char(s, 'T').concat(padded_decimal(t.hour, 2).as_str());
        let s = with_char(s, ':').concat(padded_decimal(t.minute, 2).as_str());
        let s = with_char(s, ':').concat(padded_decimal(t.second, 2).as_str());
        proof {
            assert(s@ =~= timestamp_text(t));
        }
        s
    }

    /// What an engine builds the command line from: the task's identity,
    /// file name and directory as stored, its overrides (none when absent),
    /// and the type detected from its URL.
    pub fn spec(&self) -> (r: TaskSpec)
        ensures
            r.task_id == self.id,
            r.url == self.url,
            r.file_name == self.file_name,
            r.save_dir == self.save_dir,
            match self.overrides {
                Some(o) => r.overrides == o,
                None => no_overrides(r.overrides),
            },
            r.url_type == url_kind(lowercase_of(self.url@)),
    {
        TaskSpec {
            task_id: self.id.clone(),
            url: self.url.clone(),
            file_name: self.file_name.clone(),
            save_dir: self.save_dir.clone(),
            overrides: match &self.overrides {
                Some(o) => o.duplicate(),
                None => TaskOverrides::default(),
            },
            url_type: UrlType::detect(self.url.as_str()),
        }
    }

    /// Whether the task reached a final status.
    pub fn is_finished(&self) -> (r: bool)
        ensures
            r == status_is_finished(self.status),
    {
        self.status.is_finished()
    }
}

/// A task when the application starts again: one that was active is paused
/// and marked interrupted; any other is kept as it is.
pub open spec fn after_interruption(r: TaskRecord) -> TaskRecord {
    if status_is_active(r.status) {
        TaskRecord { status: TaskStatus::Paused, was_interrupted: true, ..r }
    } else {
        r
    }
}

/// How many of the tasks are active.
pub open spec fn active_count(s: Seq<TaskRecord>) -> nat
    decreases s.len(),
{
    if s.len() == 0 {
        0
    } else {
        active_count(s.drop_last()) + if status_is_active(s.last().status) {
            1nat
        } else {
            0nat
        }
    }
}

/// Marks the tasks that were active (analyzing, downloading, merging,
/// muxing) as paused and interrupted, and tells how many there were.
pub fn mark_active_interrupted(tasks: &mut Vec<TaskRecord>) -> (n: usize)
    ensures
        final(tasks)@ == old(tasks)@.map_values(|r: TaskRecord| after_interruption(r)),
        n == active_count(old(tasks)@),
{
    let ghost start = tasks@;
    let mut n: usize = 0;
    let mut i: usize = 0;
    while i < tasks.len()
        invariant
            i <= tasks@.len(),
            tasks@.len() == start.len(),
            forall|j: int| 0 <= j < i ==> tasks@[j] == after_interruption(start[j]),
            forall|j: int| i <= j < tasks@.len() ==> tasks@[j] == start[j],
            n == active_count(start.take(i as int)),
            n <= i,
        decreases tasks@.len() - i,
    {
        proof {
            assert(start.take(i + 1).drop_last() =~= start.take(i as int));
        }
        if tasks[i].status.is_active() {
            tasks[i].status = TaskStatus::Paused;
            tasks[i].was_interrupted = true;
            n = n + 1;
        }
        i = i + 1;
    }
    proof {
        assert(start.take(start.len() as int) =~= start);
        assert(tasks@ =~= start.map_values(|r: TaskRecord| after_interruption(r)));
    }
    n
}

/// A snapshot of a task written when it reached a final status; clearing
/// tasks keeps it.
#[derive(Debug, Clone)]
pub struct HistoryRecord {
    pub id: i64,
    /// The task it came from.
    pub task_id: Option<String>,
    pub url: String,
    pub file_name: String,
    pub save_dir: String,
    pub output_path: Option<String>,
    /// Size in bytes.
    pub file_size: Option<i64>,
    /// The final status.
    pub status: TaskStatus,
    /// Why it failed.
    pub error: Option<String>,
    pub created_at: String,
    pub completed_at: String,
    /// The overrides, to download again with the same settings.
    pub overrides: Option<TaskOverrides>,
}

/// `a` sorts before or with `b`, character by character (as text columns
/// are ordered: by code point, a prefix first).
pub open spec fn text_le(a: Seq<char>, b: Seq<char>) -> bool
    decreases a.len(),
{
    if a.len() == 0 {
        true
    } else if b.len() == 0 {
        false
    } else if a[0] != b[0] {
        a[0] < b[0]
    } else {
        text_le(a.drop_first(), b.drop_first())
    }
}

/// Every text sorts with itself.
proof fn lemma_text_le_reflexive(a: Seq<char>)
    ensures
        text_le(a, a),
    decreases a.len(),
{
    if a.len() > 0 {
        lemma_text_le_reflexive(a.drop_first());
    }
}

/// Any two texts are ordered one way or the other.
proof fn lemma_text_le_total(a: Seq<char>, b: Seq<char>)
    ensures
        text_le(a, b) || text_le(b, a),
    decreases a.len(),
{
    if a.len() > 0 && b.len() > 0 && a[0] == b[0] {
        lemma_text_le_total(a.drop_first(), b.drop_first());
    }
}

/// The order of texts is transitive.
proof fn lemma_text_le_transitive(a: Seq<char>, b: Seq<char>, c: Seq<char>)
    requires
        text_le(a, b),
        text_le(b, c),
    ensures
        text_le(a, c),
    decreases a.len(),
{
    if a.len() > 0 && b.len() > 0 && c.len() > 0 && a[0] == b[0] && b[0] == c[0] {
        lemma_text_le_transitive(a.drop_first(), b.drop_first(), c.drop_first());
    }
}

/// Whether `a` sorts before or with `b`.
fn text_le_exec(a: &str, b: &str) -> (r: bool)
    ensures
        r == text_le(a@, b@),
{
    let x = chars_of(a);
    let y = chars_of(b);
    let mut i: usize = 0;
    assert(a@.skip(0) =~= a@);
    assert(b@.skip(0) =~= b@);
    while i < x.len() && i < y.len()
        invariant
            x@ == a@,
            y@ == b@,
            i <= x.len(),
            i <= y.len(),
            text_le(a@, b@) == text_le(a@.skip(i as int), b@.skip(i as int)),
        decreases x.len() - i,
    {
        assert(a@.skip(i as int)[0] == x@[i as int]);
        assert(b@.skip(i as int)[0] == y@[i as int]);
        if x[i] != y[i] {
            return x[i] < y[i];
        }
        assert(a@.skip(i as int).drop_first() =~= a@.skip(i + 1));
        assert(b@.skip(i as int).drop_first() =~= b@.skip(i + 1));
        i = i + 1;
    }
    i == x.len()
}

/// Keeps the `max_count` newest history records by completion time: while
/// there are more, one of the oldest is removed. Every record removed was
/// completed no later than every record kept; which of equally old records
/// goes is not fixed.
pub fn limit_records(records: &mut Vec<HistoryRecord>, max_count: usize)
    ensures
        final(records)@.len() == (if old(records)@.len() <= max_count {
            old(records)@.len() as int
        } else {
            max_count as int
        }),
        forall|x: HistoryRecord|
            #[trigger] final(records)@.to_multiset().count(x) <= old(records)@.to_multiset().count(x),
        forall|d: HistoryRecord, k: HistoryRecord|
            old(records)@.to_multiset().count(d) > #[trigger] final(records)@.to_multiset().count(d)
                && #[trigger] final(records)@.contains(k) ==> text_le(
                d.completed_at@,
                k.completed_at@,
            ),
{
    broadcast use vstd::seq_lib::group_to_multiset_ensures;
    broadcast use vstd::multiset::group_multiset_axioms;

    let ghost start = records@;
    let ghost mut dropped: Seq<HistoryRecord> = Seq::empty();
    while records.len() > max_count
        invariant
            records@.len() <= start.len(),
            start.len() <= max_count ==> records@ == start,
            start.len() > max_count ==> records@.len() >= max_count,
            forall|x: HistoryRecord|
                start.to_multiset().count(x) == #[trigger] records@.to_multiset().count(x)
                    + dropped.to_multiset().count(x),
            forall|j: int, k: int|
                0 <= j < dropped.len() && 0 <= k < records@.len() ==> text_le(
                    #[trigger] dropped[j].completed_at@,
                    #[trigger] records@[k].completed_at@,
                ),
        decreases records.len(),
    {
        let mut mi: usize = 0;
        let mut j: usize = 1;
        proof {
            lemma_text_le_reflexive(records@[0].completed_at@);
        }
        while j < records.len()
            invariant
                records@.len() > 0,
                mi < records@.len(),
                1 <= j <= records@.len(),
                forall|k: int|
                    0 <= k < j ==> text_le(
                        records@[mi as int].completed_at@,
                        #[trigger] records@[k].completed_at@,
                    ),
            decreases records.len() - j,
        {
            proof {
                lemma_text_le_total(records@[mi as int].completed_at@, records@[j as int].completed_at@);
                lemma_text_le_reflexive(records@[j as int].completed_at@);
            }
            if !text_le_exec(records[mi].completed_at.as_str(), records[j].completed_at.as_str()) {
                proof {
                    assert forall|k: int| 0 <= k < j implies text_le(
                        records@[j as int].completed_at@,
                        #[trigger] records@[k].completed_at@,
                    ) by {
                        lemma_text_le_transitive(
                            records@[j as int].completed_at@,
                            records@[mi as int].completed_at@,
                            records@[k].completed_at@,
                        );
                    }
                }
                mi = j;
            }
            j = j + 1;
        }
        let ghost before = records@;
        let m = records.remove(mi);
        proof {
            assert(m == before[mi as int]);
            assert(records@ == before.remove(mi as int));
            vstd::seq_lib::to_multiset_remove(before, mi as int);
            vstd::seq_lib::to_multiset_build(dropped, m);
            assert forall|x: HistoryRecord|
                start.to_multiset().count(x) == #[trigger] records@.to_multiset().count(x)
                    + dropped.push(m).to_multiset().count(x) by {
                assert(start.to_multiset().count(x) == before.to_multiset().count(x)
                    + dropped.to_multiset().count(x));
                if x == m {
                    assert(before.to_multiset().count(m) > 0) by {
                        vstd::seq_lib::to_multiset_contains(before, m);
                        assert(before[mi as int] == m);
                    }
                }
            }
            assert forall|a: int, k: int|
                0 <= a < dropped.push(m).len() && 0 <= k < records@.len() implies text_le(
                    #[trigger] dropped.push(m)[a].completed_at@,
                    #[trigger] records@[k].completed_at@,
                ) by {
                let kk = if k < mi { k } else { k + 1 };
                assert(records@[k] == before[kk]);
                if a < dropped.len() {
                    assert(dropped.push(m)[a] == dropped[a]);
                }
            }
            dropped = dropped.push(m);
        }
    }
    proof {
        assert forall|d: HistoryRecord, k: HistoryRecord|
            start.to_multiset().count(d) > #[trigger] records@.to_multiset().count(d)
                && #[trigger] records@.contains(k) implies text_le(
            d.completed_at@,
            k.completed_at@,
        ) by {
            assert(dropped.to_multiset().count(d) > 0);
            assert(dropped.contains(d));
            let a = choose|a: int| 0 <= a < dropped.len() && dropped[a] == d;
            let kk = choose|kk: int| 0 <= kk < records@.len() && records@[kk] == k;
            assert(text_le(dropped[a].completed_at@, records@[kk].completed_at@));
        }
    }
}

} // verus!
