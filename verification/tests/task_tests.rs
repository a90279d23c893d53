use streamgrab::commands::tasks::check_status_update;
use streamgrab::domain::download::UrlType;
use streamgrab::domain::task::TaskStatus::{
    Analyzing, Cancelled, Completed, Downloading, Failed, Merging, Muxing, Paused, Pending,
};
use streamgrab::domain::task::record::{limit_records, mark_active_interrupted, LocalDateTime};
use streamgrab::domain::task::{
    HistoryRecord, ProgressData, StreamSelection, TaskOverrides, TaskRecord, TaskStatus,
};

#[test]
fn status_round_trip() {
    for s in [
        "pending",
        "analyzing",
        "downloading",
        "merging",
        "muxing",
        "paused",
        "completed",
        "failed",
        "cancelled",
    ] {
        let status = TaskStatus::parse(s).unwrap();
        assert_eq!(status.as_str(), s);
        assert_eq!(status.as_str().to_string(), s);
    }
    assert!(TaskStatus::parse("bogus").is_err());
}

#[test]
fn unknown_status_message() {
    let e = TaskStatus::parse("bogus").unwrap_err();
    assert_eq!(e.message(), "未知任务状态: bogus");
}

#[test]
fn active_and_finished_classification() {
    assert!(TaskStatus::Downloading.is_active());
    assert!(TaskStatus::Merging.is_active());
    assert!(TaskStatus::Muxing.is_active());
    assert!(!TaskStatus::Pending.is_active());
    assert!(!TaskStatus::Paused.is_active());

    assert!(TaskStatus::Completed.is_finished());
    assert!(TaskStatus::Failed.is_finished());
    assert!(TaskStatus::Cancelled.is_finished());
    assert!(!TaskStatus::Downloading.is_finished());
}

#[test]
fn state_machine_allows_normal_flow() {
    assert!(Pending.can_transition_to(Analyzing));
    assert!(Analyzing.can_transition_to(Downloading));
    assert!(Downloading.can_transition_to(Merging));
    assert!(Merging.can_transition_to(Muxing));
    assert!(Muxing.can_transition_to(Completed));
    assert!(Downloading.can_transition_to(Downloading));
    assert!(Downloading.can_transition_to(Failed));
    assert!(Muxing.can_transition_to(Cancelled));
    assert!(Downloading.can_transition_to(Paused));
    assert!(Paused.can_transition_to(Downloading));
    assert!(Failed.can_transition_to(Pending));
    assert!(Completed.can_transition_to(Pending));
}

#[test]
fn state_machine_rejects_illegal_flow() {
    assert!(!Pending.can_transition_to(Completed));
    assert!(!Downloading.can_transition_to(Analyzing));
    assert!(!Completed.can_transition_to(Downloading));
    assert!(!Paused.can_transition_to(Completed));
    assert!(!Analyzing.can_transition_to(Muxing));
}

#[test]
fn every_status_may_stay() {
    for s in [Pending, Analyzing, Downloading, Merging, Muxing, Paused, Completed, Failed, Cancelled] {
        assert!(s.can_transition_to(s));
    }
}

#[test]
fn empty_overrides_detected() {
    assert!(TaskOverrides::default().is_empty());
    let o = TaskOverrides {
        max_speed: Some("5M".into()),
        ..Default::default()
    };
    assert!(!o.is_empty());
}

#[test]
fn an_empty_string_is_still_an_override() {
    let o = TaskOverrides {
        save_dir: Some(String::new()),
        ..Default::default()
    };
    assert!(!o.is_empty());
    let s = TaskOverrides {
        selection: Some(StreamSelection::default()),
        ..Default::default()
    };
    assert!(!s.is_empty());
}

fn record(url: &str, overrides: Option<TaskOverrides>) -> TaskRecord {
    TaskRecord {
        id: "t1".into(),
        url: url.into(),
        file_name: "video".into(),
        save_dir: "D:/Videos".into(),
        output_path: None,
        status: TaskStatus::Pending,
        error: None,
        was_interrupted: false,
        created_at: TaskRecord::now(at(2024, 1, 2, 3, 4, 5)),
        updated_at: TaskRecord::now(at(2024, 1, 2, 3, 4, 5)),
        started_at: None,
        completed_at: None,
        progress: ProgressData::default(),
        media_info: None,
        overrides,
    }
}

#[test]
fn spec_carries_overrides_and_detects_type() {
    let r = record(
        "https://example.com/index.m3u8",
        Some(TaskOverrides {
            max_speed: Some("5M".into()),
            ..Default::default()
        }),
    );
    let spec = r.spec();
    assert_eq!(spec.url_type, UrlType::Hls);
    assert_eq!(spec.overrides.max_speed.as_deref(), Some("5M"));
    assert_eq!(spec.task_id, "t1");
}

#[test]
fn spec_without_overrides_has_none() {
    let spec = record("https://example.com/a.mp4", None).spec();
    assert!(spec.overrides.is_empty());
    assert_eq!(spec.url_type, UrlType::HttpVideo);
    assert_eq!(spec.save_dir, "D:/Videos");
    assert!(!record("u", None).is_finished());
}

fn at(year: i32, month: u32, day: u32, hour: u32, minute: u32, second: u32) -> LocalDateTime {
    LocalDateTime { year, month, day, hour, minute, second }
}

#[test]
fn now_is_local_iso_time() {
    assert_eq!(TaskRecord::now(at(2024, 1, 2, 3, 4, 5)), "2024-01-02T03:04:05");
    assert_eq!(TaskRecord::now(at(1999, 12, 31, 23, 59, 60)), "1999-12-31T23:59:60");
    // Years outside 1000-9999 are zero-padded to four digits, and carry a
    // sign outside 0-9999 (as chrono's `%Y` writes them).
    assert_eq!(TaskRecord::now(at(5, 6, 7, 0, 0, 0)), "0005-06-07T00:00:00");
    assert_eq!(TaskRecord::now(at(12345, 1, 1, 0, 0, 0)), "+12345-01-01T00:00:00");
    assert_eq!(TaskRecord::now(at(-5, 1, 1, 0, 0, 0)), "-0005-01-01T00:00:00");
    assert_eq!(TaskRecord::now(at(i32::MIN, 1, 1, 0, 0, 0)), "-2147483648-01-01T00:00:00");
}

#[test]
fn status_update_into_final_status_writes_history() {
    assert_eq!(
        check_status_update("t1", Some(TaskStatus::Muxing), TaskStatus::Completed).unwrap(),
        true
    );
    assert_eq!(
        check_status_update("t1", Some(TaskStatus::Pending), TaskStatus::Analyzing).unwrap(),
        false
    );
}

#[test]
fn status_update_refusals() {
    let missing = check_status_update("t9", None, TaskStatus::Pending).unwrap_err();
    assert_eq!(missing.message(), "任务不存在: t9");
    let illegal =
        check_status_update("t1", Some(TaskStatus::Pending), TaskStatus::Completed).unwrap_err();
    assert_eq!(illegal.message(), "非法状态迁移: pending → completed");
}

#[test]
fn progress_data_default_is_zero() {
    let p = ProgressData::default();
    assert_eq!(p.percent, 0);
    assert_eq!(p.overall_percent, 0);
    assert_eq!(p.total_size, 0);
    assert!(p.current_action.is_empty());
}

fn history(id: i64, completed_at: &str) -> HistoryRecord {
    HistoryRecord {
        id,
        task_id: None,
        url: "u".into(),
        file_name: "f".into(),
        save_dir: "d".into(),
        output_path: None,
        file_size: None,
        status: TaskStatus::Completed,
        error: None,
        created_at: completed_at.into(),
        completed_at: completed_at.into(),
        overrides: None,
    }
}

#[test]
fn history_keeps_the_newest() {
    let mut h = vec![
        history(1, "2024-01-03T00:00:00"),
        history(2, "2024-01-01T00:00:00"),
        history(3, "2024-01-05T00:00:00"),
        history(4, "2024-01-02T00:00:00"),
    ];
    limit_records(&mut h, 2);
    let mut ids: Vec<i64> = h.iter().map(|r| r.id).collect();
    ids.sort();
    assert_eq!(ids, vec![1, 3]);
    limit_records(&mut h, 5);
    assert_eq!(h.len(), 2);
    limit_records(&mut h, 0);
    assert!(h.is_empty());
}

#[test]
fn active_tasks_become_interrupted() {
    let mut tasks = vec![record("a", None), record("b", None), record("c", None)];
    tasks[0].status = TaskStatus::Downloading;
    tasks[1].status = TaskStatus::Completed;
    tasks[2].status = TaskStatus::Muxing;
    assert_eq!(mark_active_interrupted(&mut tasks), 2);
    assert_eq!(tasks[0].status, TaskStatus::Paused);
    assert!(tasks[0].was_interrupted);
    assert_eq!(tasks[1].status, TaskStatus::Completed);
    assert!(!tasks[1].was_interrupted);
    assert_eq!(tasks[2].status, TaskStatus::Paused);
    assert!(tasks[2].was_interrupted);
}
