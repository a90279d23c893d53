use streamgrab::domain::media::{parse_resolution, MediaInfo};

#[test]
fn parse_resolution_variants() {
    assert_eq!(parse_resolution("1920x1080"), (1920, 1080));
    assert_eq!(parse_resolution("3840x2160"), (3840, 2160));
    assert_eq!(parse_resolution("invalid"), (0, 0));
    assert_eq!(parse_resolution(""), (0, 0));
}

#[test]
fn resolution_parts_parse_independently() {
    assert_eq!(parse_resolution("1280x"), (1280, 0));
    assert_eq!(parse_resolution("x720"), (0, 720));
    assert_eq!(parse_resolution("1280x720x3"), (1280, 720));
    assert_eq!(parse_resolution("+640x480"), (640, 480));
    assert_eq!(parse_resolution("99999999999x1"), (0, 1));
}

#[test]
fn resolution_round_trip() {
    for (w, h) in [(0u32, 0u32), (1, 2), (4294967295, 7), (720, 576)] {
        assert_eq!(parse_resolution(&format!("{w}x{h}")), (w, h));
    }
}

#[test]
fn merge_prefers_other_when_present() {
    let mut base = MediaInfo {
        resolution: Some("1920x1080".into()),
        duration: Some(100.0f64.to_bits()),
        ..Default::default()
    };
    let update = MediaInfo {
        file_size: Some(12345),
        duration: Some(101.5f64.to_bits()),
        ..Default::default()
    };
    base.merge(&update);
    assert_eq!(base.resolution.as_deref(), Some("1920x1080"));
    assert_eq!(base.duration.map(f64::from_bits), Some(101.5));
    assert_eq!(base.file_size, Some(12345));
}

#[test]
fn merge_with_nothing_changes_nothing() {
    let mut a = MediaInfo {
        width: Some(1920),
        is_live: true,
        ..Default::default()
    };
    let before = a.clone();
    a.merge(&MediaInfo::default());
    assert_eq!(a, before);
}

#[test]
fn merge_sets_flags_from_either_side() {
    let mut a = MediaInfo::default();
    a.merge(&MediaInfo {
        is_encrypted: true,
        ..Default::default()
    });
    assert!(a.is_encrypted);
    assert!(!a.is_live);
}
