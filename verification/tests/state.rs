use clipoo::models::{ClipboardItem, ClipboardItemType, SaveOutcome};
use clipoo::capture::RawCapture;
use clipoo::monitor::{
    capture_hash, keeps_saved_image, monitoring_disabled, observe_capture, observe_sequence, poll_step,
    MonitorState, PollAction, PollEvent,
};
use clipoo::suppress::{
    skip_clipboard_sequence, suppress_next_capture, take_skipped_sequence,
    take_suppress_next_capture, SuppressState,
};
use clipoo::write::{file_list, files_to_write, finish_write, write_payload_target, WriteTarget};

#[test]
fn suppression_is_taken_once() {
    let mut s = SuppressState::new();
    assert!(!take_suppress_next_capture(&mut s));
    suppress_next_capture(&mut s);
    assert!(take_suppress_next_capture(&mut s));
    assert!(!take_suppress_next_capture(&mut s));
}

#[test]
fn skipped_sequence_is_taken_once() {
    let mut s = SuppressState::new();
    skip_clipboard_sequence(&mut s, 7);
    assert!(!take_skipped_sequence(&mut s, 8));
    assert!(take_skipped_sequence(&mut s, 7));
    assert!(!take_skipped_sequence(&mut s, 7));
    skip_clipboard_sequence(&mut s, 0);
    assert!(!take_skipped_sequence(&mut s, 0));
}

#[test]
fn monitor_acts_once_per_sequence_change() {
    let mut m = MonitorState::new(5);
    let mut s = SuppressState::new();
    assert!(!observe_sequence(&mut m, &mut s, 5));
    assert!(observe_sequence(&mut m, &mut s, 6));
    assert!(!observe_sequence(&mut m, &mut s, 6));
    assert_eq!(m.last_sequence, 6);
}

#[test]
fn monitor_skips_own_writes() {
    let mut m = MonitorState::new(1);
    let mut s = SuppressState::new();
    suppress_next_capture(&mut s);
    skip_clipboard_sequence(&mut s, 2);
    // The skipped number is consumed first; the suppression stays for later.
    assert!(!observe_sequence(&mut m, &mut s, 2));
    assert!(s.suppress_next);
    assert!(!observe_sequence(&mut m, &mut s, 3));
    assert!(!s.suppress_next);
    assert!(observe_sequence(&mut m, &mut s, 4));
}

#[test]
fn repeated_image_is_stored_once() {
    let mut m = MonitorState::new(0);
    assert!(observe_capture(&mut m, Some(42)));
    assert!(!observe_capture(&mut m, Some(42)));
    assert!(observe_capture(&mut m, None));
    assert!(observe_capture(&mut m, Some(42)));
    monitoring_disabled(&mut m);
    assert_eq!(m.last_image_hash, None);
    assert!(observe_capture(&mut m, Some(42)));
}

#[test]
fn saved_image_kept_only_for_new_entries() {
    let item = ClipboardItem {
        id: "x".to_string(),
        item_type: ClipboardItemType::Image,
        content: "/img/a.png".to_string(),
        normalized_content: "/img/a.png".to_string(),
        preview: "تصویر".to_string(),
        pinned: false,
        created_at: 0,
    };
    assert!(keeps_saved_image::<()>(&Ok(SaveOutcome::Inserted(item))));
    assert!(!keeps_saved_image::<()>(&Ok(SaveOutcome::Duplicate)));
    assert!(!keeps_saved_image::<()>(&Err(())));
}

#[test]
fn write_targets_by_type() {
    assert_eq!(write_payload_target(ClipboardItemType::File), WriteTarget::FileList);
    assert_eq!(write_payload_target(ClipboardItemType::Image), WriteTarget::Png);
    assert_eq!(write_payload_target(ClipboardItemType::Text), WriteTarget::UnicodeText);
    assert_eq!(write_payload_target(ClipboardItemType::Url), WriteTarget::UnicodeText);
    assert_eq!(write_payload_target(ClipboardItemType::Code), WriteTarget::UnicodeText);
}

#[test]
fn file_list_trims_and_skips_blank_lines() {
    assert_eq!(
        file_list("  /a/b.txt \r\n\n   \n/c d/e.txt\n"),
        vec!["/a/b.txt".to_string(), "/c d/e.txt".to_string()]
    );
    assert!(file_list("").is_empty());
}

#[test]
fn finishing_a_write_updates_suppression() {
    let mut s = SuppressState::new();
    suppress_next_capture(&mut s);
    finish_write(&mut s, false, Some(9));
    assert_eq!(s, SuppressState::new());

    suppress_next_capture(&mut s);
    finish_write(&mut s, true, Some(9));
    assert!(s.suppress_next);
    assert_eq!(s.skip_sequence, 9);
}

#[test]
fn a_poll_checks_in_order_and_stores_a_new_capture() {
    let mut monitor = MonitorState::new(1);
    let mut suppression = SuppressState::new();
    assert_eq!(poll_step(&mut monitor, &mut suppression, PollEvent::Sequence(1)), PollAction::Wait);
    assert_eq!(poll_step(&mut monitor, &mut suppression, PollEvent::Sequence(2)), PollAction::CheckMonitoring);
    assert_eq!(monitor.last_sequence, 2);
    assert_eq!(
        poll_step(&mut monitor, &mut suppression, PollEvent::MonitoringEnabled(true)),
        PollAction::CheckForeground
    );
    assert_eq!(
        poll_step(&mut monitor, &mut suppression, PollEvent::ForegroundExcluded(false)),
        PollAction::ReadClipboard
    );
    assert_eq!(poll_step(&mut monitor, &mut suppression, PollEvent::Captured(Some(9))), PollAction::Store);
    assert_eq!(monitor.last_image_hash, Some(9));
    assert_eq!(poll_step(&mut monitor, &mut suppression, PollEvent::Captured(Some(9))), PollAction::Wait);
}

#[test]
fn a_poll_stops_when_monitoring_is_off_or_the_app_is_excluded() {
    let mut monitor = MonitorState { last_sequence: 3, last_image_hash: Some(5) };
    let mut suppression = SuppressState::new();
    assert_eq!(poll_step(&mut monitor, &mut suppression, PollEvent::MonitoringEnabled(false)), PollAction::Wait);
    assert_eq!(monitor.last_image_hash, None);
    assert_eq!(poll_step(&mut monitor, &mut suppression, PollEvent::ForegroundExcluded(true)), PollAction::Wait);
    assert_eq!(poll_step(&mut monitor, &mut suppression, PollEvent::ClipboardEmpty), PollAction::Wait);
    assert_eq!(poll_step(&mut monitor, &mut suppression, PollEvent::Captured(Some(5))), PollAction::Store);
}

#[test]
fn a_suppressed_change_is_not_read() {
    let mut monitor = MonitorState::new(1);
    let mut suppression = SuppressState::new();
    suppress_next_capture(&mut suppression);
    assert_eq!(poll_step(&mut monitor, &mut suppression, PollEvent::Sequence(4)), PollAction::Wait);
    assert_eq!(poll_step(&mut monitor, &mut suppression, PollEvent::Sequence(5)), PollAction::CheckMonitoring);
}

#[test]
fn only_images_are_hashed() {
    let a = capture_hash(&RawCapture::Image(vec![1, 2, 3]));
    assert!(a.is_some());
    assert_eq!(a, capture_hash(&RawCapture::Image(vec![1, 2, 3])));
    assert_ne!(a, capture_hash(&RawCapture::Image(vec![1, 2, 4])));
    assert_eq!(capture_hash(&RawCapture::Text("x".to_string())), None);
    assert_eq!(capture_hash(&RawCapture::Files(vec!["a".to_string()])), None);
}

#[test]
fn an_entry_without_paths_writes_no_files() {
    assert_eq!(files_to_write("  \n\t\n"), None);
    assert_eq!(
        files_to_write(" C:\\a.txt \n\nC:\\b.txt"),
        Some(vec!["C:\\a.txt".to_string(), "C:\\b.txt".to_string()])
    );
}
