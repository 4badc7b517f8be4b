use signal_box::ids::{display_path, format_id, make_id, now_id};
use signal_box::schema::pending_migrations;

#[test]
fn ids_are_prefix_millis_nanos() {
    assert_eq!(format_id("cap", 0, 0), "cap_0_0");
    assert_eq!(format_id("task", 1714312345678, 123456789), "task_1714312345678_123456789");
    assert_eq!(format_id("x", u128::MAX, 999_999_999), format!("x_{}_999999999", u128::MAX));
}

#[test]
fn new_ids_carry_their_prefix() {
    let id = make_id("project");
    let parts: Vec<&str> = id.split('_').collect();
    assert_eq!(parts.len(), 3);
    assert_eq!(parts[0], "project");
    assert!(parts[1].parse::<u128>().unwrap() > 0);
    assert!(parts[2].parse::<u32>().unwrap() < 1_000_000_000);
    assert!(now_id().starts_with("cap_"));
}

#[test]
fn paths_are_shown_as_text() {
    assert_eq!(display_path(b"/home/me/.local/share/signal-box"), "/home/me/.local/share/signal-box");
    assert_eq!(display_path("/données".as_bytes()), "/données");
    assert_eq!(display_path(b"/bad\xffname"), "/bad\u{fffd}name");
}

#[test]
fn only_unrecorded_migrations_are_pending() {
    let names: Vec<String> = ["0000_foundation", "0001_capture_inbox", "0002_ai_provider_distillation"]
        .iter()
        .map(|s| s.to_string())
        .collect();
    assert_eq!(pending_migrations(&names, &[]), vec![0, 1, 2]);
    assert_eq!(pending_migrations(&names, &["0001_capture_inbox".to_string()]), vec![0, 2]);
    assert!(pending_migrations(&names, &names).is_empty());
}

#[test]
fn a_second_migration_run_applies_nothing() {
    let names: Vec<String> = ["0000_foundation", "0001_capture_inbox", "0002_ai_provider_distillation"]
        .iter()
        .map(|s| s.to_string())
        .collect();
    let mut recorded = vec!["0001_capture_inbox".to_string(), "0009_unknown".to_string()];
    let pending = pending_migrations(&names, &recorded);
    assert_eq!(pending, vec![0, 2]);
    recorded.extend(pending.iter().map(|&i| names[i].clone()));
    assert!(pending_migrations(&names, &recorded).is_empty());
}
