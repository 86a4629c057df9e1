use rust_reminder::history::{decimal, log_reminders, report_line, report_lines};
use std::collections::HashMap;

#[test]
fn decimal_writes_numbers() {
    assert_eq!(decimal(0), "0");
    assert_eq!(decimal(7), "7");
    assert_eq!(decimal(9), "9");
    assert_eq!(decimal(10), "10");
    assert_eq!(decimal(12), "12");
    assert_eq!(decimal(1234567890), "1234567890");
    assert_eq!(decimal(4294967296), "4294967296");
    assert_eq!(decimal(u64::MAX), "18446744073709551615");
}

#[test]
fn decimal_agrees_with_std() {
    for n in 0u64..2000 {
        assert_eq!(decimal(n), n.to_string());
    }
}

#[test]
fn log_reminders_inserts() {
    let mut history: HashMap<u32, String> = HashMap::new();
    log_reminders(&mut history, 4, "four");
    log_reminders(&mut history, 0, "zero");
    assert_eq!(history.len(), 2);
    assert_eq!(history.get(&4).map(|s| s.as_str()), Some("four"));
    assert_eq!(history.get(&0).map(|s| s.as_str()), Some("zero"));
}

#[test]
fn log_reminders_replaces_same_count() {
    let mut history: HashMap<u32, String> = HashMap::new();
    log_reminders(&mut history, 1, "first");
    log_reminders(&mut history, 2, "other");
    log_reminders(&mut history, 1, "second");
    assert_eq!(history.len(), 2);
    assert_eq!(history.get(&1).map(|s| s.as_str()), Some("second"));
    assert_eq!(history.get(&2).map(|s| s.as_str()), Some("other"));
}

#[test]
fn report_line_shows_key_plus_one() {
    assert_eq!(report_line(0, "hello"), "Reminder 1: hello");
    assert_eq!(report_line(9, "DO IT. LEARN RUST. NOW."), "Reminder 10: DO IT. LEARN RUST. NOW.");
    assert_eq!(report_line(10, ""), "Reminder 11: ");
}

#[test]
fn report_line_at_the_largest_key() {
    assert_eq!(report_line(u32::MAX, "x"), "Reminder 4294967296: x");
}

#[test]
fn report_lines_rise_with_the_keys() {
    let mut history: HashMap<u32, String> = HashMap::new();
    log_reminders(&mut history, 2, "c");
    log_reminders(&mut history, 0, "a");
    log_reminders(&mut history, 1, "b");
    assert_eq!(
        report_lines(&history),
        vec!["Reminder 1: a".to_string(), "Reminder 2: b".to_string(), "Reminder 3: c".to_string()]
    );
}

#[test]
fn report_lines_cover_a_log_with_gaps() {
    let mut history: HashMap<u32, String> = HashMap::new();
    log_reminders(&mut history, 5, "f");
    log_reminders(&mut history, 1, "b");
    log_reminders(&mut history, 700, "far");
    assert_eq!(
        report_lines(&history),
        vec![
            "Reminder 2: b".to_string(),
            "Reminder 6: f".to_string(),
            "Reminder 701: far".to_string()
        ]
    );
}

#[test]
fn report_lines_show_a_replaced_entry_once() {
    let mut history: HashMap<u32, String> = HashMap::new();
    log_reminders(&mut history, 3, "old");
    log_reminders(&mut history, 3, "new");
    assert_eq!(report_lines(&history), vec!["Reminder 4: new".to_string()]);
}

#[test]
fn report_of_empty_log_is_empty() {
    let history: HashMap<u32, String> = HashMap::new();
    assert_eq!(report_lines(&history), Vec::<String>::new());
}
