use rust_reminder::chance::{
    check_procrastination, closing, get_random_delay, verdict_of, RustProcrastinationError, Stream,
};
use rust_reminder::history::report_lines;
use rust_reminder::level::ReminderLevel;
use rust_reminder::reminder::RustReminder;
use rust_reminder::session::{
    banner, log_header, motto, should_stop, tick, warning, Step, MAX_WARNINGS,
};
use std::collections::HashMap;

fn run(name: &str) -> (u32, HashMap<u32, String>, Vec<String>, Vec<u64>) {
    let mut bot = RustReminder::new(name);
    let mut history: HashMap<u32, String> = HashMap::new();
    let mut said = Vec::new();
    let mut waits = Vec::new();
    loop {
        let done = tick(&mut bot, &mut history);
        said.push(done.line);
        match done.step {
            Step::Stop => break,
            Step::Sleep { seconds } => waits.push(seconds),
        }
        assert!(said.len() < 1000);
    }
    (bot.reminder_count, history, said, waits)
}

fn message_of(count: u32) -> &'static str {
    match count {
        0..=2 => "Hey buddy, maybe check out Rust today?",
        3..=5 => "Oh, still not learning Rust? Interesting.",
        6..=8 => "DO IT. LEARN RUST. NOW.",
        _ => "What even *is* a life without Rust?",
    }
}

#[test]
fn threshold_is_ten() {
    assert_eq!(MAX_WARNINGS, 10);
    assert!(!should_stop(0));
    assert!(!should_stop(10));
    assert!(should_stop(11));
    assert!(should_stop(u32::MAX));
}

#[test]
fn first_tick() {
    let mut bot = RustReminder::new("Bot");
    let mut history: HashMap<u32, String> = HashMap::new();
    let done = tick(&mut bot, &mut history);
    assert_eq!(done.line, "[Bot REMINDER]: Hey buddy, maybe check out Rust today?");
    assert_eq!(bot.reminder_count, 1);
    assert_eq!(bot.level, ReminderLevel::Gentle);
    assert_eq!(history.len(), 1);
    assert_eq!(
        history.get(&0).map(|s| s.as_str()),
        Some("Hey buddy, maybe check out Rust today?")
    );
    match done.step {
        Step::Sleep { seconds } => assert!((1..5).contains(&seconds)),
        Step::Stop => panic!("the first tick does not stop"),
    }
}

#[test]
fn tick_that_passes_the_threshold_stops() {
    let mut bot = RustReminder {
        name: "Bot",
        level: ReminderLevel::ExistentialCrisis,
        reminder_count: 10,
    };
    let mut history: HashMap<u32, String> = HashMap::new();
    let done = tick(&mut bot, &mut history);
    assert_eq!(done.step, Step::Stop);
    assert_eq!(done.line, "[Bot REMINDER]: What even *is* a life without Rust?");
    assert_eq!(bot.reminder_count, 11);
    assert_eq!(
        history.get(&10).map(|s| s.as_str()),
        Some("What even *is* a life without Rust?")
    );
}

#[test]
fn tick_below_the_threshold_sleeps() {
    let mut bot = RustReminder {
        name: "Bot",
        level: ReminderLevel::ExistentialCrisis,
        reminder_count: 9,
    };
    let mut history: HashMap<u32, String> = HashMap::new();
    let done = tick(&mut bot, &mut history);
    assert_eq!(bot.reminder_count, 10);
    assert!(matches!(done.step, Step::Sleep { seconds } if (1..5).contains(&seconds)));
}

#[test]
fn full_run_makes_eleven_ticks() {
    let (count, history, said, waits) = run("🧠 BrainBot");
    assert_eq!(count, 11);
    assert_eq!(said.len(), 11);
    assert_eq!(waits.len(), 10);
    assert_eq!(history.len(), 11);
    for w in waits {
        assert!(w > 0 && w < 5);
    }
}

#[test]
fn full_run_log_has_one_entry_per_tick() {
    let (_, history, said, _) = run("🧠 BrainBot");
    let mut keys: Vec<u32> = history.keys().copied().collect();
    keys.sort();
    assert_eq!(keys, (0u32..=10).collect::<Vec<u32>>());
    for k in 0u32..=10 {
        assert_eq!(history[&k], message_of(k));
        assert_eq!(said[k as usize], format!("[🧠 BrainBot REMINDER]: {}", message_of(k)));
    }
    let shown: Vec<u32> = keys.iter().map(|k| k + 1).collect();
    assert_eq!(shown, (1u32..=11).collect::<Vec<u32>>());
}

#[test]
fn full_run_report() {
    let (_, history, _, _) = run("Bot");
    let lines = report_lines(&history);
    assert_eq!(lines.len(), 11);
    assert_eq!(lines[0], "Reminder 1: Hey buddy, maybe check out Rust today?");
    assert_eq!(lines[2], "Reminder 3: Hey buddy, maybe check out Rust today?");
    assert_eq!(lines[3], "Reminder 4: Oh, still not learning Rust? Interesting.");
    assert_eq!(lines[6], "Reminder 7: DO IT. LEARN RUST. NOW.");
    assert_eq!(lines[9], "Reminder 10: What even *is* a life without Rust?");
    assert_eq!(lines[10], "Reminder 11: What even *is* a life without Rust?");
    for (i, line) in lines.iter().enumerate() {
        assert_eq!(*line, format!("Reminder {}: {}", i + 1, message_of(i as u32)));
    }
}

#[test]
fn two_runs_say_the_same() {
    let (count_a, history_a, said_a, _) = run("Bot");
    let (count_b, history_b, said_b, _) = run("Bot");
    assert_eq!(count_a, count_b);
    assert_eq!(history_a, history_b);
    assert_eq!(said_a, said_b);
    assert_eq!(report_lines(&history_a), report_lines(&history_b));
}

#[test]
fn fixed_lines() {
    assert_eq!(banner(), "🦀 Welcome to the RUST LEARNING REMINDER 9000 🦀");
    assert_eq!(warning(), "⚠️ WARNING: You've reached peak procrastination.");
    assert_eq!(log_header(), "📜 Reminder Log:");
    assert_eq!(
        motto(),
        "✨ Remember: Learning Rust is not a sprint, it's a systems-programming joyride. ✨"
    );
}

#[test]
fn random_delay_is_one_to_four() {
    let mut seen = [false; 5];
    for _ in 0..400 {
        let d = get_random_delay();
        assert!(d >= 1 && d < 5);
        seen[d as usize] = true;
    }
    assert_eq!(seen, [false, true, true, true, true]);
}

#[test]
fn verdict_follows_the_draw() {
    assert_eq!(verdict_of(true), Err(RustProcrastinationError));
    assert_eq!(verdict_of(false), Ok(()));
}

#[test]
fn error_message() {
    assert_eq!(
        RustProcrastinationError.message(),
        "You still haven't learned Rust. This is a grave error."
    );
}

#[test]
fn closing_after_failure_goes_to_the_error_stream() {
    let last = closing(verdict_of(true));
    assert_eq!(last.stream, Stream::Error);
    assert_eq!(last.text, "💥 Error: You still haven't learned Rust. This is a grave error.");
}

#[test]
fn closing_after_success_goes_to_the_output_stream() {
    let last = closing(verdict_of(false));
    assert_eq!(last.stream, Stream::Output);
    assert_eq!(last.text, "You're on your way to Rust mastery! 🦀");
}

#[test]
fn check_procrastination_gives_both_verdicts() {
    let mut failed = 0;
    let mut passed = 0;
    for _ in 0..400 {
        match check_procrastination() {
            Ok(()) => passed += 1,
            Err(RustProcrastinationError) => failed += 1,
        }
    }
    assert_eq!(failed + passed, 400);
    assert!(failed > 0);
    assert!(passed > 0);
}
