//! Severity levels and the text that belongs to each.

use vstd::prelude::*;

verus! {

/// How insistent a reminder is.
#[derive(Debug, Clone, Copy, PartialEq, Eq, Structural)]
pub enum ReminderLevel {
    Gentle,
    PassiveAggressive,
    AggressivelyMotivational,
    ExistentialCrisis,
}

/// The level that belongs to a counter value: three counts per level, and
/// the last level for everything from nine on.
pub open spec fn level_for(count: nat) -> ReminderLevel {
    if count <= 2 {
        ReminderLevel::Gentle
    } else if count <= 5 {
        ReminderLevel::PassiveAggressive
    } else if count <= 8 {
        ReminderLevel::AggressivelyMotivational
    } else {
        ReminderLevel::ExistentialCrisis
    }
}

/// The fixed text of a level.
pub open spec fn level_text(level: ReminderLevel) -> Seq<char> {
    match level {
        ReminderLevel::Gentle => "Hey buddy, maybe check out Rust today?"@,
        ReminderLevel::PassiveAggressive => "Oh, still not learning Rust? Interesting."@,
        ReminderLevel::AggressivelyMotivational => "DO IT. LEARN RUST. NOW."@,
        ReminderLevel::ExistentialCrisis => "What even *is* a life without Rust?"@,
    }
}

impl ReminderLevel {
    /// Selects the level for a counter value.
    pub fn for_count(count: u32) -> (level: ReminderLevel)
        ensures
            level == level_for(count as nat),
    {
        if count <= 2 {
            ReminderLevel::Gentle
        } else if count <= 5 {
            ReminderLevel::PassiveAggressive
        } else if count <= 8 {
            ReminderLevel::AggressivelyMotivational
        } else {
            ReminderLevel::ExistentialCrisis
        }
    }

    /// The text shown for this level.
    pub fn message(&self) -> (text: &'static str)
        ensures
            text@ == level_text(*self),
    {
        match self {
            ReminderLevel::Gentle => "Hey buddy, maybe check out Rust today?",
            ReminderLevel::PassiveAggressive => "Oh, still not learning Rust? Interesting.",
            ReminderLevel::AggressivelyMotivational => "DO IT. LEARN RUST. NOW.",
            ReminderLevel::ExistentialCrisis => "What even *is* a life without Rust?",
        }
    }
}

} // verus!
