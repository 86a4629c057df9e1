//! The reminder itself: a name, a counter, and the level the counter implies.

use vstd::prelude::*;
use vstd::string::StringExecFns;
use crate::level::{level_for, level_text, ReminderLevel};

verus! {

/// A named reminder with its tick counter and current level.
#[derive(Debug)]
pub struct RustReminder<'a> {
    pub name: &'a str,
    pub level: ReminderLevel,
    pub reminder_count: u32,
}

/// What a reminder with the given name says at the given level.
pub open spec fn reminder_text(name: Seq<char>, level: ReminderLevel) -> Seq<char> {
    "["@ + name + " REMINDER]: "@ + level_text(level)
}

impl<'a> RustReminder<'a> {
    /// The level is the one that the counter dictates.
    pub open spec fn wf(&self) -> bool {
        self.level == level_for(self.reminder_count as nat)
    }

    /// A fresh reminder: nothing counted yet, and gentle.
    pub fn new(name: &'a str) -> (bot: RustReminder<'a>)
        ensures
            bot.name == name,
            bot.reminder_count == 0,
            bot.level == ReminderLevel::Gentle,
            bot.wf(),
    {
        RustReminder { name, level: ReminderLevel::Gentle, reminder_count: 0 }
    }

    /// Counts one more tick and moves the level to what the new count
    /// dictates.
    pub fn escalate(&mut self)
        requires
            old(self).reminder_count < u32::MAX,
        ensures
            final(self).reminder_count == old(self).reminder_count + 1,
            final(self).level == level_for(final(self).reminder_count as nat),
            final(self).name == old(self).name,
            final(self).wf(),
    {
        self.reminder_count += 1;
        self.level = ReminderLevel::for_count(self.reminder_count);
    }

    /// The line to show for this reminder as it stands.
    pub fn remind(&self) -> (line: String)
        ensures
            line@ == reminder_text(self.name@, self.level),
    {
        let mut line = String::from_str("[");
        line.append(self.name);
        line.append(" REMINDER]: ");
        line.append(self.level.message());
        line
    }
}

} // verus!
