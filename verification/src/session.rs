//! One tick of the reminding, the rule that ends it, and what follows from
//! the two for a whole run.

use std::collections::HashMap;
use vstd::prelude::*;
use crate::chance::{closing_text, get_random_delay};
use crate::history::{
    full_report_text, lemma_report_ends_with_the_log, log_reminders, log_text, report_line_text,
    report_text, COUNTS,
};
use crate::level::{level_for, level_text};
use crate::reminder::{reminder_text, RustReminder};

verus! {

/// The reminding goes on while the counter has not passed this.
pub const MAX_WARNINGS: u32 = 10;

/// What the driver does after a tick.
#[derive(Debug, Clone, Copy, PartialEq, Eq, Structural)]
pub enum Step {
    /// Wait this many seconds, then tick again.
    Sleep { seconds: u64 },
    /// Say the warning and tick no more.
    Stop,
}

/// What one tick hands to the driver: the line to show, and what to do next.
#[derive(Debug)]
pub struct Tick {
    pub line: String,
    pub step: Step,
}

/// The reminding ends with the tick that takes the counter past the
/// threshold.
pub open spec fn stops_at(count: nat) -> bool {
    count > MAX_WARNINGS
}

/// The line said by the tick that starts at `count`.
pub open spec fn line_at(name: Seq<char>, count: nat) -> Seq<char> {
    reminder_text(name, level_for(count))
}

/// Whether the reminding ends once the counter stands at `count`.
pub fn should_stop(count: u32) -> (stop: bool)
    ensures
        stop == stops_at(count as nat),
{
    count > MAX_WARNINGS
}

/// One tick: says the reminder as it stands, logs its message under the
/// count as it stands, then escalates. The step is `Stop` exactly when the
/// new count has passed the threshold; otherwise it is a wait of one to four
/// seconds.
pub fn tick<'a>(bot: &mut RustReminder<'a>, history: &mut HashMap<u32, String>) -> (done: Tick)
    requires
        old(bot).reminder_count < u32::MAX,
    ensures
        done.line@ == reminder_text(old(bot).name@, old(bot).level),
        log_text(final(history)@) == log_text(old(history)@).insert(
            old(bot).reminder_count,
            level_text(old(bot).level),
        ),
        final(bot).reminder_count == old(bot).reminder_count + 1,
        final(bot).level == level_for(final(bot).reminder_count as nat),
        final(bot).name == old(bot).name,
        final(bot).wf(),
        old(bot).wf() ==> done.line@ == line_at(old(bot).name@, old(bot).reminder_count as nat),
        old(bot).wf() ==> run_state(final(bot).reminder_count, final(history)@) == after_tick(
            run_state(old(bot).reminder_count, old(history)@),
        ),
        match done.step {
            Step::Stop => stops_at(final(bot).reminder_count as nat),
            Step::Sleep { seconds } => !stops_at(final(bot).reminder_count as nat) && 1 <= seconds
                < 5,
        },
{
    let line = bot.remind();
    log_reminders(history, bot.reminder_count, bot.level.message());
    bot.escalate();
    let step = if should_stop(bot.reminder_count) {
        Step::Stop
    } else {
        Step::Sleep { seconds: get_random_delay() }
    };
    Tick { line, step }
}

/// The first line of a run.
pub open spec fn banner_text() -> Seq<char> {
    "🦀 Welcome to the RUST LEARNING REMINDER 9000 🦀"@
}

/// The line said when the reminding stops.
pub open spec fn warning_text() -> Seq<char> {
    "⚠️ WARNING: You've reached peak procrastination."@
}

/// The line above the report.
pub open spec fn log_header_text() -> Seq<char> {
    "📜 Reminder Log:"@
}

/// The line below the report.
pub open spec fn motto_text() -> Seq<char> {
    "✨ Remember: Learning Rust is not a sprint, it's a systems-programming joyride. ✨"@
}

/// The first line of a run.
pub fn banner() -> (text: &'static str)
    ensures
        text@ == banner_text(),
{
    "🦀 Welcome to the RUST LEARNING REMINDER 9000 🦀"
}

/// The line said when the reminding stops.
pub fn warning() -> (text: &'static str)
    ensures
        text@ == warning_text(),
{
    "⚠️ WARNING: You've reached peak procrastination."
}

/// The line above the report.
pub fn log_header() -> (text: &'static str)
    ensures
        text@ == log_header_text(),
{
    "📜 Reminder Log:"
}

/// The line below the report.
pub fn motto() -> (text: &'static str)
    ensures
        text@ == motto_text(),
{
    "✨ Remember: Learning Rust is not a sprint, it's a systems-programming joyride. ✨"
}

/// A run as far as it has come: the counter and the log.
pub struct RunState {
    pub count: nat,
    pub log: Map<u32, Seq<char>>,
}

/// The state of a run whose counter and log stand as given.
pub open spec fn run_state(count: u32, history: Map<u32, String>) -> RunState {
    RunState { count: count as nat, log: log_text(history) }
}

/// A run before its first tick.
pub open spec fn fresh_run() -> RunState {
    RunState { count: 0, log: Map::empty() }
}

/// A run one tick later: the message of the count's level is logged under
/// the count, and the counter has moved on by one.
pub open spec fn after_tick(run: RunState) -> RunState {
    RunState {
        count: run.count + 1,
        log: run.log.insert(run.count as u32, level_text(level_for(run.count))),
    }
}

/// A run after `ticks` ticks from the start.
pub open spec fn after_ticks(ticks: nat) -> RunState
    decreases ticks,
{
    if ticks == 0 {
        fresh_run()
    } else {
        after_tick(after_ticks((ticks - 1) as nat))
    }
}

/// The states that a run goes through and the lines it says are a run under
/// `name`: it starts fresh, each tick says the line of the count it starts
/// at, and each state follows from the one before by one tick.
pub open spec fn is_run(name: Seq<char>, states: Seq<RunState>, said: Seq<Seq<char>>) -> bool {
    &&& states.len() == said.len() + 1
    &&& states[0] == fresh_run()
    &&& forall|i: int|
        0 <= i < said.len() ==> #[trigger] states[i + 1] == after_tick(states[i])
    &&& forall|i: int| 0 <= i < said.len() ==> #[trigger] said[i] == line_at(name, states[i].count)
}

/// A run that went on until it stopped: it made at least one tick, went on
/// after every tick but the last, and stopped after the last.
pub open spec fn is_complete_run(
    name: Seq<char>,
    states: Seq<RunState>,
    said: Seq<Seq<char>>,
) -> bool {
    &&& is_run(name, states, said)
    &&& said.len() >= 1
    &&& forall|i: int| 1 <= i < said.len() ==> !stops_at((#[trigger] states[i]).count)
    &&& stops_at(states[said.len() as int].count)
}

/// Everything that a complete run writes to its output stream, line by line:
/// the banner, the lines said, the warning, the report under its header, the
/// motto, and, unless the draw at the end failed, the praise.
pub open spec fn output_text(said: Seq<Seq<char>>, last: RunState, failed: bool) -> Seq<Seq<char>> {
    let lines = seq![banner_text()] + said + seq![warning_text(), Seq::empty(), log_header_text()]
        + full_report_text(last.log) + seq![Seq::empty(), motto_text()];
    if failed {
        lines
    } else {
        lines.push(closing_text(false))
    }
}

/// Everything that a complete run writes to its error stream: the error
/// line if the draw at the end failed, and nothing otherwise.
pub open spec fn error_output_text(failed: bool) -> Seq<Seq<char>> {
    if failed {
        seq![closing_text(true)]
    } else {
        Seq::empty()
    }
}

/// After any number of ticks the counter stands at that number.
pub proof fn lemma_count_after_ticks(ticks: nat)
    ensures
        after_ticks(ticks).count == ticks,
    decreases ticks,
{
    if ticks > 0 {
        lemma_count_after_ticks((ticks - 1) as nat);
    }
}

/// A run from the start stops with its eleventh tick: the first ten ticks
/// leave the counter at or below the threshold, the eleventh takes it past.
pub proof fn lemma_stops_with_eleventh_tick(ticks: nat)
    ensures
        stops_at(after_ticks(ticks).count) <==> ticks >= 11,
{
    lemma_count_after_ticks(ticks);
}

/// After `ticks` ticks the log holds exactly the counts below `ticks`, one
/// entry for each, and under each count the message of that count's level.
pub proof fn lemma_log_after_ticks(ticks: nat)
    requires
        ticks <= u32::MAX,
    ensures
        forall|k: u32| after_ticks(ticks).log.contains_key(k) <==> k < ticks,
        forall|k: u32|
            k < ticks ==> #[trigger] after_ticks(ticks).log[k] == level_text(level_for(k as nat)),
        after_ticks(ticks).log.dom().finite(),
        after_ticks(ticks).log.dom().len() == ticks,
    decreases ticks,
{
    lemma_count_after_ticks(ticks);
    if ticks > 0 {
        let before = after_ticks((ticks - 1) as nat);
        lemma_log_after_ticks((ticks - 1) as nat);
        lemma_count_after_ticks((ticks - 1) as nat);
        assert(!before.log.dom().contains((ticks - 1) as u32));
        assert(after_ticks(ticks).log.dom() =~= before.log.dom().insert((ticks - 1) as u32));
    }
}

/// The log of a run that has stopped: eleven entries, under the counts zero
/// to ten, so that the counts the ticks ended on, one to eleven, are each the
/// stored count plus one; and under each stored count the message of its
/// level.
pub proof fn lemma_log_of_full_run()
    ensures
        after_ticks(11).log.dom().len() == 11,
        forall|k: u32| after_ticks(11).log.contains_key(k) <==> k <= MAX_WARNINGS,
        forall|ended_on: u32|
            1 <= ended_on <= 11 ==> #[trigger] after_ticks(11).log.contains_key(
                (ended_on - 1) as u32,
            ),
        forall|k: u32|
            k <= MAX_WARNINGS ==> #[trigger] after_ticks(11).log[k] == level_text(
                level_for(k as nat),
            ),
{
    lemma_log_after_ticks(11);
}

/// The first `upto` lines of the report made after `ticks` ticks.
proof fn lemma_report_start_after_ticks(ticks: nat, upto: nat)
    requires
        upto <= ticks <= u32::MAX,
    ensures
        report_text(after_ticks(ticks).log, upto).len() == upto,
        forall|i: int|
            0 <= i < upto ==> #[trigger] report_text(after_ticks(ticks).log, upto)[i]
                == report_line_text(i as u32, level_text(level_for(i as nat))),
    decreases upto,
{
    lemma_log_after_ticks(ticks);
    if upto > 0 {
        lemma_report_start_after_ticks(ticks, (upto - 1) as nat);
        assert(after_ticks(ticks).log.contains_key((upto - 1) as u32));
    }
}

/// The report made after `ticks` ticks has one line for each tick, in the
/// order of the ticks, and each line shows the count that the tick started
/// at, plus one, before the message of that count's level.
pub proof fn lemma_report_after_ticks(ticks: nat)
    requires
        ticks <= u32::MAX,
    ensures
        full_report_text(after_ticks(ticks).log).len() == ticks,
        forall|i: int|
            0 <= i < ticks ==> #[trigger] full_report_text(after_ticks(ticks).log)[i]
                == report_line_text(i as u32, level_text(level_for(i as nat))),
{
    lemma_log_after_ticks(ticks);
    lemma_report_start_after_ticks(ticks, ticks);
    lemma_report_ends_with_the_log(after_ticks(ticks).log, ticks, COUNTS as nat);
}

/// The state of a run after its first `i` ticks is the one that `i` ticks
/// from the start give.
pub proof fn lemma_run_follows_ticks(
    name: Seq<char>,
    states: Seq<RunState>,
    said: Seq<Seq<char>>,
    i: int,
)
    requires
        is_run(name, states, said),
        0 <= i < states.len(),
    ensures
        states[i] == after_ticks(i as nat),
    decreases i,
{
    if i > 0 {
        lemma_run_follows_ticks(name, states, said, i - 1);
        assert(states[(i - 1) + 1] == after_tick(states[i - 1]));
    }
}

/// Two runs under one name that have made the same number of ticks went
/// through the same states and said the same lines. Neither the waits
/// between the ticks nor the draw at the end has any part in them.
pub proof fn lemma_runs_agree(
    name: Seq<char>,
    states: Seq<RunState>,
    said: Seq<Seq<char>>,
    other_states: Seq<RunState>,
    other_said: Seq<Seq<char>>,
)
    requires
        is_run(name, states, said),
        is_run(name, other_states, other_said),
        said.len() == other_said.len(),
    ensures
        states == other_states,
        said == other_said,
{
    assert forall|i: int| 0 <= i < states.len() implies states[i] == other_states[i] by {
        lemma_run_follows_ticks(name, states, said, i);
        lemma_run_follows_ticks(name, other_states, other_said, i);
    }
    assert(states =~= other_states);
    assert(said =~= other_said);
}

/// A complete run makes exactly eleven ticks, and ends in the state that
/// eleven ticks from the start give.
pub proof fn lemma_complete_run_has_eleven_ticks(
    name: Seq<char>,
    states: Seq<RunState>,
    said: Seq<Seq<char>>,
)
    requires
        is_complete_run(name, states, said),
    ensures
        said.len() == 11,
        states.len() == 12,
        states.last() == after_ticks(11),
        forall|i: int| 0 <= i < 11 ==> #[trigger] said[i] == line_at(name, i as nat),
{
    let n = said.len() as int;
    lemma_run_follows_ticks(name, states, said, n);
    lemma_count_after_ticks(n as nat);
    if n > 11 {
        lemma_run_follows_ticks(name, states, said, 11);
        lemma_count_after_ticks(11);
        assert(!stops_at(states[11].count));
    }
    assert forall|i: int| 0 <= i < 11 implies #[trigger] said[i] == line_at(name, i as nat) by {
        lemma_run_follows_ticks(name, states, said, i);
        lemma_count_after_ticks(i as nat);
    }
}

/// Two complete runs under one name write the same lines to the output
/// stream if the draw at the end came out the same; and whatever the draw,
/// the two outputs differ in nothing but the praise at the end, which is
/// there exactly when the draw did not fail.
pub proof fn lemma_output_determined(
    name: Seq<char>,
    states: Seq<RunState>,
    said: Seq<Seq<char>>,
    other_states: Seq<RunState>,
    other_said: Seq<Seq<char>>,
    failed: bool,
)
    requires
        is_complete_run(name, states, said),
        is_complete_run(name, other_states, other_said),
    ensures
        output_text(said, states.last(), failed) == output_text(
            other_said,
            other_states.last(),
            failed,
        ),
        output_text(said, states.last(), false) == output_text(
            other_said,
            other_states.last(),
            true,
        ).push(closing_text(false)),
{
    lemma_complete_run_has_eleven_ticks(name, states, said);
    lemma_complete_run_has_eleven_ticks(name, other_states, other_said);
    lemma_runs_agree(name, states, said, other_states, other_said);
}

} // verus!
