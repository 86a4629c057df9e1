//! The log of what was said at which count, and the report made from it.

use std::collections::HashMap;
use vstd::prelude::*;
use vstd::string::StringExecFns;

verus! {

/// How many different counts there are: a log is keyed by `u32`.
pub const COUNTS: u64 = 0x1_0000_0000;

/// What a log holds, as text: each count with the characters stored for it.
pub open spec fn log_text(log: Map<u32, String>) -> Map<u32, Seq<char>> {
    Map::new(|k: u32| log.contains_key(k), |k: u32| log[k]@)
}

/// The text of each line of a list of lines.
pub open spec fn lines_text(lines: Seq<String>) -> Seq<Seq<char>> {
    Seq::new(lines.len(), |i: int| lines[i]@)
}

/// The character of a decimal digit.
pub open spec fn digit_char(d: nat) -> char {
    if d == 0 {
        '0'
    } else if d == 1 {
        '1'
    } else if d == 2 {
        '2'
    } else if d == 3 {
        '3'
    } else if d == 4 {
        '4'
    } else if d == 5 {
        '5'
    } else if d == 6 {
        '6'
    } else if d == 7 {
        '7'
    } else if d == 8 {
        '8'
    } else {
        '9'
    }
}

/// A number written in decimal, most significant digit first, without
/// leading zeros.
pub open spec fn decimal_text(n: nat) -> Seq<char>
    decreases n,
{
    if n < 10 {
        seq![digit_char(n)]
    } else {
        decimal_text(n / 10).push(digit_char(n % 10))
    }
}

/// The report line for one entry: the entry is shown under its count plus
/// one.
pub open spec fn report_line_text(key: u32, message: Seq<char>) -> Seq<char> {
    "Reminder "@ + decimal_text((key + 1) as nat) + ": "@ + message
}

/// The report over the counts below `upto`: one line for each count that the
/// log holds, in rising order of the counts.
pub open spec fn report_text(log: Map<u32, Seq<char>>, upto: nat) -> Seq<Seq<char>>
    decreases upto,
{
    if upto == 0 {
        Seq::empty()
    } else {
        let key = (upto - 1) as u32;
        let earlier = report_text(log, (upto - 1) as nat);
        if log.contains_key(key) {
            earlier.push(report_line_text(key, log[key]))
        } else {
            earlier
        }
    }
}

/// The report over every count that a log can hold.
pub open spec fn full_report_text(log: Map<u32, Seq<char>>) -> Seq<Seq<char>> {
    report_text(log, COUNTS as nat)
}

/// One decimal digit as a string.
fn digit_str(d: u64) -> (s: &'static str)
    requires
        d < 10,
    ensures
        s@ == seq![digit_char(d as nat)],
{
    proof {
        reveal_strlit("0");
        reveal_strlit("1");
        reveal_strlit("2");
        reveal_strlit("3");
        reveal_strlit("4");
        reveal_strlit("5");
        reveal_strlit("6");
        reveal_strlit("7");
        reveal_strlit("8");
        reveal_strlit("9");
    }
    let s = if d == 0 {
        "0"
    } else if d == 1 {
        "1"
    } else if d == 2 {
        "2"
    } else if d == 3 {
        "3"
    } else if d == 4 {
        "4"
    } else if d == 5 {
        "5"
    } else if d == 6 {
        "6"
    } else if d == 7 {
        "7"
    } else if d == 8 {
        "8"
    } else {
        "9"
    };
    assert(s@ =~= seq![digit_char(d as nat)]);
    s
}

/// Writes a number in decimal.
pub fn decimal(n: u64) -> (s: String)
    ensures
        s@ == decimal_text(n as nat),
    decreases n,
{
    if n < 10 {
        String::from_str(digit_str(n))
    } else {
        let mut s = decimal(n / 10);
        s.append(digit_str(n % 10));
        assert(s@ =~= decimal_text((n / 10) as nat).push(digit_char((n % 10) as nat)));
        s
    }
}

/// Records what was said at `count`. An earlier entry for the same count is
/// replaced; every other entry stays as it was.
pub fn log_reminders(history: &mut HashMap<u32, String>, count: u32, msg: &str)
    ensures
        log_text(final(history)@) == log_text(old(history)@).insert(count, msg@),
        forall|k: u32| k != count && old(history)@.contains_key(k) ==> final(history)@[k] == old(
            history,
        )@[k],
{
    broadcast use vstd::std_specs::hash::group_hash_axioms;

    history.insert(count, String::from_str(msg));
    assert(log_text(history@) =~= log_text(old(history)@).insert(count, msg@));
}

/// The report line for the entry stored under `key`.
pub fn report_line(key: u32, message: &str) -> (line: String)
    ensures
        line@ == report_line_text(key, message@),
{
    let shown: u64 = key as u64 + 1;
    let number = decimal(shown);
    let mut line = String::from_str("Reminder ");
    line.append(number.as_str());
    line.append(": ");
    line.append(message);
    line
}

/// Above the largest count that a log holds, the report gains no line.
pub proof fn lemma_report_ends_with_the_log(log: Map<u32, Seq<char>>, from: nat, upto: nat)
    requires
        from <= upto <= COUNTS,
        forall|k: u32| log.contains_key(k) ==> k < from,
    ensures
        report_text(log, upto) == report_text(log, from),
    decreases upto,
{
    if upto > from {
        lemma_report_ends_with_the_log(log, from, (upto - 1) as nat);
        assert(!log.contains_key((upto - 1) as u32));
    }
}

/// The report of a log: one line for each entry, in rising order of the
/// counts.
///
/// The counts are walked upwards from zero until every entry has been met,
/// so the work grows with the largest count in the log.
pub fn report_lines(history: &HashMap<u32, String>) -> (lines: Vec<String>)
    ensures
        lines_text(lines@) == full_report_text(log_text(history@)),
{
    broadcast use vstd::std_specs::hash::group_hash_axioms;

    let total = history.len();
    let mut lines: Vec<String> = Vec::new();
    let mut next: u64 = 0;
    let mut found: usize = 0;
    let ghost mut met: Set<u32> = Set::empty();
    assert(lines_text(lines@) =~= report_text(log_text(history@), 0));
    while found < total
        invariant
            total == history@.dom().len(),
            history@.dom().finite(),
            next <= COUNTS,
            met.finite(),
            met.len() == found,
            forall|k: u32| met.contains(k) <==> history@.contains_key(k) && k < next,
            lines_text(lines@) == report_text(log_text(history@), next as nat),
        decreases COUNTS - next,
    {
        proof {
            if next == COUNTS {
                assert(met =~= history@.dom());
            }
        }
        let key: u32 = next as u32;
        let ghost before = lines@;
        match history.get(&key) {
            Some(message) => {
                let line = report_line(key, message.as_str());
                lines.push(line);
                proof {
                    met = met.insert(key);
                    assert(lines_text(lines@) =~= lines_text(before).push(
                        report_line_text(key, history@[key]@),
                    ));
                }
                found += 1;
            },
            None => {},
        }
        next += 1;
    }
    proof {
        assert(met.subset_of(history@.dom()));
        vstd::set_lib::lemma_len_subset(met, history@.dom());
        vstd::set_lib::lemma_subset_equality(met, history@.dom());
        lemma_report_ends_with_the_log(log_text(history@), next as nat, COUNTS as nat);
    }
    lines
}

} // verus!
