use vstd::prelude::*;
use crate::attached::parse::str_equals;

verus! {

/// The most lines the error log keeps.
pub const MAX_LINES: usize = 500;

/// The text of each line.
pub open spec fn lines_view(lines: Seq<String>) -> Seq<Seq<char>> {
    lines.map_values(|l: String| l@)
}

/// The lines of the error log after logging `msg`: unchanged (`None`) when
/// the last line is already `msg`; otherwise `msg` is added at the end and
/// the oldest lines are dropped beyond `MAX_LINES`.
pub open spec fn log_update(lines: Seq<Seq<char>>, msg: Seq<char>) -> Option<Seq<Seq<char>>> {
    if lines.len() > 0 && lines.last() == msg {
        None
    } else {
        let all = lines.push(msg);
        if all.len() > MAX_LINES {
            Some(all.skip(all.len() - MAX_LINES))
        } else {
            Some(all)
        }
    }
}

/// The new contents of the error log, line by line, after logging `msg`;
/// `None` when the log is left as it is.
pub fn updated_log(lines: Vec<String>, msg: String) -> (r: Option<Vec<String>>)
    ensures
        match log_update(lines_view(lines@), msg@) {
            None => r is None,
            Some(new_lines) => r matches Some(v) && lines_view(v@) == new_lines,
        },
{
    let n = lines.len();
    if n > 0 && str_equals(lines[n - 1].as_str(), msg.as_str()) {
        proof {
            assert(lines_view(lines@).last() == lines@[n - 1]@);
        }
        return None;
    }
    let ghost all = lines_view(lines@).push(msg@);
    let mut all_lines = lines;
    all_lines.push(msg);
    assert(lines_view(all_lines@) =~= all);
    let total = all_lines.len();
    if total <= MAX_LINES {
        return Some(all_lines);
    }
    let excess = total - MAX_LINES;
    let mut kept: Vec<String> = Vec::new();
    let mut rest = all_lines;
    let mut reversed: Vec<String> = Vec::new();
    while rest.len() > excess
        invariant
            excess <= rest@.len() <= total,
            total == all.len(),
            lines_view(rest@) == all.take(rest@.len() as int),
            lines_view(reversed@) == all.subrange(rest@.len() as int, total as int).reverse(),
        decreases rest@.len(),
    {
        let ghost before = rest@;
        let line = rest.pop().unwrap();
        assert(lines_view(rest@) =~= all.take(rest@.len() as int)) by {
            assert(rest@ =~= before.drop_last());
        }
        let ghost rb = reversed@;
        assert(line@ == all[rest@.len() as int]) by {
            assert(line == before[before.len() - 1]);
            assert(lines_view(before)[before.len() - 1] == before[before.len() - 1]@);
            assert(all.take(before.len() as int)[rest@.len() as int] == all[rest@.len() as int]);
        }
        reversed.push(line);
        assert(lines_view(reversed@) =~= all.subrange(rest@.len() as int, total as int).reverse()) by {
            assert(lines_view(reversed@) =~= lines_view(rb).push(line@));
        }
    }
    while reversed.len() > 0
        invariant
            reversed@.len() + kept@.len() == total - excess,
            lines_view(reversed@) == all.subrange(excess + kept@.len(), total as int).reverse(),
            lines_view(kept@) == all.subrange(excess as int, excess + kept@.len()),
            total == all.len(),
            excess <= total,
        decreases reversed@.len(),
    {
        let ghost rb = reversed@;
        let ghost kb = kept@;
        let line = reversed.pop().unwrap();
        assert(lines_view(reversed@) =~= lines_view(rb).drop_last());
        assert(line@ == lines_view(rb).last());
        kept.push(line);
        assert(lines_view(kept@) =~= lines_view(kb).push(line@));
        assert(lines_view(kept@) =~= all.subrange(excess as int, excess + kept@.len()));
        assert(lines_view(reversed@) =~= all.subrange(excess + kept@.len(), total as int).reverse());
    }
    assert(all.skip(all.len() - MAX_LINES) =~= all.subrange(excess as int, total as int));
    Some(kept)
}

/// The log never holds more than `MAX_LINES` lines after an update, and its
/// last line is the message.
pub proof fn lemma_log_update_bounded(lines: Seq<Seq<char>>, msg: Seq<char>)
    ensures
        match log_update(lines, msg) {
            Some(new_lines) => new_lines.len() <= MAX_LINES && new_lines.len() > 0 && new_lines.last() == msg,
            None => lines.len() > 0 && lines.last() == msg,
        },
{
}

/// Logging the same message twice in a row adds it once.
pub proof fn lemma_log_repeat_is_kept_once(lines: Seq<Seq<char>>, msg: Seq<char>)
    requires
        log_update(lines, msg) is Some,
    ensures
        log_update(log_update(lines, msg)->Some_0, msg) is None,
{
}

} // verus!
