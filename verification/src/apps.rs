//! User applications: what the script that closes them reports.
use vstd::prelude::*;
use vstd::utf8::{decode_utf8, valid_utf8};
use crate::command::{from_utf8, from_utf8_lossy, lossy_utf8, utf8_error, CommandOutput};
use crate::number::{parse_u32, parsed_u32};
use crate::text::{
    begins_with, lines, outcome, pieces, split, starts_with, text_lines, texts, trim,
    trim_start_matches, trimmed, without_prefixes,
};

verus! {

/// What the line with the counts begins with.
pub open spec fn marker() -> Seq<char> {
    "RAMOPT_COUNTS:"@
}

/// The first line with the counts, if any.
pub open spec fn counts_line(list: Seq<Seq<char>>) -> Option<Seq<char>>
    decreases list.len(),
{
    if list.len() == 0 {
        None
    } else if begins_with(list[0], marker()) {
        Some(list[0])
    } else {
        counts_line(list.skip(1))
    }
}

/// A count, or what is wrong with it.
pub open spec fn count(name: Seq<char>, text: Seq<char>) -> Result<u32, Seq<char>> {
    match parsed_u32(text) {
        Ok(value) => Ok(value as u32),
        Err(error) => Err("invalid "@ + name + " count: "@ + error.message()),
    }
}

/// The two counts of a line: how many applications were closed, and how many orphan processes were
/// ended. What stands behind them does not matter.
pub open spec fn line_counts(line: Seq<char>) -> Result<(u32, u32), Seq<char>> {
    let values = pieces(without_prefixes(line, marker()), ':');
    match count("closed"@, values[0]) {
        Err(error) => Err(error),
        Ok(closed) => if values.len() < 2 {
            Err("background-app cleanup missing orphan count"@)
        } else {
            match count("orphan"@, values[1]) {
                Err(error) => Err(error),
                Ok(terminated) => Ok((closed, terminated)),
            }
        },
    }
}

/// The two counts that the script reports.
pub open spec fn reported_counts(text: Seq<char>) -> Result<(u32, u32), Seq<char>> {
    match counts_line(text_lines(text)) {
        Some(line) => line_counts(line),
        None => Err("background-app cleanup returned no result"@),
    }
}

/// What is said of a script that did not end well: how it ended and, where it wrote any errors, what
/// they are.
pub open spec fn exit_text(status: Seq<char>, errors: Seq<char>) -> Seq<char> {
    let detail = trimmed(errors);
    if detail.len() == 0 {
        "background-app cleanup exited with "@ + status
    } else {
        "background-app cleanup exited with "@ + status + ": "@ + detail
    }
}

/// What the script came to: its counts, or why there are none.
pub open spec fn apps_outcome(output: Result<CommandOutput, String>) -> Result<
    (u32, u32),
    Seq<char>,
> {
    match output {
        Err(error) => Err("background-app cleanup failed: "@ + error@),
        Ok(output) => if !output.success {
            Err(exit_text(output.status@, lossy_utf8(output.stderr@)))
        } else if valid_utf8(output.stdout@) {
            reported_counts(decode_utf8(output.stdout@))
        } else {
            Err("background-app cleanup output was not UTF-8: "@ + utf8_error(output.stdout@))
        },
    }
}

fn read_count(name: &str, text: &str) -> (result: Result<u32, String>)
    ensures
        outcome(result) == count(name@, text@),
{
    match parse_u32(text) {
        Ok(value) => Ok(value),
        Err(error) => {
            let mut message = "invalid ".to_owned();
            message.append(name);
            message.append(" count: ");
            message.append(error.text());
            Err(message)
        },
    }
}

fn read_line(line: &str) -> (counts: Result<(u32, u32), String>)
    ensures
        outcome(counts) == line_counts(line@),
{
    let rest = trim_start_matches(line, "RAMOPT_COUNTS:");
    let values = split(rest, ':');
    proof {
        assert(pieces(rest@, ':').len() > 0);
        assert(texts(values@).len() == values@.len());
        assert(texts(values@)[0] == values@[0]@);
    }
    let closed: u32 = match read_count("closed", values[0]) {
        Ok(value) => value,
        Err(error) => return Err(error),
    };
    if values.len() < 2 {
        return Err("background-app cleanup missing orphan count".to_owned());
    }
    assert(texts(values@)[1] == values@[1]@);
    match read_count("orphan", values[1]) {
        Ok(terminated) => Ok((closed, terminated)),
        Err(error) => Err(error),
    }
}

/// Reads the two counts that the script reports.
pub fn parse_counts(text: &str) -> (counts: Result<(u32, u32), String>)
    ensures
        outcome(counts) == reported_counts(text@),
{
    let list = lines(text);
    let ghost all = texts(list@);
    let mut i: usize = 0;
    assert(all.skip(0) =~= all);
    while i < list.len()
        invariant
            i <= list@.len(),
            all == texts(list@),
            all == text_lines(text@),
            counts_line(all.skip(i as int)) == counts_line(all),
        decreases list@.len() - i,
    {
        assert(all.skip(i as int)[0] == list@[i as int]@);
        if starts_with(list[i], "RAMOPT_COUNTS:") {
            return read_line(list[i]);
        }
        assert(all.skip(i as int).skip(1) =~= all.skip(i + 1));
        i = i + 1;
    }
    Err("background-app cleanup returned no result".to_owned())
}

/// What is said of a script that did not end well.
pub fn exit_failure(status: &str, errors: &str) -> (message: String)
    ensures
        message@ == exit_text(status@, errors@),
{
    let detail = trim(errors);
    let mut message = "background-app cleanup exited with ".to_owned();
    message.append(status);
    if !detail.is_empty() {
        message.append(": ");
        message.append(detail);
    }
    message
}

/// Decides what the script came to.
pub fn close_background_apps(output: Result<CommandOutput, String>) -> (counts: Result<
    (u32, u32),
    String,
>)
    ensures
        outcome(counts) == apps_outcome(output),
{
    match output {
        Err(error) => {
            let mut message = "background-app cleanup failed: ".to_owned();
            message.append(error.as_str());
            Err(message)
        },
        Ok(output) => {
            if !output.success {
                let errors = from_utf8_lossy(&output.stderr);
                return Err(exit_failure(output.status.as_str(), errors.as_str()));
            }
            match from_utf8(output.stdout) {
                Ok(text) => parse_counts(text.as_str()),
                Err(error) => {
                    let mut message = "background-app cleanup output was not UTF-8: ".to_owned();
                    message.append(error.as_str());
                    Err(message)
                },
            }
        },
    }
}

} // verus!
