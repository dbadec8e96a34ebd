//! Laws of the log.
use vstd::prelude::*;
use crate::logfile::{entries, latest, log, push_log, LogWrite};
use crate::number::decimal;
use crate::text::{joined, lines, texts, without_prefixes};

verus! {

/// The log is put away exactly when there is a file of two mebibytes or more, and the line of a message
/// is the time, the message and a line feed, whatever the message holds.
pub proof fn law_messages_are_logged_with_their_time(
    size: Option<u64>,
    timestamp: u64,
    message: &str,
    write: LogWrite,
)
    requires
        call_ensures(log, (size, timestamp, message), write),
    ensures
        write.rotate <==> size is Some && size->0 >= 2 * 1024 * 1024,
        write.line@ == (decimal(timestamp as nat) + " | "@ + message@).push('\n'),
{
    reveal_strlit("\n");
    assert(write.line@ =~= (decimal(timestamp as nat) + " | "@ + message@).push('\n'));
}

/// The lines that are not empty, each with one bullet in front.
pub open spec fn bulleted(list: Seq<Seq<char>>) -> Seq<Seq<char>> {
    list.filter(|line: Seq<char>| line.len() > 0).map_values(
        |line: Seq<char>| "• "@ + without_prefixes(line, "• "@),
    )
}

/// The last five of a list, or all where there are fewer.
pub open spec fn last_five(list: Seq<Seq<char>>) -> Seq<Seq<char>> {
    list.subrange(if list.len() > 5 { list.len() - 5 } else { 0 }, list.len() as int)
}

proof fn lemma_entries(list: Seq<Seq<char>>)
    ensures
        entries(list) == bulleted(list),
    decreases list.len(),
{
    reveal(Seq::filter);
    let full = |line: Seq<char>| line.len() > 0;
    let mark = |line: Seq<char>| "• "@ + without_prefixes(line, "• "@);
    if list.len() > 0 {
        let shorter = list.drop_last();
        lemma_entries(shorter);
        if list.last().len() > 0 {
            assert(list.filter(full) == shorter.filter(full).push(list.last()));
            assert(shorter.filter(full).push(list.last()).map_values(mark)
                =~= shorter.filter(full).map_values(mark).push(mark(list.last())));
        } else {
            assert(list.filter(full) == shorter.filter(full));
        }
        assert(entries(list) =~= bulleted(list));
    } else {
        assert(entries(list) =~= bulleted(list));
    }
}

/// The window shows the last five of its lines and the new message, empty ones left out, each with one
/// bullet, in lines of their own.
pub proof fn law_window_shows_the_last_five(
    logs: &str,
    message: &str,
    earlier: Vec<&str>,
    text: String,
)
    requires
        call_ensures(lines, (logs,), earlier),
        call_ensures(push_log, (logs, message), text),
    ensures
        text@ == joined(last_five(bulleted(texts(earlier@).push(message@))), "\n"@),
{
    let list = texts(earlier@).push(message@);
    lemma_entries(list);
    let all = bulleted(list);
    assert(latest(all) =~= last_five(all));
}

} // verus!
