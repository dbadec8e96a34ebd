//! The log: the lines of its file, when the file is put away, and the entries that the window shows.
use vstd::prelude::*;
use crate::number::{decimal, push_decimal};
use crate::text::{
    begins_with, first_index, join, joined, lines, strings, text_lines, texts, trim_start_matches,
    without_prefixes,
};

verus! {

/// The size, in bytes, at which the log is put away.
pub const LOG_ROTATE_BYTES: u64 = 2097152;

/// How many entries the window shows.
pub const SHOWN_ENTRIES: usize = 5;

/// What writing to the log takes.
#[derive(Debug)]
pub struct LogWrite {
    /// Whether the file is put away first.
    pub rotate: bool,
    /// What is added to the file.
    pub line: String,
}

/// The line of a message: the seconds since 1970, and the message.
pub open spec fn log_line(timestamp: u64, message: Seq<char>) -> Seq<char> {
    decimal(timestamp as nat) + " | "@ + message + "\n"@
}

/// Decides what writing a message to the log takes. The size of the file is known where there is
/// one.
pub fn log(size: Option<u64>, timestamp: u64, message: &str) -> (write: LogWrite)
    ensures
        write.rotate == (size is Some && size->0 >= LOG_ROTATE_BYTES),
        write.line@ == log_line(timestamp, message@),
{
    let rotate = match size {
        Some(bytes) => bytes >= LOG_ROTATE_BYTES,
        None => false,
    };
    let mut line = String::new();
    push_decimal(&mut line, timestamp as u128);
    line.append(" | ");
    line.append(message);
    line.append("\n");
    assert(line@ =~= log_line(timestamp, message@));
    LogWrite { rotate, line }
}

/// What every entry of the window begins with.
pub open spec fn bullet() -> Seq<char> {
    "• "@
}

/// A line as an entry: with one bullet, however many it had.
pub open spec fn entry(line: Seq<char>) -> Seq<char> {
    bullet() + without_prefixes(line, bullet())
}

/// The entries of a list of lines. An empty line makes none.
pub open spec fn entries(list: Seq<Seq<char>>) -> Seq<Seq<char>>
    decreases list.len(),
{
    if list.len() == 0 {
        Seq::empty()
    } else if list.last().len() == 0 {
        entries(list.drop_last())
    } else {
        entries(list.drop_last()).push(entry(list.last()))
    }
}

/// The last entries of a list, as many as the window shows.
pub open spec fn latest(list: Seq<Seq<char>>) -> Seq<Seq<char>> {
    if list.len() <= SHOWN_ENTRIES {
        list
    } else {
        list.skip(list.len() - SHOWN_ENTRIES)
    }
}

/// The entries that the window shows once a message has come to what it showed.
pub open spec fn shown_entries(logs: Seq<char>, message: Seq<char>) -> Seq<Seq<char>> {
    latest(entries(text_lines(logs).push(message)))
}

/// What the window shows once a message has come to what it showed.
pub open spec fn pushed(logs: Seq<char>, message: Seq<char>) -> Seq<char> {
    joined(shown_entries(logs, message), "\n"@)
}

fn push_entry(list: &mut Vec<String>, line: &str)
    ensures
        strings(final(list)@) == if line@.len() == 0 {
            strings(old(list)@)
        } else {
            strings(old(list)@).push(entry(line@))
        },
{
    if !line.is_empty() {
        let mut text = "• ".to_owned();
        text.append(trim_start_matches(line, "• "));
        list.push(text);
        assert(strings(list@) =~= strings(old(list)@).push(text@));
    }
}

/// Adds a message to what the window shows.
pub fn push_log(logs: &str, message: &str) -> (text: String)
    ensures
        text@ == pushed(logs@, message@),
{
    let earlier = lines(logs);
    let ghost all = text_lines(logs@);
    let mut list: Vec<String> = Vec::new();
    let mut i: usize = 0;
    assert(strings(list@) =~= Seq::empty());
    while i < earlier.len()
        invariant
            i <= earlier@.len(),
            all == texts(earlier@),
            strings(list@) == entries(all.take(i as int)),
        decreases earlier@.len() - i,
    {
        assert(all.take(i + 1).drop_last() =~= all.take(i as int));
        push_entry(&mut list, earlier[i]);
        i = i + 1;
    }
    assert(all.take(i as int) =~= all);
    assert(all.push(message@).drop_last() =~= all);
    push_entry(&mut list, message);
    let total: usize = list.len();
    let mut from: usize = 0;
    if total > SHOWN_ENTRIES {
        from = total - SHOWN_ENTRIES;
    }
    let mut kept: Vec<String> = Vec::new();
    assert(strings(kept@) =~= strings(list@).subrange(from as int, from as int));
    let mut k: usize = from;
    while k < total
        invariant
            from <= k <= total,
            total == list@.len(),
            strings(kept@) == strings(list@).subrange(from as int, k as int),
        decreases total - k,
    {
        let ghost before = kept@;
        kept.push(list[k].clone());
        assert(strings(kept@) =~= strings(before).push(list@[k as int]@));
        assert(strings(kept@) =~= strings(list@).subrange(from as int, k + 1));
        k = k + 1;
    }
    assert(strings(kept@) =~= latest(strings(list@)));
    join(&kept, "\n")
}

/// The window shows at most five entries, and a message that is not empty is the last of them.
pub proof fn law_at_most_five_entries_are_shown(logs: Seq<char>, message: Seq<char>)
    ensures
        shown_entries(logs, message).len() <= SHOWN_ENTRIES,
        message.len() > 0 ==> shown_entries(logs, message).len() > 0 && shown_entries(
            logs,
            message,
        ).last() == entry(message),
{
    let list = text_lines(logs).push(message);
    assert(list.drop_last() =~= text_lines(logs));
    assert(list.last() == message);
}

/// Whether a text is one line: without line feeds and carriage returns, and not empty.
pub open spec fn is_one_line(s: Seq<char>) -> bool {
    s.len() > 0 && !s.contains('\n') && !s.contains('\r')
}

/// The entries of messages, one for each.
pub open spec fn message_entries(messages: Seq<Seq<char>>) -> Seq<Seq<char>> {
    messages.map_values(|message: Seq<char>| entry(message))
}

/// What the window shows after messages that came one after another to nothing.
pub open spec fn shown_after(messages: Seq<Seq<char>>) -> Seq<char>
    decreases messages.len(),
{
    if messages.len() == 0 {
        Seq::empty()
    } else {
        pushed(shown_after(messages.drop_last()), messages.last())
    }
}

proof fn lemma_first_index(s: Seq<char>, c: char, n: nat)
    requires
        n <= s.len(),
        forall|i: int| 0 <= i < n ==> s[i] != c,
        n < s.len() ==> s[n as int] == c,
    ensures
        first_index(s, c) == n,
    decreases n,
{
    if n > 0 {
        assert(s.skip(1).len() == s.len() - 1);
        assert forall|i: int| 0 <= i < n - 1 implies s.skip(1)[i] != c by {
            assert(s.skip(1)[i] == s[i + 1]);
        }
        lemma_first_index(s.skip(1), c, (n - 1) as nat);
    }
}

/// A line in front of others comes first among the lines.
proof fn lemma_lines_of_first(line: Seq<char>, rest: Seq<char>)
    requires
        is_one_line(line),
    ensures
        text_lines(line + "\n"@ + rest) == seq![line] + text_lines(rest),
        text_lines(line) == seq![line],
{
    reveal_strlit("\n");
    let s = line + "\n"@ + rest;
    assert forall|i: int| 0 <= i < line.len() implies s[i] != '\n' by {
        assert(s[i] == line[i]);
        assert(line.contains(line[i]));
    }
    assert(s[line.len() as int] == '\n');
    lemma_first_index(s, '\n', line.len());
    assert(s.take(line.len() as int) =~= line);
    assert(s.skip(line.len() as int + 1) =~= rest);
    assert(line.contains(line.last()));
    assert forall|i: int| 0 <= i < line.len() implies line[i] != '\n' by {
        assert(line.contains(line[i]));
    }
    lemma_first_index(line, '\n', line.len());
}

proof fn lemma_joined_first(items: Seq<Seq<char>>, separator: Seq<char>)
    requires
        items.len() > 1,
    ensures
        joined(items, separator) == items[0] + separator + joined(items.skip(1), separator),
    decreases items.len(),
{
    if items.len() > 2 {
        let shorter = items.drop_last();
        lemma_joined_first(shorter, separator);
        assert(shorter.skip(1) =~= items.skip(1).drop_last());
        assert(joined(items, separator) =~= items[0] + separator + joined(
            items.skip(1),
            separator,
        ));
    } else {
        reveal_with_fuel(joined, 2);
        assert(items.drop_last() =~= seq![items[0]]);
        assert(items.skip(1) =~= seq![items[1]]);
    }
}

proof fn lemma_joined_lines(items: Seq<Seq<char>>)
    requires
        forall|i: int| 0 <= i < items.len() ==> is_one_line(#[trigger] items[i]),
    ensures
        text_lines(joined(items, "\n"@)) == items,
    decreases items.len(),
{
    if items.len() == 0 {
        assert(text_lines(Seq::empty()) =~= items);
    } else if items.len() == 1 {
        lemma_lines_of_first(items[0], Seq::empty());
        assert(seq![items[0]] =~= items);
    } else {
        let rest = items.skip(1);
        assert forall|i: int| 0 <= i < rest.len() implies is_one_line(#[trigger] rest[i]) by {
            assert(rest[i] == items[i + 1]);
        }
        lemma_joined_first(items, "\n"@);
        lemma_joined_lines(rest);
        lemma_lines_of_first(items[0], joined(rest, "\n"@));
        assert(seq![items[0]] + rest =~= items);
    }
}

proof fn lemma_without_prefixes(s: Seq<char>, prefix: Seq<char>)
    ensures
        without_prefixes(s, prefix).len() <= s.len(),
        prefix.len() > 0 ==> !begins_with(without_prefixes(s, prefix), prefix),
        forall|c: char| #[trigger] without_prefixes(s, prefix).contains(c) ==> s.contains(c),
    decreases s.len(),
{
    if prefix.len() > 0 && begins_with(s, prefix) {
        let rest = s.skip(prefix.len() as int);
        lemma_without_prefixes(rest, prefix);
        assert forall|c: char| #[trigger] without_prefixes(s, prefix).contains(c) implies s.contains(
            c,
        ) by {
            let i = choose|i: int| 0 <= i < rest.len() && rest[i] == c;
            assert(s[i + prefix.len()] == c);
        }
    }
}

/// An entry is an entry already: taken as a line it makes itself.
proof fn lemma_entry_of_entry(line: Seq<char>)
    ensures
        entry(entry(line)) == entry(line),
        is_one_line(line) ==> is_one_line(entry(line)),
{
    reveal_strlit("• ");
    let rest = without_prefixes(line, bullet());
    lemma_without_prefixes(line, bullet());
    let text = bullet() + rest;
    assert(text.take(2) =~= bullet());
    assert(text.skip(2) =~= rest);
    assert(without_prefixes(text, bullet()) == without_prefixes(rest, bullet()));
    if is_one_line(line) {
        assert forall|i: int| 0 <= i < text.len() implies text[i] != '\n' && text[i] != '\r' by {
            if i >= 2 {
                assert(text[i] == rest[i - 2]);
                assert(rest.contains(rest[i - 2]));
            }
        }
    }
}

proof fn lemma_entries_of_entries(list: Seq<Seq<char>>)
    requires
        forall|i: int|
            0 <= i < list.len() ==> (#[trigger] list[i]).len() > 0 && entry(list[i]) == list[i],
    ensures
        entries(list) == list,
    decreases list.len(),
{
    if list.len() > 0 {
        let shorter = list.drop_last();
        assert forall|i: int| 0 <= i < shorter.len() implies (#[trigger] shorter[i]).len() > 0
            && entry(shorter[i]) == shorter[i] by {
            assert(shorter[i] == list[i]);
        }
        lemma_entries_of_entries(shorter);
        assert(list[list.len() - 1] == list.last());
        assert(shorter.push(list.last()) =~= list);
    }
}

/// However many messages of one line have come, the window shows the last five of them, the newest
/// at the bottom, each with a bullet.
pub proof fn law_window_shows_the_last_messages(messages: Seq<Seq<char>>)
    requires
        forall|i: int| 0 <= i < messages.len() ==> is_one_line(#[trigger] messages[i]),
    ensures
        shown_after(messages) == joined(latest(message_entries(messages)), "\n"@),
    decreases messages.len(),
{
    if messages.len() == 0 {
        assert(latest(message_entries(messages)) =~= Seq::empty());
    } else {
        let earlier = messages.drop_last();
        let message = messages.last();
        assert(is_one_line(messages[messages.len() - 1]));
        assert forall|i: int| 0 <= i < earlier.len() implies is_one_line(#[trigger] earlier[i]) by {
            assert(earlier[i] == messages[i]);
        }
        law_window_shows_the_last_messages(earlier);
        let old_entries = message_entries(earlier);
        let shown = latest(old_entries);
        assert forall|i: int| 0 <= i < shown.len() implies is_one_line(#[trigger] shown[i])
            && entry(shown[i]) == shown[i] by {
            let k = if old_entries.len() <= SHOWN_ENTRIES {
                i
            } else {
                i + old_entries.len() - SHOWN_ENTRIES
            };
            assert(shown[i] == entry(earlier[k]));
            lemma_entry_of_entry(earlier[k]);
        }
        lemma_joined_lines(shown);
        let list = shown.push(message);
        assert(list.drop_last() =~= shown);
        lemma_entries_of_entries(shown);
        assert(entries(list) == shown.push(entry(message)));
        assert(message_entries(messages) =~= old_entries.push(entry(message)));
        assert(latest(shown.push(entry(message))) =~= latest(old_entries.push(entry(message))));
    }
}

} // verus!
