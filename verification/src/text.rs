//! Text: the few operations on strings that the rest of the library is written in.
//!
//! A text is modelled by the sequence of its characters.
use vstd::prelude::*;

verus! {

/// `String::push`: one character is appended to the end of the text.
pub assume_specification[ String::push ](text: &mut String, c: char)
    ensures
        final(text)@ == old(text)@.push(c),
;

/// The characters of each text of a list.
pub open spec fn texts(list: Seq<&str>) -> Seq<Seq<char>> {
    list.map_values(|t: &str| t@)
}

/// The characters of each owned text of a list.
pub open spec fn strings(list: Seq<String>) -> Seq<Seq<char>> {
    list.map_values(|t: String| t@)
}

/// A result whose error is a text, seen through the characters of that text.
pub open spec fn outcome<T>(result: Result<T, String>) -> Result<T, Seq<char>> {
    match result {
        Ok(value) => Ok(value),
        Err(error) => Err(error@),
    }
}

/// An optional text, seen through its characters.
pub open spec fn optional(text: Option<String>) -> Option<Seq<char>> {
    match text {
        Some(text) => Some(text@),
        None => None,
    }
}

/// Whether a text begins with a prefix.
pub open spec fn begins_with(s: Seq<char>, prefix: Seq<char>) -> bool {
    prefix.len() <= s.len() && s.take(prefix.len() as int) == prefix
}

/// What is left of a text once every leading copy of a prefix is gone.
pub open spec fn without_prefixes(s: Seq<char>, prefix: Seq<char>) -> Seq<char>
    decreases s.len(),
{
    if prefix.len() > 0 && begins_with(s, prefix) {
        without_prefixes(s.skip(prefix.len() as int), prefix)
    } else {
        s
    }
}

/// The position of the first `c`, or the length where there is none.
pub open spec fn first_index(s: Seq<char>, c: char) -> nat
    decreases s.len(),
{
    if s.len() == 0 || s[0] == c {
        0
    } else {
        1 + first_index(s.skip(1), c)
    }
}

/// The pieces between the separators; one piece more than there are separators.
pub open spec fn pieces(s: Seq<char>, separator: char) -> Seq<Seq<char>>
    decreases s.len(),
{
    let end = first_index(s, separator);
    if end < s.len() {
        seq![s.take(end as int)] + pieces(s.skip(end as int + 1), separator)
    } else {
        seq![s]
    }
}

/// A line without the carriage return that precedes its line feed.
pub open spec fn without_return(line: Seq<char>) -> Seq<char> {
    if line.len() > 0 && line.last() == '\r' {
        line.drop_last()
    } else {
        line
    }
}

/// The lines of a text: each ends at a line feed, or at a carriage return and a line feed. What
/// follows the last line feed is a line of its own unless it is empty.
pub open spec fn text_lines(s: Seq<char>) -> Seq<Seq<char>>
    decreases s.len(),
{
    let end = first_index(s, '\n');
    if end < s.len() {
        seq![without_return(s.take(end as int))] + text_lines(s.skip(end as int + 1))
    } else if s.len() > 0 {
        seq![s]
    } else {
        Seq::empty()
    }
}

/// The characters with the Unicode property `White_Space`.
pub open spec fn is_blank(c: char) -> bool {
    ||| '\u{9}' <= c <= '\u{d}'
    ||| c == ' '
    ||| c == '\u{85}'
    ||| c == '\u{a0}'
    ||| c == '\u{1680}'
    ||| '\u{2000}' <= c <= '\u{200a}'
    ||| c == '\u{2028}'
    ||| c == '\u{2029}'
    ||| c == '\u{202f}'
    ||| c == '\u{205f}'
    ||| c == '\u{3000}'
}

/// A text without its leading white space.
pub open spec fn trimmed_start(s: Seq<char>) -> Seq<char>
    decreases s.len(),
{
    if s.len() > 0 && is_blank(s[0]) {
        trimmed_start(s.skip(1))
    } else {
        s
    }
}

/// A text without its trailing white space.
pub open spec fn trimmed_end(s: Seq<char>) -> Seq<char>
    decreases s.len(),
{
    if s.len() > 0 && is_blank(s.last()) {
        trimmed_end(s.drop_last())
    } else {
        s
    }
}

/// A text without its leading and trailing white space.
pub open spec fn trimmed(s: Seq<char>) -> Seq<char> {
    trimmed_end(trimmed_start(s))
}

/// The items one after another with a separator between neighbours.
pub open spec fn joined(items: Seq<Seq<char>>, separator: Seq<char>) -> Seq<char>
    decreases items.len(),
{
    if items.len() == 0 {
        Seq::empty()
    } else if items.len() == 1 {
        items[0]
    } else {
        joined(items.drop_last(), separator) + separator + items.last()
    }
}

/// The characters of a text, one by one.
pub fn characters(text: &str) -> (chars: Vec<char>)
    ensures
        chars@ == text@,
{
    let mut chars: Vec<char> = Vec::new();
    for c in it: text.chars()
        invariant
            chars@ == text@.take(it.index() as int),
            it.seq() == text@,
    {
        chars.push(c);
    }
    chars
}

/// Whether the characters from a position on begin with a prefix.
fn prefix_at(chars: &Vec<char>, at: usize, prefix: &Vec<char>) -> (found: bool)
    requires
        at <= chars@.len(),
    ensures
        found == begins_with(chars@.skip(at as int), prefix@),
{
    let total: usize = chars.len();
    let length: usize = prefix.len();
    if total - at < length {
        return false;
    }
    let mut i: usize = 0;
    while i < length
        invariant
            i <= length,
            length == prefix@.len(),
            total == chars@.len(),
            at + length <= total,
            forall|k: int| 0 <= k < i ==> chars@[at + k] == prefix@[k],
        decreases length - i,
    {
        if chars[at + i] != prefix[i] {
            assert(chars@.skip(at as int).take(length as int)[i as int] != prefix@[i as int]);
            return false;
        }
        i = i + 1;
    }
    assert(chars@.skip(at as int).take(length as int) =~= prefix@);
    true
}

/// Whether a text begins with a prefix.
pub fn starts_with(text: &str, prefix: &str) -> (found: bool)
    ensures
        found == begins_with(text@, prefix@),
{
    let chars = characters(text);
    assert(chars@.skip(0) == text@);
    prefix_at(&chars, 0, &characters(prefix))
}

/// A text without the copies of a prefix that it begins with.
pub fn trim_start_matches<'a>(text: &'a str, prefix: &str) -> (rest: &'a str)
    ensures
        rest@ == without_prefixes(text@, prefix@),
{
    let chars = characters(text);
    let pattern = characters(prefix);
    let total: usize = chars.len();
    let length: usize = pattern.len();
    let mut start: usize = 0;
    assert(chars@.skip(0) == text@);
    while length > 0 && prefix_at(&chars, start, &pattern)
        invariant
            start <= total,
            total == chars@.len(),
            chars@ == text@,
            pattern@ == prefix@,
            length == pattern@.len(),
            without_prefixes(text@, prefix@) == without_prefixes(chars@.skip(start as int), prefix@),
        decreases chars@.len() - start,
    {
        assert(chars@.skip(start as int).skip(length as int) =~= chars@.skip(start + length));
        start = start + length;
    }
    text.substring_char(start, total)
}

/// The position of the first `c` at or after a position, or the length where there is none.
fn find_from(chars: &Vec<char>, from: usize, c: char) -> (at: usize)
    requires
        from <= chars@.len(),
    ensures
        at == from + first_index(chars@.skip(from as int), c),
        from <= at <= chars@.len(),
        at < chars@.len() ==> chars@[at as int] == c,
{
    let mut at: usize = from;
    while at < chars.len() && chars[at] != c
        invariant
            from <= at <= chars@.len(),
            from + first_index(chars@.skip(from as int), c) == at + first_index(
                chars@.skip(at as int),
                c,
            ),
        decreases chars@.len() - at,
    {
        assert(chars@.skip(at as int).skip(1) =~= chars@.skip(at + 1));
        at = at + 1;
    }
    at
}

/// The pieces of a text between the separators.
pub fn split<'a>(text: &'a str, separator: char) -> (parts: Vec<&'a str>)
    ensures
        texts(parts@) == pieces(text@, separator),
{
    let chars = characters(text);
    let mut parts: Vec<&'a str> = Vec::new();
    let mut start: usize = 0;
    let mut end: usize = find_from(&chars, 0, separator);
    assert(chars@.skip(0) == text@);
    assert(texts(parts@) + pieces(text@, separator) =~= pieces(text@, separator));
    while end < chars.len()
        invariant
            start <= end <= chars@.len(),
            chars@ == text@,
            end == start + first_index(chars@.skip(start as int), separator),
            texts(parts@) + pieces(chars@.skip(start as int), separator) == pieces(
                text@,
                separator,
            ),
        decreases chars@.len() - end,
    {
        let ghost rest = chars@.skip(start as int);
        let ghost earlier = parts@;
        let part = text.substring_char(start, end);
        parts.push(part);
        proof {
            assert(part@ =~= rest.take(end - start));
            assert(rest.skip(end - start + 1) =~= chars@.skip(end + 1));
            assert(texts(parts@) =~= texts(earlier).push(part@));
            assert(texts(parts@) + pieces(chars@.skip(end + 1), separator) =~= texts(earlier)
                + pieces(rest, separator));
        }
        start = end + 1;
        end = find_from(&chars, start, separator);
    }
    let ghost earlier = parts@;
    let part = text.substring_char(start, chars.len());
    parts.push(part);
    proof {
        assert(part@ =~= chars@.skip(start as int));
        assert(texts(parts@) =~= texts(earlier).push(part@));
        assert(texts(parts@) =~= texts(earlier) + pieces(chars@.skip(start as int), separator));
    }
    parts
}

/// The lines of a text.
pub fn lines<'a>(text: &'a str) -> (parts: Vec<&'a str>)
    ensures
        texts(parts@) == text_lines(text@),
{
    let chars = characters(text);
    let mut parts: Vec<&'a str> = Vec::new();
    let mut start: usize = 0;
    let mut end: usize = find_from(&chars, 0, '\n');
    assert(chars@.skip(0) == text@);
    assert(texts(parts@) + text_lines(text@) =~= text_lines(text@));
    while end < chars.len()
        invariant
            start <= end <= chars@.len(),
            chars@ == text@,
            end == start + first_index(chars@.skip(start as int), '\n'),
            texts(parts@) + text_lines(chars@.skip(start as int)) == text_lines(text@),
        decreases chars@.len() - end,
    {
        let ghost rest = chars@.skip(start as int);
        let ghost earlier = parts@;
        let mut stop: usize = end;
        if start < end && chars[end - 1] == '\r' {
            stop = end - 1;
        }
        let part = text.substring_char(start, stop);
        parts.push(part);
        proof {
            assert(part@ =~= without_return(rest.take(end - start)));
            assert(rest.skip(end - start + 1) =~= chars@.skip(end + 1));
            assert(texts(parts@) =~= texts(earlier).push(part@));
            assert(texts(parts@) + text_lines(chars@.skip(end + 1)) =~= texts(earlier)
                + text_lines(rest));
        }
        start = end + 1;
        end = find_from(&chars, start, '\n');
    }
    if start < chars.len() {
        let ghost earlier = parts@;
        let part = text.substring_char(start, chars.len());
        parts.push(part);
        proof {
            assert(part@ =~= chars@.skip(start as int));
            assert(texts(parts@) =~= texts(earlier).push(part@));
            assert(texts(parts@) =~= texts(earlier) + text_lines(chars@.skip(start as int)));
        }
    } else {
        assert(texts(parts@) =~= texts(parts@) + text_lines(chars@.skip(start as int)));
    }
    parts
}

/// Whether a character is white space.
pub fn is_whitespace(c: char) -> (blank: bool)
    ensures
        blank == is_blank(c),
{
    ('\u{9}' <= c && c <= '\u{d}') || c == ' ' || c == '\u{85}' || c == '\u{a0}' || c == '\u{1680}'
        || ('\u{2000}' <= c && c <= '\u{200a}') || c == '\u{2028}' || c == '\u{2029}' || c
        == '\u{202f}' || c == '\u{205f}' || c == '\u{3000}'
}

/// A text without its leading and trailing white space.
pub fn trim<'a>(text: &'a str) -> (rest: &'a str)
    ensures
        rest@ == trimmed(text@),
{
    let chars = characters(text);
    let mut start: usize = 0;
    assert(chars@.skip(0) == text@);
    while start < chars.len() && is_whitespace(chars[start])
        invariant
            start <= chars@.len(),
            trimmed_start(chars@.skip(start as int)) == trimmed_start(text@),
        decreases chars@.len() - start,
    {
        assert(chars@.skip(start as int).skip(1) =~= chars@.skip(start + 1));
        start = start + 1;
    }
    let mut end: usize = chars.len();
    assert(chars@.subrange(start as int, end as int) =~= chars@.skip(start as int));
    while start < end && is_whitespace(chars[end - 1])
        invariant
            start <= end <= chars@.len(),
            trimmed_end(chars@.subrange(start as int, end as int)) == trimmed(text@),
        decreases end,
    {
        assert(chars@.subrange(start as int, end as int).drop_last() =~= chars@.subrange(
            start as int,
            end - 1,
        ));
        end = end - 1;
    }
    text.substring_char(start, end)
}

/// The items one after another with a separator between neighbours.
pub fn join(items: &Vec<String>, separator: &str) -> (text: String)
    ensures
        text@ == joined(strings(items@), separator@),
{
    let mut text = String::new();
    let mut i: usize = 0;
    while i < items.len()
        invariant
            i <= items@.len(),
            text@ == joined(strings(items@).take(i as int), separator@),
        decreases items@.len() - i,
    {
        if i > 0 {
            text.append(separator);
        }
        text.append(items[i].as_str());
        proof {
            let shorter = strings(items@).take(i as int);
            assert(strings(items@).take(i + 1).drop_last() =~= shorter);
            assert(strings(items@).take(i + 1).last() == items@[i as int]@);
        }
        i = i + 1;
    }
    assert(strings(items@).take(items@.len() as int) =~= strings(items@));
    text
}

} // verus!
