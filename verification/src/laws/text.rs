//! Laws of texts that are searched, taken apart and put together.
use vstd::prelude::*;
use crate::text::{
    begins_with, first_index, is_blank, is_whitespace, join, joined, lines, pieces, split,
    starts_with, strings, text_lines, texts, trim, trim_start_matches, trimmed, trimmed_end,
    trimmed_start, without_prefixes, without_return,
};

verus! {

/// Whether the characters of a prefix stand at the beginning of a text, one by one.
pub open spec fn leads(prefix: Seq<char>, s: Seq<char>) -> bool {
    prefix.len() <= s.len() && forall|i: int| 0 <= i < prefix.len() ==> s[i] == prefix[i]
}

/// Whether a character is white space, by its number.
pub open spec fn is_white(c: char) -> bool {
    seq![
        9int,
        10,
        11,
        12,
        13,
        32,
        133,
        160,
        5760,
        8192,
        8193,
        8194,
        8195,
        8196,
        8197,
        8198,
        8199,
        8200,
        8201,
        8202,
        8232,
        8233,
        8239,
        8287,
        12288,
    ].contains(c as int)
}

/// A text begins with a prefix exactly when every character of the prefix stands in its place.
pub proof fn law_beginnings(text: &str, prefix: &str, found: bool)
    requires
        call_ensures(starts_with, (text, prefix), found),
    ensures
        found <==> leads(prefix@, text@),
{
    lemma_leads(prefix@, text@);
}

pub proof fn lemma_leads(prefix: Seq<char>, s: Seq<char>)
    ensures
        begins_with(s, prefix) <==> leads(prefix, s),
{
    if begins_with(s, prefix) {
        assert forall|i: int| 0 <= i < prefix.len() implies s[i] == prefix[i] by {
            assert(s.take(prefix.len() as int)[i] == prefix[i]);
        }
    }
    if leads(prefix, s) {
        assert(s.take(prefix.len() as int) =~= prefix);
    }
}

/// Whether a text is so many copies of a prefix, one after another, and a rest.
pub open spec fn is_copies_and_rest(
    s: Seq<char>,
    prefix: Seq<char>,
    copies: nat,
    rest: Seq<char>,
) -> bool
    decreases copies,
{
    if copies == 0 {
        s == rest
    } else {
        leads(prefix, s) && is_copies_and_rest(
            s.skip(prefix.len() as int),
            prefix,
            (copies - 1) as nat,
            rest,
        )
    }
}

/// All the copies of a prefix in front of a text are taken off, and nothing else is.
pub proof fn law_leading_copies_are_taken_off(text: &str, prefix: &str, rest: &str)
    requires
        prefix@.len() > 0,
        call_ensures(trim_start_matches, (text, prefix), rest),
    ensures
        !leads(prefix@, rest@),
        exists|copies: nat| is_copies_and_rest(text@, prefix@, copies, rest@),
{
    lemma_copies(text@, prefix@);
}

pub proof fn lemma_copies(s: Seq<char>, prefix: Seq<char>)
    requires
        prefix.len() > 0,
    ensures
        !leads(prefix, without_prefixes(s, prefix)),
        exists|copies: nat| is_copies_and_rest(s, prefix, copies, without_prefixes(s, prefix)),
    decreases s.len(),
{
    lemma_leads(prefix, s);
    let rest = without_prefixes(s, prefix);
    if begins_with(s, prefix) {
        let shorter = s.skip(prefix.len() as int);
        lemma_copies(shorter, prefix);
        let copies = choose|copies: nat| is_copies_and_rest(shorter, prefix, copies, rest);
        assert(is_copies_and_rest(s, prefix, copies + 1, rest));
    } else {
        assert(is_copies_and_rest(s, prefix, 0, rest));
    }
}

/// The pieces of a text, with the separator between neighbours, are the text again, and none of them
/// holds the separator.
pub proof fn law_pieces_make_up_the_text(text: &str, separator: char, parts: Vec<&str>)
    requires
        call_ensures(split, (text, separator), parts),
    ensures
        parts@.len() > 0,
        forall|i: int| 0 <= i < parts@.len() ==> !(#[trigger] parts@[i])@.contains(separator),
        joined(texts(parts@), seq![separator]) == text@,
{
    lemma_pieces(text@, separator);
    let all = texts(parts@);
    assert(all == pieces(text@, separator));
    assert forall|i: int| 0 <= i < parts@.len() implies !(#[trigger] parts@[i])@.contains(
        separator,
    ) by {
        assert(all[i] == parts@[i]@);
    }
}

proof fn lemma_first_index(s: Seq<char>, c: char)
    ensures
        first_index(s, c) <= s.len(),
        !s.take(first_index(s, c) as int).contains(c),
        first_index(s, c) < s.len() ==> s[first_index(s, c) as int] == c,
    decreases s.len(),
{
    if s.len() > 0 && s[0] != c {
        lemma_first_index(s.skip(1), c);
        let end = first_index(s, c) as int;
        let shorter = s.skip(1).take(end - 1);
        assert forall|i: int| 0 <= i < end implies s.take(end)[i] != c by {
            if i > 0 {
                assert(shorter.contains(shorter[i - 1]));
            }
        }
    }
}

pub proof fn lemma_pieces(s: Seq<char>, c: char)
    ensures
        pieces(s, c).len() > 0,
        forall|i: int| 0 <= i < pieces(s, c).len() ==> !(#[trigger] pieces(s, c)[i]).contains(c),
        joined(pieces(s, c), seq![c]) == s,
    decreases s.len(),
{
    let end = first_index(s, c) as int;
    lemma_first_index(s, c);
    let list = pieces(s, c);
    if end < s.len() {
        let rest = s.skip(end + 1);
        lemma_pieces(rest, c);
        lemma_joined_first(list, seq![c]);
        assert(list.skip(1) =~= pieces(rest, c));
        assert(s =~= s.take(end) + seq![c] + rest);
        assert forall|i: int| 0 <= i < list.len() implies !(#[trigger] list[i]).contains(c) by {
            if i > 0 {
                assert(list[i] == pieces(rest, c)[i - 1]);
            }
        }
    } else {
        assert(s.take(end) =~= s);
    }
}

proof fn lemma_joined_first(items: Seq<Seq<char>>, separator: Seq<char>)
    requires
        items.len() > 1,
    ensures
        joined(items, separator) == items[0] + separator + joined(items.skip(1), separator),
    decreases items.len(),
{
    if items.len() > 2 {
        let shorter = items.drop_last();
        lemma_joined_first(shorter, separator);
        assert(shorter.skip(1) =~= items.skip(1).drop_last());
        assert(joined(items, separator) =~= items[0] + separator + joined(
            items.skip(1),
            separator,
        ));
    } else {
        reveal_with_fuel(joined, 2);
        assert(items.drop_last() =~= seq![items[0]]);
        assert(items.skip(1) =~= seq![items[1]]);
    }
}

/// The first line of a text ends at its first line feed, without a carriage return in front of that,
/// and the other lines are those of what stands behind it.
pub proof fn law_lines_end_at_line_feeds(
    line: Seq<char>,
    rest: &str,
    text: &str,
    rest_lines: Vec<&str>,
    text_lines: Vec<&str>,
)
    requires
        !line.contains('\n'),
        text@ == line.push('\n') + rest@,
        call_ensures(lines, (rest,), rest_lines),
        call_ensures(lines, (text,), text_lines),
    ensures
        text_lines@.len() == rest_lines@.len() + 1,
        line.len() > 0 && line.last() == '\r' ==> text_lines@[0]@ == line.drop_last(),
        line.len() == 0 || line.last() != '\r' ==> text_lines@[0]@ == line,
        forall|i: int|
            0 < i < text_lines@.len() ==> (#[trigger] text_lines@[i])@ == rest_lines@[i - 1]@,
{
    let s = text@;
    lemma_index_of_first(s, '\n', line.len());
    assert(s.take(line.len() as int) =~= line);
    assert(s.skip(line.len() as int + 1) =~= rest@);
    let all = texts(text_lines@);
    let later = texts(rest_lines@);
    assert(all == seq![without_return(line)] + later);
    assert(all.len() == text_lines@.len() && later.len() == rest_lines@.len());
    assert(all[0] == text_lines@[0]@);
    assert forall|i: int| 0 < i < text_lines@.len() implies (#[trigger] text_lines@[i])@
        == rest_lines@[i - 1]@ by {
        assert(all[i] == later[i - 1]);
    }
}

pub proof fn lemma_index_of_first(s: Seq<char>, c: char, n: nat)
    requires
        n <= s.len(),
        !s.take(n as int).contains(c),
        n < s.len() ==> s[n as int] == c,
    ensures
        first_index(s, c) == n,
    decreases n,
{
    if n > 0 {
        assert(s.take(n as int)[0] == s[0]);
        assert(s.take(n as int).contains(s[0]));
        let shorter = s.skip(1).take(n - 1);
        assert forall|i: int| 0 <= i < n - 1 implies shorter[i] != c by {
            assert(s.take(n as int)[i + 1] == shorter[i]);
            assert(s.take(n as int).contains(shorter[i]));
        }
        lemma_index_of_first(s.skip(1), c, (n - 1) as nat);
    }
}

/// A text without a line feed is one line, as it stands, unless it is empty: then it has none.
pub proof fn law_last_line_needs_no_line_feed(text: &str, list: Vec<&str>)
    requires
        !text@.contains('\n'),
        call_ensures(lines, (text,), list),
    ensures
        text@.len() == 0 ==> list@.len() == 0,
        text@.len() > 0 ==> list@.len() == 1 && list@[0]@ == text@,
{
    let s = text@;
    assert(s.take(s.len() as int) =~= s);
    lemma_index_of_first(s, '\n', s.len());
    assert(texts(list@).len() == list@.len());
    if s.len() > 0 {
        assert(texts(list@)[0] == list@[0]@);
    }
}

/// The white space is that of Unicode, character by character.
pub proof fn law_white_space(c: char, blank: bool)
    requires
        call_ensures(is_whitespace, (c,), blank),
    ensures
        blank <==> is_white(c),
{
    lemma_white(c);
}

proof fn lemma_white(c: char)
    ensures
        is_blank(c) <==> is_white(c),
{
    let list = seq![
        9int,
        10,
        11,
        12,
        13,
        32,
        133,
        160,
        5760,
        8192,
        8193,
        8194,
        8195,
        8196,
        8197,
        8198,
        8199,
        8200,
        8201,
        8202,
        8232,
        8233,
        8239,
        8287,
        12288,
    ];
    let n = c as int;
    if is_blank(c) {
        let k: int = if n <= 13 {
            n - 9
        } else if n == 32 {
            5
        } else if n == 133 {
            6
        } else if n == 160 {
            7
        } else if n == 5760 {
            8
        } else if n <= 8202 {
            n - 8192 + 9
        } else if n == 8232 {
            20
        } else if n == 8233 {
            21
        } else if n == 8239 {
            22
        } else if n == 8287 {
            23
        } else {
            24
        };
        assert(list[k] == n);
        assert(list.contains(n));
    }
}

/// Trimming takes off white space at both ends and nothing else, and leaves none at either end.
pub proof fn law_trimming_takes_off_white_space(text: &str, rest: &str)
    requires
        call_ensures(trim, (text,), rest),
    ensures
        exists|front: Seq<char>, back: Seq<char>|
            {
                &&& text@ == #[trigger] (front + rest@ + back)
                &&& forall|i: int| 0 <= i < front.len() ==> is_white(#[trigger] front[i])
                &&& forall|i: int| 0 <= i < back.len() ==> is_white(#[trigger] back[i])
            },
        rest@.len() > 0 ==> !is_white(rest@[0]) && !is_white(rest@.last()),
{
    lemma_trimmed(text@);
}

pub proof fn lemma_trimmed(s: Seq<char>)
    ensures
        exists|front: Seq<char>, back: Seq<char>|
            {
                &&& s == #[trigger] (front + trimmed(s) + back)
                &&& forall|i: int| 0 <= i < front.len() ==> is_white(#[trigger] front[i])
                &&& forall|i: int| 0 <= i < back.len() ==> is_white(#[trigger] back[i])
            },
        trimmed(s).len() > 0 ==> !is_white(trimmed(s)[0]) && !is_white(trimmed(s).last()),
{
    lemma_trimmed_start(s);
    let begun = trimmed_start(s);
    lemma_trimmed_end(begun);
    let front = choose|front: Seq<char>|
        s == #[trigger] (front + begun) && forall|i: int|
            0 <= i < front.len() ==> is_white(#[trigger] front[i]);
    let back = choose|back: Seq<char>|
        begun == #[trigger] (trimmed_end(begun) + back) && forall|i: int|
            0 <= i < back.len() ==> is_white(#[trigger] back[i]);
    assert(s =~= front + trimmed(s) + back);
    if trimmed(s).len() > 0 {
        assert(begun[0] == trimmed(s)[0]);
    }
}

proof fn lemma_trimmed_start(s: Seq<char>)
    ensures
        exists|front: Seq<char>|
            s == #[trigger] (front + trimmed_start(s)) && forall|i: int|
                0 <= i < front.len() ==> is_white(#[trigger] front[i]),
        trimmed_start(s).len() > 0 ==> !is_white(trimmed_start(s)[0]),
    decreases s.len(),
{
    let rest = trimmed_start(s);
    if s.len() > 0 {
        lemma_white(s[0]);
    }
    if s.len() > 0 && is_blank(s[0]) {
        lemma_trimmed_start(s.skip(1));
        let front = choose|front: Seq<char>|
            s.skip(1) == #[trigger] (front + rest) && forall|i: int|
                0 <= i < front.len() ==> is_white(#[trigger] front[i]);
        let longer = seq![s[0]] + front;
        assert(s =~= seq![s[0]] + s.skip(1));
        assert(s =~= longer + rest);
    } else {
        assert(s =~= Seq::<char>::empty() + rest);
    }
}

proof fn lemma_trimmed_end(s: Seq<char>)
    ensures
        exists|back: Seq<char>|
            s == #[trigger] (trimmed_end(s) + back) && forall|i: int|
                0 <= i < back.len() ==> is_white(#[trigger] back[i]),
        trimmed_end(s).len() > 0 ==> !is_white(trimmed_end(s).last()),
    decreases s.len(),
{
    let rest = trimmed_end(s);
    if s.len() > 0 {
        lemma_white(s.last());
    }
    if s.len() > 0 && is_blank(s.last()) {
        lemma_trimmed_end(s.drop_last());
        let back = choose|back: Seq<char>|
            s.drop_last() == #[trigger] (rest + back) && forall|i: int|
                0 <= i < back.len() ==> is_white(#[trigger] back[i]);
        let longer = back.push(s.last());
        assert(s =~= s.drop_last().push(s.last()));
        assert(s =~= rest + longer);
    } else {
        assert(s =~= rest + Seq::<char>::empty());
    }
}

/// No text joined is no text, one is itself, and of two lists joined one after the other the texts
/// stand with the separator between them.
pub proof fn law_joined_lists(
    front: Vec<String>,
    back: Vec<String>,
    all: Vec<String>,
    separator: &str,
    front_text: String,
    back_text: String,
    all_text: String,
)
    requires
        strings(all@) == strings(front@) + strings(back@),
        call_ensures(join, (&front, separator), front_text),
        call_ensures(join, (&back, separator), back_text),
        call_ensures(join, (&all, separator), all_text),
    ensures
        front@.len() == 0 ==> front_text@.len() == 0,
        front@.len() == 1 ==> front_text@ == front@[0]@,
        front@.len() == 0 ==> all_text@ == back_text@,
        back@.len() == 0 ==> all_text@ == front_text@,
        front@.len() > 0 && back@.len() > 0 ==> all_text@ == front_text@ + separator@ + back_text@,
{
    let a = strings(front@);
    let b = strings(back@);
    if front@.len() == 1 {
        assert(a[0] == front@[0]@);
    }
    lemma_joined(a, b, separator@);
    if front@.len() == 0 {
        assert(a + b =~= b);
    }
    if back@.len() == 0 {
        assert(a + b =~= a);
    }
}

pub proof fn lemma_joined(a: Seq<Seq<char>>, b: Seq<Seq<char>>, separator: Seq<char>)
    ensures
        a.len() > 0 && b.len() > 0 ==> joined(a + b, separator) == joined(a, separator) + separator
            + joined(b, separator),
    decreases b.len(),
{
    if a.len() > 0 && b.len() > 0 {
        assert((a + b).drop_last() =~= a + b.drop_last());
        assert((a + b).last() == b.last());
        if b.len() > 1 {
            lemma_joined(a, b.drop_last(), separator);
            assert(joined(a + b, separator) =~= joined(a, separator) + separator + joined(
                b,
                separator,
            ));
        } else {
            assert(a + b.drop_last() =~= a);
        }
    }
}

} // verus!
