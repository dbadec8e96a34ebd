//! Laws of what the script that closes applications reports.
use vstd::prelude::*;
use vstd::arithmetic::power::pow;
use vstd::utf8::{decode_utf8, valid_utf8};
use crate::apps::{close_background_apps, counts_line, exit_failure, parse_counts};
use crate::command::{lossy_utf8, utf8_error, CommandOutput};
use crate::laws::native::is_error;
use crate::laws::number::{digit, lemma_decimal};
use crate::laws::text::{leads, lemma_leads};
use crate::number::{
    decimal, digit_value, is_digit, law_decimal_is_read_back, parsed_u32, read_digits, ParseIntError,
};
use crate::text::{begins_with, first_index, lines, pieces, text_lines, texts, trim, without_prefixes};

verus! {

/// What an error of reading a number says.
pub open spec fn said_of(error: ParseIntError) -> Seq<char> {
    if error == ParseIntError::Empty {
        "cannot parse integer from empty string"@
    } else if error == ParseIntError::InvalidDigit {
        "invalid digit found in string"@
    } else {
        "number too large to fit in target type"@
    }
}

/// The pieces between the colons of a line, behind the marker.
pub open spec fn values(line: Seq<char>) -> Seq<Seq<char>> {
    pieces(without_prefixes(line, "RAMOPT_COUNTS:"@), ':')
}

/// Whether counts are those of a line: the first two values, where both are numbers; what stands behind
/// them does not matter.
pub open spec fn are_counts_of(line: Seq<char>, counts: Result<(u32, u32), String>) -> bool {
    let list = values(line);
    match parsed_u32(list[0]) {
        Err(error) => is_error(counts, "invalid "@ + "closed"@ + " count: "@ + said_of(error)),
        Ok(closed) => if list.len() == 1 {
            is_error(counts, "background-app cleanup missing orphan count"@)
        } else {
            match parsed_u32(list[1]) {
                Err(error) => is_error(
                    counts,
                    "invalid "@ + "orphan"@ + " count: "@ + said_of(error),
                ),
                Ok(terminated) => counts is Ok && (counts->Ok_0).0 == closed && (counts->Ok_0).1
                    == terminated,
            }
        },
    }
}

proof fn lemma_counts_line(list: Seq<Seq<char>>, k: int)
    requires
        0 <= k <= list.len(),
        forall|i: int| 0 <= i < k ==> !leads("RAMOPT_COUNTS:"@, #[trigger] list[i]),
        k < list.len() ==> leads("RAMOPT_COUNTS:"@, list[k]),
    ensures
        k < list.len() ==> counts_line(list) == Some(list[k]),
        k == list.len() ==> counts_line(list) is None,
    decreases k,
{
    if list.len() > 0 {
        lemma_leads("RAMOPT_COUNTS:"@, list[0]);
        if k > 0 {
            let rest = list.skip(1);
            assert forall|i: int| 0 <= i < k - 1 implies !leads(
                "RAMOPT_COUNTS:"@,
                #[trigger] rest[i],
            ) by {
                assert(rest[i] == list[i + 1]);
            }
            lemma_counts_line(rest, k - 1);
        }
    }
}

proof fn lemma_read_range(s: Seq<char>, value: nat)
    requires
        value <= u32::MAX,
    ensures
        read_digits(value, s) matches Ok(v) ==> v <= u32::MAX,
    decreases s.len(),
{
    if s.len() > 0 && is_digit(s[0]) && value * 10 + digit_value(s[0])
        <= u32::MAX {
        lemma_read_range(s.skip(1), value * 10 + digit_value(s[0]));
    }
}

proof fn lemma_parsed_range(s: Seq<char>)
    ensures
        parsed_u32(s) matches Ok(v) ==> v <= u32::MAX,
{
    lemma_read_range(s, 0);
    if s.len() > 0 {
        lemma_read_range(s.skip(1), 0);
    }
}

/// The first line that begins with the marker tells the counts, whatever stands before and behind it.
pub proof fn law_first_marked_line_tells_the_counts(
    text: &str,
    list: Vec<&str>,
    k: int,
    counts: Result<(u32, u32), String>,
)
    requires
        call_ensures(lines, (text,), list),
        0 <= k < list@.len(),
        leads("RAMOPT_COUNTS:"@, list@[k]@),
        forall|i: int| 0 <= i < k ==> !leads("RAMOPT_COUNTS:"@, (#[trigger] list@[i])@),
        call_ensures(parse_counts, (text,), counts),
    ensures
        are_counts_of(list@[k]@, counts),
{
    let all = texts(list@);
    assert forall|i: int| 0 <= i < k implies !leads("RAMOPT_COUNTS:"@, #[trigger] all[i]) by {
        assert(all[i] == list@[i]@);
    }
    assert(all[k] == list@[k]@);
    lemma_counts_line(all, k);
    let found = values(list@[k]@);
    lemma_parsed_range(found[0]);
    if found.len() > 1 {
        lemma_parsed_range(found[1]);
    }
}

/// Without a line that begins with the marker there are no counts.
pub proof fn law_no_marked_line_no_counts(
    text: &str,
    list: Vec<&str>,
    counts: Result<(u32, u32), String>,
)
    requires
        call_ensures(lines, (text,), list),
        forall|i: int|
            0 <= i < list@.len() ==> !leads("RAMOPT_COUNTS:"@, (#[trigger] list@[i])@),
        call_ensures(parse_counts, (text,), counts),
    ensures
        is_error(counts, "background-app cleanup returned no result"@),
{
    let all = texts(list@);
    assert forall|i: int| 0 <= i < all.len() implies !leads("RAMOPT_COUNTS:"@, #[trigger] all[i]) by {
        assert(all[i] == list@[i]@);
    }
    lemma_counts_line(all, all.len() as int);
}

proof fn lemma_plain_digits(n: nat, i: int)
    requires
        0 <= i < decimal(n).len(),
    ensures
        '0' <= decimal(n)[i] <= '9',
{
    lemma_decimal(n);
    let text = decimal(n);
    let k = text.len() - 1 - i;
    assert(text[text.len() - 1 - k] == digit(
        (n as int / pow(10, k as nat)) % 10,
    ));
}

proof fn lemma_first_colon(s: Seq<char>, n: nat)
    requires
        n < s.len(),
        forall|i: int| 0 <= i < n ==> s[i] != ':',
        s[n as int] == ':',
    ensures
        first_index(s, ':') == n,
    decreases n,
{
    if n > 0 {
        assert forall|i: int| 0 <= i < n - 1 implies s.skip(1)[i] != ':' by {
            assert(s.skip(1)[i] == s[i + 1]);
        }
        lemma_first_colon(s.skip(1), (n - 1) as nat);
    }
}

/// A script that reports two numbers, in decimal digits behind the marker and with a colon behind each,
/// is understood to have closed and ended just as many.
pub proof fn law_reported_counts_are_read_back(
    text: &str,
    closed: u32,
    terminated: u32,
    more: Seq<char>,
    counts: Result<(u32, u32), String>,
)
    requires
        !more.contains('\n'),
        text@ == "RAMOPT_COUNTS:"@ + decimal(closed as nat) + ":"@ + decimal(terminated as nat)
            + ":"@ + more,
        call_ensures(parse_counts, (text,), counts),
    ensures
        counts is Ok,
        counts->Ok_0 == (closed, terminated),
{
    let mark = "RAMOPT_COUNTS:"@;
    let a = decimal(closed as nat);
    let b = decimal(terminated as nat);
    reveal_strlit("RAMOPT_COUNTS:");
    reveal_strlit(":");
    lemma_decimal(closed as nat);
    lemma_decimal(terminated as nat);
    assert forall|i: int| 0 <= i < a.len() implies '0' <= #[trigger] a[i] <= '9' by {
        lemma_plain_digits(closed as nat, i);
    }
    assert forall|i: int| 0 <= i < b.len() implies '0' <= #[trigger] b[i] <= '9' by {
        lemma_plain_digits(terminated as nat, i);
    }
    let s = text@;
    let rest = a + ":"@ + b + ":"@ + more;
    assert(s =~= mark + rest);
    assert forall|i: int| 0 <= i < s.len() implies s[i] != '\n' by {
        let from = mark.len() + a.len() + 1 + b.len() + 1;
        if i >= from {
            assert(s[i] == more[i - from]);
            assert(more.contains(more[i - from]));
        } else if mark.len() <= i < mark.len() + a.len() {
            assert(s[i] == a[i - mark.len()]);
        } else if mark.len() + a.len() < i < from - 1 {
            assert(s[i] == b[i - mark.len() - a.len() - 1]);
        }
    }
    lemma_no_index(s, '\n');
    assert(text_lines(s) == seq![s]);
    assert(leads(mark, s));
    lemma_leads(mark, s);
    assert(counts_line(seq![s]) == Some(s)) by {
        assert(seq![s][0] == s);
    }
    assert(s.skip(mark.len() as int) =~= rest);
    assert(!begins_with(rest, mark)) by {
        lemma_leads(mark, rest);
        assert(rest[0] == a[0]);
        assert(mark[0] == 'R');
    }
    assert(without_prefixes(rest, mark) == rest);
    assert(without_prefixes(s, mark) == rest);
    lemma_first_colon(rest, a.len());
    assert(rest.take(a.len() as int) =~= a);
    let second = b + ":"@ + more;
    assert(rest.skip(a.len() as int + 1) =~= second);
    lemma_first_colon(second, b.len());
    assert(second.take(b.len() as int) =~= b);
    let list = pieces(rest, ':');
    assert(list[0] == a);
    assert(list == seq![a] + pieces(second, ':'));
    assert(list[1] == b);
    law_decimal_is_read_back(closed as nat);
    law_decimal_is_read_back(terminated as nat);
}

proof fn lemma_no_index(s: Seq<char>, c: char)
    requires
        forall|i: int| 0 <= i < s.len() ==> s[i] != c,
    ensures
        first_index(s, c) == s.len(),
    decreases s.len(),
{
    if s.len() > 0 {
        assert forall|i: int| 0 <= i < s.len() - 1 implies s.skip(1)[i] != c by {
            assert(s.skip(1)[i] == s[i + 1]);
        }
        lemma_no_index(s.skip(1), c);
    }
}

/// What is said of a script that did not end well tells how it ended and, where there is anything but
/// white space, what it wrote to its errors.
pub proof fn law_bad_ends_are_told(status: &str, errors: &str, detail: &str, message: String)
    requires
        call_ensures(trim, (errors,), detail),
        call_ensures(exit_failure, (status, errors), message),
    ensures
        detail@.len() == 0 ==> message@ == "background-app cleanup exited with "@ + status@,
        detail@.len() > 0 ==> message@ == "background-app cleanup exited with "@ + status@ + ": "@
            + detail@,
{
}

/// The counts are those of what a script wrote that ended well; a script that could not be run, that
/// did not end well or that wrote no UTF-8 has none, and the error says which.
pub proof fn law_only_good_ends_have_counts(
    output: Result<CommandOutput, String>,
    written: &str,
    status: &str,
    errors: &str,
    read: Result<(u32, u32), String>,
    message: String,
    counts: Result<(u32, u32), String>,
)
    requires
        output matches Ok(done) ==> {
            &&& status@ == done.status@
            &&& errors@ == lossy_utf8(done.stderr@)
            &&& valid_utf8(done.stdout@) ==> written@ == decode_utf8(done.stdout@)
        },
        call_ensures(parse_counts, (written,), read),
        call_ensures(exit_failure, (status, errors), message),
        call_ensures(close_background_apps, (output,), counts),
    ensures
        output matches Err(error) ==> is_error(
            counts,
            "background-app cleanup failed: "@ + error@,
        ),
        output matches Ok(done) ==> {
            &&& !done.success ==> is_error(counts, message@)
            &&& done.success && !valid_utf8(done.stdout@) ==> is_error(
                counts,
                "background-app cleanup output was not UTF-8: "@ + utf8_error(done.stdout@),
            )
            &&& done.success && valid_utf8(done.stdout@) && read is Ok ==> counts is Ok
                && counts->Ok_0 == read->Ok_0
            &&& done.success && valid_utf8(done.stdout@) && read is Err ==> is_error(
                counts,
                (read->Err_0)@,
            )
        },
{
}

} // verus!
