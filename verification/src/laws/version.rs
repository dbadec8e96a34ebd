//! Laws of versions.
use vstd::prelude::*;
use vstd::arithmetic::power::pow;
use crate::laws::number::{digit, lemma_decimal};
use crate::laws::text::{lemma_index_of_first, lemma_joined};
use crate::number::{decimal, law_decimal_is_read_back, parsed_u32};
use crate::text::{joined, pieces, without_prefixes};
use crate::version::{
    comes_after, newer_than, numbers, shown_version, version_is_newer, version_numbers,
};

verus! {

/// The pieces between the points of a version, behind any leading `v`.
pub open spec fn version_pieces(version: Seq<char>) -> Seq<Seq<char>> {
    pieces(without_prefixes(version, "v"@), '.')
}

/// Whether each piece of a version is a number.
pub open spec fn is_version(version: Seq<char>) -> bool {
    forall|i: int|
        0 <= i < version_pieces(version).len() ==> parsed_u32(
            #[trigger] version_pieces(version)[i],
        ) is Ok
}

/// The number of the piece at a place.
pub open spec fn version_number(version: Seq<char>, i: int) -> nat {
    parsed_u32(version_pieces(version)[i])->Ok_0
}

/// Whether at a place, and not before it, a list of numbers overtakes another one: it has the greater
/// number there, or the other has none.
pub open spec fn overtakes_at(a: Seq<nat>, b: Seq<nat>, k: int) -> bool {
    &&& 0 <= k < a.len()
    &&& k <= b.len()
    &&& forall|i: int| 0 <= i < k ==> a[i] == b[i]
    &&& k < b.len() ==> a[k] > b[k]
}

/// The same of the numbers of two versions.
pub open spec fn version_overtakes_at(version: Seq<char>, other: Seq<char>, k: int) -> bool {
    let count = version_pieces(other).len();
    &&& 0 <= k < version_pieces(version).len()
    &&& k <= count
    &&& forall|i: int|
        0 <= i < k ==> version_number(version, i) == #[trigger] version_number(other, i)
    &&& k < count ==> version_number(version, k) > version_number(other, k)
}

proof fn lemma_numbers(parts: Seq<Seq<char>>)
    ensures
        numbers(parts) is Some <==> forall|i: int|
            0 <= i < parts.len() ==> parsed_u32(#[trigger] parts[i]) is Ok,
        numbers(parts) matches Some(list) ==> list.len() == parts.len() && forall|i: int|
            0 <= i < parts.len() ==> parsed_u32(parts[i]) is Ok && #[trigger] list[i] == parsed_u32(
                parts[i],
            )->Ok_0,
    decreases parts.len(),
{
    if parts.len() > 0 {
        let shorter = parts.drop_last();
        lemma_numbers(shorter);
        assert(parts.last() == parts[parts.len() - 1]);
        if numbers(parts) is Some {
            assert forall|i: int| 0 <= i < parts.len() implies parsed_u32(#[trigger] parts[i]) is Ok by {
                if i < parts.len() - 1 {
                    assert(shorter[i] == parts[i]);
                    assert(numbers(shorter)->0[i] == numbers(shorter)->0[i]);
                }
            }
        } else {
            if forall|i: int| 0 <= i < parts.len() ==> parsed_u32(#[trigger] parts[i]) is Ok {
                assert forall|i: int| 0 <= i < shorter.len() implies parsed_u32(
                    #[trigger] shorter[i],
                ) is Ok by {
                    assert(shorter[i] == parts[i]);
                }
            }
        }
    }
}

proof fn lemma_after(a: Seq<nat>, b: Seq<nat>)
    ensures
        comes_after(a, b) <==> exists|k: int| overtakes_at(a, b, k),
    decreases a.len(),
{
    if a.len() == 0 {
    } else if b.len() == 0 || a[0] != b[0] {
        if comes_after(a, b) {
            assert(overtakes_at(a, b, 0));
        }
        if exists|k: int| overtakes_at(a, b, k) {
            let k = choose|k: int| overtakes_at(a, b, k);
            assert(k > 0 ==> a[0] == b[0]);
        }
    } else {
        let c = a.skip(1);
        let d = b.skip(1);
        lemma_after(c, d);
        if comes_after(c, d) {
            let k = choose|k: int| overtakes_at(c, d, k);
            assert forall|i: int| 0 <= i < k + 1 implies a[i] == b[i] by {
                if i > 0 {
                    assert(c[i - 1] == d[i - 1]);
                }
            }
            assert(overtakes_at(a, b, k + 1));
        }
        if exists|k: int| overtakes_at(a, b, k) {
            let k = choose|k: int| overtakes_at(a, b, k);
            assert(k > 0);
            assert forall|i: int| 0 <= i < k - 1 implies c[i] == d[i] by {
                assert(a[i + 1] == b[i + 1]);
            }
            assert(overtakes_at(c, d, k - 1));
        }
    }
}

/// A text whose pieces between points are all numbers, behind any leading `v`, is a version, and its
/// numbers are exactly those, one for each piece in their order; any other text is none.
pub proof fn law_version_has_the_numbers_of_its_pieces(version: Seq<char>)
    ensures
        version_numbers(version) is Some <==> is_version(version),
        version_numbers(version) matches Some(list) ==> {
            &&& list.len() == version_pieces(version).len()
            &&& forall|i: int|
                0 <= i < list.len() ==> #[trigger] list[i] == version_number(version, i)
        },
{
    lemma_numbers(version_pieces(version));
}

/// A list of numbers comes after another exactly when it has the greater number at the first place
/// where they differ, or goes on where the other ends.
pub proof fn law_first_difference_decides(a: Seq<nat>, b: Seq<nat>)
    ensures
        comes_after(a, b) <==> exists|k: int| overtakes_at(a, b, k),
{
    lemma_after(a, b);
}

/// A version is newer than another exactly when both are versions and the first number in which they
/// differ is the greater one, or it goes on where the other ends.
pub proof fn law_newer_by_the_first_difference(version: &str, other: &str, newer: bool)
    requires
        call_ensures(newer_than, (version, other), newer),
    ensures
        newer <==> is_version(version@) && is_version(other@) && exists|k: int|
            version_overtakes_at(version@, other@, k),
{
    lemma_newer(version@, other@);
}

proof fn lemma_newer(version: Seq<char>, other: Seq<char>)
    ensures
        (match (version_numbers(version), version_numbers(other)) {
            (Some(a), Some(b)) => comes_after(a, b),
            _ => false,
        }) <==> is_version(version) && is_version(other) && exists|k: int|
            version_overtakes_at(version, other, k),
{
    lemma_numbers(version_pieces(version));
    lemma_numbers(version_pieces(other));
    if is_version(version) && is_version(other) {
        let a = version_numbers(version)->0;
        let b = version_numbers(other)->0;
        lemma_after(a, b);
        assert forall|i: int| 0 <= i < a.len() implies a[i] == #[trigger] version_number(
            version,
            i,
        ) by {
            assert(a[i] == a[i]);
        }
        assert forall|i: int| 0 <= i < b.len() implies b[i] == #[trigger] version_number(
            other,
            i,
        ) by {
            assert(b[i] == b[i]);
        }
        if comes_after(a, b) {
            let k = choose|k: int| overtakes_at(a, b, k);
            assert forall|i: int| 0 <= i < k implies version_number(version, i)
                == #[trigger] version_number(other, i) by {
                assert(a[i] == version_number(version, i));
                assert(b[i] == version_number(other, i));
            }
            assert(a[k] == version_number(version, k));
            assert(version_overtakes_at(version, other, k));
        }
        if exists|k: int| version_overtakes_at(version, other, k) {
            let k = choose|k: int| version_overtakes_at(version, other, k);
            assert forall|i: int| 0 <= i < k implies a[i] == b[i] by {
                assert(a[i] == version_number(version, i));
                assert(b[i] == version_number(other, i));
            }
            assert(a[k] == version_number(version, k));
            assert(overtakes_at(a, b, k));
        }
    }
}

/// Numbers as the name of a version: in decimal digits, with points between them.
pub open spec fn dotted(list: Seq<nat>) -> Seq<char> {
    joined(list.map_values(|n: nat| decimal(n)), "."@)
}

proof fn lemma_plain_digits(n: nat, c: char)
    requires
        c < '0' || '9' < c,
    ensures
        !decimal(n).contains(c),
{
    lemma_decimal(n);
    let text = decimal(n);
    assert forall|i: int| 0 <= i < text.len() implies text[i] != c by {
        let k = text.len() - 1 - i;
        assert(text[text.len() - 1 - k] == digit(
            (n as int / pow(10, k as nat)) % 10,
        ));
    }
}

proof fn lemma_pieces_of_joined(list: Seq<Seq<char>>, c: char)
    requires
        list.len() > 0,
        forall|i: int| 0 <= i < list.len() ==> !(#[trigger] list[i]).contains(c),
    ensures
        pieces(joined(list, seq![c]), c) == list,
    decreases list.len(),
{
    let s = joined(list, seq![c]);
    if list.len() == 1 {
        assert(s.take(s.len() as int) =~= s);
        lemma_index_of_first(s, c, s.len());
        assert(seq![s] =~= list);
    } else {
        let front = seq![list[0]];
        let rest = list.skip(1);
        assert(front + rest =~= list);
        lemma_joined(front, rest, seq![c]);
        let end = list[0].len();
        assert(s.take(end as int) =~= list[0]);
        assert(s[end as int] == c);
        lemma_index_of_first(s, c, end);
        assert(s.skip(end as int + 1) =~= joined(rest, seq![c]));
        assert forall|i: int| 0 <= i < rest.len() implies !(#[trigger] rest[i]).contains(c) by {
            assert(rest[i] == list[i + 1]);
        }
        lemma_pieces_of_joined(rest, c);
    }
}

pub proof fn lemma_dotted(list: Seq<nat>)
    requires
        list.len() > 0,
        forall|i: int| 0 <= i < list.len() ==> #[trigger] list[i] <= u32::MAX,
    ensures
        version_numbers(dotted(list)) == Some(list),
        version_numbers("v"@ + dotted(list)) == Some(list),
{
    reveal_strlit(".");
    reveal_strlit("v");
    assert("."@ =~= seq!['.']);
    let texts = list.map_values(|n: nat| decimal(n));
    assert forall|i: int| 0 <= i < texts.len() implies !(#[trigger] texts[i]).contains('.') by {
        lemma_plain_digits(list[i], '.');
    }
    lemma_pieces_of_joined(texts, '.');
    let s = dotted(list);
    lemma_plain_digits(list[0], 'v');
    lemma_decimal(list[0]);
    if texts.len() > 1 {
        let rest = texts.skip(1);
        assert(seq![texts[0]] + rest =~= texts);
        lemma_joined(seq![texts[0]], rest, "."@);
    }
    assert(s[0] == decimal(list[0])[0]);
    assert(decimal(list[0]).contains(s[0]));
    assert(s.take(1)[0] == s[0]);
    assert("v"@[0] == 'v');
    let marked = "v"@ + s;
    assert(marked.take(1) =~= "v"@);
    assert(marked.skip(1) =~= s);
    assert(without_prefixes(s, "v"@) == s);
    assert(without_prefixes(marked, "v"@) == s);
    lemma_numbers(texts);
    assert forall|i: int| 0 <= i < texts.len() implies parsed_u32(#[trigger] texts[i]) is Ok
        && parsed_u32(texts[i])->Ok_0 == list[i] by {
        law_decimal_is_read_back(list[i]);
    }
    assert(numbers(texts)->0 =~= list);
}

/// A release is offered exactly when its numbers, written with points between them and with or
/// without a leading `v`, come after one, zero, zero.
pub proof fn law_releases_after_this_one_are_newer(tag: &str, list: Seq<nat>, newer: bool)
    requires
        list.len() > 0,
        forall|i: int| 0 <= i < list.len() ==> #[trigger] list[i] <= u32::MAX,
        tag@ == dotted(list) || tag@ == "v"@ + dotted(list),
        call_ensures(version_is_newer, (tag,), newer),
    ensures
        newer <==> {
            ||| list[0] > 1
            ||| list[0] == 1 && list.len() > 1 && list[1] > 0
            ||| list[0] == 1 && list.len() > 2 && list[1] == 0 && list[2] > 0
            ||| list[0] == 1 && list.len() > 3 && list[1] == 0 && list[2] == 0
        },
{
    lemma_dotted(list);
    let own = seq![1nat, 0, 0];
    lemma_own_version();
    lemma_dotted(own);
    reveal_with_fuel(comes_after, 4);
}

proof fn lemma_own_version()
    ensures
        dotted(seq![1nat, 0, 0]) == "1.0.0"@,
{
    reveal_strlit("1.0.0");
    reveal_strlit(".");
    reveal_with_fuel(joined, 3);
    let texts = seq![1nat, 0, 0].map_values(|n: nat| decimal(n));
    assert(texts.drop_last().drop_last() =~= seq![decimal(1)]);
    assert(dotted(seq![1nat, 0, 0]) =~= "1.0.0"@);
}

/// What is no version is never offered.
pub proof fn law_what_is_no_version_is_not_newer(tag: &str, newer: bool)
    requires
        !is_version(tag@),
        call_ensures(version_is_newer, (tag,), newer),
    ensures
        !newer,
{
    lemma_newer(tag@, "1.0.0"@);
}

/// The window shows the version that releases are compared with: a release of that name is not newer.
pub proof fn law_shown_version_is_the_one_compared_with(text: String, tag: &str, newer: bool)
    requires
        call_ensures(shown_version, (), text),
        call_ensures(version_is_newer, (tag,), newer),
    ensures
        tag@ == text@ ==> !newer,
{
    let own = seq![1nat, 0, 0];
    lemma_own_version();
    lemma_dotted(own);
    reveal_with_fuel(comes_after, 4);
    reveal_strlit("v");
    reveal_strlit("1.0.0");
}

} // verus!
