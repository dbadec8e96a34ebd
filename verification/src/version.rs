//! Versions: which of two is the newer one.
use vstd::prelude::*;
use crate::number::{parse_u32, parsed_u32};
use crate::text::{pieces, split, texts, trim_start_matches, without_prefixes};

verus! {

/// The numbers that a list of texts holds, where each of them holds one.
pub open spec fn numbers(parts: Seq<Seq<char>>) -> Option<Seq<nat>>
    decreases parts.len(),
{
    if parts.len() == 0 {
        Some(Seq::empty())
    } else {
        match (numbers(parts.drop_last()), parsed_u32(parts.last())) {
            (Some(earlier), Ok(number)) => Some(earlier.push(number)),
            _ => None,
        }
    }
}

/// The numbers of a version: they stand between points, behind any number of `v`.
pub open spec fn version_numbers(version: Seq<char>) -> Option<Seq<nat>> {
    numbers(pieces(without_prefixes(version, "v"@), '.'))
}

/// Whether a list of numbers comes after another: at the first place where they differ it has the
/// greater number, or it goes on where the other ends.
pub open spec fn comes_after(a: Seq<nat>, b: Seq<nat>) -> bool
    decreases a.len(),
{
    if a.len() == 0 {
        false
    } else if b.len() == 0 {
        true
    } else if a[0] != b[0] {
        a[0] > b[0]
    } else {
        comes_after(a.skip(1), b.skip(1))
    }
}

/// Whether a version is newer than another. What is no version is neither newer nor older.
pub open spec fn is_newer(version: Seq<char>, other: Seq<char>) -> bool {
    match (version_numbers(version), version_numbers(other)) {
        (Some(a), Some(b)) => comes_after(a, b),
        _ => false,
    }
}

/// The version of this program.
pub fn current_version() -> (version: &'static str)
    ensures
        version@ == "1.0.0"@,
{
    "1.0.0"
}

/// The version of this program, as the window shows it.
pub fn shown_version() -> (text: String)
    ensures
        text@ == "v"@ + "1.0.0"@,
{
    let mut text = "v".to_owned();
    text.append(current_version());
    text
}

/// The numbers, one by one, seen as natural numbers.
pub open spec fn number_values(list: Seq<u32>) -> Seq<nat> {
    list.map_values(|n: u32| n as nat)
}

proof fn lemma_numbers_prefix(parts: Seq<Seq<char>>, n: int)
    requires
        0 <= n <= parts.len(),
        numbers(parts.take(n)) is None,
    ensures
        numbers(parts) is None,
    decreases parts.len() - n,
{
    if n < parts.len() {
        assert(parts.take(n + 1).drop_last() =~= parts.take(n));
        lemma_numbers_prefix(parts, n + 1);
    } else {
        assert(parts.take(n) =~= parts);
    }
}

fn parts(version: &str) -> (list: Option<Vec<u32>>)
    ensures
        version_numbers(version@) == (match list {
            Some(list) => Some(number_values(list@)),
            None => None,
        }),
{
    let texts_of = split(trim_start_matches(version, "v"), '.');
    let ghost all = texts(texts_of@);
    let mut list: Vec<u32> = Vec::new();
    let mut i: usize = 0;
    assert(number_values(list@) =~= Seq::empty());
    while i < texts_of.len()
        invariant
            i <= texts_of@.len(),
            all == texts(texts_of@),
            numbers(all) == version_numbers(version@),
            numbers(all.take(i as int)) == Some(number_values(list@)),
        decreases texts_of@.len() - i,
    {
        proof {
            assert(all.take(i + 1).drop_last() =~= all.take(i as int));
            assert(all.take(i + 1).last() == texts_of@[i as int]@);
        }
        match parse_u32(texts_of[i]) {
            Ok(number) => {
                let ghost earlier = list@;
                list.push(number);
                assert(number_values(list@) =~= number_values(earlier).push(number as nat));
            },
            Err(_) => {
                proof {
                    lemma_numbers_prefix(all, i + 1);
                }
                return None;
            },
        }
        i = i + 1;
    }
    assert(all.take(i as int) =~= all);
    Some(list)
}

fn is_after(a: &Vec<u32>, b: &Vec<u32>) -> (after: bool)
    ensures
        after == comes_after(number_values(a@), number_values(b@)),
{
    let ghost left = number_values(a@);
    let ghost right = number_values(b@);
    let mut i: usize = 0;
    assert(left.skip(0) =~= left && right.skip(0) =~= right);
    while i < a.len() && i < b.len() && a[i] == b[i]
        invariant
            i <= a@.len(),
            i <= b@.len(),
            left == number_values(a@),
            right == number_values(b@),
            comes_after(left.skip(i as int), right.skip(i as int)) == comes_after(left, right),
        decreases a@.len() - i,
    {
        assert(left.skip(i as int).skip(1) =~= left.skip(i + 1));
        assert(right.skip(i as int).skip(1) =~= right.skip(i + 1));
        i = i + 1;
    }
    i < a.len() && (i >= b.len() || a[i] > b[i])
}

/// Whether a version is newer than another.
pub fn newer_than(version: &str, other: &str) -> (newer: bool)
    ensures
        newer == is_newer(version@, other@),
{
    match (parts(version), parts(other)) {
        (Some(a), Some(b)) => is_after(&a, &b),
        _ => false,
    }
}

/// Whether a release is newer than this program.
pub fn version_is_newer(tag: &str) -> (newer: bool)
    ensures
        newer == is_newer(tag@, "1.0.0"@),
{
    newer_than(tag, current_version())
}

proof fn lemma_not_after_itself(a: Seq<nat>)
    ensures
        !comes_after(a, a),
    decreases a.len(),
{
    if a.len() > 0 {
        lemma_not_after_itself(a.skip(1));
    }
}

proof fn lemma_after_is_transitive(a: Seq<nat>, b: Seq<nat>, c: Seq<nat>)
    requires
        comes_after(a, b),
        comes_after(b, c),
    ensures
        comes_after(a, c),
    decreases a.len(),
{
    if c.len() > 0 && a[0] == b[0] && b[0] == c[0] {
        lemma_after_is_transitive(a.skip(1), b.skip(1), c.skip(1));
    }
}

proof fn lemma_after_is_total(a: Seq<nat>, b: Seq<nat>)
    ensures
        comes_after(a, b) || comes_after(b, a) || a == b,
    decreases a.len(),
{
    if a.len() > 0 && b.len() > 0 && a[0] == b[0] {
        lemma_after_is_total(a.skip(1), b.skip(1));
        if a.skip(1) == b.skip(1) {
            assert(a =~= seq![a[0]] + a.skip(1));
            assert(b =~= seq![b[0]] + b.skip(1));
        }
    } else if a.len() == 0 && b.len() == 0 {
        assert(a =~= b);
    }
}

/// No version is newer than itself.
pub proof fn law_no_version_is_newer_than_itself(version: Seq<char>)
    ensures
        !is_newer(version, version),
{
    if let Some(a) = version_numbers(version) {
        lemma_not_after_itself(a);
    }
}

/// Being newer is handed on, and never holds in both directions.
pub proof fn law_newer_is_an_order(a: Seq<char>, b: Seq<char>, c: Seq<char>)
    ensures
        is_newer(a, b) && is_newer(b, c) ==> is_newer(a, c),
        !(is_newer(a, b) && is_newer(b, a)),
{
    if is_newer(a, b) && is_newer(b, c) {
        lemma_after_is_transitive(
            version_numbers(a)->0,
            version_numbers(b)->0,
            version_numbers(c)->0,
        );
    }
    if is_newer(a, b) && is_newer(b, a) {
        lemma_after_is_transitive(
            version_numbers(a)->0,
            version_numbers(b)->0,
            version_numbers(a)->0,
        );
        lemma_not_after_itself(version_numbers(a)->0);
    }
}

/// Of two versions one is newer unless they have the same numbers.
pub proof fn law_versions_can_be_compared(a: Seq<char>, b: Seq<char>)
    requires
        version_numbers(a) is Some,
        version_numbers(b) is Some,
    ensures
        is_newer(a, b) || is_newer(b, a) || version_numbers(a) == version_numbers(b),
{
    lemma_after_is_total(version_numbers(a)->0, version_numbers(b)->0);
}

/// A `v` in front of a version changes nothing.
pub proof fn law_leading_v_does_not_matter(version: Seq<char>, other: Seq<char>)
    ensures
        version_numbers("v"@ + version) == version_numbers(version),
        is_newer("v"@ + version, other) == is_newer(version, other),
        is_newer(other, "v"@ + version) == is_newer(other, version),
{
    reveal_strlit("v");
    let marked = "v"@ + version;
    assert(marked.take(1) =~= "v"@);
    assert(marked.skip(1) =~= version);
}

} // verus!
