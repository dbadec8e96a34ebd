//! Laws of temporary files.
use vstd::prelude::*;
use crate::temp::{
    clear_temp, clear_temp_folder, known, law_only_stale_files_are_removed, removable_places,
    removed_count, TempEntry,
};

verus! {

/// An entry is stale exactly when it is a regular file, no link, that is known not to have been
/// modified for a day.
pub proof fn law_stale_entries(entry: TempEntry, stale: bool)
    requires
        call_ensures(TempEntry::is_stale, (entry,), stale),
    ensures
        stale <==> entry.is_file && !entry.is_symlink && entry.age_seconds is Some
            && entry.age_seconds->0 >= 24 * 60 * 60,
{
}

proof fn lemma_places_ascend(entries: Seq<TempEntry>, n: nat)
    requires
        n <= entries.len(),
        n <= usize::MAX,
    ensures
        forall|i: int, j: int|
            0 <= i < j < removable_places(entries, n).len() ==> #[trigger] removable_places(
                entries,
                n,
            )[i] < #[trigger] removable_places(entries, n)[j],
        forall|i: int|
            0 <= i < removable_places(entries, n).len() ==> #[trigger] removable_places(
                entries,
                n,
            )[i] < n,
    decreases n,
{
    if n > 0 {
        lemma_places_ascend(entries, (n - 1) as nat);
        let earlier = removable_places(entries, (n - 1) as nat);
        let all = removable_places(entries, n);
        assert(all == earlier || all == earlier.push((n - 1) as usize));
        assert forall|i: int| 0 <= i < all.len() implies #[trigger] all[i] < n by {
            if i < earlier.len() {
                assert(all[i] == earlier[i]);
            }
        }
        assert forall|i: int, j: int| 0 <= i < j < all.len() implies #[trigger] all[i]
            < #[trigger] all[j] by {
            assert(all[i] == earlier[i]);
            if j < earlier.len() {
                assert(all[j] == earlier[j]);
            }
        }
    }
}

/// Of a folder exactly the entries are removed of which it is known that they are stale files, each
/// once, in the order in which they are listed.
pub proof fn law_exactly_the_stale_files_of_a_folder(
    entries: Vec<Option<TempEntry>>,
    places: Vec<usize>,
    place: usize,
)
    requires
        call_ensures(clear_temp_folder, (&entries,), places),
    ensures
        places@.contains(place) <==> place < entries@.len() && entries@[place as int] is Some && ({
            let entry = entries@[place as int]->0;
            entry.is_file && !entry.is_symlink && entry.age_seconds is Some
                && entry.age_seconds->0 >= 24 * 60 * 60
        }),
        forall|i: int, j: int|
            0 <= i < j < places@.len() ==> #[trigger] places@[i] < #[trigger] places@[j],
{
    assert(entries@.len() <= usize::MAX) by {
        assert(entries.len() == entries@.len());
    }
    let all = known(entries@);
    law_only_stale_files_are_removed(all, entries@.len(), place);
    lemma_places_ascend(all, entries@.len());
}

proof fn lemma_removed_count(removals: Seq<bool>)
    ensures
        removed_count(removals) == removals.filter(|removed: bool| removed).len(),
    decreases removals.len(),
{
    reveal(Seq::filter);
    if removals.len() > 0 {
        lemma_removed_count(removals.drop_last());
    }
}

/// As many files were removed as removals went through.
pub proof fn law_removals_are_counted(removals: Vec<bool>, count: u64)
    requires
        call_ensures(clear_temp, (&removals,), count),
    ensures
        count == removals@.filter(|removed: bool| removed).len(),
{
    lemma_removed_count(removals@);
}

} // verus!
