//! Temporary files: which folders are gone through, and which files in them are removed.
use vstd::prelude::*;

verus! {

/// How many seconds a file stays untouched before it is stale: a day.
pub const STALE_SECONDS: u64 = 86400;

/// A folder of temporary files.
#[derive(Debug, Clone, Copy, PartialEq, Eq, Structural)]
pub enum TempFolder {
    /// The folder of the user.
    User,
    /// The folder of Windows.
    Windows,
}

impl TempFolder {
    /// Where the folder is, where that is the same for every user.
    pub fn path(self) -> (path: Option<&'static str>)
        ensures
            match self {
                TempFolder::User => path is None,
                TempFolder::Windows => path is Some && path->0@ == r"C:\Windows\Temp"@,
            },
    {
        match self {
            TempFolder::User => None,
            TempFolder::Windows => Some(r"C:\Windows\Temp"),
        }
    }
}

/// The folders that are gone through, in this order.
pub fn temp_folders() -> (folders: Vec<TempFolder>)
    ensures
        folders@ == seq![TempFolder::User, TempFolder::Windows],
{
    let mut folders: Vec<TempFolder> = Vec::new();
    folders.push(TempFolder::User);
    folders.push(TempFolder::Windows);
    folders
}

/// What is known of an entry of a folder.
#[derive(Debug, Clone, Copy, PartialEq, Eq, Structural)]
pub struct TempEntry {
    /// Whether it is a symbolic link.
    pub is_symlink: bool,
    /// Whether it is a regular file.
    pub is_file: bool,
    /// The whole seconds since it was last modified, where they can be told.
    pub age_seconds: Option<u64>,
}

impl TempEntry {
    /// Whether the entry is a regular file, no link, that was not modified for a day.
    pub open spec fn is_removable(self) -> bool {
        &&& !self.is_symlink
        &&& self.is_file
        &&& self.age_seconds matches Some(seconds) && seconds >= STALE_SECONDS
    }

    /// Whether the entry is to be removed.
    pub fn is_stale(self) -> (stale: bool)
        ensures
            stale == self.is_removable(),
    {
        if self.is_symlink || !self.is_file {
            return false;
        }
        match self.age_seconds {
            Some(seconds) => seconds >= STALE_SECONDS,
            None => false,
        }
    }
}

/// The places of the first `n` entries that are to be removed, in their order.
pub open spec fn removable_places(entries: Seq<TempEntry>, n: nat) -> Seq<usize>
    decreases n,
{
    if n == 0 {
        Seq::empty()
    } else if entries[n - 1].is_removable() {
        removable_places(entries, (n - 1) as nat).push((n - 1) as usize)
    } else {
        removable_places(entries, (n - 1) as nat)
    }
}

/// The places of the entries of a folder that are to be removed. An entry of which nothing is known
/// is left out.
pub fn clear_temp_folder(entries: &Vec<Option<TempEntry>>) -> (places: Vec<usize>)
    ensures
        places@ == removable_places(known(entries@), entries@.len()),
{
    let mut places: Vec<usize> = Vec::new();
    let mut i: usize = 0;
    while i < entries.len()
        invariant
            i <= entries@.len(),
            places@ == removable_places(known(entries@), i as nat),
        decreases entries@.len() - i,
    {
        if let Some(entry) = entries[i] {
            if entry.is_stale() {
                places.push(i);
            }
        }
        i = i + 1;
    }
    places
}

/// The entries, where nothing known counts as no file at all.
pub open spec fn known(entries: Seq<Option<TempEntry>>) -> Seq<TempEntry> {
    entries.map_values(
        |entry: Option<TempEntry>|
            match entry {
                Some(entry) => entry,
                None => TempEntry { is_symlink: false, is_file: false, age_seconds: None },
            },
    )
}

/// How many files were removed: as many as removals went through.
pub open spec fn removed_count(removals: Seq<bool>) -> nat
    decreases removals.len(),
{
    if removals.len() == 0 {
        0
    } else if removals.last() {
        removed_count(removals.drop_last()) + 1
    } else {
        removed_count(removals.drop_last())
    }
}

/// How many files were removed.
pub fn clear_temp(removals: &Vec<bool>) -> (count: u64)
    ensures
        count == removed_count(removals@),
        count <= removals@.len(),
{
    let mut count: u64 = 0;
    let mut i: usize = 0;
    while i < removals.len()
        invariant
            i <= removals@.len(),
            count == removed_count(removals@.take(i as int)),
            count <= i,
        decreases removals@.len() - i,
    {
        assert(removals@.take(i + 1).drop_last() =~= removals@.take(i as int));
        if removals[i] {
            count = count + 1;
        }
        i = i + 1;
    }
    assert(removals@.take(i as int) =~= removals@);
    count
}

/// Exactly the stale regular files of a folder are removed: no folder, no link, nothing younger
/// than a day, and each file once.
pub proof fn law_only_stale_files_are_removed(entries: Seq<TempEntry>, n: nat, place: usize)
    requires
        n <= entries.len(),
        n <= usize::MAX,
    ensures
        removable_places(entries, n).contains(place) <==> place < n
            && entries[place as int].is_removable(),
        removable_places(entries, n).no_duplicates(),
    decreases n,
{
    if n > 0 {
        let earlier = removable_places(entries, (n - 1) as nat);
        let last = (n - 1) as usize;
        law_only_stale_files_are_removed(entries, (n - 1) as nat, place);
        law_only_stale_files_are_removed(entries, (n - 1) as nat, last);
        if entries[n - 1].is_removable() {
            let all = earlier.push(last);
            assert(all[earlier.len() as int] == last);
            if earlier.contains(place) {
                let k = choose|k: int| 0 <= k < earlier.len() && earlier[k] == place;
                assert(all[k] == place);
            }
        }
    }
}

} // verus!
