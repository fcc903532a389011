//! Patches to the Steam client's UI files, and how the file that a patch is
//! written into is found.
use vstd::prelude::*;
use crate::text::{concat3, starts_with, starts_with_text};
use crate::utils::home_dir;

verus! {

/// A replacement of one text by another in one of the Steam UI files.
pub struct Patch {
    pub text_to_find: String,
    pub replacement_text: String,
    pub destination: PatchFile,
}

/// The Steam UI file that a patch goes into.
#[derive(Clone, Copy, Debug, PartialEq, Eq, Structural)]
pub enum PatchFile {
    Chunk,
    Library,
}

/// Why the file of a patch could not be looked for.
#[derive(Clone, Copy, Debug, PartialEq, Eq, Structural)]
pub enum GetFileError {
    HomeNotFound,
    ReadDir,
    ReadEntry,
    NotUnicode,
}

impl GetFileError {
    /// The message that the error is reported with.
    pub fn message(&self) -> (r: &'static str)
        ensures
            r@ == match self {
                GetFileError::HomeNotFound => "Home directory not found"@,
                GetFileError::ReadDir => "Failed to read Steam UI directory"@,
                GetFileError::ReadEntry => "Failed to read an entry in the Steam UI directory"@,
                GetFileError::NotUnicode => "Failed to convert OsString to String"@,
            },
    {
        match self {
            GetFileError::HomeNotFound => "Home directory not found",
            GetFileError::ReadDir => "Failed to read Steam UI directory",
            GetFileError::ReadEntry => "Failed to read an entry in the Steam UI directory",
            GetFileError::NotUnicode => "Failed to convert OsString to String",
        }
    }
}

/// One entry of a directory listing, as far as the file search reads it.
pub enum DirEntryName {
    /// An entry with this name.
    Name(String),
    /// An entry that could not be read.
    Unreadable,
    /// An entry whose name is not valid Unicode.
    NotUnicode,
}

/// A patch as (text to find, replacement, file).
pub open spec fn patch_view(p: Patch) -> (Seq<char>, Seq<char>, PatchFile) {
    (p.text_to_find@, p.replacement_text@, p.destination)
}

/// The directory that holds the Steam UI files of `username`.
pub open spec fn steamui_dir_text(username: Seq<char>) -> Seq<char> {
    "/home/"@ + username + "/.local/share/Steam/steamui"@
}

/// The start that the name of the file of `destination` has.
pub open spec fn file_prefix(destination: PatchFile) -> Seq<char> {
    match destination {
        PatchFile::Chunk => "chunk"@,
        PatchFile::Library => "library"@,
    }
}

/// The pattern that the name of the file of `destination` matches: its start,
/// anchored at the beginning of the name.
pub open spec fn file_regex(destination: PatchFile) -> Seq<char> {
    match destination {
        PatchFile::Chunk => "^chunk"@,
        PatchFile::Library => "^library"@,
    }
}

/// The file chosen from `entries`, scanned from index `i` with the first match so far
/// `found`: an unreadable entry stops the scan with an error, a second match means
/// that no file is chosen, and otherwise the single match is chosen.
pub open spec fn scan_entries(
    destination: PatchFile,
    entries: Seq<DirEntryName>,
    i: int,
    found: Option<int>,
) -> Result<Option<int>, GetFileError>
    decreases entries.len() - i,
{
    if i < 0 || i >= entries.len() {
        Ok(found)
    } else {
        match entries[i] {
            DirEntryName::Unreadable => Err(GetFileError::ReadEntry),
            DirEntryName::NotUnicode => Err(GetFileError::NotUnicode),
            DirEntryName::Name(name) => if starts_with_text(name@, file_prefix(destination)) {
                if found is Some {
                    Ok(None)
                } else {
                    scan_entries(destination, entries, i + 1, Some(i))
                }
            } else {
                scan_entries(destination, entries, i + 1, found)
            },
        }
    }
}

impl PatchFile {
    /// The pattern that the file name of this destination matches.
    pub fn get_regex(&self) -> (r: &'static str)
        ensures
            r@ == file_regex(*self),
    {
        match self {
            PatchFile::Chunk => "^chunk",
            PatchFile::Library => "^library",
        }
    }

    /// Whether `file_name` is a name that the file of this destination has.
    pub fn matches_file_name(&self, file_name: &str) -> (r: bool)
        ensures
            r == starts_with_text(file_name@, file_prefix(*self)),
    {
        match self {
            PatchFile::Chunk => starts_with(file_name, "chunk"),
            PatchFile::Library => starts_with(file_name, "library"),
        }
    }

    /// The Steam UI directory of `username`, when the home directory `home` is known.
    /// The directory does not depend on which home directory it is.
    pub fn steamui_dir_for(home: Option<String>, username: &str) -> (r: Result<
        String,
        GetFileError,
    >)
        ensures
            home is None ==> r == Err::<String, GetFileError>(GetFileError::HomeNotFound),
            home is Some ==> r is Ok && r->Ok_0@ == steamui_dir_text(username@),
    {
        match home {
            None => Err(GetFileError::HomeNotFound),
            Some(_) => Ok(concat3("/home/", username, "/.local/share/Steam/steamui")),
        }
    }

    /// The Steam UI directory of `username`, looked up from the current home directory.
    pub fn steamui_dir(username: &str) -> (r: Result<String, GetFileError>)
        ensures
            r is Ok ==> r->Ok_0@ == steamui_dir_text(username@),
            r is Err ==> r == Err::<String, GetFileError>(GetFileError::HomeNotFound),
    {
        Self::steamui_dir_for(home_dir(), username)
    }

    /// The index in the directory `listing` of the file of this destination: `None`
    /// when not exactly one entry matches. A listing that could not be read
    /// (`None`), or an unreadable entry met before a second match, is an error.
    pub fn select_file(&self, listing: Option<&Vec<DirEntryName>>) -> (r: Result<
        Option<usize>,
        GetFileError,
    >)
        ensures
            listing is None ==> r == Err::<Option<usize>, GetFileError>(GetFileError::ReadDir),
            listing matches Some(entries) ==> match (r, scan_entries(*self, entries@, 0, None)) {
                (Ok(Some(i)), Ok(Some(j))) => i == j,
                (Ok(None), Ok(None)) => true,
                (Err(e), Err(f)) => e == f,
                _ => false,
            },
    {
        let entries = match listing {
            None => return Err(GetFileError::ReadDir),
            Some(entries) => entries,
        };
        let mut found: Option<usize> = None;
        let mut i: usize = 0;
        while i < entries.len()
            invariant
                listing == Some(entries),
                i <= entries.len(),
                found matches Some(k) ==> k < i,
                scan_entries(*self, entries@, 0, None) == scan_entries(
                    *self,
                    entries@,
                    i as int,
                    match found {
                        Some(k) => Some(k as int),
                        None => None,
                    },
                ),
            decreases entries.len() - i,
        {
            match &entries[i] {
                DirEntryName::Unreadable => return Err(GetFileError::ReadEntry),
                DirEntryName::NotUnicode => return Err(GetFileError::NotUnicode),
                DirEntryName::Name(name) => {
                    if self.matches_file_name(name.as_str()) {
                        if found.is_some() {
                            return Ok(None);
                        }
                        found = Some(i);
                    }
                },
            }
            i = i + 1;
        }
        Ok(found)
    }
}

/// `entry` is a file whose name matches `destination`.
pub open spec fn matching_entry(destination: PatchFile, entry: DirEntryName) -> bool {
    match entry {
        DirEntryName::Name(name) => starts_with_text(name@, file_prefix(destination)),
        _ => false,
    }
}

/// The scan from index `i` with the first match so far `found` chooses entry `k` only
/// if `k` is a match at or after `i` (or is `found`) and no other entry from `i` on
/// matches.
proof fn lemma_scan_chooses_single_match(
    destination: PatchFile,
    entries: Seq<DirEntryName>,
    i: int,
    found: Option<int>,
    k: int,
)
    requires
        0 <= i <= entries.len(),
        found matches Some(f) ==> 0 <= f < i && matching_entry(destination, entries[f]),
        scan_entries(destination, entries, i, found) == Ok::<Option<int>, GetFileError>(Some(k)),
    ensures
        0 <= k < entries.len(),
        matching_entry(destination, entries[k]),
        found matches Some(f) ==> k == f,
        forall|j: int|
            i <= j < entries.len() && j != k ==> !matching_entry(
                destination,
                #[trigger] entries[j],
            ),
    decreases entries.len() - i,
{
    if i < entries.len() {
        match entries[i] {
            DirEntryName::Name(name) => {
                if starts_with_text(name@, file_prefix(destination)) {
                    lemma_scan_chooses_single_match(destination, entries, i + 1, Some(i), k);
                } else {
                    lemma_scan_chooses_single_match(destination, entries, i + 1, found, k);
                }
            },
            _ => {},
        }
    }
}

/// The file chosen for a patch is the only entry of the directory listing whose name
/// matches the patch's destination.
pub proof fn lemma_selected_file_is_only_match(
    destination: PatchFile,
    entries: Seq<DirEntryName>,
    k: int,
)
    requires
        scan_entries(destination, entries, 0, None) == Ok::<Option<int>, GetFileError>(Some(k)),
    ensures
        0 <= k < entries.len(),
        matching_entry(destination, entries[k]),
        forall|j: int|
            0 <= j < entries.len() && j != k ==> !matching_entry(
                destination,
                #[trigger] entries[j],
            ),
{
    lemma_scan_chooses_single_match(destination, entries, 0, None, k);
}

/// Every entry of `entries` has a readable, Unicode name.
pub open spec fn all_readable(entries: Seq<DirEntryName>) -> bool {
    forall|j: int| 0 <= j < entries.len() ==> #[trigger] entries[j] is Name
}

/// With no match from index `i` on and only readable entries there, the scan keeps
/// what it had found.
proof fn lemma_scan_without_match(
    destination: PatchFile,
    entries: Seq<DirEntryName>,
    i: int,
    found: Option<int>,
)
    requires
        0 <= i <= entries.len(),
        forall|j: int| i <= j < entries.len() ==> #[trigger] entries[j] is Name,
        forall|j: int| i <= j < entries.len() ==> !matching_entry(destination, #[trigger] entries[j]),
    ensures
        scan_entries(destination, entries, i, found) == Ok::<Option<int>, GetFileError>(found),
    decreases entries.len() - i,
{
    if i < entries.len() {
        assert(entries[i] is Name);
        assert(!matching_entry(destination, entries[i]));
        lemma_scan_without_match(destination, entries, i + 1, found);
    }
}

/// Once a match has been found, a later match among readable entries ends the scan
/// with no file chosen.
proof fn lemma_scan_meets_second_match(
    destination: PatchFile,
    entries: Seq<DirEntryName>,
    i: int,
    f: int,
    k: int,
)
    requires
        0 <= i <= k < entries.len(),
        forall|j: int| i <= j < entries.len() ==> #[trigger] entries[j] is Name,
        matching_entry(destination, entries[k]),
    ensures
        scan_entries(destination, entries, i, Some(f)) == Ok::<Option<int>, GetFileError>(None),
    decreases k - i,
{
    assert(entries[i] is Name);
    if i < k && !matching_entry(destination, entries[i]) {
        lemma_scan_meets_second_match(destination, entries, i + 1, f, k);
    }
}

/// Among readable entries from index `i` on, with nothing found yet, the single match
/// `k` is chosen.
proof fn lemma_scan_finds_single_match(
    destination: PatchFile,
    entries: Seq<DirEntryName>,
    i: int,
    k: int,
)
    requires
        0 <= i <= k < entries.len(),
        forall|j: int| i <= j < entries.len() ==> #[trigger] entries[j] is Name,
        matching_entry(destination, entries[k]),
        forall|j: int|
            i <= j < entries.len() && j != k ==> !matching_entry(destination, #[trigger] entries[j]),
    ensures
        scan_entries(destination, entries, i, None) == Ok::<Option<int>, GetFileError>(Some(k)),
    decreases k - i,
{
    assert(entries[i] is Name);
    if i == k {
        lemma_scan_without_match(destination, entries, k + 1, Some(k));
    } else {
        assert(!matching_entry(destination, entries[i]));
        lemma_scan_finds_single_match(destination, entries, i + 1, k);
    }
}

/// Among readable entries from index `i` on, with nothing found yet, two matches mean
/// that no file is chosen.
proof fn lemma_scan_finds_two_matches(
    destination: PatchFile,
    entries: Seq<DirEntryName>,
    i: int,
    j: int,
    k: int,
)
    requires
        0 <= i <= j < k < entries.len(),
        forall|m: int| i <= m < entries.len() ==> #[trigger] entries[m] is Name,
        matching_entry(destination, entries[j]),
        matching_entry(destination, entries[k]),
    ensures
        scan_entries(destination, entries, i, None) == Ok::<Option<int>, GetFileError>(None),
    decreases j - i,
{
    assert(entries[i] is Name);
    if matching_entry(destination, entries[i]) {
        lemma_scan_meets_second_match(destination, entries, i + 1, i, k);
    } else {
        lemma_scan_finds_two_matches(destination, entries, i + 1, j, k);
    }
}

/// In a listing of readable entries, the entry `k` whose name alone matches the
/// destination is the file chosen, wherever it stands in the listing.
pub proof fn lemma_single_match_is_selected(
    destination: PatchFile,
    entries: Seq<DirEntryName>,
    k: int,
)
    requires
        all_readable(entries),
        0 <= k < entries.len(),
        matching_entry(destination, entries[k]),
        forall|j: int|
            0 <= j < entries.len() && j != k ==> !matching_entry(destination, #[trigger] entries[j]),
    ensures
        scan_entries(destination, entries, 0, None) == Ok::<Option<int>, GetFileError>(Some(k)),
{
    lemma_scan_finds_single_match(destination, entries, 0, k);
}

/// In a listing of readable entries of which none matches the destination, no file
/// is chosen.
pub proof fn lemma_no_match_selects_nothing(destination: PatchFile, entries: Seq<DirEntryName>)
    requires
        all_readable(entries),
        forall|j: int| 0 <= j < entries.len() ==> !matching_entry(destination, #[trigger] entries[j]),
    ensures
        scan_entries(destination, entries, 0, None) == Ok::<Option<int>, GetFileError>(None),
{
    lemma_scan_without_match(destination, entries, 0, None);
}

/// In a listing of readable entries where two entries match the destination, no file
/// is chosen.
pub proof fn lemma_two_matches_select_nothing(
    destination: PatchFile,
    entries: Seq<DirEntryName>,
    j: int,
    k: int,
)
    requires
        all_readable(entries),
        0 <= j < k < entries.len(),
        matching_entry(destination, entries[j]),
        matching_entry(destination, entries[k]),
    ensures
        scan_entries(destination, entries, 0, None) == Ok::<Option<int>, GetFileError>(None),
{
    lemma_scan_finds_two_matches(destination, entries, 0, j, k);
}

} // verus!
