//! The metadata record of one directory: which original paths are tracked,
//! and where their tracked copies live.

use vstd::prelude::*;
use vstd::string::*;
use crate::error::{ErrorView, GitboxError};
use crate::keyed::{
    inserted_all, keys_of, lemma_entry_lookup, lookup, opt_ref_view, opt_value_view, Keyed, NameMap,
};
use crate::text::opt_view;

verus! {

/// One tracked file or directory.
#[derive(Debug)]
pub struct FileInfo {
    /// An opaque identifier, made when the entry is added.
    pub id: String,
    /// Where the user works with the content.
    pub original_path: String,
    /// Where the tracked copy lives, inside a repository's `files` directory.
    pub synced_path: String,
    /// Whether the tracked object is a directory.
    pub is_directory: bool,
}

/// The mathematical content of a [`FileInfo`].
pub struct FileInfoView {
    pub id: Seq<char>,
    pub original_path: Seq<char>,
    pub synced_path: Seq<char>,
    pub is_directory: bool,
}

impl View for FileInfo {
    type V = FileInfoView;

    open spec fn view(&self) -> FileInfoView {
        FileInfoView {
            id: self.id@,
            original_path: self.original_path@,
            synced_path: self.synced_path@,
            is_directory: self.is_directory,
        }
    }
}

impl Clone for FileInfo {
    fn clone(&self) -> (copy: FileInfo)
        ensures
            copy@ == self@,
    {
        FileInfo {
            id: self.id.clone(),
            original_path: self.original_path.clone(),
            synced_path: self.synced_path.clone(),
            is_directory: self.is_directory,
        }
    }
}

/// The mathematical content of a [`GitboxMetadata`].
pub struct MetadataView {
    /// The tracked files, by original path.
    pub files: Map<Seq<char>, FileInfoView>,
    /// The repository that the directory is associated with, if any.
    pub repo_name: Option<Seq<char>>,
}

impl MetadataView {
    /// The record with `info` stored under `key`, in place of whatever was
    /// stored there before.
    pub open spec fn with_file(self, key: Seq<char>, info: FileInfoView) -> MetadataView {
        MetadataView { files: self.files.insert(key, info), repo_name: self.repo_name }
    }

    /// The record without an entry for `key`.
    pub open spec fn without_file(self, key: Seq<char>) -> MetadataView {
        MetadataView { files: self.files.remove(key), repo_name: self.repo_name }
    }

    /// What the record holds for `key`.
    pub open spec fn file(self, key: Seq<char>) -> Option<FileInfoView> {
        lookup(self.files, key)
    }

    /// How many files the record tracks.
    pub open spec fn count(self) -> nat {
        self.files.dom().len()
    }

    /// Some entry of the record has the identifier `id`.
    pub open spec fn holds_id(self, id: Seq<char>) -> bool {
        exists|key: Seq<char>| self.files.dom().contains(key) && (#[trigger] self.files[key]).id == id
    }
}

/// The metadata record of one directory.
#[derive(Debug)]
pub struct GitboxMetadata {
    /// The tracked files, by original path.
    pub files: NameMap<FileInfo>,
    /// The repository that the directory is associated with, if any.
    pub repo_name: Option<String>,
}

impl View for GitboxMetadata {
    type V = MetadataView;

    open spec fn view(&self) -> MetadataView {
        MetadataView { files: self.files@, repo_name: opt_view(self.repo_name) }
    }
}

/// What was found where a directory keeps its record.
#[derive(Debug)]
pub enum StoredRecord {
    /// The directory has no record file.
    Absent,
    /// The directory has a record file. `canonical` is what the canonical
    /// encoding makes of its content and `legacy` what the legacy encoding
    /// makes of it; each is `None` where the content is not in that encoding.
    Present { canonical: Option<GitboxMetadata>, legacy: Option<GitboxMetadata> },
}

/// The record that a directory has, given what was found where it keeps it.
/// A directory without a record file has the empty record. Otherwise the
/// canonical reading is taken where there is one, else the legacy reading;
/// a file that neither encoding can read is corrupt.
pub open spec fn load_spec(stored: StoredRecord) -> Result<MetadataView, ErrorView> {
    match stored {
        StoredRecord::Absent => Ok(MetadataView { files: Map::empty(), repo_name: None }),
        StoredRecord::Present { canonical: Some(record), .. } => Ok(record@),
        StoredRecord::Present { canonical: None, legacy: Some(record) } => Ok(record@),
        StoredRecord::Present { canonical: None, legacy: None } => Err(ErrorView::MetadataCorrupt),
    }
}

/// The view of the result of reading a record.
pub open spec fn record_result_view(r: Result<GitboxMetadata, GitboxError>) -> Result<
    MetadataView,
    ErrorView,
> {
    match r {
        Ok(record) => Ok(record@),
        Err(e) => Err(e@),
    }
}

/// Calls `uuid::Uuid::new_v4` and writes the identifier in its hyphenated
/// form, which is 36 characters long. The identifier is random: nothing else
/// is known of it. The call does not return if the operating system cannot
/// supply random bytes.
#[verifier::external_body]
fn fresh_id() -> (id: String)
    ensures
        id@.len() == 36,
{
    uuid::Uuid::new_v4().to_string()
}

impl GitboxMetadata {
    /// An empty record that is associated with no repository.
    pub fn new() -> (record: GitboxMetadata)
        ensures
            record@.files == Map::<Seq<char>, FileInfoView>::empty(),
            record@.repo_name is None,
    {
        GitboxMetadata { files: NameMap::new(), repo_name: None }
    }

    /// An empty record that belongs to the repository `repo_name`.
    pub fn for_repository(repo_name: &str) -> (record: GitboxMetadata)
        ensures
            record@.files == Map::<Seq<char>, FileInfoView>::empty(),
            record@.repo_name == Some(repo_name@),
    {
        GitboxMetadata { files: NameMap::new(), repo_name: Some(repo_name.to_owned()) }
    }

    /// The record with the given entries that is associated with
    /// `repo_name`. Where two entries have the same key, the later one stays.
    pub fn from_entries(entries: Vec<Keyed<FileInfo>>, repo_name: Option<String>) -> (record:
        GitboxMetadata)
        ensures
            record@.files == inserted_all(entries@),
            record@.repo_name == opt_view(repo_name),
    {
        GitboxMetadata { files: NameMap::from_entries(entries), repo_name }
    }

    /// The record of a directory, given what was found where the directory
    /// keeps it.
    pub fn load(stored: StoredRecord) -> (r: Result<GitboxMetadata, GitboxError>)
        ensures
            record_result_view(r) == load_spec(stored),
    {
        match stored {
            StoredRecord::Absent => Ok(GitboxMetadata::new()),
            StoredRecord::Present { canonical, legacy } => match canonical {
                Some(record) => Ok(record),
                None => match legacy {
                    Some(record) => Ok(record),
                    None => Err(GitboxError::MetadataCorrupt),
                },
            },
        }
    }

    /// Records a tracked file under `original_path` with the identifier `id`.
    /// An entry that was recorded under the same path before is replaced.
    pub fn add_file_with_id(
        &mut self,
        id: String,
        original_path: &str,
        synced_path: &str,
        is_directory: bool,
    )
        ensures
            final(self)@ == old(self)@.with_file(
                original_path@,
                FileInfoView {
                    id: id@,
                    original_path: original_path@,
                    synced_path: synced_path@,
                    is_directory,
                },
            ),
    {
        let info = FileInfo {
            id,
            original_path: original_path.to_owned(),
            synced_path: synced_path.to_owned(),
            is_directory,
        };
        self.files.insert(original_path, info);
    }

    /// Whether some entry of the record has the identifier `id`.
    pub fn holds_id(&self, id: &str) -> (held: bool)
        ensures
            held == self@.holds_id(id@),
    {
        let entries = self.files.entries();
        let mut i: usize = 0;
        while i < entries.len()
            invariant
                i <= entries@.len(),
                keys_of(entries@).no_duplicates(),
                crate::keyed::map_of(entries@) == self@.files,
                forall|j: int| 0 <= j < i ==> (#[trigger] entries@[j]).value.id@ != id@,
            decreases entries@.len() - i,
        {
            if crate::text::str_eq(entries[i].value.id.as_str(), id) {
                proof {
                    lemma_entry_lookup(entries@, i as int);
                    assert(self@.files[entries@[i as int].key@].id == id@);
                }
                return true;
            }
            i += 1;
        }
        proof {
            assert forall|key: Seq<char>| self@.files.dom().contains(key) implies (
            #[trigger] self@.files[key]).id != id@ by {
                let j = choose|j: int| 0 <= j < entries@.len() && keys_of(entries@)[j] == key;
                lemma_entry_lookup(entries@, j);
                assert(entries@[j].value.id@ != id@);
            }
        }
        false
    }

    /// A length that no identifier in the record exceeds.
    fn longest_id(&self) -> (longest: usize)
        ensures
            forall|key: Seq<char>|
                self@.files.dom().contains(key) ==> (#[trigger] self@.files[key]).id.len()
                    <= longest,
    {
        let entries = self.files.entries();
        let mut longest: usize = 0;
        let mut i: usize = 0;
        while i < entries.len()
            invariant
                i <= entries@.len(),
                forall|j: int| 0 <= j < i ==> (#[trigger] entries@[j]).value.id@.len() <= longest,
            decreases entries@.len() - i,
        {
            let n = entries[i].value.id.as_str().unicode_len();
            if n > longest {
                longest = n;
            }
            i += 1;
        }
        proof {
            assert forall|key: Seq<char>| self@.files.dom().contains(key) implies (
            #[trigger] self@.files[key]).id.len() <= longest by {
                let j = choose|j: int| 0 <= j < entries@.len() && keys_of(entries@)[j] == key;
                lemma_entry_lookup(entries@, j);
                assert(entries@[j].value.id@.len() <= longest);
            }
        }
        longest
    }

    /// An identifier that no entry of the record has. It is a random
    /// identifier; should the record hold that very identifier already, it
    /// is made longer than every identifier in the record.
    fn unused_id(&self) -> (id: String)
        ensures
            !self@.holds_id(id@),
            id@.len() >= 36,
    {
        let mut id = fresh_id();
        if self.holds_id(id.as_str()) {
            let longest = self.longest_id();
            proof {
                reveal_strlit("0");
            }
            while id.as_str().unicode_len() <= longest
                invariant
                    id@.len() >= 36,
                    "0"@.len() == 1,
                decreases longest + 1 - id@.len(),
            {
                id.append("0");
            }
        }
        id
    }

    /// Records a tracked file under `original_path` and returns the fresh
    /// identifier given to it, which no entry of the record had before. An
    /// entry that was recorded under the same path before is replaced.
    pub fn add_file(&mut self, original_path: &str, synced_path: &str, is_directory: bool) -> (id:
        String)
        ensures
            final(self)@ == old(self)@.with_file(
                original_path@,
                FileInfoView {
                    id: id@,
                    original_path: original_path@,
                    synced_path: synced_path@,
                    is_directory,
                },
            ),
            !old(self)@.holds_id(id@),
            id@.len() >= 36,
    {
        let id = self.unused_id();
        self.add_file_with_id(id.clone(), original_path, synced_path, is_directory);
        id
    }

    /// Takes the entry for `original_path` out of the record and returns it.
    pub fn remove_file(&mut self, original_path: &str) -> (removed: Option<FileInfo>)
        ensures
            final(self)@ == old(self)@.without_file(original_path@),
            opt_value_view(removed) == old(self)@.file(original_path@),
    {
        self.files.remove(original_path)
    }

    /// The entry for `original_path`, if there is one.
    pub fn get_file(&self, original_path: &str) -> (found: Option<&FileInfo>)
        ensures
            opt_ref_view(found) == self@.file(original_path@),
    {
        self.files.get(original_path)
    }

    /// The number of tracked files.
    pub fn len(&self) -> (n: usize)
        ensures
            n == self@.count(),
            self@.files.dom().finite(),
    {
        self.files.len()
    }

    /// Whether nothing is tracked.
    pub fn is_empty(&self) -> (empty: bool)
        ensures
            empty == (self@.count() == 0),
            empty == (self@.files == Map::<Seq<char>, FileInfoView>::empty()),
            self@.files.dom().finite(),
    {
        proof {
            if self@.files.dom().finite() && self@.files.dom().len() == 0 {
                assert(self@.files.dom() =~= Set::<Seq<char>>::empty());
                assert(self@.files =~= Map::<Seq<char>, FileInfoView>::empty());
            }
        }
        self.files.len() == 0
    }
}

/// Adding an entry and then asking for its path gives back what was added,
/// and adding under a path that is already recorded replaces the entry
/// without changing how many there are. Other paths are not touched.
pub proof fn lemma_add_then_get(
    record: MetadataView,
    key: Seq<char>,
    first: FileInfoView,
    second: FileInfoView,
)
    ensures
        record.with_file(key, first).file(key) == Some(first),
        record.with_file(key, first).with_file(key, second).file(key) == Some(second),
        record.with_file(key, first).with_file(key, second).count() == record.with_file(
            key,
            first,
        ).count(),
        record.files.dom().contains(key) ==> record.with_file(key, first).count()
            == record.count(),
        forall|other: Seq<char>|
            other != key ==> #[trigger] record.with_file(key, first).file(other) == record.file(
                other,
            ),
{
    assert(record.with_file(key, first).with_file(key, second).files.dom() =~= record.with_file(
        key,
        first,
    ).files.dom());
    if record.files.dom().contains(key) {
        assert(record.with_file(key, first).files.dom() =~= record.files.dom());
    }
}

/// Removing a path leaves nothing recorded for it and touches no other path.
pub proof fn lemma_remove_then_get(record: MetadataView, key: Seq<char>)
    ensures
        record.without_file(key).file(key) is None,
        forall|other: Seq<char>|
            other != key ==> #[trigger] record.without_file(key).file(other) == record.file(other),
{
}

} // verus!
