//! The description of a repository that is shown to the user.

use vstd::prelude::*;
use vstd::string::*;
use crate::keyed::{pairs_of, Keyed};
use crate::metadata::{FileInfo, FileInfoView, GitboxMetadata};
use crate::text::{opt_view, str_eq};

verus! {

/// What `str::trim_end` returns for a string: the string without its
/// trailing Unicode white space.
pub uninterp spec fn trimmed_end(s: Seq<char>) -> Seq<char>;

/// What the `Debug` form of a path reads: the path between double quotes,
/// with escapes where needed.
pub uninterp spec fn path_debug(path: Seq<char>) -> Seq<char>;

/// What `str::lines` yields first for a text: its first line without the
/// line ending, or `None` for the empty text.
pub uninterp spec fn first_line_of(text: Seq<char>) -> Option<Seq<char>>;

/// Calls `str::trim_end`; the result is named by [`trimmed_end`].
#[verifier::external_body]
fn str_trim_end(s: &str) -> (t: &str)
    ensures
        t@ == trimmed_end(s@),
{
    s.trim_end()
}

/// Formats a path with `{:?}`; the result is named by [`path_debug`].
#[verifier::external_body]
fn debug_path(path: &str) -> (text: String)
    ensures
        text@ == path_debug(path@),
{
    format!("{:?}", std::path::Path::new(path))
}

/// Calls `str::lines` and takes the first item; the result is named by
/// [`first_line_of`].
#[verifier::external_body]
fn first_line(text: &str) -> (line: Option<String>)
    ensures
        opt_view(line) == first_line_of(text@),
{
    match text.lines().next() {
        Some(l) => Some(l.to_owned()),
        None => None,
    }
}

/// The character that stands for a decimal digit.
pub open spec fn digit_char(d: nat) -> char {
    if d == 0 {
        '0'
    } else if d == 1 {
        '1'
    } else if d == 2 {
        '2'
    } else if d == 3 {
        '3'
    } else if d == 4 {
        '4'
    } else if d == 5 {
        '5'
    } else if d == 6 {
        '6'
    } else if d == 7 {
        '7'
    } else if d == 8 {
        '8'
    } else {
        '9'
    }
}

/// A number in decimal notation.
pub open spec fn decimal(n: nat) -> Seq<char>
    decreases n,
{
    if n < 10 {
        seq![digit_char(n)]
    } else {
        decimal(n / 10).push(digit_char(n % 10))
    }
}

/// The latest commit of a repository.
#[derive(Debug)]
pub struct CommitFacts {
    /// The commit's identifier in hexadecimal notation.
    pub id: String,
    /// The commit's message, if it is readable.
    pub message: Option<String>,
}

/// What the version-control engine tells about a repository. Each part is
/// `None` where the engine could not tell.
#[derive(Debug)]
pub struct GitFacts {
    pub remote_url: Option<String>,
    pub branch: Option<String>,
    pub latest_commit: Option<CommitFacts>,
}

/// The mathematical content of a [`CommitFacts`].
pub struct CommitFactsView {
    pub id: Seq<char>,
    pub message: Option<Seq<char>>,
}

/// The mathematical content of a [`GitFacts`].
pub struct GitFactsView {
    pub remote_url: Option<Seq<char>>,
    pub branch: Option<Seq<char>>,
    pub latest_commit: Option<CommitFactsView>,
}

impl View for CommitFacts {
    type V = CommitFactsView;

    open spec fn view(&self) -> CommitFactsView {
        CommitFactsView { id: self.id@, message: opt_view(self.message) }
    }
}

impl View for GitFacts {
    type V = GitFactsView;

    open spec fn view(&self) -> GitFactsView {
        GitFactsView {
            remote_url: opt_view(self.remote_url),
            branch: opt_view(self.branch),
            latest_commit: match self.latest_commit {
                Some(c) => Some(c@),
                None => None,
            },
        }
    }
}

/// The kind of a tracked object, as a word.
pub open spec fn kind_word(is_directory: bool) -> Seq<char> {
    if is_directory {
        "dir"@
    } else {
        "file"@
    }
}

/// The line that shows one tracked file, after `indent`.
pub open spec fn entry_line(indent: Seq<char>, key: Seq<char>, info: FileInfoView) -> Seq<char> {
    indent + key + " -> "@ + info.synced_path + " ("@ + kind_word(info.is_directory) + ")"@
}

/// The lines that show the tracked files, each after two spaces and ended
/// by a line feed.
pub open spec fn entry_lines(listing: Seq<(Seq<char>, FileInfoView)>) -> Seq<char>
    decreases listing.len(),
{
    if listing.len() == 0 {
        Seq::empty()
    } else {
        entry_lines(listing.drop_last()) + entry_line("  "@, listing.last().0, listing.last().1)
            + "\n"@
    }
}

/// The first lines of the description: which repository it is and where.
pub open spec fn heading(requested: Seq<char>, actual: Seq<char>, path: Seq<char>) -> Seq<char> {
    (if actual != requested {
        "Found repository '"@ + actual + "' matching '"@ + requested + "'\n"@
    } else {
        Seq::empty()
    }) + "Repository: "@ + actual + "\n"@ + "Path: "@ + path_debug(path) + "\n"@
}

/// The first eight characters of a commit's identifier.
pub open spec fn short_id(id: Seq<char>) -> Seq<char> {
    if id.len() >= 8 {
        id.subrange(0, 8)
    } else {
        id
    }
}

/// The first line of a commit's message, or a note that there is none.
pub open spec fn summary_of(message: Option<Seq<char>>) -> Seq<char> {
    match message {
        None => "(no message)"@,
        Some(text) => match first_line_of(text) {
            None => "(no message)"@,
            Some(line) => line,
        },
    }
}

/// The lines that show what the version-control engine told.
pub open spec fn git_lines(facts: GitFactsView) -> Seq<char> {
    (match facts.remote_url {
        Some(url) => "Remote URL: "@ + url + "\n"@,
        None => Seq::empty(),
    }) + (match facts.branch {
        Some(name) => "Branch: "@ + name + "\n"@,
        None => Seq::empty(),
    }) + (match facts.latest_commit {
        Some(commit) => "Latest commit: "@ + short_id(commit.id) + " - "@ + summary_of(
            commit.message,
        ) + "\n"@,
        None => Seq::empty(),
    })
}

/// The lines that show the record of the repository.
pub open spec fn record_lines(listing: Option<Seq<(Seq<char>, FileInfoView)>>) -> Seq<char> {
    match listing {
        None => Seq::empty(),
        Some(entries) => "Tracked files: "@ + decimal(entries.len()) + "\n"@ + (if entries.len()
            == 0 {
            Seq::empty()
        } else {
            "Files:\n"@ + entry_lines(entries)
        }),
    }
}

/// The description of a repository.
pub open spec fn repo_info_spec(
    requested: Seq<char>,
    actual: Seq<char>,
    path: Seq<char>,
    facts: GitFactsView,
    synced_files: nat,
    listing: Option<Seq<(Seq<char>, FileInfoView)>>,
) -> Seq<char> {
    trimmed_end(
        heading(requested, actual, path) + git_lines(facts) + ("Synced files: "@ + decimal(
            synced_files,
        ) + "\n"@) + record_lines(listing),
    )
}

/// The entries of an optional record, in the order in which it hands them
/// out.
pub open spec fn opt_listing(record: Option<&GitboxMetadata>) -> Option<
    Seq<(Seq<char>, FileInfoView)>,
> {
    match record {
        Some(r) => Some(r.files.listing()),
        None => None,
    }
}

/// The character that stands for the digit `d`, as text.
fn digit_text(d: usize) -> (text: &'static str)
    requires
        d < 10,
    ensures
        text@ == seq![digit_char(d as nat)],
{
    proof {
        reveal_strlit("0");
        reveal_strlit("1");
        reveal_strlit("2");
        reveal_strlit("3");
        reveal_strlit("4");
        reveal_strlit("5");
        reveal_strlit("6");
        reveal_strlit("7");
        reveal_strlit("8");
        reveal_strlit("9");
    }
    let text = if d == 0 {
        "0"
    } else if d == 1 {
        "1"
    } else if d == 2 {
        "2"
    } else if d == 3 {
        "3"
    } else if d == 4 {
        "4"
    } else if d == 5 {
        "5"
    } else if d == 6 {
        "6"
    } else if d == 7 {
        "7"
    } else if d == 8 {
        "8"
    } else {
        "9"
    };
    proof {
        assert(text@ =~= seq![digit_char(d as nat)]);
    }
    text
}

/// Writes a number in decimal notation.
pub fn decimal_text(n: usize) -> (text: String)
    ensures
        text@ == decimal(n as nat),
    decreases n,
{
    if n < 10 {
        digit_text(n).to_owned()
    } else {
        let mut text = decimal_text(n / 10);
        text.append(digit_text(n % 10));
        text
    }
}

/// The kind of a tracked object, as a word.
fn kind_text(is_directory: bool) -> (word: &'static str)
    ensures
        word@ == kind_word(is_directory),
{
    if is_directory {
        "dir"
    } else {
        "file"
    }
}

/// Writes the line that shows one tracked file, after `indent`. The line is
/// not ended.
pub fn describe_entry(indent: &str, key: &str, info: &FileInfo) -> (line: String)
    ensures
        line@ == entry_line(indent@, key@, info@),
{
    let mut line = String::from_str(indent);
    line.append(key);
    line.append(" -> ");
    line.append(info.synced_path.as_str());
    line.append(" (");
    line.append(kind_text(info.is_directory));
    line.append(")");
    line
}

/// Writes the lines that show the tracked files.
fn describe_entries(entries: &Vec<Keyed<FileInfo>>) -> (text: String)
    ensures
        text@ == entry_lines(pairs_of(entries@)),
{
    let ghost listing = pairs_of(entries@);
    let mut text = String::new();
    let mut i: usize = 0;
    proof {
        assert(listing.take(0) =~= Seq::<(Seq<char>, FileInfoView)>::empty());
    }
    while i < entries.len()
        invariant
            i <= entries@.len(),
            listing == pairs_of(entries@),
            text@ == entry_lines(listing.take(i as int)),
        decreases entries@.len() - i,
    {
        proof {
            assert(listing.take(i + 1).drop_last() =~= listing.take(i as int));
            assert(listing.take(i + 1).last() == (entries@[i as int].key@, entries@[i as int].value@));
        }
        let line = describe_entry("  ", entries[i].key.as_str(), &entries[i].value);
        text.append(line.as_str());
        text.append("\n");
        i += 1;
    }
    proof {
        assert(listing.take(entries@.len() as int) =~= listing);
    }
    text
}

/// Writes the first lines of the description.
fn describe_heading(requested: &str, actual: &str, path: &str) -> (text: String)
    ensures
        text@ == heading(requested@, actual@, path@),
{
    let mut text = String::new();
    if !str_eq(actual, requested) {
        text.append("Found repository '");
        text.append(actual);
        text.append("' matching '");
        text.append(requested);
        text.append("'\n");
    }
    text.append("Repository: ");
    text.append(actual);
    text.append("\n");
    text.append("Path: ");
    let quoted = debug_path(path);
    text.append(quoted.as_str());
    text.append("\n");
    proof {
        assert(text@ =~= heading(requested@, actual@, path@));
    }
    text
}

/// Writes the lines that show what the version-control engine told.
fn describe_git(facts: &GitFacts) -> (text: String)
    ensures
        text@ == git_lines(facts@),
{
    let mut text = String::new();
    match &facts.remote_url {
        Some(url) => {
            text.append("Remote URL: ");
            text.append(url.as_str());
            text.append("\n");
        },
        None => {},
    }
    match &facts.branch {
        Some(name) => {
            text.append("Branch: ");
            text.append(name.as_str());
            text.append("\n");
        },
        None => {},
    }
    match &facts.latest_commit {
        Some(commit) => {
            text.append("Latest commit: ");
            let id = commit.id.as_str();
            if id.unicode_len() >= 8 {
                text.append(id.substring_char(0, 8));
            } else {
                text.append(id);
            }
            text.append(" - ");
            let line = match &commit.message {
                None => None,
                Some(message) => first_line(message.as_str()),
            };
            match line {
                None => text.append("(no message)"),
                Some(l) => text.append(l.as_str()),
            }
            text.append("\n");
        },
        None => {},
    }
    proof {
        assert(text@ =~= git_lines(facts@));
    }
    text
}

/// Writes the description of a repository.
///
/// `requested` is the name that the user gave and `actual` the name that it
/// was resolved to; `path` is the repository's directory; `synced_files` is
/// the number of entries in its `files` directory; `record` is its own
/// metadata record, or `None` where that could not be read.
pub fn get_repo_info(
    requested: &str,
    actual: &str,
    path: &str,
    facts: &GitFacts,
    synced_files: usize,
    record: Option<&GitboxMetadata>,
) -> (info: String)
    ensures
        info@ == repo_info_spec(
            requested@,
            actual@,
            path@,
            facts@,
            synced_files as nat,
            opt_listing(record),
        ),
{
    let mut text = describe_heading(requested, actual, path);
    let git = describe_git(facts);
    text.append(git.as_str());
    text.append("Synced files: ");
    let count = decimal_text(synced_files);
    text.append(count.as_str());
    text.append("\n");
    match record {
        None => {},
        Some(r) => {
            let entries = r.files.entries();
            text.append("Tracked files: ");
            let recorded = decimal_text(entries.len());
            text.append(recorded.as_str());
            text.append("\n");
            if entries.len() > 0 {
                text.append("Files:\n");
                let lines = describe_entries(entries);
                text.append(lines.as_str());
            }
        },
    }
    proof {
        assert(text@ =~= heading(requested@, actual@, path@) + git_lines(facts@) + (
        "Synced files: "@ + decimal(synced_files as nat) + "\n"@) + record_lines(
            opt_listing(record),
        ));
    }
    str_trim_end(text.as_str()).to_owned()
}

} // verus!
