//! The summary of all repositories that gitbox knows of.
//!
//! The summary is a cache. What is on disk decides: before the summary is
//! used it is rebuilt from a scan of the repository root, and only the
//! creation times of repositories that are still there are carried over.

use vstd::prelude::*;
use crate::clock::{now, Timestamp};
use crate::config::{gitbox_dir_of, home_dir, Config};
use crate::keyed::{lookup, NameMap};
use crate::paths::{join_path, path_join};
use crate::text::{clone_opt, opt_view};

verus! {

/// What the summary holds for one repository.
#[derive(Debug)]
pub struct RepoInfo {
    pub name: String,
    pub created_at: Timestamp,
    pub last_updated: Timestamp,
    /// The number of entries in the repository's `files` directory.
    pub file_count: usize,
    /// The address of the repository's remote, if one is known.
    pub remote_url: Option<String>,
}

/// The mathematical content of a [`RepoInfo`].
pub struct RepoInfoView {
    pub name: Seq<char>,
    pub created_at: Timestamp,
    pub last_updated: Timestamp,
    pub file_count: usize,
    pub remote_url: Option<Seq<char>>,
}

impl View for RepoInfo {
    type V = RepoInfoView;

    open spec fn view(&self) -> RepoInfoView {
        RepoInfoView {
            name: self.name@,
            created_at: self.created_at,
            last_updated: self.last_updated,
            file_count: self.file_count,
            remote_url: opt_view(self.remote_url),
        }
    }
}

/// What a scan of the repository root found for one repository.
#[derive(Debug)]
pub struct FoundRepo {
    /// The name of the repository's directory.
    pub name: String,
    /// The number of entries in its `files` directory; 0 if it has none.
    pub file_count: usize,
    /// The address of its remote, if the query for it succeeded.
    pub remote_url: Option<String>,
}

/// The mathematical content of a [`FoundRepo`].
pub struct FoundRepoView {
    pub name: Seq<char>,
    pub file_count: usize,
    pub remote_url: Option<Seq<char>>,
}

impl View for FoundRepo {
    type V = FoundRepoView;

    open spec fn view(&self) -> FoundRepoView {
        FoundRepoView {
            name: self.name@,
            file_count: self.file_count,
            remote_url: opt_view(self.remote_url),
        }
    }
}

/// The views of a list of scan results, in order.
pub open spec fn found_views(found: Seq<FoundRepo>) -> Seq<FoundRepoView> {
    found.map_values(|f: FoundRepo| f@)
}

/// The views of a scan: `None` when the repository root does not exist.
pub open spec fn scan_view(scan: Option<Vec<FoundRepo>>) -> Option<Seq<FoundRepoView>> {
    match scan {
        Some(found) => Some(found_views(found@)),
        None => None,
    }
}

/// What is on disk according to a scan: what the scan found, and nothing
/// where there is no repository root.
pub open spec fn on_disk(scan: Option<Seq<FoundRepoView>>) -> Seq<FoundRepoView> {
    match scan {
        Some(found) => found,
        None => Seq::empty(),
    }
}

/// The sum of the file counts of a scan.
pub open spec fn total_count(found: Seq<FoundRepoView>) -> nat
    decreases found.len(),
{
    if found.len() == 0 {
        0
    } else {
        total_count(found.drop_last()) + found.last().file_count as nat
    }
}

/// The entry for a repository that a scan found: what the scan saw, with the
/// creation time of the entry known before, if there was one. Where the scan
/// learned of no remote, none is known, whatever was known before.
pub open spec fn merged_entry(
    known: Map<Seq<char>, RepoInfoView>,
    found: FoundRepoView,
    now: Timestamp,
) -> RepoInfoView {
    RepoInfoView {
        name: found.name,
        created_at: match lookup(known, found.name) {
            Some(before) => before.created_at,
            None => now,
        },
        last_updated: now,
        file_count: found.file_count,
        remote_url: found.remote_url,
    }
}

/// The repositories after a scan: exactly those that the scan found.
pub open spec fn reconciled(
    known: Map<Seq<char>, RepoInfoView>,
    found: Seq<FoundRepoView>,
    now: Timestamp,
) -> Map<Seq<char>, RepoInfoView>
    decreases found.len(),
{
    if found.len() == 0 {
        Map::empty()
    } else {
        reconciled(known, found.drop_last(), now).insert(
            found.last().name,
            merged_entry(known, found.last(), now),
        )
    }
}

/// `total` less `count`, but never below zero.
pub open spec fn less(total: usize, count: usize) -> usize {
    if count >= total {
        0
    } else {
        (total - count) as usize
    }
}

/// The summary of all repositories.
#[derive(Debug)]
pub struct AppInfo {
    pub version: String,
    pub created_at: Timestamp,
    pub last_updated: Timestamp,
    pub repositories: NameMap<RepoInfo>,
    pub total_repos: usize,
    pub total_files: usize,
}

/// The mathematical content of an [`AppInfo`].
pub struct AppInfoView {
    pub version: Seq<char>,
    pub created_at: Timestamp,
    pub last_updated: Timestamp,
    pub repositories: Map<Seq<char>, RepoInfoView>,
    pub total_repos: usize,
    pub total_files: usize,
}

impl View for AppInfo {
    type V = AppInfoView;

    open spec fn view(&self) -> AppInfoView {
        AppInfoView {
            version: self.version@,
            created_at: self.created_at,
            last_updated: self.last_updated,
            repositories: self.repositories@,
            total_repos: self.total_repos,
            total_files: self.total_files,
        }
    }
}

impl AppInfoView {
    /// The summary after the repository `name` was created at `now`. An
    /// entry of that name is replaced; the total of files is left alone.
    pub open spec fn with_repository(
        self,
        name: Seq<char>,
        remote_url: Option<Seq<char>>,
        now: Timestamp,
    ) -> AppInfoView {
        let repositories = self.repositories.insert(
            name,
            RepoInfoView { name, created_at: now, last_updated: now, file_count: 0, remote_url },
        );
        AppInfoView {
            repositories,
            total_repos: repositories.dom().len() as usize,
            last_updated: now,
            ..self
        }
    }

    /// The summary after the repository `name` was deleted at `now`. The
    /// total of files goes down by the files of that repository.
    pub open spec fn without_repository(self, name: Seq<char>, now: Timestamp) -> AppInfoView {
        let repositories = self.repositories.remove(name);
        AppInfoView {
            repositories,
            total_repos: repositories.dom().len() as usize,
            total_files: match lookup(self.repositories, name) {
                Some(info) => less(self.total_files, info.file_count),
                None => self.total_files,
            },
            last_updated: now,
            ..self
        }
    }

    /// The total of files after the repository `name` was counted anew.
    pub open spec fn recounted_total(self, name: Seq<char>, file_count: usize) -> int {
        match lookup(self.repositories, name) {
            Some(info) => less(self.total_files, info.file_count) + file_count,
            None => self.total_files as int,
        }
    }

    /// The summary after the files of the repository `name` were counted at
    /// `now`. Nothing changes when the summary has no such repository.
    pub open spec fn with_file_count(self, name: Seq<char>, file_count: usize, now: Timestamp) -> AppInfoView {
        match lookup(self.repositories, name) {
            Some(info) => AppInfoView {
                repositories: self.repositories.insert(
                    name,
                    RepoInfoView { file_count, last_updated: now, ..info },
                ),
                total_files: self.recounted_total(name, file_count) as usize,
                last_updated: now,
                ..self
            },
            None => self,
        }
    }

    /// The summary after a scan of the repository root at `now`. The
    /// repositories are exactly those that the scan found, and the totals
    /// are theirs; without a repository root nothing is on disk, so the
    /// summary is empty.
    pub open spec fn refreshed(self, scan: Option<Seq<FoundRepoView>>, now: Timestamp) -> AppInfoView {
        let found = on_disk(scan);
        let repositories = reconciled(self.repositories, found, now);
        AppInfoView {
            repositories,
            total_repos: repositories.dom().len() as usize,
            total_files: total_count(found) as usize,
            last_updated: now,
            ..self
        }
    }
}

/// The file that holds the summary, for a user whose home directory is
/// `home`.
pub open spec fn info_path_of(home: Seq<char>) -> Seq<char> {
    path_join(gitbox_dir_of(home), "info.json"@)
}

/// The files of the first part of a scan are no more than the files of the
/// whole scan.
pub proof fn lemma_total_count_grows(found: Seq<FoundRepoView>, i: int)
    requires
        0 <= i <= found.len(),
    ensures
        total_count(found.take(i)) <= total_count(found),
    decreases found.len() - i,
{
    if i < found.len() {
        lemma_total_count_grows(found, i + 1);
        assert(found.take(i + 1).drop_last() =~= found.take(i));
    } else {
        assert(found.take(i) =~= found);
    }
}

impl AppInfo {
    /// The file that holds the summary, under `home`.
    pub fn info_path_under(home: &str) -> (path: String)
        ensures
            path@ == info_path_of(home@),
    {
        let dir = Config::gitbox_dir_under(home);
        join_path(dir.as_str(), "info.json")
    }

    /// The file that holds the summary, given the user's home directory as
    /// the environment tells it: there is one exactly when there is a home
    /// directory.
    pub fn info_path_for(home: Option<String>) -> (path: Option<String>)
        ensures
            match home {
                Some(h) => path matches Some(p) && p@ == info_path_of(h@),
                None => path is None,
            },
    {
        match home {
            Some(h) => Some(AppInfo::info_path_under(h.as_str())),
            None => None,
        }
    }

    /// The file that holds the summary of the current user; `None` when the
    /// user has no home directory.
    pub fn info_path() -> (path: Option<String>)
        ensures
            path matches Some(p) ==> exists|home: Seq<char>| p@ == info_path_of(home),
    {
        AppInfo::info_path_for(home_dir())
    }

    /// An empty summary made at `now` by the program version `version`.
    pub fn new_at(version: &str, now: Timestamp) -> (info: AppInfo)
        ensures
            info@ == (AppInfoView {
                version: version@,
                created_at: now,
                last_updated: now,
                repositories: Map::empty(),
                total_repos: 0,
                total_files: 0,
            }),
    {
        AppInfo {
            version: version.to_owned(),
            created_at: now,
            last_updated: now,
            repositories: NameMap::new(),
            total_repos: 0,
            total_files: 0,
        }
    }

    /// An empty summary made now.
    pub fn new(version: &str) -> (info: AppInfo)
        ensures
            info@.version == version@,
            info@.created_at == info@.last_updated,
            info@.repositories == Map::<Seq<char>, RepoInfoView>::empty(),
            info@.total_repos == 0,
            info@.total_files == 0,
    {
        AppInfo::new_at(version, now())
    }

    /// Records that the repository `name` was created at `now`.
    pub fn add_repository_at(&mut self, name: &str, remote_url: Option<String>, now: Timestamp)
        ensures
            final(self)@ == old(self)@.with_repository(name@, opt_view(remote_url), now),
    {
        let info = RepoInfo {
            name: name.to_owned(),
            created_at: now,
            last_updated: now,
            file_count: 0,
            remote_url,
        };
        self.repositories.insert(name, info);
        self.total_repos = self.repositories.len();
        self.last_updated = now;
    }

    /// Records that the repository `name` was created just now.
    pub fn add_repository(&mut self, name: &str, remote_url: Option<String>)
        ensures
            exists|now: Timestamp|
                final(self)@ == old(self)@.with_repository(name@, opt_view(remote_url), now),
    {
        let at = now();
        self.add_repository_at(name, remote_url, at);
    }

    /// Records that the repository `name` was deleted at `now`.
    pub fn remove_repository_at(&mut self, name: &str, now: Timestamp)
        ensures
            final(self)@ == old(self)@.without_repository(name@, now),
    {
        match self.repositories.remove(name) {
            Some(info) => {
                self.total_files = self.total_files.saturating_sub(info.file_count);
            },
            None => {},
        }
        self.total_repos = self.repositories.len();
        self.last_updated = now;
    }

    /// Records that the repository `name` was deleted just now.
    pub fn remove_repository(&mut self, name: &str)
        ensures
            exists|now: Timestamp| final(self)@ == old(self)@.without_repository(name@, now),
    {
        let at = now();
        self.remove_repository_at(name, at);
    }

    /// Records that the repository `name` held `file_count` files at `now`.
    pub fn update_repository_at(&mut self, name: &str, file_count: usize, now: Timestamp)
        requires
            old(self)@.recounted_total(name@, file_count) <= usize::MAX,
        ensures
            final(self)@ == old(self)@.with_file_count(name@, file_count, now),
    {
        let updated = match self.repositories.get(name) {
            Some(info) => Some(
                (
                    RepoInfo {
                        name: info.name.clone(),
                        created_at: info.created_at,
                        last_updated: now,
                        file_count,
                        remote_url: clone_opt(&info.remote_url),
                    },
                    info.file_count,
                ),
            ),
            None => None,
        };
        match updated {
            Some((info, old_count)) => {
                self.repositories.insert(name, info);
                self.total_files = self.total_files.saturating_sub(old_count) + file_count;
                self.last_updated = now;
            },
            None => {},
        }
    }

    /// Records that the repository `name` holds `file_count` files just now.
    pub fn update_repository(&mut self, name: &str, file_count: usize)
        requires
            old(self)@.recounted_total(name@, file_count) <= usize::MAX,
        ensures
            exists|now: Timestamp|
                final(self)@ == old(self)@.with_file_count(name@, file_count, now),
    {
        let at = now();
        self.update_repository_at(name, file_count, at);
    }

    /// Rebuilds the summary from a scan of the repository root made just
    /// now. `scan` is `None` when the repository root does not exist.
    pub fn refresh_from_disk(&mut self, scan: Option<Vec<FoundRepo>>)
        requires
            scan matches Some(found) ==> total_count(found_views(found@)) <= usize::MAX,
        ensures
            exists|now: Timestamp| final(self)@ == old(self)@.refreshed(scan_view(scan), now),
    {
        let at = now();
        self.refresh_from_disk_at(scan, at);
    }

    /// Rebuilds the summary from a scan of the repository root made at `now`.
    /// `scan` is `None` when the repository root does not exist; nothing is
    /// on disk then, and the summary becomes empty.
    pub fn refresh_from_disk_at(&mut self, scan: Option<Vec<FoundRepo>>, now: Timestamp)
        requires
            scan matches Some(found) ==> total_count(found_views(found@)) <= usize::MAX,
        ensures
            final(self)@ == old(self)@.refreshed(scan_view(scan), now),
    {
        let found: Vec<FoundRepo> = match scan {
            Some(found) => found,
            None => Vec::new(),
        };
        let ghost all = found_views(found@);
        let ghost known = self.repositories@;
        let mut fresh: NameMap<RepoInfo> = NameMap::new();
        let mut total: usize = 0;
        let mut i: usize = 0;
        proof {
            assert(all =~= on_disk(scan_view(scan)));
            assert(all.take(0) =~= Seq::<FoundRepoView>::empty());
        }
        while i < found.len()
            invariant
                i <= found@.len(),
                all == found_views(found@),
                known == self.repositories@,
                total_count(all) <= usize::MAX,
                fresh@ == reconciled(known, all.take(i as int), now),
                total == total_count(all.take(i as int)),
            decreases found@.len() - i,
        {
            let f = &found[i];
            let created_at = match self.repositories.get(f.name.as_str()) {
                Some(before) => before.created_at,
                None => now,
            };
            let info = RepoInfo {
                name: f.name.clone(),
                created_at,
                last_updated: now,
                file_count: f.file_count,
                remote_url: clone_opt(&f.remote_url),
            };
            proof {
                assert(all[i as int] == f@);
                assert(all.take(i + 1).drop_last() =~= all.take(i as int));
                assert(all.take(i + 1).last() == f@);
                assert(info@ == merged_entry(known, f@, now));
                lemma_total_count_grows(all, i + 1);
            }
            fresh.insert(f.name.as_str(), info);
            total = total + f.file_count;
            i += 1;
        }
        proof {
            assert(all.take(found@.len() as int) =~= all);
        }
        self.repositories = fresh;
        self.total_repos = self.repositories.len();
        self.total_files = total;
        self.last_updated = now;
    }

    /// The names of the repositories in the summary, in no particular order.
    pub fn repository_names(&self) -> (names: Vec<String>)
        ensures
            names@.len() == self@.repositories.dom().len(),
            forall|name: Seq<char>|
                self@.repositories.dom().contains(name) <==> crate::text::views(names@).contains(
                    name,
                ),
    {
        let entries = self.repositories.entries();
        let mut names: Vec<String> = Vec::new();
        let mut i: usize = 0;
        while i < entries.len()
            invariant
                i <= entries@.len(),
                names@.len() == i,
                forall|j: int| 0 <= j < i ==> (#[trigger] names@[j])@ == entries@[j].key@,
            decreases entries@.len() - i,
        {
            names.push(entries[i].key.clone());
            i += 1;
        }
        proof {
            crate::keyed::lemma_entry_count(entries@);
            assert(crate::text::views(names@) =~= crate::keyed::keys_of(entries@));
        }
        names
    }
}

/// After a scan that found no repository the summary is empty, whatever it
/// held before; and so it is where there is no repository root at all.
pub proof fn lemma_refresh_of_empty_root(before: AppInfoView, now: Timestamp)
    ensures
        before.refreshed(Some(Seq::empty()), now).total_repos == 0,
        before.refreshed(Some(Seq::empty()), now).total_files == 0,
        before.refreshed(Some(Seq::empty()), now).repositories == Map::<
            Seq<char>,
            RepoInfoView,
        >::empty(),
        before.refreshed(None, now) == before.refreshed(Some(Seq::empty()), now),
{
}

/// A repository that a scan found has the remote that the scan learned of,
/// and none where the query for it failed, whatever was known before.
pub proof fn lemma_refresh_forgets_unconfirmed_remote(
    known: Map<Seq<char>, RepoInfoView>,
    found: Seq<FoundRepoView>,
    now: Timestamp,
    i: int,
)
    requires
        0 <= i < found.len(),
        forall|j: int| i < j < found.len() ==> (#[trigger] found[j]).name != found[i].name,
    ensures
        reconciled(known, found, now).dom().contains(found[i].name),
        reconciled(known, found, now)[found[i].name].remote_url == found[i].remote_url,
        reconciled(known, found, now)[found[i].name].file_count == found[i].file_count,
    decreases found.len(),
{
    if i < found.len() - 1 {
        assert(found[found.len() - 1].name != found[i].name);
        assert forall|j: int| i < j < found.drop_last().len() implies (#[trigger] found.drop_last()[j]).name
            != found.drop_last()[i].name by {
            assert(found[j].name != found[i].name);
        }
        lemma_refresh_forgets_unconfirmed_remote(known, found.drop_last(), now, i);
    }
}

/// After a scan the summary holds exactly the repositories that the scan
/// found: what is no longer on disk is dropped, whatever the summary held
/// before.
pub proof fn lemma_refresh_keeps_what_is_on_disk(
    known: Map<Seq<char>, RepoInfoView>,
    found: Seq<FoundRepoView>,
    now: Timestamp,
    name: Seq<char>,
)
    ensures
        reconciled(known, found, now).dom().contains(name) <==> exists|i: int|
            0 <= i < found.len() && (#[trigger] found[i]).name == name,
        reconciled(known, found, now).dom().finite(),
        reconciled(known, found, now).dom().len() <= found.len(),
    decreases found.len(),
{
    if found.len() > 0 {
        let front = found.drop_last();
        lemma_refresh_keeps_what_is_on_disk(known, front, now, name);
        if reconciled(known, found, now).dom().contains(name) {
            if name == found.last().name {
                assert(found[found.len() - 1].name == name);
            } else {
                let i = choose|i: int| 0 <= i < front.len() && (#[trigger] front[i]).name == name;
                assert(found[i].name == name);
            }
        }
        if exists|i: int| 0 <= i < found.len() && (#[trigger] found[i]).name == name {
            let i = choose|i: int| 0 <= i < found.len() && (#[trigger] found[i]).name == name;
            if i < found.len() - 1 {
                assert(front[i].name == name);
            }
        }
    }
}

/// A repository that was known before a scan and is found by it keeps its
/// creation time; one that is new gets the time of the scan.
pub proof fn lemma_refresh_preserves_creation_time(
    known: Map<Seq<char>, RepoInfoView>,
    found: Seq<FoundRepoView>,
    now: Timestamp,
    name: Seq<char>,
)
    requires
        reconciled(known, found, now).dom().contains(name),
    ensures
        reconciled(known, found, now)[name].created_at == (if known.dom().contains(name) {
            known[name].created_at
        } else {
            now
        }),
        reconciled(known, found, now)[name].name == name,
        reconciled(known, found, now)[name].last_updated == now,
    decreases found.len(),
{
    if found.len() > 0 {
        if name != found.last().name {
            lemma_refresh_preserves_creation_time(known, found.drop_last(), now, name);
        }
    }
}

} // verus!
