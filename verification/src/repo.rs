//! The context in which every operation on repositories runs: the user's
//! configuration together with the summary of all repositories.

use vstd::prelude::*;
use crate::appinfo::{found_views, scan_view, total_count, AppInfo, FoundRepo};
use crate::clock::Timestamp;
use crate::command::Outcome;
use crate::config::Config;
use crate::creation::{
    create_next, create_next_spec, name_problem, CreateStage, CreateStep, CreateStepView,
};
use crate::deletion::{
    dangling_dirs, dangling_link_dirs, delete_next, delete_next_spec, DeleteStage, DeleteStep,
    DeleteStepView, Deletion,
};
use crate::error::{ErrorView, GitboxError};
use crate::metadata::GitboxMetadata;
use crate::paths::path_join;
use crate::tracking::{adopt_next, adopt_next_spec, AdoptStage, AdoptStep, AdoptStepView, Adoption};
use crate::protocol::{sync_command, sync_next, sync_next_spec, SyncStage, SyncStep};
use crate::resolver::{resolve, resolve_spec};
use crate::text::{str_eq, views};

verus! {

/// A repository that a partial name was resolved to.
#[derive(Debug)]
pub struct Located {
    /// The repository's full name.
    pub name: String,
    /// The repository's directory.
    pub path: String,
    /// Whether the full name differs from the name that was asked for,
    /// which is worth telling the user.
    pub renamed: bool,
}

/// The mathematical content of a [`Located`].
pub struct LocatedView {
    pub name: Seq<char>,
    pub path: Seq<char>,
    pub renamed: bool,
}

impl View for Located {
    type V = LocatedView;

    open spec fn view(&self) -> LocatedView {
        LocatedView { name: self.name@, path: self.path@, renamed: self.renamed }
    }
}

/// The repository that `partial` stands for among `known`, with its
/// directory under the repository root `repos_dir`.
pub open spec fn locate_spec(repos_dir: Seq<char>, partial: Seq<char>, known: Seq<Seq<char>>) -> Result<
    LocatedView,
    ErrorView,
> {
    match resolve_spec(partial, known) {
        Ok(name) => Ok(
            LocatedView { name, path: path_join(repos_dir, name), renamed: name != partial },
        ),
        Err(e) => Err(e),
    }
}

/// The context of all operations on repositories.
#[derive(Debug)]
pub struct RepoManager {
    pub config: Config,
    pub app_info: AppInfo,
}

impl RepoManager {
    /// A context made of `config` and of `app_info` as it was loaded, which
    /// is reconciled at once with a scan of the repository root made at
    /// `now`.
    pub fn new_at(config: Config, app_info: AppInfo, scan: Option<Vec<FoundRepo>>, now: Timestamp) -> (manager:
        RepoManager)
        requires
            scan matches Some(found) ==> total_count(found_views(found@)) <= usize::MAX,
        ensures
            manager.config@ == config@,
            manager.app_info@ == app_info@.refreshed(scan_view(scan), now),
    {
        let mut manager = RepoManager { config, app_info };
        manager.app_info.refresh_from_disk_at(scan, now);
        manager
    }

    /// A context made of `config` and of `app_info` as it was loaded, which
    /// is reconciled at once with a scan of the repository root made just
    /// now.
    pub fn new(config: Config, app_info: AppInfo, scan: Option<Vec<FoundRepo>>) -> (manager:
        RepoManager)
        requires
            scan matches Some(found) ==> total_count(found_views(found@)) <= usize::MAX,
        ensures
            manager.config@ == config@,
            exists|now: Timestamp| manager.app_info@ == app_info@.refreshed(scan_view(scan), now),
    {
        RepoManager::new_at(config, app_info, scan, crate::clock::now())
    }

    /// Resolves a partial repository name against the known repositories.
    pub fn find_repository(&self, partial_name: &str, known_repos: &Vec<String>) -> (r: Result<
        String,
        GitboxError,
    >)
        ensures
            crate::resolver::result_view(r) == resolve_spec(partial_name@, views(known_repos@)),
    {
        resolve(partial_name, known_repos)
    }

    /// Resolves a partial repository name and tells where the repository
    /// lives.
    pub fn locate(&self, partial_name: &str, known_repos: &Vec<String>) -> (r: Result<
        Located,
        GitboxError,
    >)
        ensures
            match r {
                Ok(found) => locate_spec(self.config@.repos_dir, partial_name@, views(known_repos@))
                    == Ok::<LocatedView, ErrorView>(found@),
                Err(e) => locate_spec(self.config@.repos_dir, partial_name@, views(known_repos@))
                    == Err::<LocatedView, ErrorView>(e@),
            },
    {
        match resolve(partial_name, known_repos) {
            Ok(name) => {
                let path = self.config.get_repo_path(name.as_str());
                let renamed = !str_eq(name.as_str(), partial_name);
                Ok(Located { name, path, renamed })
            },
            Err(e) => Err(e),
        }
    }

    /// Decides what follows in the creation of `repo_name` when the work of
    /// `stage` ended with `outcome`.
    ///
    /// A name that is blank or holds a path separator ends the creation
    /// whenever it is met, and a directory that is already there ends it at
    /// the first stage; the summary is then left alone. When the creation is
    /// done, the repository is recorded in the summary with its remote's
    /// address.
    pub fn add_repo(&mut self, stage: CreateStage, outcome: &Outcome, repo_name: &str) -> (step:
        CreateStep)
        ensures
            step@ == create_next_spec(stage@, outcome@, repo_name@),
            name_problem(repo_name@) matches Some(problem) ==> step@ == CreateStepView::Failed(
                problem,
            ),
            repo_name@.len() == 0 ==> step@ == CreateStepView::Failed(ErrorView::EmptyName),
            repo_name@.contains('/') || repo_name@.contains('\\') ==> step@ is Failed && (
            step@->Failed_0 == ErrorView::EmptyName || step@->Failed_0
                == ErrorView::SeparatorInName),
            name_problem(repo_name@) is None && stage@ is CheckDirectory && outcome@ is Exited
                && !outcome@.succeeded() ==> step@ == CreateStepView::Failed(
                ErrorView::RepositoryExists(repo_name@),
            ),
            final(self).config@ == old(self).config@,
            match step@ {
                CreateStepView::Done { clone_url, .. } => exists|now: Timestamp|
                    final(self).app_info@ == old(self).app_info@.with_repository(
                        repo_name@,
                        Some(clone_url),
                        now,
                    ),
                _ => final(self).app_info@ == old(self).app_info@,
            },
    {
        let step = create_next(stage, outcome, repo_name);
        match &step {
            CreateStep::Done { clone_url, .. } => {
                let at = crate::clock::now();
                self.app_info.add_repository_at(repo_name, Some(clone_url.clone()), at);
                proof {
                    assert(self.app_info@ == old(self).app_info@.with_repository(
                        repo_name@,
                        Some(step@->clone_url),
                        at,
                    ));
                }
            },
            _ => {},
        }
        step
    }

    /// Decides what follows at `stage` of a deletion, given what the caller
    /// has learned, and the repository's own record `record`, which is read
    /// once the directory is gone.
    ///
    /// A name that stands for no single repository ends the deletion with
    /// the resolver's failure, and an answer that is no consent ends it
    /// without a failure; in both cases, and after a removal that failed,
    /// the summary is left alone and no directory is returned. Once the
    /// directory is gone the repository leaves the summary, and the
    /// directories in which links to its tracked copies may dangle are
    /// returned, each once.
    pub fn delete_repo(&mut self, stage: DeleteStage, facts: &Deletion, record: &GitboxMetadata) -> (r: (
        DeleteStep,
        Vec<String>,
    ))
        ensures
            r.0@ == delete_next_spec(stage@, facts@),
            final(self).config@ == old(self).config@,
            match r.0@ {
                DeleteStepView::Done(name) => {
                    &&& exists|now: Timestamp|
                        final(self).app_info@ == old(self).app_info@.without_repository(name, now)
                    &&& views(r.1@).no_duplicates()
                    &&& views(r.1@).to_set() == dangling_dirs(record@.files.dom())
                },
                _ => {
                    &&& final(self).app_info@ == old(self).app_info@
                    &&& r.1@.len() == 0
                },
            },
    {
        let step = delete_next(stage, facts);
        match &step {
            DeleteStep::Done(name) => {
                let at = crate::clock::now();
                self.app_info.remove_repository_at(name.as_str(), at);
                proof {
                    assert(self.app_info@ == old(self).app_info@.without_repository(
                        step@->Done_0,
                        at,
                    ));
                }
                let dirs = dangling_link_dirs(record);
                (step, dirs)
            },
            _ => (step, Vec::new()),
        }
    }

    /// Decides what follows at `stage` of the adoption of a path, given what
    /// the caller has learned.
    ///
    /// A repository or a path that is not on disk, and a path that the
    /// record of the user's directory already holds, end the adoption before
    /// anything is linked, recorded, committed or pushed. After a push that
    /// went through, the summary holds the new count of the repository's
    /// files; in every other case the summary is left alone.
    pub fn sync_file(&mut self, stage: AdoptStage, facts: &Adoption) -> (step: AdoptStep)
        requires
            stage == AdoptStage::Publish && facts@.push.succeeded() ==> old(
                self,
            ).app_info@.recounted_total(facts@.repo_name, facts@.file_count) <= usize::MAX,
        ensures
            step@ == adopt_next_spec(stage, old(self).config@, facts@),
            final(self).config@ == old(self).config@,
            match step@ {
                AdoptStepView::Done => exists|now: Timestamp|
                    final(self).app_info@ == old(self).app_info@.with_file_count(
                        facts@.repo_name,
                        facts@.file_count,
                        now,
                    ),
                _ => final(self).app_info@ == old(self).app_info@,
            },
    {
        let step = adopt_next(stage, &self.config, facts);
        match &step {
            AdoptStep::Done => {
                let at = crate::clock::now();
                self.app_info.update_repository_at(facts.repo_name, facts.file_count, at);
                proof {
                    assert(self.app_info@ == old(self).app_info@.with_file_count(
                        facts@.repo_name,
                        facts@.file_count,
                        at,
                    ));
                }
            },
            _ => {},
        }
        step
    }

    /// The arguments to hand to `git` at `stage` of a synchronization.
    pub fn sync_command(&self, stage: SyncStage) -> (args: Vec<String>)
        ensures
            views(args@) == stage.command(self.config@.default_branch),
    {
        sync_command(stage, self.config.default_branch.as_str())
    }

    /// Decides what follows in the synchronization of `repo_name` when the
    /// command of `stage` ended with `outcome`.
    pub fn sync_repo(&self, stage: SyncStage, outcome: &Outcome, repo_name: &str) -> (step: SyncStep)
        ensures
            step@ == sync_next_spec(stage, outcome@, repo_name@, self.config@.default_branch),
    {
        sync_next(stage, outcome, repo_name, self.config.default_branch.as_str())
    }
}

} // verus!
