//! The user's configuration and the places where gitbox keeps its own files.

use vstd::prelude::*;
use crate::paths::{join_path, path_join};
use crate::text::{clone_opt, opt_view};

verus! {

/// The user's configuration.
#[derive(Debug)]
pub struct Config {
    /// A token for the remote host, if the user stored one.
    pub github_token: Option<String>,
    /// The one branch that synchronization works on.
    pub default_branch: String,
    /// The directory under which every repository lives.
    pub repos_dir: String,
}

/// The mathematical content of a [`Config`].
pub struct ConfigView {
    pub github_token: Option<Seq<char>>,
    pub default_branch: Seq<char>,
    pub repos_dir: Seq<char>,
}

impl View for Config {
    type V = ConfigView;

    open spec fn view(&self) -> ConfigView {
        ConfigView {
            github_token: opt_view(self.github_token),
            default_branch: self.default_branch@,
            repos_dir: self.repos_dir@,
        }
    }
}

impl Clone for Config {
    fn clone(&self) -> (copy: Config)
        ensures
            copy@ == self@,
    {
        Config {
            github_token: clone_opt(&self.github_token),
            default_branch: self.default_branch.clone(),
            repos_dir: self.repos_dir.clone(),
        }
    }
}

/// The directory in which gitbox keeps its files, for a user whose home
/// directory is `home`.
pub open spec fn gitbox_dir_of(home: Seq<char>) -> Seq<char> {
    path_join(home, ".gitbox"@)
}

/// The configuration file of a user whose home directory is `home`.
pub open spec fn config_path_of(home: Seq<char>) -> Seq<char> {
    path_join(gitbox_dir_of(home), "config.toml"@)
}

/// The configuration that a user whose home directory is `home` starts with.
pub open spec fn default_config_of(home: Seq<char>) -> ConfigView {
    ConfigView {
        github_token: None,
        default_branch: "main"@,
        repos_dir: path_join(gitbox_dir_of(home), "repos"@),
    }
}

/// Calls `dirs::home_dir`. The answer depends on the environment of the
/// process, so nothing is promised about it. A home directory whose name is
/// not Unicode comes back with the offending parts replaced.
#[verifier::external_body]
pub(crate) fn home_dir() -> Option<String> {
    match dirs::home_dir() {
        Some(p) => Some(p.to_string_lossy().into_owned()),
        None => None,
    }
}

impl Config {
    /// The directory in which gitbox keeps its files, under `home`.
    pub fn gitbox_dir_under(home: &str) -> (dir: String)
        ensures
            dir@ == gitbox_dir_of(home@),
    {
        join_path(home, ".gitbox")
    }

    /// The configuration file, under `home`.
    pub fn config_path_under(home: &str) -> (path: String)
        ensures
            path@ == config_path_of(home@),
    {
        let dir = Config::gitbox_dir_under(home);
        join_path(dir.as_str(), "config.toml")
    }

    /// The configuration that a user starts with, under `home`.
    pub fn default_under(home: &str) -> (config: Config)
        ensures
            config@ == default_config_of(home@),
    {
        let dir = Config::gitbox_dir_under(home);
        Config {
            github_token: None,
            default_branch: "main".to_owned(),
            repos_dir: join_path(dir.as_str(), "repos"),
        }
    }

    /// The configuration that a user starts with, given the user's home
    /// directory as the environment tells it: there is one exactly when
    /// there is a home directory.
    pub fn default_for(home: Option<String>) -> (config: Option<Config>)
        ensures
            match home {
                Some(h) => config matches Some(c) && c@ == default_config_of(h@),
                None => config is None,
            },
    {
        match home {
            Some(h) => Some(Config::default_under(h.as_str())),
            None => None,
        }
    }

    /// The directory in which gitbox keeps its files, given the user's home
    /// directory as the environment tells it.
    pub fn gitbox_dir_for(home: Option<String>) -> (dir: Option<String>)
        ensures
            match home {
                Some(h) => dir matches Some(d) && d@ == gitbox_dir_of(h@),
                None => dir is None,
            },
    {
        match home {
            Some(h) => Some(Config::gitbox_dir_under(h.as_str())),
            None => None,
        }
    }

    /// The configuration file, given the user's home directory as the
    /// environment tells it.
    pub fn config_path_for(home: Option<String>) -> (path: Option<String>)
        ensures
            match home {
                Some(h) => path matches Some(p) && p@ == config_path_of(h@),
                None => path is None,
            },
    {
        match home {
            Some(h) => Some(Config::config_path_under(h.as_str())),
            None => None,
        }
    }

    /// The configuration that the current user starts with; `None` when the
    /// user has no home directory.
    pub fn for_current_user() -> (config: Option<Config>)
        ensures
            config matches Some(c) ==> exists|home: Seq<char>| c@ == default_config_of(home),
    {
        Config::default_for(home_dir())
    }

    /// The directory in which gitbox keeps its files, under the current
    /// user's home directory; `None` when the user has no home directory.
    pub fn gitbox_dir() -> (dir: Option<String>)
        ensures
            dir matches Some(d) ==> exists|home: Seq<char>| d@ == gitbox_dir_of(home),
    {
        Config::gitbox_dir_for(home_dir())
    }

    /// The configuration file of the current user; `None` when the user has
    /// no home directory.
    pub fn config_path() -> (path: Option<String>)
        ensures
            path matches Some(p) ==> exists|home: Seq<char>| p@ == config_path_of(home),
    {
        Config::config_path_for(home_dir())
    }

    /// Stores the token for the remote host.
    pub fn set_github_token(&mut self, token: String)
        ensures
            final(self)@ == (ConfigView { github_token: Some(token@), ..old(self)@ }),
    {
        self.github_token = Some(token);
    }

    /// The directory of the repository `repo_name`.
    pub fn get_repo_path(&self, repo_name: &str) -> (path: String)
        ensures
            path@ == path_join(self@.repos_dir, repo_name@),
    {
        join_path(self.repos_dir.as_str(), repo_name)
    }

    /// The directory inside the repository `repo_name` that holds the
    /// tracked copies.
    pub fn get_files_path(&self, repo_name: &str) -> (path: String)
        ensures
            path@ == path_join(path_join(self@.repos_dir, repo_name@), "files"@),
    {
        let repo = self.get_repo_path(repo_name);
        join_path(repo.as_str(), "files")
    }
}

} // verus!
