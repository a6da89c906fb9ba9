use gitbox::appinfo::FoundRepo;
use gitbox::appinfo::AppInfo;
use gitbox::clock::Timestamp;
use gitbox::command::Outcome;
use gitbox::config::Config;
use gitbox::creation::{CreateStage, CreateStep};
use gitbox::deletion::{DeleteStage, DeleteStep, Deletion};
use gitbox::error::{ErrorKind, GitboxError};
use gitbox::github::{GitHubClient, RemoteCreation};
use gitbox::listing::{list_repo_files, list_repos, Listed};
use gitbox::metadata::{FileInfo, GitboxMetadata};
use gitbox::protocol::{SyncStage, SyncStep};
use gitbox::repo::RepoManager;
use gitbox::tracking::{AdoptStage, AdoptStep, Adoption};
use gitbox::report::{decimal_text, describe_entry, get_repo_info, CommitFacts, GitFacts};
use gitbox::text::{clone_names, clone_opt, concat2, concat3, contains_name, has_char, join};

fn names(list: &[&str]) -> Vec<String> {
    list.iter().map(|s| s.to_string()).collect()
}

fn listed(name: &str, is_dir: bool) -> Listed {
    Listed { name: name.to_string(), is_dir }
}

fn config() -> Config {
    Config { github_token: None, default_branch: "main".to_string(), repos_dir: "/r".to_string() }
}

// ---- text ----

#[test]
fn text_helpers() {
    assert_eq!(join(&names(&["a", "b", "c"]), ", "), "a, b, c");
    assert_eq!(join(&names(&["a"]), ", "), "a");
    assert_eq!(join(&names(&[]), ", "), "");
    assert_eq!(join(&names(&["", ""]), "-"), "-");
    assert_eq!(concat2("ab", "cd"), "abcd");
    assert_eq!(concat3("a", "", "c"), "ac");
    assert!(has_char("a/b", '/'));
    assert!(!has_char("ab", '/'));
    assert!(has_char("caf\u{e9}", '\u{e9}'));
    assert!(contains_name(&names(&["x", "y"]), "y"));
    assert!(!contains_name(&names(&["x", "y"]), "Y"));
    assert_eq!(clone_names(&names(&["x", "y"])), ["x", "y"]);
    assert_eq!(clone_opt(&Some("u".to_string())).as_deref(), Some("u"));
    assert!(clone_opt(&None).is_none());
}

// ---- command ----

#[test]
fn outcome_answer_is_the_trimmed_output_of_a_success() {
    assert_eq!(Outcome::success("  git@host:u/r.git \n").answer().as_deref(), Some("git@host:u/r.git"));
    assert!(Outcome::failure("error").answer().is_none());
    assert!(Outcome::NotStarted("no git".to_string()).answer().is_none());
    assert!(Outcome::success("").succeeded());
    assert!(!Outcome::failure("").succeeded());
    assert!(!Outcome::NotStarted(String::new()).succeeded());
}

// ---- config ----

#[test]
fn config_paths() {
    assert_eq!(Config::gitbox_dir_under("/home/u"), "/home/u/.gitbox");
    assert_eq!(Config::config_path_under("/home/u"), "/home/u/.gitbox/config.toml");
    let c = Config::default_under("/home/u");
    assert!(c.github_token.is_none());
    assert_eq!(c.default_branch, "main");
    assert_eq!(c.repos_dir, "/home/u/.gitbox/repos");
    assert_eq!(c.get_repo_path("notes"), "/home/u/.gitbox/repos/notes");
    assert_eq!(c.get_files_path("notes"), "/home/u/.gitbox/repos/notes/files");
}

#[test]
fn paths_follow_the_home_directory_that_the_environment_tells() {
    let home = || Some("/home/u".to_string());
    assert_eq!(Config::gitbox_dir_for(home()).as_deref(), Some("/home/u/.gitbox"));
    assert_eq!(Config::config_path_for(home()).as_deref(), Some("/home/u/.gitbox/config.toml"));
    assert_eq!(AppInfo::info_path_for(home()).as_deref(), Some("/home/u/.gitbox/info.json"));
    let start = Config::default_for(home()).expect("a home directory gives a configuration");
    assert_eq!(start.repos_dir, "/home/u/.gitbox/repos");
    assert_eq!(start.default_branch, "main");
    assert!(start.github_token.is_none());
}

#[test]
fn without_a_home_directory_there_are_no_paths() {
    assert!(Config::gitbox_dir_for(None).is_none());
    assert!(Config::config_path_for(None).is_none());
    assert!(AppInfo::info_path_for(None).is_none());
    assert!(Config::default_for(None).is_none());
}

#[test]
fn config_paths_of_the_current_user() {
    match (Config::gitbox_dir(), Config::config_path(), AppInfo::info_path()) {
        (Some(dir), Some(config), Some(info)) => {
            let start = Config::for_current_user().expect("the home directory is known");
            assert_eq!(start.repos_dir, format!("{}/repos", dir));
            assert_eq!(start.default_branch, "main");
            assert!(dir.ends_with(".gitbox"));
            assert_eq!(config, format!("{}/config.toml", dir));
            assert_eq!(info, format!("{}/info.json", dir));
        }
        (None, None, None) => {}
        other => panic!("the three paths come from one home directory: {:?}", other),
    }
}

#[test]
fn set_github_token_keeps_the_rest() {
    let mut c = config();
    c.set_github_token("SECRET-REDACTED".to_string());
    assert_eq!(c.github_token.as_deref(), Some("SECRET-REDACTED"));
    assert_eq!(c.default_branch, "main");
    assert_eq!(c.repos_dir, "/r");
    let copy = c.clone();
    assert_eq!(copy.github_token, c.github_token);
    assert_eq!(copy.repos_dir, c.repos_dir);
}

// ---- github ----

#[test]
fn github_commands() {
    assert_eq!(GitHubClient::session_args(), ["auth", "status"]);
    assert_eq!(
        GitHubClient::create_args("notes"),
        ["repo", "create", "notes", "--private", "--clone=false"]
    );
    assert_eq!(
        GitHubClient::clone_url_args("notes"),
        ["repo", "view", "notes", "--json", "sshUrl", "-q", ".sshUrl"]
    );
    assert_eq!(GitHubClient::exists_args("octocat", "notes"), ["repo", "view", "octocat/notes"]);
    assert_eq!(GitHubClient::user_args(), ["api", "user", "--jq", ".login"]);
    assert_eq!(GitHubClient::ssh_url("octocat", "notes"), "git@github.com:octocat/notes.git");
}

#[test]
fn github_session() {
    assert!(GitHubClient::new(&Outcome::success("Logged in")).is_ok());
    let err = GitHubClient::new(&Outcome::failure("not logged in")).unwrap_err();
    assert_eq!(err.message(), "GitHub CLI authentication failed: not logged in");
    let err = GitHubClient::new(&Outcome::NotStarted("not found".to_string())).unwrap_err();
    assert_eq!(
        err.message(),
        "Failed to run 'gh' command. Please install GitHub CLI (gh) and authenticate with 'gh auth login': not found"
    );
}

#[test]
fn github_answers_are_typed() {
    let client = GitHubClient::new(&Outcome::success("")).unwrap();
    assert!(matches!(client.create_private_repo(&Outcome::success("")), RemoteCreation::Created));
    assert!(matches!(
        client.create_private_repo(&Outcome::failure("Name already exists on this account")),
        RemoteCreation::AlreadyExists
    ));
    match client.create_private_repo(&Outcome::failure("HTTP 500")) {
        RemoteCreation::Failed(e) => {
            assert_eq!(e.message(), "Failed to create GitHub repository: HTTP 500")
        }
        other => panic!("expected a failure, got {:?}", other),
    }
    assert_eq!(client.clone_url(&Outcome::success(" git@github.com:u/n.git\n")).unwrap(), "git@github.com:u/n.git");
    assert!(client.clone_url(&Outcome::failure("x")).is_err());
    assert_eq!(client.get_authenticated_user(&Outcome::success("octocat\n")).unwrap(), "octocat");
    let err = client.get_authenticated_user(&Outcome::failure("HTTP 401")).unwrap_err();
    assert_eq!(err.kind(), ErrorKind::Collaborator);
    assert_eq!(err.message(), "Failed to get authenticated user: HTTP 401");
    assert!(client.repo_exists(&Outcome::success("")).unwrap());
    assert!(!client.repo_exists(&Outcome::failure("not found")).unwrap());
    assert!(client.repo_exists(&Outcome::NotStarted("x".to_string())).is_err());
}

// ---- listing ----

#[test]
fn repositories_are_the_sorted_subdirectories() {
    let entries = vec![listed("zeta", true), listed("info.json", false), listed("alpha", true), listed("Beta", true)];
    assert_eq!(list_repos(&entries), ["Beta", "alpha", "zeta"]);
    assert!(list_repos(&Vec::new()).is_empty());
}

#[test]
fn tracked_copies_are_all_entries_sorted() {
    let entries = vec![listed("b.txt", false), listed("dir", true), listed("a.txt", false), listed("a", false)];
    assert_eq!(list_repo_files(&entries), ["a", "a.txt", "b.txt", "dir"]);
}

// ---- report ----

#[test]
fn decimal_notation() {
    assert_eq!(decimal_text(0), "0");
    assert_eq!(decimal_text(7), "7");
    assert_eq!(decimal_text(10), "10");
    assert_eq!(decimal_text(1234567890), "1234567890");
    assert_eq!(decimal_text(usize::MAX), usize::MAX.to_string());
}

#[test]
fn entry_line() {
    let info = FileInfo {
        id: "1".to_string(),
        original_path: "/a".to_string(),
        synced_path: "/r/n/files/a".to_string(),
        is_directory: true,
    };
    assert_eq!(describe_entry("    ", "/a", &info), "    /a -> /r/n/files/a (dir)");
}

#[test]
fn full_description() {
    let mut record = GitboxMetadata::for_repository("notes");
    record.add_file_with_id("1".to_string(), "/home/u/a.txt", "/r/notes/files/a.txt", false);
    record.add_file_with_id("2".to_string(), "/home/u/d", "/r/notes/files/d", true);
    let facts = GitFacts {
        remote_url: Some("git@github.com:u/notes.git".to_string()),
        branch: Some("main".to_string()),
        latest_commit: Some(CommitFacts {
            id: "0123456789abcdef0123456789abcdef01234567".to_string(),
            message: Some("Add file: a.txt\n\nbody".to_string()),
        }),
    };
    let text = get_repo_info("note", "notes", "/r/notes", &facts, 2, Some(&record));
    assert_eq!(
        text,
        "Found repository 'notes' matching 'note'\n\
         Repository: notes\n\
         Path: \"/r/notes\"\n\
         Remote URL: git@github.com:u/notes.git\n\
         Branch: main\n\
         Latest commit: 01234567 - Add file: a.txt\n\
         Synced files: 2\n\
         Tracked files: 2\n\
         Files:\n  /home/u/a.txt -> /r/notes/files/a.txt (file)\n  /home/u/d -> /r/notes/files/d (dir)"
    );
}

#[test]
fn sparse_description() {
    let facts = GitFacts { remote_url: None, branch: None, latest_commit: None };
    let text = get_repo_info("notes", "notes", "/r/notes", &facts, 0, None);
    assert_eq!(text, "Repository: notes\nPath: \"/r/notes\"\nSynced files: 0");
    let empty = GitboxMetadata::new();
    let text = get_repo_info("notes", "notes", "/r/notes", &facts, 11, Some(&empty));
    assert_eq!(text, "Repository: notes\nPath: \"/r/notes\"\nSynced files: 11\nTracked files: 0");
}

#[test]
fn commit_without_a_readable_message() {
    let facts = |message: Option<&str>, id: &str| GitFacts {
        remote_url: None,
        branch: None,
        latest_commit: Some(CommitFacts { id: id.to_string(), message: message.map(|m| m.to_string()) }),
    };
    let text = get_repo_info("n", "n", "/r/n", &facts(None, "abcdef0123"), 0, None);
    assert!(text.contains("Latest commit: abcdef01 - (no message)\n"));
    let text = get_repo_info("n", "n", "/r/n", &facts(Some(""), "abc"), 0, None);
    assert!(text.contains("Latest commit: abc - (no message)\n"));
    let text = get_repo_info("n", "n", "/r/n", &facts(Some("one\r\ntwo"), "abcdef0123"), 0, None);
    assert!(text.contains("Latest commit: abcdef01 - one\n"));
}

// ---- error ----

#[test]
fn every_error_has_its_kind_and_message() {
    let s = |t: &str| t.to_string();
    let cases: Vec<(GitboxError, ErrorKind, &str)> = vec![
        (GitboxError::EmptyName, ErrorKind::InvalidInput, "Repository name cannot be empty"),
        (GitboxError::SeparatorInName, ErrorKind::InvalidInput, "Repository name cannot contain path separators"),
        (GitboxError::RepositoryExists(s("n")), ErrorKind::AlreadyExists, "Repository 'n' already exists"),
        (GitboxError::AlreadyTracked, ErrorKind::AlreadyExists, "File is already synced to a repository"),
        (GitboxError::DestinationExists(s("f")), ErrorKind::AlreadyExists, "File 'f' already exists in current directory"),
        (GitboxError::RepositoryMissing(s("n")), ErrorKind::NotFound, "Repository 'n' does not exist"),
        (GitboxError::PathMissing(s("p")), ErrorKind::NotFound, "File or directory does not exist: p"),
        (
            GitboxError::TrackedCopyMissing { file: s("f"), repository: s("n") },
            ErrorKind::NotFound,
            "File 'f' not found in repository 'n'",
        ),
        (GitboxError::MetadataCorrupt, ErrorKind::MetadataCorrupt, "Failed to parse .gitbox file as JSON or TOML"),
        (GitboxError::LinkFailed(s("d")), ErrorKind::LinkCreationFailed, "Failed to create symlink: d"),
        (
            GitboxError::BranchCreateFailed { branch: s("b"), detail: s("d") },
            ErrorKind::BranchCreateFailed,
            "Failed to create branch 'b': d",
        ),
        (GitboxError::StageFailed(s("d")), ErrorKind::CommitFailed, "Failed to add changes: d"),
        (GitboxError::CommitFailed(s("d")), ErrorKind::CommitFailed, "Failed to commit changes: d"),
        (GitboxError::PushFailed(s("d")), ErrorKind::PushFailed, "Failed to push to GitHub: d"),
        (GitboxError::PublishFailed(s("d")), ErrorKind::PushFailed, "Failed to push to remote: d"),
        (GitboxError::MergeFailed(s("d")), ErrorKind::PushFailed, "Failed to pull and merge: d"),
        (GitboxError::RetryPushFailed(s("d")), ErrorKind::PushFailed, "Failed to push after merge: d"),
        (GitboxError::Collaborator { context: s("c"), detail: s("d") }, ErrorKind::Collaborator, "c: d"),
        (GitboxError::Collaborator { context: s("c"), detail: s("") }, ErrorKind::Collaborator, "c"),
    ];
    for (error, kind, message) in cases {
        assert_eq!(error.kind(), kind, "for {:?}", error);
        assert_eq!(error.message(), message);
    }
}

// ---- repo manager ----

#[test]
fn manager_reconciles_the_summary_when_made() {
    let mut info = AppInfo::new_at("1", Timestamp { secs: 1, nanos: 0 });
    info.add_repository_at("gone", None, Timestamp { secs: 2, nanos: 0 });
    let scan = vec![FoundRepo { name: "here".to_string(), file_count: 3, remote_url: None }];
    let manager = RepoManager::new_at(config(), info, Some(scan), Timestamp { secs: 9, nanos: 0 });
    assert_eq!(manager.app_info.total_repos, 1);
    assert_eq!(manager.app_info.total_files, 3);
    assert!(manager.app_info.repositories.get("gone").is_none());
    assert_eq!(manager.config.repos_dir, "/r");
}

#[test]
fn manager_locates_repositories() {
    let info = AppInfo::new_at("1", Timestamp { secs: 1, nanos: 0 });
    let manager = RepoManager::new(config(), info, None);
    let known = names(&["alpha-beta", "gamma"]);
    let found = manager.locate("beta", &known).unwrap();
    assert_eq!(found.name, "alpha-beta");
    assert_eq!(found.path, "/r/alpha-beta");
    assert!(found.renamed);
    let found = manager.locate("gamma", &known).unwrap();
    assert!(!found.renamed);
    assert_eq!(manager.locate("delta", &known).unwrap_err().kind(), ErrorKind::NotFound);
    assert_eq!(manager.find_repository("gam", &known).unwrap(), "gamma");
}

#[test]
fn manager_records_a_created_repository() {
    let info = AppInfo::new_at("1", Timestamp { secs: 1, nanos: 0 });
    let mut manager = RepoManager::new(config(), info, None);
    let step = manager.add_repo(CreateStage::AttachRemote("url".to_string()), &Outcome::success(""), "notes");
    assert!(matches!(step, CreateStep::Run(CreateStage::Pull(_))));
    assert_eq!(manager.app_info.total_repos, 0);
    let step = manager.add_repo(CreateStage::Pull("url".to_string()), &Outcome::success(""), "notes");
    assert!(matches!(step, CreateStep::Done { pulled: true, .. }));
    assert_eq!(manager.app_info.total_repos, 1);
    let repo = manager.app_info.repositories.get("notes").unwrap();
    assert_eq!(repo.remote_url.as_deref(), Some("url"));
    assert_eq!(repo.file_count, 0);
    let step = manager.add_repo(CreateStage::Push("u2".to_string()), &Outcome::failure("no"), "other");
    assert!(matches!(step, CreateStep::Failed(_)));
    assert_eq!(manager.app_info.total_repos, 1);
}

#[test]
fn manager_refuses_bad_names_and_existing_directories() {
    let info = AppInfo::new_at("1", Timestamp { secs: 1, nanos: 0 });
    let mut manager = RepoManager::new(config(), info, None);
    for name in ["", "../evil"] {
        match manager.add_repo(CreateStage::CheckDirectory, &Outcome::success(""), name) {
            CreateStep::Failed(e) => assert_eq!(e.kind(), ErrorKind::InvalidInput),
            other => panic!("{:?} must be refused, got {:?}", name, other),
        }
        match manager.add_repo(CreateStage::MakeDirectory, &Outcome::success(""), name) {
            CreateStep::Failed(e) => assert_eq!(e.kind(), ErrorKind::InvalidInput),
            other => panic!("{:?} must be refused, got {:?}", name, other),
        }
    }
    match manager.add_repo(CreateStage::CheckDirectory, &Outcome::failure(""), "notes") {
        CreateStep::Failed(e) => assert_eq!(e.kind(), ErrorKind::AlreadyExists),
        other => panic!("an existing directory must be refused, got {:?}", other),
    }
    assert_eq!(manager.app_info.total_repos, 0);
}

fn summary_with_notes() -> AppInfo {
    let mut info = AppInfo::new_at("1", Timestamp { secs: 1, nanos: 0 });
    info.add_repository_at("notes", None, Timestamp { secs: 2, nanos: 0 });
    info.update_repository_at("notes", 2, Timestamp { secs: 3, nanos: 0 });
    info
}

fn manager_with_notes() -> RepoManager {
    let scan = vec![FoundRepo { name: "notes".to_string(), file_count: 2, remote_url: None }];
    RepoManager::new(config(), summary_with_notes(), Some(scan))
}

#[test]
fn manager_forgets_a_deleted_repository() {
    let mut manager = manager_with_notes();
    let known = names(&["notes"]);
    let mut record = GitboxMetadata::for_repository("notes");
    record.add_file("/home/u/a.txt", "/r/notes/files/a.txt", false);
    record.add_file("/home/u/b.txt", "/r/notes/files/b.txt", false);

    let failed = Deletion { partial_name: "note", force: true, known_repos: &known, answer: "", failure: Some("busy") };
    let (step, dirs) = manager.delete_repo(DeleteStage::Remove("notes".to_string()), &failed, &record);
    assert!(matches!(step, DeleteStep::Failed(_)));
    assert!(dirs.is_empty());
    assert_eq!(manager.app_info.total_repos, 1);

    let gone = Deletion { partial_name: "note", force: true, known_repos: &known, answer: "", failure: None };
    let (step, dirs) = manager.delete_repo(DeleteStage::Resolve, &gone, &record);
    assert!(matches!(step, DeleteStep::Run(DeleteStage::Remove(_))));
    assert!(dirs.is_empty());
    assert_eq!(manager.app_info.total_repos, 1);
    let (step, dirs) = manager.delete_repo(DeleteStage::Remove("notes".to_string()), &gone, &record);
    assert!(matches!(step, DeleteStep::Done(name) if name == "notes"));
    assert_eq!(dirs, ["/home/u"]);
    assert_eq!(manager.app_info.total_repos, 0);
    assert_eq!(manager.app_info.total_files, 0);
}

#[test]
fn manager_keeps_the_summary_when_deletion_is_declined_or_unresolved() {
    let mut manager = manager_with_notes();
    let known = names(&["notes"]);
    let record = GitboxMetadata::for_repository("notes");

    let declined = Deletion { partial_name: "notes", force: false, known_repos: &known, answer: "yeah", failure: None };
    let (step, _) = manager.delete_repo(DeleteStage::Resolve, &declined, &record);
    assert!(matches!(step, DeleteStep::Run(DeleteStage::Confirm(_))));
    let (step, dirs) = manager.delete_repo(DeleteStage::Confirm("notes".to_string()), &declined, &record);
    assert!(matches!(step, DeleteStep::Cancelled));
    assert!(dirs.is_empty());
    assert_eq!(manager.app_info.total_repos, 1);
    assert_eq!(manager.app_info.total_files, 2);

    for force in [false, true] {
        let unknown = Deletion { partial_name: "zzz", force, known_repos: &known, answer: "yes", failure: None };
        let (step, _) = manager.delete_repo(DeleteStage::Resolve, &unknown, &record);
        match step {
            DeleteStep::Failed(e) => assert_eq!(e.kind(), ErrorKind::NotFound),
            other => panic!("expected the resolver's failure, got {:?}", other),
        }
        assert_eq!(manager.app_info.total_repos, 1);
    }
}

#[test]
fn manager_counts_files_after_a_push_that_went_through() {
    let mut manager = manager_with_notes();
    let local = GitboxMetadata::new();
    let refused = Outcome::failure("rejected");
    let gone = Outcome::success("");
    let facts = |push| Adoption {
        repo_name: "notes",
        file_path: "a.txt",
        repo_exists: true,
        path_exists: true,
        original_path: "/home/u/a.txt",
        local: &local,
        push,
        file_count: 3,
    };
    match manager.sync_file(AdoptStage::Publish, &facts(&refused)) {
        AdoptStep::Failed(e) => {
            assert_eq!(e.kind(), ErrorKind::PushFailed);
            assert_eq!(e.message(), "Failed to push to remote: rejected");
        }
        other => panic!("expected a failure, got {:?}", other),
    }
    assert_eq!(manager.app_info.total_files, 2);
    assert!(matches!(manager.sync_file(AdoptStage::Publish, &facts(&gone)), AdoptStep::Done));
    assert_eq!(manager.app_info.total_files, 3);
    assert_eq!(manager.app_info.repositories.get("notes").unwrap().file_count, 3);
}

#[test]
fn manager_refuses_a_path_that_is_already_recorded() {
    let mut manager = manager_with_notes();
    let mut local = GitboxMetadata::new();
    local.add_file("/home/u/a.txt", "/elsewhere", false);
    let push = Outcome::success("");
    let facts = Adoption {
        repo_name: "notes",
        file_path: "a.txt",
        repo_exists: true,
        path_exists: true,
        original_path: "/home/u/a.txt",
        local: &local,
        push: &push,
        file_count: 9,
    };
    assert!(matches!(manager.sync_file(AdoptStage::Check, &facts), AdoptStep::Resolve));
    match manager.sync_file(AdoptStage::Plan, &facts) {
        AdoptStep::Failed(e) => assert!(matches!(e, GitboxError::AlreadyTracked)),
        other => panic!("expected a refusal, got {:?}", other),
    }
    assert_eq!(manager.app_info.total_files, 2);
}

#[test]
fn manager_synchronizes_on_the_default_branch() {
    let info = AppInfo::new_at("1", Timestamp { secs: 1, nanos: 0 });
    let mut c = config();
    c.default_branch = "trunk".to_string();
    let manager = RepoManager::new(c, info, None);
    assert_eq!(manager.sync_command(SyncStage::Push), ["push", "-u", "origin", "trunk"]);
    match manager.sync_repo(SyncStage::CreateBranch, &Outcome::failure("no"), "notes") {
        SyncStep::Failed(e) => assert_eq!(e.message(), "Failed to create branch 'trunk': no"),
        other => panic!("expected a failure, got {:?}", other),
    }
}
