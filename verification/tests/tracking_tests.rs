use gitbox::command::Outcome;
use gitbox::config::Config;
use gitbox::error::{ErrorKind, GitboxError};
use gitbox::metadata::GitboxMetadata;
use gitbox::tracking::{
    add_message, adopt_next, check_adoptable, check_checkout, plan_checkout, plan_tracking, publish_args,
    publish_result, record_checkout, record_tracking, AdoptStage, AdoptStep, Adoption,
};

fn config() -> Config {
    Config {
        github_token: None,
        default_branch: "main".to_string(),
        repos_dir: "/home/u/.gitbox/repos".to_string(),
    }
}

#[test]
fn adoption_needs_the_repository_and_the_path() {
    assert!(check_adoptable(true, true, "notes", "a.txt").is_ok());
    let err = check_adoptable(false, true, "notes", "a.txt").unwrap_err();
    assert_eq!(err.kind(), ErrorKind::NotFound);
    assert_eq!(err.message(), "Repository 'notes' does not exist");
    let err = check_adoptable(true, false, "notes", "a.txt").unwrap_err();
    assert_eq!(err.kind(), ErrorKind::NotFound);
    assert_eq!(err.message(), "File or directory does not exist: a.txt");
    // The repository is checked first.
    assert!(matches!(
        check_adoptable(false, false, "notes", "a.txt").unwrap_err(),
        GitboxError::RepositoryMissing(_)
    ));
}

#[test]
fn tracked_copy_goes_into_the_files_directory() {
    let local = GitboxMetadata::new();
    let path = plan_tracking(&config(), &local, "notes", "/home/u/docs/a.txt").unwrap();
    assert_eq!(path, "/home/u/.gitbox/repos/notes/files/a.txt");
    let path = plan_tracking(&config(), &local, "notes", "/home/u/music/").unwrap();
    assert_eq!(path, "/home/u/.gitbox/repos/notes/files/music");
}

#[test]
fn path_that_is_already_recorded_is_refused() {
    let mut local = GitboxMetadata::new();
    local.add_file("/home/u/docs/a.txt", "/elsewhere", false);
    let err = plan_tracking(&config(), &local, "notes", "/home/u/docs/a.txt").unwrap_err();
    assert_eq!(err.kind(), ErrorKind::AlreadyExists);
    assert_eq!(err.message(), "File is already synced to a repository");
}

#[test]
fn path_without_a_name_cannot_be_tracked() {
    let local = GitboxMetadata::new();
    let err = plan_tracking(&config(), &local, "notes", "/").unwrap_err();
    assert_eq!(err.kind(), ErrorKind::Collaborator);
    assert_eq!(err.message(), "Failed to get file name");
    assert!(plan_tracking(&config(), &local, "notes", "/a/..").is_err());
}

#[test]
fn tracking_is_recorded_in_both_records() {
    let mut local = GitboxMetadata::new();
    let mut repository = GitboxMetadata::for_repository("notes");
    let (local_id, repo_id) = record_tracking(
        &mut local,
        &mut repository,
        "notes",
        "/home/u/docs/a.txt",
        "/r/notes/files/a.txt",
        false,
    );
    assert_ne!(local_id, repo_id);
    assert_eq!(local.repo_name.as_deref(), Some("notes"));
    assert_eq!(repository.repo_name.as_deref(), Some("notes"));
    let l = local.get_file("/home/u/docs/a.txt").unwrap();
    let r = repository.get_file("/home/u/docs/a.txt").unwrap();
    assert_eq!(l.id, local_id);
    assert_eq!(r.id, repo_id);
    assert_eq!(l.synced_path, "/r/notes/files/a.txt");
    assert_eq!(r.synced_path, "/r/notes/files/a.txt");
    assert_eq!(l.original_path, r.original_path);
    assert!(!l.is_directory && !r.is_directory);
    assert_eq!(local.len(), 1);
    assert_eq!(repository.len(), 1);
}

#[test]
fn the_two_records_are_independent() {
    let mut local = GitboxMetadata::new();
    let mut repository = GitboxMetadata::for_repository("notes");
    record_tracking(&mut local, &mut repository, "notes", "/a", "/r/notes/files/a", true);
    local.remove_file("/a");
    assert!(local.get_file("/a").is_none());
    assert!(repository.get_file("/a").is_some());
}

#[test]
fn commit_message_and_push_command() {
    assert_eq!(add_message("a.txt"), "Add file: a.txt");
    assert_eq!(publish_args("main"), ["push", "origin", "main"]);
}

#[test]
fn publish_result_tells_success_from_failure() {
    assert!(publish_result(&Outcome::success("")).is_ok());
    let err = publish_result(&Outcome::failure("rejected")).unwrap_err();
    assert_eq!(err.kind(), ErrorKind::PushFailed);
    assert!(matches!(err, GitboxError::PublishFailed(_)));
    assert_eq!(err.message(), "Failed to push to remote: rejected");
    let err = publish_result(&Outcome::NotStarted("no git".to_string())).unwrap_err();
    assert_eq!(err.kind(), ErrorKind::Collaborator);
    assert_eq!(err.message(), "Failed to execute git push: no git");
}

fn facts<'a>(
    repo_exists: bool,
    path_exists: bool,
    original_path: &'a str,
    local: &'a GitboxMetadata,
    push: &'a Outcome,
) -> Adoption<'a> {
    Adoption {
        repo_name: "notes",
        file_path: "a.txt",
        repo_exists,
        path_exists,
        original_path,
        local,
        push,
        file_count: 1,
    }
}

#[test]
fn adoption_checks_the_disk_first() {
    let local = GitboxMetadata::new();
    let push = Outcome::success("");
    let step = adopt_next(AdoptStage::Check, &config(), &facts(true, true, "", &local, &push));
    assert!(matches!(step, AdoptStep::Resolve));
    match adopt_next(AdoptStage::Check, &config(), &facts(false, true, "", &local, &push)) {
        AdoptStep::Failed(e) => assert_eq!(e.message(), "Repository 'notes' does not exist"),
        other => panic!("expected a failure, got {:?}", other),
    }
    match adopt_next(AdoptStage::Check, &config(), &facts(true, false, "", &local, &push)) {
        AdoptStep::Failed(e) => assert_eq!(e.message(), "File or directory does not exist: a.txt"),
        other => panic!("expected a failure, got {:?}", other),
    }
}

#[test]
fn adoption_refuses_a_path_that_is_already_recorded() {
    let mut local = GitboxMetadata::new();
    local.add_file("/home/u/a.txt", "/elsewhere", false);
    let push = Outcome::success("");
    match adopt_next(AdoptStage::Plan, &config(), &facts(true, true, "/home/u/a.txt", &local, &push)) {
        AdoptStep::Failed(e) => {
            assert!(matches!(e, GitboxError::AlreadyTracked));
            assert_eq!(e.kind(), ErrorKind::AlreadyExists);
        }
        other => panic!("expected a refusal, got {:?}", other),
    }
    match adopt_next(AdoptStage::Plan, &config(), &facts(true, true, "/home/u/b.txt", &local, &push)) {
        AdoptStep::Track(copy) => assert_eq!(copy, "/home/u/.gitbox/repos/notes/files/b.txt"),
        other => panic!("expected a plan, got {:?}", other),
    }
}

#[test]
fn adoption_ends_with_the_one_push() {
    let local = GitboxMetadata::new();
    let gone = Outcome::success("");
    assert!(matches!(
        adopt_next(AdoptStage::Publish, &config(), &facts(true, true, "/a", &local, &gone)),
        AdoptStep::Done
    ));
    let refused = Outcome::failure("! [rejected] main -> main (non-fast-forward)");
    match adopt_next(AdoptStage::Publish, &config(), &facts(true, true, "/a", &local, &refused)) {
        AdoptStep::Failed(e) => {
            assert_eq!(e.kind(), ErrorKind::PushFailed);
            assert_eq!(
                e.message(),
                "Failed to push to remote: ! [rejected] main -> main (non-fast-forward)"
            );
        }
        other => panic!("expected a failure, got {:?}", other),
    }
}

#[test]
fn checkout_links_the_tracked_copy_into_the_directory() {
    let (tracked_copy, destination) = plan_checkout(&config(), "notes", "a.txt", "/home/u/work");
    assert_eq!(tracked_copy, "/home/u/.gitbox/repos/notes/files/a.txt");
    assert_eq!(destination, "/home/u/work/a.txt");
}

#[test]
fn checkout_needs_the_copy_and_a_free_place() {
    assert!(check_checkout(true, false, "a.txt", "notes").is_ok());
    let err = check_checkout(false, false, "a.txt", "notes").unwrap_err();
    assert_eq!(err.kind(), ErrorKind::NotFound);
    assert_eq!(err.message(), "File 'a.txt' not found in repository 'notes'");
    let err = check_checkout(true, true, "a.txt", "notes").unwrap_err();
    assert_eq!(err.kind(), ErrorKind::AlreadyExists);
    assert_eq!(err.message(), "File 'a.txt' already exists in current directory");
    assert!(matches!(
        check_checkout(false, true, "a.txt", "notes").unwrap_err(),
        GitboxError::TrackedCopyMissing { .. }
    ));
}

#[test]
fn checkout_is_recorded_in_the_directory() {
    let mut local = GitboxMetadata::new();
    let id = record_checkout(&mut local, "notes", "/home/u/work/a.txt", "/r/notes/files/a.txt", false);
    let entry = local.get_file("/home/u/work/a.txt").unwrap();
    assert_eq!(entry.id, id);
    assert_eq!(entry.original_path, "/home/u/work/a.txt");
    assert_eq!(entry.synced_path, "/r/notes/files/a.txt");
    assert_eq!(local.repo_name.as_deref(), Some("notes"));
}
