use gitbox::appinfo::{AppInfo, FoundRepo};
use gitbox::clock::Timestamp;

fn at(secs: i64) -> Timestamp {
    Timestamp { secs, nanos: 0 }
}

fn found(name: &str, files: usize, url: Option<&str>) -> FoundRepo {
    FoundRepo { name: name.to_string(), file_count: files, remote_url: url.map(|u| u.to_string()) }
}

#[test]
fn new_summary_is_empty() {
    let info = AppInfo::new_at("0.1.0", at(5));
    assert_eq!(info.version, "0.1.0");
    assert_eq!(info.created_at, at(5));
    assert_eq!(info.last_updated, at(5));
    assert_eq!(info.total_repos, 0);
    assert_eq!(info.total_files, 0);
    assert_eq!(info.repositories.len(), 0);
}

#[test]
fn summary_made_now_carries_one_instant() {
    let info = AppInfo::new("0.1.0");
    assert_eq!(info.created_at, info.last_updated);
    assert!(info.created_at.secs > 1_600_000_000);
    assert!(info.created_at.nanos < 2_000_000_000);
}

#[test]
fn add_repository_records_it_with_no_files() {
    let mut info = AppInfo::new_at("1", at(1));
    info.add_repository_at("notes", Some("git@host:u/notes.git".to_string()), at(2));
    assert_eq!(info.total_repos, 1);
    assert_eq!(info.total_files, 0);
    assert_eq!(info.last_updated, at(2));
    assert_eq!(info.created_at, at(1));
    let repo = info.repositories.get("notes").unwrap();
    assert_eq!(repo.name, "notes");
    assert_eq!(repo.created_at, at(2));
    assert_eq!(repo.last_updated, at(2));
    assert_eq!(repo.file_count, 0);
    assert_eq!(repo.remote_url.as_deref(), Some("git@host:u/notes.git"));
}

#[test]
fn add_repository_twice_replaces_the_entry() {
    let mut info = AppInfo::new_at("1", at(1));
    info.add_repository_at("notes", None, at(2));
    info.update_repository_at("notes", 4, at(3));
    info.add_repository_at("notes", Some("url".to_string()), at(4));
    assert_eq!(info.total_repos, 1);
    // The total of files is left alone by an addition.
    assert_eq!(info.total_files, 4);
    let repo = info.repositories.get("notes").unwrap();
    assert_eq!(repo.file_count, 0);
    assert_eq!(repo.created_at, at(4));
}

#[test]
fn add_repository_now_uses_the_clock() {
    let mut info = AppInfo::new_at("1", at(1));
    info.add_repository("notes", None);
    assert_eq!(info.total_repos, 1);
    assert!(info.last_updated.secs > 1_600_000_000);
    let repo = info.repositories.get("notes").unwrap();
    assert_eq!(repo.created_at, info.last_updated);
}

#[test]
fn update_repository_recounts_the_total() {
    let mut info = AppInfo::new_at("1", at(1));
    info.add_repository_at("a", None, at(2));
    info.add_repository_at("b", None, at(2));
    info.update_repository_at("a", 3, at(3));
    info.update_repository_at("b", 5, at(4));
    assert_eq!(info.total_files, 8);
    info.update_repository_at("a", 1, at(5));
    assert_eq!(info.total_files, 6);
    assert_eq!(info.last_updated, at(5));
    let a = info.repositories.get("a").unwrap();
    assert_eq!(a.file_count, 1);
    assert_eq!(a.last_updated, at(5));
    assert_eq!(a.created_at, at(2));
    assert_eq!(info.repositories.get("b").unwrap().last_updated, at(4));
}

#[test]
fn update_of_unknown_repository_changes_nothing() {
    let mut info = AppInfo::new_at("1", at(1));
    info.add_repository_at("a", None, at(2));
    info.update_repository_at("zzz", 9, at(7));
    assert_eq!(info.total_files, 0);
    assert_eq!(info.total_repos, 1);
    assert_eq!(info.last_updated, at(2));
}

#[test]
fn update_never_takes_the_total_below_zero() {
    let mut info = AppInfo::new_at("1", at(1));
    info.add_repository_at("a", None, at(2));
    info.update_repository_at("a", 5, at(3));
    // Replacing the entry resets its count without touching the total.
    info.total_files = 2;
    info.update_repository_at("a", 1, at(4));
    assert_eq!(info.total_files, 1);
}

#[test]
fn remove_repository_takes_its_files_off_the_total() {
    let mut info = AppInfo::new_at("1", at(1));
    info.add_repository_at("a", None, at(2));
    info.add_repository_at("b", None, at(2));
    info.update_repository_at("a", 3, at(3));
    info.update_repository_at("b", 5, at(3));
    info.remove_repository_at("a", at(9));
    assert_eq!(info.total_repos, 1);
    assert_eq!(info.total_files, 5);
    assert_eq!(info.last_updated, at(9));
    assert!(info.repositories.get("a").is_none());
    assert!(info.repositories.get("b").is_some());
}

#[test]
fn remove_of_unknown_repository_only_touches_the_time() {
    let mut info = AppInfo::new_at("1", at(1));
    info.add_repository_at("a", None, at(2));
    info.update_repository_at("a", 3, at(3));
    info.remove_repository_at("zzz", at(9));
    assert_eq!(info.total_repos, 1);
    assert_eq!(info.total_files, 3);
    assert_eq!(info.last_updated, at(9));
}

#[test]
fn remove_saturates_the_total_at_zero() {
    let mut info = AppInfo::new_at("1", at(1));
    info.add_repository_at("a", None, at(2));
    info.update_repository_at("a", 7, at(3));
    info.total_files = 2;
    info.remove_repository_at("a", at(4));
    assert_eq!(info.total_files, 0);
    assert_eq!(info.total_repos, 0);
}

#[test]
fn refresh_after_the_only_repository_was_deleted() {
    let mut info = AppInfo::new_at("1", at(1));
    info.add_repository_at("only", Some("url".to_string()), at(2));
    info.update_repository_at("only", 12, at(3));
    assert_eq!(info.total_repos, 1);
    assert_eq!(info.total_files, 12);
    info.refresh_from_disk_at(Some(Vec::new()), at(4));
    assert_eq!(info.total_repos, 0);
    assert_eq!(info.total_files, 0);
    assert_eq!(info.repositories.len(), 0);
    assert!(info.repositories.entries().is_empty());
    assert_eq!(info.last_updated, at(4));
    assert_eq!(info.created_at, at(1));
}

#[test]
fn refresh_without_a_root_empties_the_summary() {
    let mut info = AppInfo::new_at("1", at(1));
    info.add_repository_at("a", None, at(2));
    info.update_repository_at("a", 3, at(3));
    info.refresh_from_disk_at(None, at(9));
    assert_eq!(info.total_repos, 0);
    assert_eq!(info.total_files, 0);
    assert_eq!(info.repositories.len(), 0);
    assert!(info.repositories.get("a").is_none());
    assert_eq!(info.last_updated, at(9));
    assert_eq!(info.created_at, at(1));
}

#[test]
fn refresh_merges_with_what_was_known() {
    let mut info = AppInfo::new_at("1", at(1));
    info.add_repository_at("kept", Some("old-url".to_string()), at(2));
    info.add_repository_at("keeps-url", Some("known-url".to_string()), at(3));
    info.add_repository_at("gone", None, at(4));
    info.refresh_from_disk_at(
        Some(vec![
            found("kept", 2, Some("new-url")),
            found("keeps-url", 1, None),
            found("fresh", 4, None),
        ]),
        at(10),
    );
    assert_eq!(info.total_repos, 3);
    assert_eq!(info.total_files, 7);
    assert_eq!(info.last_updated, at(10));
    assert!(info.repositories.get("gone").is_none());

    let kept = info.repositories.get("kept").unwrap();
    assert_eq!(kept.created_at, at(2));
    assert_eq!(kept.last_updated, at(10));
    assert_eq!(kept.file_count, 2);
    assert_eq!(kept.remote_url.as_deref(), Some("new-url"));

    // The query for this remote failed: no remote is known, though one was.
    let keeps = info.repositories.get("keeps-url").unwrap();
    assert_eq!(keeps.created_at, at(3));
    assert!(keeps.remote_url.is_none());

    let fresh = info.repositories.get("fresh").unwrap();
    assert_eq!(fresh.name, "fresh");
    assert_eq!(fresh.created_at, at(10));
    assert_eq!(fresh.file_count, 4);
    assert!(fresh.remote_url.is_none());
}

#[test]
fn refresh_now_uses_the_clock() {
    let mut info = AppInfo::new_at("1", at(1));
    info.refresh_from_disk(Some(vec![found("a", 2, None)]));
    assert_eq!(info.total_repos, 1);
    assert_eq!(info.total_files, 2);
    assert!(info.last_updated.secs > 1_600_000_000);
}

#[test]
fn repository_names_lists_every_name_once() {
    let mut info = AppInfo::new_at("1", at(1));
    info.add_repository_at("b", None, at(2));
    info.add_repository_at("a", None, at(2));
    info.add_repository_at("b", None, at(3));
    let mut names = info.repository_names();
    names.sort();
    assert_eq!(names, ["a", "b"]);
}

#[test]
fn info_path_is_under_the_gitbox_directory() {
    assert_eq!(AppInfo::info_path_under("/home/u"), "/home/u/.gitbox/info.json");
}
