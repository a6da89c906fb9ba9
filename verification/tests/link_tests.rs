use gitbox::error::ErrorKind;
use gitbox::link::{link_first, link_next, LinkKind, LinkProbe, LinkStage, LinkStep};

fn probe(target_exists: bool, parent_missing: bool, original_is_dir: bool) -> LinkProbe {
    LinkProbe { target_exists, parent_missing, original_is_dir }
}

/// Drives the strategy; `failures[i]` tells how the i-th operation ends.
fn run(p: LinkProbe, failures: &[Option<&str>]) -> (Vec<LinkStage>, Option<LinkStep>) {
    let mut stage = link_first(p);
    let mut stages = vec![stage];
    for failure in failures {
        match link_next(stage, p, *failure) {
            LinkStep::Run { stage: next, .. } => {
                stage = next;
                stages.push(stage);
            }
            end => return (stages, Some(end)),
        }
    }
    (stages, None)
}

#[test]
fn file_is_hard_linked_first() {
    let (stages, end) = run(probe(false, false, false), &[None]);
    assert_eq!(stages, [LinkStage::HardLink]);
    assert!(matches!(end, Some(LinkStep::Done(LinkKind::Hard))));
}

#[test]
fn refused_hard_link_falls_back_to_symbolic_link() {
    let p = probe(false, false, false);
    match link_next(LinkStage::HardLink, p, Some("Invalid cross-device link")) {
        LinkStep::Run { stage, fell_back } => {
            assert_eq!(stage, LinkStage::SymLink);
            assert!(fell_back);
        }
        other => panic!("a refused hard link is no failure: {:?}", other),
    }
    let (stages, end) = run(p, &[Some("Invalid cross-device link"), None]);
    assert_eq!(stages, [LinkStage::HardLink, LinkStage::SymLink]);
    assert!(matches!(end, Some(LinkStep::Done(LinkKind::Symbolic))));
}

#[test]
fn directory_is_linked_symbolically_only() {
    for target_exists in [false, true] {
        for parent_missing in [false, true] {
            let p = probe(target_exists, parent_missing, true);
            let (stages, end) = run(p, &[None, None, None, None]);
            assert!(!stages.contains(&LinkStage::HardLink));
            assert_eq!(*stages.last().unwrap(), LinkStage::SymLink);
            assert!(matches!(end, Some(LinkStep::Done(LinkKind::Symbolic))));
        }
    }
}

#[test]
fn failed_symbolic_link_is_fatal() {
    let (_, end) = run(probe(false, false, true), &[Some("Permission denied")]);
    match end {
        Some(LinkStep::Failed(e)) => {
            assert_eq!(e.kind(), ErrorKind::LinkCreationFailed);
            assert_eq!(e.message(), "Failed to create symlink: Permission denied");
        }
        other => panic!("expected a failure, got {:?}", other),
    }
    let (stages, end) = run(probe(false, false, false), &[Some("EXDEV"), Some("EPERM")]);
    assert_eq!(stages, [LinkStage::HardLink, LinkStage::SymLink]);
    assert!(matches!(end, Some(LinkStep::Failed(_))));
}

#[test]
fn existing_target_is_removed_first() {
    let (stages, end) = run(probe(true, false, false), &[None, None]);
    assert_eq!(stages, [LinkStage::RemoveTarget, LinkStage::HardLink]);
    assert!(matches!(end, Some(LinkStep::Done(LinkKind::Hard))));
    let (stages, end) = run(probe(true, false, false), &[Some("busy")]);
    assert_eq!(stages, [LinkStage::RemoveTarget]);
    match end {
        Some(LinkStep::Failed(e)) => {
            assert_eq!(e.kind(), ErrorKind::Collaborator);
            assert_eq!(e.message(), "Failed to remove existing link: busy");
        }
        other => panic!("expected a failure, got {:?}", other),
    }
}

#[test]
fn missing_parent_is_created() {
    let (stages, _) = run(probe(false, true, false), &[None, None]);
    assert_eq!(stages, [LinkStage::CreateParent, LinkStage::HardLink]);
    let (stages, _) = run(probe(true, true, true), &[None, None, None]);
    assert_eq!(stages, [LinkStage::RemoveTarget, LinkStage::CreateParent, LinkStage::SymLink]);
    let (_, end) = run(probe(false, true, false), &[Some("read-only file system")]);
    match end {
        Some(LinkStep::Failed(e)) => {
            assert_eq!(e.message(), "Failed to create parent directory: read-only file system")
        }
        other => panic!("expected a failure, got {:?}", other),
    }
}

#[test]
fn no_operation_is_attempted_twice() {
    for bits in 0..8u8 {
        let p = probe(bits & 1 != 0, bits & 2 != 0, bits & 4 != 0);
        for fails in 0..16u8 {
            let script: Vec<Option<&str>> =
                (0..4).map(|i| if fails & (1 << i) != 0 { Some("no") } else { None }).collect();
            let (stages, _) = run(p, &script);
            assert!(stages.len() <= 4);
            for (i, s) in stages.iter().enumerate() {
                assert!(!stages[..i].contains(s));
            }
        }
    }
}
