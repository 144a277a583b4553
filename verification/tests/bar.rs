use hyprws::bar::{BarConfig, BarRecord, WorkspaceEvent};
use hyprws::Error;

#[test]
fn watched_composite_is_computed_once_at_startup() {
    let cfg = BarConfig::new(2, 4).unwrap();
    assert_eq!(cfg.target, 24);
}

#[test]
fn matching_event_produces_the_selected_record() {
    let cfg = BarConfig::new(2, 4).unwrap();
    assert_eq!(
        cfg.handle(&WorkspaceEvent::Regular(24)),
        Some(BarRecord { workspace: 4, selected: true })
    );
}

#[test]
fn other_workspace_produces_the_unselected_record() {
    let cfg = BarConfig::new(2, 4).unwrap();
    assert_eq!(
        cfg.handle(&WorkspaceEvent::Regular(31)),
        Some(BarRecord { workspace: 4, selected: false })
    );
}

#[test]
fn special_workspace_produces_no_output() {
    let cfg = BarConfig::new(2, 4).unwrap();
    assert_eq!(cfg.handle(&WorkspaceEvent::Special), None);
}

#[test]
fn unscoped_watch_compares_against_the_bare_local_number() {
    let cfg = BarConfig::new(0, 5).unwrap();
    assert_eq!(cfg.target, 5);
    assert!(cfg.handle(&WorkspaceEvent::Regular(5)).unwrap().selected);
    assert!(!cfg.handle(&WorkspaceEvent::Regular(15)).unwrap().selected);
}

#[test]
fn unwatchable_pairs_are_rejected() {
    assert_eq!(BarConfig::new(0, 0).unwrap_err(), Error::InvalidWorkspace);
    assert_eq!(BarConfig::new(10, 5).unwrap_err(), Error::InvalidWorkspace);
}
