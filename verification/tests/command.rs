use hyprws::command::workspace_target;
use hyprws::ring::{Monitor, MonitorRing};
use hyprws::Error;

fn mon(id: i64, name: &str, x: i64) -> Monitor {
    Monitor { id, name: String::from(name), x }
}

#[test]
fn single_monitor_focus_dispatches_the_bare_number() {
    let ring = MonitorRing::new(vec![mon(0, "eDP-1", 0)]);
    // workspace focus 5 on the sole (primary) monitor: workspace 5 itself,
    // not a two-digit composite
    assert_eq!(workspace_target(&ring, 0, 5), Ok(5));
}

#[test]
fn scoped_focus_dispatches_the_composite() {
    let ring = MonitorRing::new(vec![mon(0, "eDP-1", 0), mon(1, "DP-1", 1920)]);
    assert_eq!(workspace_target(&ring, 1, 5), Ok(25));
}

#[test]
fn missing_active_monitor_is_an_invariant_violation() {
    let ring = MonitorRing::new(vec![mon(0, "eDP-1", 0)]);
    assert_eq!(workspace_target(&ring, 3, 5), Err(Error::MonitorNotFound));
}

#[test]
fn out_of_range_local_is_rejected() {
    let ring = MonitorRing::new(vec![mon(0, "eDP-1", 0)]);
    assert_eq!(workspace_target(&ring, 0, 0), Err(Error::InvalidWorkspace));
    assert_eq!(workspace_target(&ring, 0, 12), Err(Error::InvalidWorkspace));
}
