use hyprws::binder::{BinderSession, BindingRequest};
use hyprws::ring::{Monitor, MonitorRing};
use hyprws::Error;

fn mon(id: i64, name: &str, x: i64) -> Monitor {
    Monitor { id, name: String::from(name), x }
}

/// Drains a session, dispatching nothing, and reports every request that
/// was handed out; `fail_at` marks which attempts are recorded as failed.
fn drain(session: &mut BinderSession, fail_at: &[usize]) -> Vec<BindingRequest> {
    let mut attempted = Vec::new();
    let mut i: usize = 0;
    while let Some(req) = session.pending() {
        attempted.push(req);
        session.record(!fail_at.contains(&i));
        i += 1;
    }
    attempted
}

#[test]
fn hotplug_with_ordinal_three_plans_nine_bindings_and_one_activation() {
    // "X" sits third in the x-sorted ring and is not the primary monitor
    let ring = MonitorRing::new(vec![
        mon(0, "eDP-1", 0),
        mon(1, "DP-1", 1920),
        mon(2, "X", 3840),
    ]);
    let mut session = BinderSession::begin(&ring, &String::from("X")).unwrap();
    let attempted = drain(&mut session, &[]);
    assert_eq!(attempted.len(), 10);
    for (k, req) in attempted.iter().take(9).enumerate() {
        assert_eq!(req.monitor, "X");
        assert_eq!(req.local as usize, k + 1);
        assert_eq!(req.composite as usize, 31 + k);
        assert!(!req.activation);
    }
    let activation = &attempted[9];
    assert_eq!(activation.monitor, "X");
    assert_eq!(activation.local, 1);
    assert_eq!(activation.composite, 31);
    assert!(activation.activation);
}

#[test]
fn primary_monitor_binds_unscoped_composites() {
    let ring = MonitorRing::new(vec![mon(0, "eDP-1", 0)]);
    let mut session = BinderSession::begin(&ring, &String::from("eDP-1")).unwrap();
    let attempted = drain(&mut session, &[]);
    assert_eq!(attempted.len(), 10);
    for (k, req) in attempted.iter().take(9).enumerate() {
        assert_eq!(req.composite as usize, k + 1);
    }
    assert_eq!(attempted[9].composite, 1);
}

#[test]
fn failed_binding_does_not_abort_the_rest() {
    let ring = MonitorRing::new(vec![
        mon(0, "eDP-1", 0),
        mon(1, "DP-1", 1920),
        mon(2, "X", 3840),
    ]);
    let mut session = BinderSession::begin(&ring, &String::from("X")).unwrap();
    // the binding for local = 5 is the fifth attempt (index 4) and fails
    let attempted = drain(&mut session, &[4]);
    assert_eq!(attempted.len(), 10);
    for local in 6..=9u8 {
        assert!(attempted
            .iter()
            .any(|r| r.local == local && r.composite == 30 + local));
    }
    assert_eq!(attempted[9].local, 1);
    assert_eq!(attempted[9].composite, 31);
}

#[test]
fn unknown_monitor_isolates_the_reaction() {
    let ring = MonitorRing::new(vec![mon(0, "eDP-1", 0)]);
    let err = BinderSession::begin(&ring, &String::from("ghost")).unwrap_err();
    assert_eq!(err, Error::MonitorNotFound);
}

#[test]
fn unaddressable_ring_position_is_rejected() {
    let mut monitors = Vec::new();
    for i in 0..10i64 {
        monitors.push(mon(i + 1, &format!("DP-{}", i + 1), i * 100));
    }
    let ring = MonitorRing::new(monitors);
    let err = BinderSession::begin(&ring, &String::from("DP-10")).unwrap_err();
    assert_eq!(err, Error::InvalidWorkspace);
}
