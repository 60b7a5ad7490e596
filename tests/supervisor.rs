use iracing_overlays::supervisor::{Action, DesiredState, OverlayKind, WindowProcesses};

fn want(speed: bool, lastlaptime: bool) -> DesiredState {
    DesiredState { speed, lastlaptime }
}

#[test]
fn speed_on_then_off_converges() {
    let mut t: WindowProcesses<u32> = WindowProcesses::new();
    let actions = t.reconcile(&want(true, false));
    assert_eq!(actions.len(), 1);
    assert!(matches!(actions[0], Action::Spawn(OverlayKind::Speed)));
    assert_eq!(t.record_spawn(OverlayKind::Speed, 41), None);
    assert_eq!(t.speed, Some(41));
    assert!(t.is_running(OverlayKind::Speed));
    assert!(!t.is_running(OverlayKind::LastLapTime));

    let actions = t.reconcile(&want(false, false));
    assert_eq!(actions.len(), 1);
    assert!(matches!(actions[0], Action::Kill(OverlayKind::Speed, 41)));
    assert_eq!(t.speed, None);
    assert_eq!(t.lastlaptime, None);
}

#[test]
fn second_pass_issues_nothing() {
    let mut t: WindowProcesses<u32> = WindowProcesses::new();
    t.record_spawn(OverlayKind::LastLapTime, 7);
    let d = want(true, false);
    let first = t.reconcile(&d);
    assert_eq!(first.len(), 2);
    assert!(matches!(first[0], Action::Spawn(OverlayKind::Speed)));
    assert!(matches!(first[1], Action::Kill(OverlayKind::LastLapTime, 7)));
    t.record_spawn(OverlayKind::Speed, 8);
    let second = t.reconcile(&d);
    assert!(second.is_empty());
    let third = t.reconcile(&d);
    assert!(third.is_empty());
    assert_eq!(t.speed, Some(8));
}

#[test]
fn failed_launch_is_retried_but_nothing_is_killed_twice() {
    let mut t: WindowProcesses<u32> = WindowProcesses::new();
    t.record_spawn(OverlayKind::Speed, 3);
    let d = want(false, true);
    let first = t.reconcile(&d);
    assert_eq!(first.len(), 2);
    assert!(matches!(first[0], Action::Kill(OverlayKind::Speed, 3)));
    assert!(matches!(first[1], Action::Spawn(OverlayKind::LastLapTime)));
    let second = t.reconcile(&d);
    assert_eq!(second.len(), 1);
    assert!(matches!(second[0], Action::Spawn(OverlayKind::LastLapTime)));
}

#[test]
fn second_handle_for_a_kind_is_given_back() {
    let mut t: WindowProcesses<u32> = WindowProcesses::new();
    assert_eq!(t.record_spawn(OverlayKind::Speed, 1), None);
    assert_eq!(t.record_spawn(OverlayKind::Speed, 2), Some(2));
    assert_eq!(t.speed, Some(1));
}

#[test]
fn shutdown_returns_every_handle() {
    let mut t: WindowProcesses<u32> = WindowProcesses::new();
    t.record_spawn(OverlayKind::LastLapTime, 5);
    t.record_spawn(OverlayKind::Speed, 4);
    assert_eq!(t.shutdown_all(), vec![4, 5]);
    assert_eq!(t.speed, None);
    assert_eq!(t.lastlaptime, None);
    assert!(t.shutdown_all().is_empty());
}

#[test]
fn executables_have_fixed_paths() {
    assert_eq!(
        OverlayKind::Speed.executable(),
        "C:\\Program Files (x86)\\iRacing Overlays\\speed"
    );
    assert_eq!(
        OverlayKind::LastLapTime.executable(),
        "C:\\Program Files (x86)\\iRacing Overlays\\lastlaptime"
    );
}
