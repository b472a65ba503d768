use player_count_bot::stage::ConnectionStage;
use player_count_bot::watchdog::{TickAction, Watchdog, WatchdogMode};
use player_count_bot::watchdog::{count_restarts, run_ticks};

#[test]
fn connecting_tick_suspends_probing() {
    let mut w = Watchdog::new();
    assert_eq!(w.mode, WatchdogMode::Normal);
    let action = w.observe(ConnectionStage::Connecting);
    assert_eq!(action, TickAction::HoldAndRecheck);
    assert_eq!(w.mode, WatchdogMode::StuckSuspected);
    assert!(!action.probes());
    assert!(!action.sleeps());
    assert!(!action.restarts());
}

#[test]
fn confirmed_connecting_restarts_exactly_once() {
    let stages = vec![
        ConnectionStage::Connecting,
        ConnectionStage::Connecting,
        ConnectionStage::Connected,
    ];
    let actions = run_ticks(&stages);
    assert_eq!(
        actions,
        vec![
            TickAction::HoldAndRecheck,
            TickAction::RestartSession,
            TickAction::ProbeAndPush,
        ]
    );
    assert_eq!(count_restarts(&actions), 1);
}

#[test]
fn restart_tick_issues_no_probe_but_sleeps() {
    let mut w = Watchdog::new();
    w.observe(ConnectionStage::Connecting);
    let action = w.observe(ConnectionStage::Connecting);
    assert_eq!(action, TickAction::RestartSession);
    assert!(!action.probes());
    assert!(action.sleeps());
    assert!(action.restarts());
    assert_eq!(w.mode, WatchdogMode::Normal);
}

#[test]
fn non_connecting_stages_never_restart() {
    let stages = vec![
        ConnectionStage::Connected,
        ConnectionStage::Connected,
        ConnectionStage::Disconnected,
        ConnectionStage::Resuming,
        ConnectionStage::Identifying,
        ConnectionStage::Connected,
    ];
    let actions = run_ticks(&stages);
    assert_eq!(count_restarts(&actions), 0);
    for action in &actions {
        assert_eq!(*action, TickAction::ProbeAndPush);
        assert!(action.probes());
        assert!(action.sleeps());
    }
}

#[test]
fn unconfirmed_sighting_is_forgotten() {
    let stages = vec![
        ConnectionStage::Connecting,
        ConnectionStage::Connected,
        ConnectionStage::Connecting,
        ConnectionStage::Connected,
    ];
    let actions = run_ticks(&stages);
    assert_eq!(count_restarts(&actions), 0);
    assert_eq!(actions[0], TickAction::HoldAndRecheck);
    assert_eq!(actions[1], TickAction::ProbeAndPush);
    assert_eq!(actions[2], TickAction::HoldAndRecheck);
    assert_eq!(actions[3], TickAction::ProbeAndPush);
}

#[test]
fn wedged_session_restarts_every_other_tick() {
    let stages = vec![ConnectionStage::Connecting; 6];
    let actions = run_ticks(&stages);
    assert_eq!(count_restarts(&actions), 3);
    for pair in actions.chunks(2) {
        assert_eq!(pair[0], TickAction::HoldAndRecheck);
        assert_eq!(pair[1], TickAction::RestartSession);
    }
}

#[test]
fn stage_is_connecting_only_for_connecting() {
    assert!(ConnectionStage::Connecting.is_connecting());
    assert!(!ConnectionStage::Disconnected.is_connecting());
    assert!(!ConnectionStage::Connected.is_connecting());
    assert!(!ConnectionStage::Resuming.is_connecting());
    assert!(!ConnectionStage::Identifying.is_connecting());
}

#[test]
fn empty_run_takes_no_action() {
    let actions = run_ticks(&Vec::new());
    assert!(actions.is_empty());
    assert_eq!(count_restarts(&actions), 0);
}
