use player_count_bot::config::ServerConfig;
use player_count_bot::worker::{check_credential, worker_step};
use player_count_bot::worker::{Error, WorkerDirective, WorkerEvent, WorkerPhase};

fn entry_with_credential(credential: &str) -> ServerConfig {
    ServerConfig {
        name: "alpha".to_string(),
        enabled: true,
        address: "localhost:8000".to_string(),
        credential: credential.to_string(),
    }
}

#[test]
fn well_shaped_credentials_pass_the_gate() {
    assert!(check_credential(&entry_with_credential("aaa.bbbbbb.ccc")).is_ok());
    assert!(check_credential(&entry_with_credential("Bot aaa.bbbbbb.ccc")).is_ok());
    assert!(check_credential(&entry_with_credential("x.y.z")).is_ok());
}

#[test]
fn malformed_credentials_are_fatal() {
    for bad in [
        "",
        "no-dots-at-all",
        "only.one-dot",
        "a.b.c.d",
        ".b.c",
        "a..c",
        "a.b.",
        "..",
        "Bot ",
    ] {
        let result = check_credential(&entry_with_credential(bad));
        match result {
            Err(Error::InvalidToken(t)) => assert_eq!(t, bad),
            Ok(()) => panic!("credential {:?} was accepted", bad),
        }
    }
}

#[test]
fn running_worker_retries_every_session_end() {
    let mut phase = WorkerPhase::Running;
    let mut restarts: u64 = 0;
    for _ in 0..1000 {
        let (next, directive) = worker_step(phase, WorkerEvent::SessionEnded);
        assert_eq!(next, WorkerPhase::Running);
        assert_eq!(directive, WorkerDirective::RestartSession);
        phase = next;
        restarts += 1;
    }
    assert_eq!(restarts, 1000);
    assert_eq!(phase, WorkerPhase::Running);
}

#[test]
fn cancellation_stops_a_running_worker() {
    let (phase, directive) = worker_step(WorkerPhase::Running, WorkerEvent::CancelRequested);
    assert_eq!(phase, WorkerPhase::Stopped);
    assert_eq!(directive, WorkerDirective::TearDown);

    let (phase, directive) = worker_step(WorkerPhase::Stopped, WorkerEvent::SessionEnded);
    assert_eq!(phase, WorkerPhase::Stopped);
    assert_eq!(directive, WorkerDirective::TearDown);
}
