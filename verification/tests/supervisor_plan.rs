use player_count_bot::config::{Config, RefreshInterval, ServerConfig};
use player_count_bot::supervisor::{plan_workers, Supervisor, WorkerOutcome};
use player_count_bot::worker::Error;

fn entry(name: &str, enabled: bool) -> ServerConfig {
    ServerConfig {
        name: name.to_string(),
        enabled,
        address: format!("{}.example:27015", name),
        credential: "aaa.bbbbbb.ccc".to_string(),
    }
}

fn mixed_config() -> Config {
    Config {
        refresh: RefreshInterval::from_secs(30),
        servers: vec![
            entry("alpha", true),
            entry("beta", false),
            entry("gamma", true),
            entry("delta", true),
            entry("epsilon", false),
        ],
    }
}

#[test]
fn one_worker_per_enabled_entry() {
    let config = mixed_config();
    let plan = plan_workers(&config);
    let names: Vec<&str> = plan.iter().map(|s| s.name.as_str()).collect();
    assert_eq!(names, vec!["alpha", "gamma", "delta"]);
    for planned in &plan {
        assert!(planned.enabled);
        assert_eq!(planned.address, format!("{}.example:27015", planned.name));
        assert_eq!(planned.credential, "aaa.bbbbbb.ccc");
    }

    let supervisor = Supervisor::new(&config);
    assert_eq!(supervisor.workers.len(), 3);
    assert_eq!(supervisor.running_count(), 3);
    assert_eq!(supervisor.live_handles(), 3);
    for (worker, name) in supervisor.workers.iter().zip(["alpha", "gamma", "delta"]) {
        assert_eq!(worker.config.name, name);
        assert!(worker.running);
        assert!(!worker.session_shut_down);
    }
}

#[test]
fn no_enabled_entries_means_no_workers() {
    let config = Config {
        refresh: RefreshInterval::from_secs(30),
        servers: vec![entry("alpha", false), entry("beta", false)],
    };
    let supervisor = Supervisor::new(&config);
    assert_eq!(supervisor.running_count(), 0);

    let empty = Config { refresh: RefreshInterval::from_secs(30), servers: Vec::new() };
    assert_eq!(Supervisor::new(&empty).workers.len(), 0);
}

#[test]
fn cancelling_shuts_every_session_handle() {
    let mut supervisor = Supervisor::new(&mixed_config());
    assert_eq!(supervisor.live_handles(), 3);
    supervisor.cancel_all();
    assert_eq!(supervisor.running_count(), 0);
    assert_eq!(supervisor.live_handles(), 0);
    for worker in &supervisor.workers {
        assert!(!worker.running);
        assert!(worker.session_shut_down);
    }
}

#[test]
fn fatal_worker_exit_is_recorded_and_never_respawned() {
    let mut supervisor = Supervisor::new(&mixed_config());
    let outcome = WorkerOutcome::Fatal(Error::InvalidToken("bad".to_string()));
    supervisor.on_worker_exit(1, &outcome);
    assert_eq!(supervisor.workers.len(), 3);
    assert!(!supervisor.workers[1].running);
    assert!(supervisor.workers[1].session_shut_down);
    assert_eq!(supervisor.workers[1].config.name, "gamma");
    assert!(supervisor.workers[0].running);
    assert!(supervisor.workers[2].running);
    assert_eq!(supervisor.running_count(), 2);
}

#[test]
fn fresh_config_holds_the_example_entry() {
    let config = Config::default();
    assert_eq!(config.refresh.millis, 30_000);
    assert_eq!(config.servers.len(), 1);
    let example = &config.servers[0];
    assert_eq!(example.name, "example-server");
    assert!(example.enabled);
    assert_eq!(example.address, "localhost:8000");
    assert_eq!(example.credential, "");
}

#[test]
fn refresh_interval_conversions() {
    assert_eq!(RefreshInterval::from_secs(30).millis, 30_000);
    assert_eq!(RefreshInterval::from_millis(1500).millis, 1500);
    assert_eq!(RefreshInterval::default().millis, 30_000);
}
