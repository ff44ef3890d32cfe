use launcher::config::ShutdownConfig;
use launcher::config::WorkerConfig;

#[test]
fn a_worker_config_keeps_what_was_resolved() {
    let c = WorkerConfig::new(
        String::from("java"),
        String::from("backend/worker.jar"),
        String::from("http://localhost:8080/api/v1/system/health"),
        String::from("http://localhost:8080/api/v1/system/shutdown"),
        ShutdownConfig::standard(),
    );
    assert_eq!(c.launcher, "java");
    assert_eq!(c.artifact_path, "backend/worker.jar");
    assert_eq!(c.health_url, "http://localhost:8080/api/v1/system/health");
    assert_eq!(c.shutdown_url, "http://localhost:8080/api/v1/system/shutdown");
    assert_eq!(c.shutdown, ShutdownConfig::standard());
}

#[test]
fn explicit_timing_parameters_are_kept() {
    let c = ShutdownConfig::new(250, 4, 3, 2000);
    assert_eq!(c.poll_interval_ms, 250);
    assert_eq!(c.health_attempts, 4);
    assert_eq!(c.exit_attempts, 3);
    assert_eq!(c.request_timeout_ms, 2000);
}
