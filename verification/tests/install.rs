use trackerclaw::install::{service_name, service_unit};

#[test]
fn service_unit_contains_exec_start() {
    let unit = service_unit("/tmp/trackerclaw", "user");
    assert!(unit.contains("ExecStart=/tmp/trackerclaw idle"));
}

#[test]
fn service_unit_full_text() {
    assert_eq!(service_name(), "trackerclaw-idle.service");
    let unit = service_unit("/usr/local/bin/trackerclaw", "alice");
    assert!(unit.starts_with("[Unit]\nDescription=TrackerClaw idle monitor\n"));
    assert!(unit.contains("Environment=\"PATH=/usr/local/bin:/usr/bin:/bin:/home/alice/.local/bin\"\n"));
    assert!(unit.ends_with("[Install]\nWantedBy=default.target\n"));
}
