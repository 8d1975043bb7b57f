use omnifrons_shell::health::health;

#[test]
fn health_reports_unproven_containment_and_crate_version() {
    let status = health();

    assert_eq!(status.shell, "omnifrons-shell");
    assert_eq!(status.version, "0.1.0");
    assert_eq!(status.containment, "unproven");
}
