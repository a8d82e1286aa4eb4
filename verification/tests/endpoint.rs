use oni_sidecar::health::{decimal_port, health_url};
use oni_sidecar::launch::{launch_plan, spawn_plan};
use oni_sidecar::paths::BuildMode;

#[test]
fn health_url_for_default_port() {
    assert_eq!(health_url(5173), "http://127.0.0.1:5173/api/oni/status");
}

#[test]
fn health_url_for_other_ports() {
    assert_eq!(health_url(80), "http://127.0.0.1:80/api/oni/status");
    assert_eq!(health_url(65535), "http://127.0.0.1:65535/api/oni/status");
}

#[test]
fn decimal_rendering_is_exact() {
    assert_eq!(decimal_port(0), "0");
    assert_eq!(decimal_port(7), "7");
    assert_eq!(decimal_port(10), "10");
    assert_eq!(decimal_port(80), "80");
    assert_eq!(decimal_port(5173), "5173");
    assert_eq!(decimal_port(65535), "65535");
}

#[test]
fn spawn_command_line_is_node_with_module_flag() {
    let p = spawn_plan("/opt/onios/bin/server.mjs");
    assert_eq!(p.program, "node");
    assert_eq!(
        p.args,
        vec![
            "--experimental-modules".to_string(),
            "/opt/onios/bin/server.mjs".to_string()
        ]
    );
}

#[test]
fn launch_plan_resolves_then_plans() {
    let p = launch_plan(BuildMode::Development, "/ignored", false);
    assert_eq!(p.program, "node");
    assert_eq!(p.args[0], "--experimental-modules");
    assert_eq!(p.args[1], "../../electron/server.mjs");

    let q = launch_plan(BuildMode::Production, "/opt/onios", true);
    assert_eq!(q.args[1], "/opt/onios/../Resources/bin/server.mjs");
}
