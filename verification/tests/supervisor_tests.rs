use dockstack::config::{ProjectConfig, ServiceConfig};
use dockstack::supervisor::{
    compose_command, compose_probe_command, engine_info_command, parse_container_line,
    parse_inventory, ps_command, ComposeAction, DockerEvent, RollingBuffer, ServiceStatus,
    Supervisor,
};

fn service(enabled: bool, port: u16) -> ServiceConfig {
    ServiceConfig {
        enabled,
        port,
        version: "latest".to_string(),
        display_name: None,
        image: None,
        is_custom: false,
        is_locked: false,
        env_vars: Vec::new(),
        settings: Vec::new(),
    }
}

fn project(services: Vec<(String, ServiceConfig)>) -> ProjectConfig {
    ProjectConfig {
        id: "demo".to_string(),
        name: "Demo".to_string(),
        directory: "/tmp/demo".to_string(),
        services,
        ssl_enabled: false,
        custom_ports: Vec::new(),
        domain: "demo.test".to_string(),
    }
}

#[test]
fn start_with_no_enabled_service_is_refused() {
    let mut sup = Supervisor::new();
    let p = project(vec![("redis".to_string(), service(false, 6379))]);
    let (events, proceed) = sup.start_request(&p);
    assert!(!proceed);
    assert_eq!(events.len(), 1);
    match &events[0] {
        DockerEvent::Error(m) => assert_eq!(
            m,
            "No services enabled! Please enable at least one service in the Services tab."
        ),
        other => panic!("expected a failure event, got {:?}", other),
    }
    match &sup.status {
        ServiceStatus::Error(m) => assert_eq!(
            m,
            "No services enabled! Please enable at least one service in the Services tab."
        ),
        other => panic!("expected error status, got {:?}", other),
    }
    assert_eq!(sup.logs.len(), 0);
}

#[test]
fn start_with_enabled_service_proceeds() {
    let mut sup = Supervisor::new();
    let p = project(vec![("redis".to_string(), service(true, 6379))]);
    let (events, proceed) = sup.start_request(&p);
    assert!(proceed);
    assert_eq!(events.len(), 1);
    assert!(matches!(&events[0], DockerEvent::StatusChange(scope, ServiceStatus::Starting) if scope == "all"));
    assert!(matches!(sup.status, ServiceStatus::Starting));
}

#[test]
fn start_success_path() {
    let mut sup = Supervisor::new();
    let p = project(vec![("redis".to_string(), service(true, 6379))]);
    sup.start_request(&p);
    sup.manifest_written("/tmp/demo/docker-compose.yml");
    assert_eq!(sup.logs.line_at(0), "[DockStack] Compose file written: /tmp/demo/docker-compose.yml");
    assert_eq!(sup.logs.line_at(1), "[DockStack] Starting services...");
    let events = sup.start_exit(true, "", "exit status: 0", "docker [\"compose\", \"up\"]");
    assert!(matches!(sup.status, ServiceStatus::Running));
    assert_eq!(events.len(), 2);
    assert!(matches!(&events[0], DockerEvent::Log(m) if m == "[DockStack] Services started successfully"));
    assert!(matches!(&events[1], DockerEvent::StatusChange(_, ServiceStatus::Running)));
}

#[test]
fn start_failure_prefers_captured_stderr() {
    let mut sup = Supervisor::new();
    let events = sup.start_exit(false, "  boom happened\n", "exit status: 1", "docker [\"x\"]");
    match &sup.status {
        ServiceStatus::Error(m) => assert_eq!(m, "Failed to start. Check Logs tab."),
        other => panic!("unexpected {:?}", other),
    }
    assert!(matches!(&events[0], DockerEvent::Log(m)
        if m == "[DockStack] Failed to start services: boom happened\nCommand tried: docker [\"x\"]"));
    assert!(matches!(&events[1], DockerEvent::Error(m) if m == "Failed to start. Check Logs tab."));
}

#[test]
fn start_failure_falls_back_to_exit_code() {
    let mut sup = Supervisor::new();
    let events = sup.start_exit(false, "  \n \t", "exit status: 17", "docker-compose [\"up\"]");
    assert!(matches!(&events[0], DockerEvent::Log(m)
        if m == "[DockStack] Failed to start services: Exit code: exit status: 17\nCommand tried: docker-compose [\"up\"]"));
}

#[test]
fn manifest_write_failure_aborts_start() {
    let mut sup = Supervisor::new();
    let events = sup.manifest_write_failed("permission denied");
    match &sup.status {
        ServiceStatus::Error(m) => assert_eq!(m, "permission denied"),
        other => panic!("unexpected {:?}", other),
    }
    assert_eq!(events.len(), 1);
    assert!(matches!(&events[0], DockerEvent::Error(m)
        if m == "[DockStack] Error writing compose file: permission denied"));
}

#[test]
fn stop_transitions() {
    let mut sup = Supervisor::new();
    let events = sup.stop_request();
    assert!(matches!(sup.status, ServiceStatus::Stopping));
    assert_eq!(events.len(), 2);
    let events = sup.stop_exit(true, "exit status: 0");
    assert!(matches!(sup.status, ServiceStatus::Stopped));
    assert!(matches!(&events[1], DockerEvent::StatusChange(_, ServiceStatus::Stopped)));
    let events = sup.stop_exit(false, "exit status: 1");
    match &sup.status {
        ServiceStatus::Error(m) => assert_eq!(m, "[DockStack] docker compose down failed: exit status: 1"),
        other => panic!("unexpected {:?}", other),
    }
    assert_eq!(events.len(), 1);
}

#[test]
fn restart_stop_launch_failure_aborts() {
    let mut sup = Supervisor::new();
    sup.restart_request();
    assert!(matches!(sup.status, ServiceStatus::Stopping));
    let events = sup.restart_stop_failed("no such binary");
    assert!(matches!(&events[0], DockerEvent::Error(m)
        if m == "[DockStack] Stop failed during restart: no such binary"));
    assert!(matches!(sup.status, ServiceStatus::Error(_)));
}

#[test]
fn restart_success_path() {
    let mut sup = Supervisor::new();
    sup.restart_request();
    sup.restart_starting();
    assert!(matches!(sup.status, ServiceStatus::Starting));
    let events = sup.restart_exit(true, "");
    assert!(matches!(sup.status, ServiceStatus::Running));
    assert_eq!(events.len(), 2);
}

#[test]
fn probe_records_availability() {
    let mut sup = Supervisor::new();
    assert!(!sup.docker_available);
    let events = sup.probe_result(true, true);
    assert!(sup.docker_available);
    assert!(sup.use_compose_plugin);
    assert_eq!(events.len(), 1);
    assert!(matches!(&events[0], DockerEvent::DockerAvailable(true)));
}

#[test]
fn inventory_line_parses_six_fields() {
    let info = parse_container_line("abc123|web|nginx:latest|Up 2 minutes|0.0.0.0:80->80/tcp|running");
    assert_eq!(info.id, "abc123");
    assert_eq!(info.name, "web");
    assert_eq!(info.image, "nginx:latest");
    assert_eq!(info.status, "Up 2 minutes");
    assert_eq!(info.ports, "0.0.0.0:80->80/tcp");
    assert_eq!(info.state, "running");
}

#[test]
fn inventory_line_fills_missing_fields() {
    let info = parse_container_line("abc123|web");
    assert_eq!(info.id, "abc123");
    assert_eq!(info.name, "web");
    assert_eq!(info.image, "");
    assert_eq!(info.status, "");
    assert_eq!(info.ports, "");
    assert_eq!(info.state, "");
}

#[test]
fn inventory_listing_skips_empty_lines() {
    let text = "a|one|i|s|p|running\n\nb|two|i|s|p|exited\n";
    let list = parse_inventory(text);
    assert_eq!(list.len(), 2);
    assert_eq!(list[0].name, "one");
    assert_eq!(list[1].name, "two");
    assert_eq!(list[1].state, "exited");
}

#[test]
fn refresh_replaces_inventory() {
    let mut sup = Supervisor::new();
    sup.refresh_result("a|one|i|s|p|running\n");
    assert_eq!(sup.containers.len(), 1);
    let events = sup.refresh_failed("engine gone");
    assert_eq!(sup.containers.len(), 1);
    assert!(matches!(&events[0], DockerEvent::Error(m) if m == "Failed to list containers: engine gone"));
}

#[test]
fn buffer_trims_to_low_water_in_one_batch() {
    let mut buf = RollingBuffer::new(5, 3);
    for i in 0..5 {
        buf.append(format!("line {}", i));
    }
    assert_eq!(buf.len(), 5);
    buf.append("overflow".to_string());
    assert_eq!(buf.len(), 3);
    assert_eq!(buf.line_at(0), "line 3");
    assert_eq!(buf.line_at(2), "overflow");
}

#[test]
fn supervisor_buffer_never_exceeds_high_water() {
    let mut sup = Supervisor::new();
    for i in 0..5000 {
        sup.log_line(format!("{}", i));
    }
    assert_eq!(sup.logs.len(), 5000);
    sup.log_line("one more".to_string());
    assert_eq!(sup.logs.len(), 3000);
    assert_eq!(sup.logs.line_at(2999), "one more");
    assert_eq!(sup.logs.line_at(0), "2001");
    sup.clear_logs();
    assert_eq!(sup.logs.len(), 0);
}

#[test]
fn compose_dialect_argument_vectors() {
    let c = compose_command(true, ComposeAction::Up);
    assert_eq!(c.program, "docker");
    assert_eq!(c.args, vec!["compose", "up", "-d", "--remove-orphans"]);
    let c = compose_command(false, ComposeAction::Up);
    assert_eq!(c.program, "docker-compose");
    assert_eq!(c.args, vec!["up", "-d", "--remove-orphans"]);
    let c = compose_command(true, ComposeAction::Down);
    assert_eq!(c.args, vec!["compose", "down"]);
    let c = compose_command(false, ComposeAction::Logs);
    assert_eq!(c.args, vec!["logs", "-f", "--tail", "100"]);
}

#[test]
fn inventory_command_filters_by_project_label() {
    let c = ps_command("demo");
    assert_eq!(c.program, "docker");
    assert_eq!(
        c.args,
        vec![
            "ps",
            "-a",
            "--filter",
            "label=com.docker.compose.project=demo",
            "--format",
            "{{.ID}}|{{.Names}}|{{.Image}}|{{.Status}}|{{.Ports}}|{{.State}}",
        ]
    );
}

#[test]
fn probe_commands() {
    let c = engine_info_command();
    assert_eq!(c.program, "docker");
    assert_eq!(c.args, vec!["info"]);
    let c = compose_probe_command();
    assert_eq!(c.args, vec!["compose", "version"]);
}

#[test]
fn command_text_rendering() {
    let c = compose_command(true, ComposeAction::Up);
    assert_eq!(c.command_text(), "docker [\"compose\", \"up\", \"-d\", \"--remove-orphans\"]");
}

#[test]
fn start_launch_failure_records_command() {
    let mut sup = Supervisor::new();
    let events = sup.start_spawn_failed("docker-compose", "No such file or directory");
    match &sup.status {
        ServiceStatus::Error(m) => assert_eq!(m, "Exec error. Check Logs."),
        other => panic!("unexpected {:?}", other),
    }
    assert!(matches!(&events[0], DockerEvent::Error(m)
        if m == "[DockStack] Failed to execute docker compose command (docker-compose): No such file or directory"));
    assert_eq!(sup.logs.len(), 1);
}

#[test]
fn start_wait_failure_keeps_detail_in_log() {
    let mut sup = Supervisor::new();
    let events = sup.start_wait_failed("interrupted");
    match &sup.status {
        ServiceStatus::Error(m) => assert_eq!(m, "Process error. Check Logs."),
        other => panic!("unexpected {:?}", other),
    }
    assert!(matches!(&events[0], DockerEvent::Error(m)
        if m == "[DockStack] Failed to wait for docker process: interrupted"));
    assert_eq!(sup.logs.line_at(0), "[DockStack] Failed to wait for docker process: interrupted");
}

#[test]
fn stop_failure_variants() {
    let mut sup = Supervisor::new();
    let events = sup.stop_wait_failed("interrupted");
    assert!(matches!(&events[0], DockerEvent::Error(m) if m == "[DockStack] Wait error: interrupted"));
    let events = sup.stop_spawn_failed("missing binary");
    assert!(matches!(&events[0], DockerEvent::Error(m)
        if m == "[DockStack] Failed to stop docker compose: missing binary"));
    assert!(matches!(sup.status, ServiceStatus::Error(_)));
}

#[test]
fn restart_write_failure_aborts() {
    let mut sup = Supervisor::new();
    sup.restart_request();
    let events = sup.restart_write_failed("disk full");
    assert!(matches!(&events[0], DockerEvent::Error(m)
        if m == "[DockStack] Error writing compose file: disk full"));
    let events = sup.restart_exit(false, "pull failed");
    assert!(matches!(&events[0], DockerEvent::Error(m)
        if m == "[DockStack] Restart failed: pull failed"));
}

#[test]
fn stream_failure_and_sync_stop_note() {
    let mut sup = Supervisor::new();
    let events = sup.stream_spawn_failed("missing binary");
    assert!(matches!(&events[0], DockerEvent::Error(m) if m == "Failed to stream logs: missing binary"));
    let events = sup.sync_stop_note();
    assert!(matches!(&events[0], DockerEvent::Log(m) if m == "[DockStack] Stopping services before exit..."));
    assert_eq!(sup.logs.line_at(0), "[DockStack] Stopping services before exit...");
}

#[test]
fn status_equality() {
    assert_eq!(ServiceStatus::Stopped, ServiceStatus::Stopped);
    assert_ne!(ServiceStatus::Stopped, ServiceStatus::Running);
    assert_eq!(
        ServiceStatus::Error("x".to_string()),
        ServiceStatus::Error("x".to_string())
    );
    assert_ne!(
        ServiceStatus::Error("x".to_string()),
        ServiceStatus::Error("y".to_string())
    );
}
