use dockstack::catalog::{get_service_info, get_service_registry, ServiceCategory};
use dockstack::config::{default_with_directory, ProjectConfig, ServiceConfig};
use dockstack::monitor::parse_stats_line;
use dockstack::ssl::SslManager;
use dockstack::terminal::{echo_line, input_with_newline};

#[test]
fn registry_lists_ten_services() {
    let registry = get_service_registry();
    assert_eq!(registry.len(), 10);
    let names: Vec<&str> = registry.iter().map(|s| s.name.as_str()).collect();
    assert_eq!(
        names,
        vec![
            "postgresql",
            "mysql",
            "redis",
            "nginx",
            "apache",
            "php",
            "phpmyadmin",
            "pgadmin",
            "adminer",
            "ssl",
        ]
    );
}

#[test]
fn registry_default_ports() {
    let registry = get_service_registry();
    let pg = registry.iter().find(|s| s.name == "postgresql").unwrap();
    assert_eq!(pg.default_port, 5432);
    assert_eq!(pg.display_name, "PostgreSQL");
    assert!(matches!(pg.category, ServiceCategory::Database));
    let ssl = registry.iter().find(|s| s.name == "ssl").unwrap();
    assert_eq!(ssl.default_port, 443);
    assert!(matches!(ssl.category, ServiceCategory::Security));
}

#[test]
fn service_info_lookup() {
    let info = get_service_info("redis").expect("redis is in the catalog");
    assert_eq!(info.display_name, "Redis");
    assert_eq!(info.default_port, 6379);
    assert!(get_service_info("does-not-exist").is_none());
}

#[test]
fn category_labels() {
    assert_eq!(ServiceCategory::Database.label(), "📦 Database");
    assert_eq!(ServiceCategory::Custom.label(), "🧩 Custom Services");
}

fn get<'a>(p: &'a ProjectConfig, key: &str) -> &'a ServiceConfig {
    &p.services.iter().find(|e| e.0 == key).unwrap().1
}

#[test]
fn default_project_declares_whole_catalog() {
    let p = default_with_directory("/tmp/proj");
    assert_eq!(p.id, "default");
    assert_eq!(p.name, "Default Project");
    assert_eq!(p.directory, "/tmp/proj");
    assert_eq!(p.domain, "dockstack.test");
    assert!(!p.ssl_enabled);
    assert_eq!(p.services.len(), 10);
    assert!(p.services.iter().all(|e| !e.1.enabled));
    let pg = get(&p, "postgresql");
    assert_eq!(pg.port, 5432);
    assert_eq!(pg.version, "16");
    assert!(pg.env_vars.contains(&("POSTGRES_USER".to_string(), "postgres".to_string())));
    assert!(pg.env_vars.contains(&("POSTGRES_DB".to_string(), "devdb".to_string())));
    let php = get(&p, "php");
    assert_eq!(php.version, "8.3-fpm");
    assert!(php.settings.contains(&("memory_limit".to_string(), "256M".to_string())));
    let mysql = get(&p, "mysql");
    assert_eq!(mysql.port, 3306);
    assert_eq!(mysql.version, "8.0");
}

#[test]
fn enabled_services_reports_enabled_keys() {
    let mut p = default_with_directory("/tmp/proj");
    assert_eq!(p.enabled_count(), 0);
    assert!(p.enabled_services().is_empty());
    for entry in p.services.iter_mut() {
        if entry.0 == "redis" || entry.0 == "nginx" {
            entry.1.enabled = true;
        }
    }
    let enabled = p.enabled_services();
    assert_eq!(enabled.len(), 2);
    assert!(enabled.contains(&"nginx".to_string()));
    assert!(enabled.contains(&"redis".to_string()));
    assert_eq!(p.enabled_count(), 2);
    assert!(p.service_enabled("redis"));
    assert!(!p.service_enabled("mysql"));
    assert!(!p.service_enabled("unknown"));
}

#[test]
fn stats_line_parses_with_limit() {
    let s = parse_stats_line("web|1.5%|10MiB / 1GiB|1.0%|1kB / 2kB|3MB / 4MB");
    assert_eq!(s.name, "web");
    assert_eq!(s.cpu_percent, "1.5%");
    assert_eq!(s.mem_usage, "10MiB / 1GiB");
    assert_eq!(s.mem_percent, "1.0%");
    assert_eq!(s.net_io, "1kB / 2kB");
    assert_eq!(s.block_io, "3MB / 4MB");
    // A seventh delimited piece stays inside the sixth field.
    let s = parse_stats_line("a|b|c|d|e|f|g");
    assert_eq!(s.block_io, "f|g");
}

#[test]
fn cert_paths_under_project_directory() {
    assert_eq!(SslManager::certs_dir("/tmp/demo"), "/tmp/demo/certs");
    let (crt, key) = SslManager::cert_paths("/tmp/demo");
    assert_eq!(crt, "/tmp/demo/certs/server.crt");
    assert_eq!(key, "/tmp/demo/certs/server.key");
}

#[test]
fn terminal_input_gets_one_newline() {
    assert_eq!(input_with_newline("ls"), "ls\n");
    assert_eq!(input_with_newline("ls\n"), "ls\n");
    assert_eq!(input_with_newline(""), "\n");
}

#[test]
fn terminal_echo_trims_input() {
    assert_eq!(echo_line("  ls -la \n"), "$ ls -la");
    assert_eq!(echo_line("pwd"), "$ pwd");
}
