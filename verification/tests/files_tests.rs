use dockstack::config::{ProjectConfig, ServiceConfig};
use dockstack::files::{apache_config, default_index, nginx_config, php_ini_config, plan_project_files};

fn service(enabled: bool, locked: bool, port: u16) -> ServiceConfig {
    ServiceConfig {
        enabled,
        port,
        version: "latest".to_string(),
        display_name: None,
        image: None,
        is_custom: false,
        is_locked: locked,
        env_vars: Vec::new(),
        settings: Vec::new(),
    }
}

fn project(services: Vec<(String, ServiceConfig)>) -> ProjectConfig {
    ProjectConfig {
        id: "demo".to_string(),
        name: "Demo".to_string(),
        directory: "/tmp/demo".to_string(),
        services,
        ssl_enabled: false,
        custom_ports: Vec::new(),
        domain: "demo.test".to_string(),
    }
}

#[test]
fn plan_writes_manifest_first() {
    let p = project(vec![("redis".to_string(), service(true, false, 6379))]);
    let plan = plan_project_files(&p);
    assert_eq!(plan.files[0].path, "/tmp/demo/docker-compose.yml");
    assert!(plan.files[0].content.starts_with("services:\n"));
    assert!(plan.files[0].skip_if_present.is_empty());
    assert_eq!(plan.dirs[0], "/tmp/demo");
}

#[test]
fn plan_regenerates_unlocked_nginx_config() {
    let p = project(vec![("nginx".to_string(), service(true, false, 80))]);
    let plan = plan_project_files(&p);
    let nginx = plan
        .files
        .iter()
        .find(|f| f.path == "/tmp/demo/nginx/default.conf")
        .expect("nginx config planned");
    assert!(nginx.content.contains("server_name demo.test;"));
    assert!(plan.dirs.contains(&"/tmp/demo/nginx".to_string()));
}

#[test]
fn locked_nginx_config_is_never_written() {
    let p = project(vec![("nginx".to_string(), service(true, true, 80))]);
    let plan = plan_project_files(&p);
    assert!(plan.files.iter().all(|f| f.path != "/tmp/demo/nginx/default.conf"));
    assert!(!plan.dirs.contains(&"/tmp/demo/nginx".to_string()));
}

#[test]
fn locked_php_config_is_never_written() {
    let mut php = service(true, true, 9000);
    php.settings = vec![("memory_limit".to_string(), "512M".to_string())];
    let p = project(vec![("php".to_string(), php)]);
    let plan = plan_project_files(&p);
    assert!(plan.files.iter().all(|f| f.path != "/tmp/demo/php/php.ini"));
}

#[test]
fn php_config_uses_declared_memory_limit() {
    let mut php = service(true, false, 9000);
    php.settings = vec![("memory_limit".to_string(), "512M".to_string())];
    let p = project(vec![("php".to_string(), php)]);
    let plan = plan_project_files(&p);
    let ini = plan
        .files
        .iter()
        .find(|f| f.path == "/tmp/demo/php/php.ini")
        .expect("php config planned");
    assert!(ini.content.starts_with("memory_limit = 512M\n"));
    assert!(ini.content.contains("upload_max_filesize = 100M"));
}

#[test]
fn php_config_defaults_memory_limit() {
    let text = php_ini_config(&Vec::new());
    assert!(text.starts_with("memory_limit = 256M\n"));
}

#[test]
fn default_page_skipped_when_content_exists() {
    let p = project(vec![("redis".to_string(), service(true, false, 6379))]);
    let plan = plan_project_files(&p);
    let index = plan
        .files
        .iter()
        .find(|f| f.path == "/tmp/demo/www/index.php")
        .expect("default page planned");
    assert_eq!(
        index.skip_if_present,
        vec!["/tmp/demo/www/index.php".to_string(), "/tmp/demo/www/index.html".to_string()]
    );
    assert!(index.content.contains("<strong>Demo</strong>"));
    assert!(plan.dirs.contains(&"/tmp/demo/www".to_string()));
}

#[test]
fn apache_config_interpolates_domain() {
    let text = apache_config("demo.test");
    assert!(text.contains("ServerName demo.test\n"));
    assert!(text.contains("LoadModule proxy_fcgi_module"));
    assert!(text.contains("SetHandler \"proxy:fcgi://php:9000\""));
}

#[test]
fn nginx_config_tls_variant() {
    let plain = nginx_config("demo.test", false);
    assert!(plain.contains("listen 80;"));
    assert!(!plain.contains("443"));
    let tls = nginx_config("demo.test", true);
    assert!(tls.contains("listen 443 ssl;"));
    assert!(tls.contains("return 301 https://$server_name$request_uri;"));
    assert!(tls.contains("ssl_certificate /etc/nginx/certs/server.crt;"));
    assert_eq!(tls.matches("server_name demo.test;").count(), 2);
}

#[test]
fn default_index_names_project_twice() {
    let text = default_index("My Stack");
    assert_eq!(text.matches("My Stack").count(), 2);
    assert!(text.contains("<?php echo phpversion(); ?>"));
}
