use dockstack::config::{ProjectConfig, ServiceConfig};
use dockstack::manifest::generate;
use dockstack::yaml::{generate_compose, render};

fn service(enabled: bool, port: u16, version: &str) -> ServiceConfig {
    ServiceConfig {
        enabled,
        port,
        version: version.to_string(),
        display_name: None,
        image: None,
        is_custom: false,
        is_locked: false,
        env_vars: Vec::new(),
        settings: Vec::new(),
    }
}

fn project(services: Vec<(String, ServiceConfig)>) -> ProjectConfig {
    ProjectConfig {
        id: "demo".to_string(),
        name: "Demo".to_string(),
        directory: "/tmp/demo".to_string(),
        services,
        ssl_enabled: false,
        custom_ports: Vec::new(),
        domain: "demo.test".to_string(),
    }
}

fn parse(text: &str) -> serde_yaml::Value {
    serde_yaml::from_str(text).expect("generated manifest must parse as YAML")
}

#[test]
fn postgres_only_end_to_end() {
    let p = project(vec![("postgresql".to_string(), service(true, 5432, "16"))]);
    let text = generate_compose(&p);
    let v = parse(&text);
    let services = v.get("services").expect("services section").as_mapping().unwrap();
    let pg = services.get("postgresql").expect("postgresql stanza");
    assert_eq!(pg.get("image").unwrap().as_str().unwrap(), "postgres:16");
    let ports = pg.get("ports").unwrap().as_sequence().unwrap();
    assert_eq!(ports.len(), 1);
    assert_eq!(ports[0].as_str().unwrap(), "5432:5432");
    assert!(pg.get("healthcheck").is_some());
    let volumes = v.get("volumes").expect("volumes section").as_mapping().unwrap();
    assert_eq!(volumes.len(), 1);
    assert!(volumes.get("postgres_data").is_some());
    assert!(v.get("networks").is_some());
    assert!(services.get("php").is_none());
    assert!(services.get("nginx").is_none());
}

#[test]
fn generation_deterministic_modulo_order() {
    let a = project(vec![
        ("postgresql".to_string(), service(true, 5432, "16")),
        ("redis".to_string(), service(true, 6379, "7")),
        ("adminer".to_string(), service(true, 8083, "latest")),
    ]);
    let b = project(vec![
        ("adminer".to_string(), service(true, 8083, "latest")),
        ("postgresql".to_string(), service(true, 5432, "16")),
        ("redis".to_string(), service(true, 6379, "7")),
    ]);
    let va = parse(&generate_compose(&a));
    let vb = parse(&generate_compose(&b));
    // serde_yaml mappings compare as maps, so key order does not matter.
    assert_eq!(va, vb);
}

#[test]
fn no_stateful_no_volumes_section() {
    let p = project(vec![
        ("adminer".to_string(), service(true, 8083, "latest")),
        ("php".to_string(), service(true, 9000, "8.3-fpm")),
    ]);
    let v = parse(&generate_compose(&p));
    assert!(v.get("volumes").is_none());
    assert!(v.get("networks").is_some());
}

#[test]
fn stateful_services_own_one_volume_each() {
    let p = project(vec![
        ("mysql".to_string(), service(true, 3306, "8.0")),
        ("redis".to_string(), service(true, 6379, "7")),
    ]);
    let m = generate(&p);
    assert_eq!(m.volumes, vec!["mysql_data".to_string(), "redis_data".to_string()]);
}

#[test]
fn round_trip_has_entry_per_enabled_service() {
    let p = project(vec![
        ("postgresql".to_string(), service(true, 5433, "16")),
        ("mysql".to_string(), service(false, 3306, "8.0")),
        ("redis".to_string(), service(true, 6380, "7")),
        ("adminer".to_string(), service(true, 8090, "latest")),
    ]);
    let text = generate_compose(&p);
    let v = parse(&text);
    let services = v.get("services").unwrap().as_mapping().unwrap();
    assert_eq!(services.len(), 3);
    for (key, host) in [("postgresql", "5433:5432"), ("redis", "6380:6379"), ("adminer", "8090:8080")] {
        let st = services.get(key).expect("enabled service rendered");
        let ports = st.get("ports").unwrap().as_sequence().unwrap();
        assert_eq!(ports[0].as_str().unwrap(), host);
    }
    assert!(services.get("mysql").is_none());
}

#[test]
fn ssl_toggle_never_renders_a_stanza() {
    let p = project(vec![
        ("ssl".to_string(), service(true, 443, "latest")),
        ("redis".to_string(), service(true, 6379, "7")),
    ]);
    let v = parse(&generate_compose(&p));
    let services = v.get("services").unwrap().as_mapping().unwrap();
    assert_eq!(services.len(), 1);
    assert!(services.get("ssl").is_none());
}

#[test]
fn nginx_with_tls_adds_port_and_certs() {
    let mut p = project(vec![("nginx".to_string(), service(true, 8080, "latest"))]);
    p.ssl_enabled = true;
    let v = parse(&generate_compose(&p));
    let nginx = v.get("services").unwrap().get("nginx").unwrap();
    let ports = nginx.get("ports").unwrap().as_sequence().unwrap();
    assert_eq!(ports[0].as_str().unwrap(), "8080:80");
    assert_eq!(ports[1].as_str().unwrap(), "443:443");
    let vols = nginx.get("volumes").unwrap().as_sequence().unwrap();
    assert_eq!(vols.len(), 3);
    assert_eq!(vols[2].as_str().unwrap(), "./certs:/etc/nginx/certs:ro");
}

#[test]
fn nginx_without_tls_has_single_port() {
    let p = project(vec![("nginx".to_string(), service(true, 80, "latest"))]);
    let v = parse(&generate_compose(&p));
    let nginx = v.get("services").unwrap().get("nginx").unwrap();
    let ports = nginx.get("ports").unwrap().as_sequence().unwrap();
    assert_eq!(ports.len(), 1);
    assert_eq!(ports[0].as_str().unwrap(), "80:80");
    let vols = nginx.get("volumes").unwrap().as_sequence().unwrap();
    assert_eq!(vols.len(), 2);
}

#[test]
fn phpmyadmin_env_seeded_not_overridden() {
    let mut pma = service(true, 8081, "latest");
    pma.env_vars = vec![
        ("PMA_HOST".to_string(), "elsewhere".to_string()),
        ("PMA_USER".to_string(), "root".to_string()),
    ];
    let p = project(vec![
        ("phpmyadmin".to_string(), pma),
        ("mysql".to_string(), service(true, 3306, "8.0")),
    ]);
    let v = parse(&generate_compose(&p));
    let st = v.get("services").unwrap().get("phpmyadmin").unwrap();
    let env = st.get("environment").unwrap().as_mapping().unwrap();
    // The user's value wins over the seeded database host pointer.
    assert_eq!(env.get("PMA_HOST").unwrap().as_str().unwrap(), "elsewhere");
    // The seeded entry missing from the user's mapping is added.
    assert_eq!(env.get("PMA_ARBITRARY").unwrap().as_str().unwrap(), "1");
    assert_eq!(env.get("PMA_USER").unwrap().as_str().unwrap(), "root");
    let deps = st.get("depends_on").unwrap().as_sequence().unwrap();
    assert_eq!(deps[0].as_str().unwrap(), "mysql");
}

#[test]
fn phpmyadmin_without_mysql_has_no_depends_on() {
    let p = project(vec![("phpmyadmin".to_string(), service(true, 8081, "latest"))]);
    let v = parse(&generate_compose(&p));
    let st = v.get("services").unwrap().get("phpmyadmin").unwrap();
    assert!(st.get("depends_on").is_none());
}

#[test]
fn custom_service_rendered_generically() {
    let mut svc = service(true, 9200, "8.11.0");
    svc.is_custom = true;
    svc.image = Some("elasticsearch".to_string());
    let p = project(vec![("search".to_string(), svc)]);
    let v = parse(&generate_compose(&p));
    let st = v.get("services").unwrap().get("search").unwrap();
    assert_eq!(st.get("image").unwrap().as_str().unwrap(), "elasticsearch:8.11.0");
    let ports = st.get("ports").unwrap().as_sequence().unwrap();
    assert_eq!(ports[0].as_str().unwrap(), "9200:9200");
    assert!(st.get("healthcheck").is_none());
    assert!(st.get("restart").is_none());
}

#[test]
fn network_named_from_project_id() {
    let p = project(vec![("redis".to_string(), service(true, 6379, "7"))]);
    let v = parse(&generate_compose(&p));
    let networks = v.get("networks").unwrap().as_mapping().unwrap();
    let net = networks.get("dockstack_demo").expect("project-scoped network");
    assert_eq!(net.get("driver").unwrap().as_str().unwrap(), "bridge");
    let redis = v.get("services").unwrap().get("redis").unwrap();
    let nets = redis.get("networks").unwrap().as_sequence().unwrap();
    assert_eq!(nets[0].as_str().unwrap(), "dockstack_demo");
}

#[test]
fn container_names_derived_from_id_and_key() {
    let p = project(vec![("mysql".to_string(), service(true, 3306, "8.0"))]);
    let m = generate(&p);
    assert_eq!(m.services.len(), 1);
    assert_eq!(m.services[0].1.container_name, "dockstack_demo_mysql");
    let text = render(&m);
    assert!(text.contains("container_name: \"dockstack_demo_mysql\""));
}

#[test]
fn healthcheck_fixed_defaults() {
    let p = project(vec![("redis".to_string(), service(true, 6379, "7"))]);
    let v = parse(&generate_compose(&p));
    let hc = v.get("services").unwrap().get("redis").unwrap().get("healthcheck").unwrap();
    let test = hc.get("test").unwrap().as_sequence().unwrap();
    assert_eq!(test[0].as_str().unwrap(), "CMD-SHELL");
    assert_eq!(test[1].as_str().unwrap(), "redis-cli ping");
    assert_eq!(hc.get("interval").unwrap().as_str().unwrap(), "10s");
    assert_eq!(hc.get("timeout").unwrap().as_str().unwrap(), "5s");
    assert_eq!(hc.get("retries").unwrap().as_u64().unwrap(), 5);
}

#[test]
fn empty_service_set_renders_empty_mapping() {
    let p = project(vec![("redis".to_string(), service(false, 6379, "7"))]);
    let v = parse(&generate_compose(&p));
    let services = v.get("services").unwrap().as_mapping().expect("an empty mapping, not null");
    assert!(services.is_empty());
    assert!(v.get("volumes").is_none());
    assert!(v.get("networks").is_some());
}

#[test]
fn environment_block_renders_empty_mapping() {
    let p = project(vec![("postgresql".to_string(), service(true, 5432, "16"))]);
    let v = parse(&generate_compose(&p));
    let env = v
        .get("services")
        .unwrap()
        .get("postgresql")
        .unwrap()
        .get("environment")
        .unwrap()
        .as_mapping()
        .expect("an empty mapping, not null");
    assert!(env.is_empty());
}

#[test]
fn quoting_survives_special_characters() {
    let mut svc = service(true, 8000, "v1\"x\\y");
    svc.is_custom = true;
    let p = project(vec![("odd".to_string(), svc)]);
    let v = parse(&generate_compose(&p));
    let st = v.get("services").unwrap().get("odd").unwrap();
    assert_eq!(st.get("image").unwrap().as_str().unwrap(), "odd:v1\"x\\y");
}
