//! The fixed catalog of known service kinds: their keys, images, canonical
//! container ports, named volumes and healthchecks, and the user-facing
//! registry describing them.

use vstd::prelude::*;

use crate::strutil::str_eq;

verus! {

/// The closed set of service kinds a project can declare. Every key outside
/// the catalog is `Custom`.
#[derive(Debug, Clone, Copy, PartialEq, Eq, Structural)]
pub enum ServiceKind {
    Postgresql,
    Mysql,
    Php,
    Apache,
    Nginx,
    Phpmyadmin,
    Pgadmin,
    Redis,
    Adminer,
    Ssl,
    Custom,
}

/// The kind a service key denotes.
pub open spec fn kind_of_key(key: Seq<char>) -> ServiceKind {
    if key == "postgresql"@ {
        ServiceKind::Postgresql
    } else if key == "mysql"@ {
        ServiceKind::Mysql
    } else if key == "php"@ {
        ServiceKind::Php
    } else if key == "apache"@ {
        ServiceKind::Apache
    } else if key == "nginx"@ {
        ServiceKind::Nginx
    } else if key == "phpmyadmin"@ {
        ServiceKind::Phpmyadmin
    } else if key == "pgadmin"@ {
        ServiceKind::Pgadmin
    } else if key == "redis"@ {
        ServiceKind::Redis
    } else if key == "adminer"@ {
        ServiceKind::Adminer
    } else if key == "ssl"@ {
        ServiceKind::Ssl
    } else {
        ServiceKind::Custom
    }
}

/// Looks a service key up in the catalog.
pub fn service_kind(key: &str) -> (k: ServiceKind)
    ensures
        k == kind_of_key(key@),
{
    if str_eq(key, "postgresql") {
        ServiceKind::Postgresql
    } else if str_eq(key, "mysql") {
        ServiceKind::Mysql
    } else if str_eq(key, "php") {
        ServiceKind::Php
    } else if str_eq(key, "apache") {
        ServiceKind::Apache
    } else if str_eq(key, "nginx") {
        ServiceKind::Nginx
    } else if str_eq(key, "phpmyadmin") {
        ServiceKind::Phpmyadmin
    } else if str_eq(key, "pgadmin") {
        ServiceKind::Pgadmin
    } else if str_eq(key, "redis") {
        ServiceKind::Redis
    } else if str_eq(key, "adminer") {
        ServiceKind::Adminer
    } else if str_eq(key, "ssl") {
        ServiceKind::Ssl
    } else {
        ServiceKind::Custom
    }
}

/// The image repository a catalog kind is pulled from; empty for kinds that
/// render no stanza of their own or carry their own image reference.
pub open spec fn image_base_spec(k: ServiceKind) -> Seq<char> {
    match k {
        ServiceKind::Postgresql => "postgres"@,
        ServiceKind::Mysql => "mysql"@,
        ServiceKind::Php => "php"@,
        ServiceKind::Apache => "httpd"@,
        ServiceKind::Nginx => "nginx"@,
        ServiceKind::Phpmyadmin => "phpmyadmin"@,
        ServiceKind::Pgadmin => "dpage/pgadmin4"@,
        ServiceKind::Redis => "redis"@,
        ServiceKind::Adminer => "adminer"@,
        ServiceKind::Ssl => ""@,
        ServiceKind::Custom => ""@,
    }
}

/// See `image_base_spec`.
pub fn image_base(k: ServiceKind) -> (r: &'static str)
    ensures
        r@ == image_base_spec(k),
{
    match k {
        ServiceKind::Postgresql => "postgres",
        ServiceKind::Mysql => "mysql",
        ServiceKind::Php => "php",
        ServiceKind::Apache => "httpd",
        ServiceKind::Nginx => "nginx",
        ServiceKind::Phpmyadmin => "phpmyadmin",
        ServiceKind::Pgadmin => "dpage/pgadmin4",
        ServiceKind::Redis => "redis",
        ServiceKind::Adminer => "adminer",
        ServiceKind::Ssl => "",
        ServiceKind::Custom => "",
    }
}

/// The suffix of the deterministic container name for a catalog kind.
pub open spec fn container_suffix_spec(k: ServiceKind) -> Seq<char> {
    match k {
        ServiceKind::Postgresql => "postgres"@,
        ServiceKind::Mysql => "mysql"@,
        ServiceKind::Php => "php"@,
        ServiceKind::Apache => "apache"@,
        ServiceKind::Nginx => "nginx"@,
        ServiceKind::Phpmyadmin => "phpmyadmin"@,
        ServiceKind::Pgadmin => "pgadmin"@,
        ServiceKind::Redis => "redis"@,
        ServiceKind::Adminer => "adminer"@,
        ServiceKind::Ssl => ""@,
        ServiceKind::Custom => ""@,
    }
}

/// See `container_suffix_spec`.
pub fn container_suffix(k: ServiceKind) -> (r: &'static str)
    ensures
        r@ == container_suffix_spec(k),
{
    match k {
        ServiceKind::Postgresql => "postgres",
        ServiceKind::Mysql => "mysql",
        ServiceKind::Php => "php",
        ServiceKind::Apache => "apache",
        ServiceKind::Nginx => "nginx",
        ServiceKind::Phpmyadmin => "phpmyadmin",
        ServiceKind::Pgadmin => "pgadmin",
        ServiceKind::Redis => "redis",
        ServiceKind::Adminer => "adminer",
        ServiceKind::Ssl => "",
        ServiceKind::Custom => "",
    }
}

/// The canonical container-side port a published host port maps to, for the
/// catalog kinds that publish one.
pub open spec fn container_port_spec(k: ServiceKind) -> Option<u16> {
    match k {
        ServiceKind::Postgresql => Some(5432u16),
        ServiceKind::Mysql => Some(3306u16),
        ServiceKind::Php => None,
        ServiceKind::Apache => Some(80u16),
        ServiceKind::Nginx => Some(80u16),
        ServiceKind::Phpmyadmin => Some(80u16),
        ServiceKind::Pgadmin => Some(80u16),
        ServiceKind::Redis => Some(6379u16),
        ServiceKind::Adminer => Some(8080u16),
        ServiceKind::Ssl => None,
        ServiceKind::Custom => None,
    }
}

/// See `container_port_spec`.
pub fn container_port(k: ServiceKind) -> (r: Option<u16>)
    ensures
        r == container_port_spec(k),
{
    match k {
        ServiceKind::Postgresql => Some(5432u16),
        ServiceKind::Mysql => Some(3306u16),
        ServiceKind::Php => None,
        ServiceKind::Apache => Some(80u16),
        ServiceKind::Nginx => Some(80u16),
        ServiceKind::Phpmyadmin => Some(80u16),
        ServiceKind::Pgadmin => Some(80u16),
        ServiceKind::Redis => Some(6379u16),
        ServiceKind::Adminer => Some(8080u16),
        ServiceKind::Ssl => None,
        ServiceKind::Custom => None,
    }
}

/// The named volume and its mount point for the kinds that maintain state.
pub open spec fn named_volume_spec(k: ServiceKind) -> Option<(Seq<char>, Seq<char>)> {
    match k {
        ServiceKind::Postgresql => Some(("postgres_data"@, "/var/lib/postgresql/data"@)),
        ServiceKind::Mysql => Some(("mysql_data"@, "/var/lib/mysql"@)),
        ServiceKind::Pgadmin => Some(("pgadmin_data"@, "/var/lib/pgadmin"@)),
        ServiceKind::Redis => Some(("redis_data"@, "/data"@)),
        _ => None,
    }
}

/// See `named_volume_spec`.
pub fn named_volume(k: ServiceKind) -> (r: Option<(&'static str, &'static str)>)
    ensures
        match r {
            Some(p) => named_volume_spec(k) == Some((p.0@, p.1@)),
            None => named_volume_spec(k) is None,
        },
{
    match k {
        ServiceKind::Postgresql => Some(("postgres_data", "/var/lib/postgresql/data")),
        ServiceKind::Mysql => Some(("mysql_data", "/var/lib/mysql")),
        ServiceKind::Pgadmin => Some(("pgadmin_data", "/var/lib/pgadmin")),
        ServiceKind::Redis => Some(("redis_data", "/data")),
        _ => None,
    }
}

/// The shell probe of the healthcheck for the kinds that carry one.
pub open spec fn healthcheck_cmd_spec(k: ServiceKind) -> Option<Seq<char>> {
    match k {
        ServiceKind::Postgresql => Some("pg_isready -U postgres"@),
        ServiceKind::Mysql => Some("mysqladmin ping -h localhost"@),
        ServiceKind::Redis => Some("redis-cli ping"@),
        _ => None,
    }
}

/// See `healthcheck_cmd_spec`.
pub fn healthcheck_cmd(k: ServiceKind) -> (r: Option<&'static str>)
    ensures
        match r {
            Some(c) => healthcheck_cmd_spec(k) == Some(c@),
            None => healthcheck_cmd_spec(k) is None,
        },
{
    match k {
        ServiceKind::Postgresql => Some("pg_isready -U postgres"),
        ServiceKind::Mysql => Some("mysqladmin ping -h localhost"),
        ServiceKind::Redis => Some("redis-cli ping"),
        _ => None,
    }
}

/// The broad grouping a catalog service belongs to in the user interface.
#[derive(Debug, Clone, Copy, PartialEq, Eq, Structural)]
pub enum ServiceCategory {
    Database,
    WebServer,
    Runtime,
    Admin,
    Cache,
    Security,
    Custom,
}

impl ServiceCategory {
    /// The user-facing label of the category.
    pub fn label(&self) -> (r: &'static str)
        ensures
            r@ == self.label_spec(),
    {
        match self {
            ServiceCategory::Database => "📦 Database",
            ServiceCategory::WebServer => "🌐 Web Server",
            ServiceCategory::Runtime => "⚙️ Runtime",
            ServiceCategory::Admin => "🔧 Admin Tools",
            ServiceCategory::Cache => "💾 Cache",
            ServiceCategory::Security => "🔒 Security",
            ServiceCategory::Custom => "🧩 Custom Services",
        }
    }

    /// See `label`.
    pub open spec fn label_spec(&self) -> Seq<char> {
        match self {
            ServiceCategory::Database => "📦 Database"@,
            ServiceCategory::WebServer => "🌐 Web Server"@,
            ServiceCategory::Runtime => "⚙️ Runtime"@,
            ServiceCategory::Admin => "🔧 Admin Tools"@,
            ServiceCategory::Cache => "💾 Cache"@,
            ServiceCategory::Security => "🔒 Security"@,
            ServiceCategory::Custom => "🧩 Custom Services"@,
        }
    }
}

/// A catalog entry as shown to the user.
#[derive(Debug)]
pub struct ServiceInfo {
    pub name: String,
    pub display_name: String,
    pub description: String,
    pub default_port: u16,
    pub category: ServiceCategory,
    pub icon: &'static str,
}

/// The mathematical image of a `ServiceInfo`.
pub struct ServiceInfoView {
    pub name: Seq<char>,
    pub display_name: Seq<char>,
    pub description: Seq<char>,
    pub default_port: u16,
    pub category: ServiceCategory,
    pub icon: Seq<char>,
}

impl View for ServiceInfo {
    type V = ServiceInfoView;

    open spec fn view(&self) -> ServiceInfoView {
        ServiceInfoView {
            name: self.name@,
            display_name: self.display_name@,
            description: self.description@,
            default_port: self.default_port,
            category: self.category,
            icon: self.icon@,
        }
    }
}

impl Clone for ServiceInfo {
    fn clone(&self) -> (r: Self)
        ensures
            r@ == self@,
    {
        ServiceInfo {
            name: self.name.clone(),
            display_name: self.display_name.clone(),
            description: self.description.clone(),
            default_port: self.default_port,
            category: self.category,
            icon: self.icon,
        }
    }
}

/// One entry of the registry, at spec level.
pub open spec fn info_view(
    name: Seq<char>,
    display_name: Seq<char>,
    description: Seq<char>,
    default_port: u16,
    category: ServiceCategory,
    icon: Seq<char>,
) -> ServiceInfoView {
    ServiceInfoView { name, display_name, description, default_port, category, icon }
}

/// The fixed catalog as shown to the user, in its fixed order.
pub open spec fn registry_view() -> Seq<ServiceInfoView> {
    seq![
        info_view(
            "postgresql"@,
            "PostgreSQL"@,
            "Advanced open source relational database"@,
            5432u16,
            ServiceCategory::Database,
            "🐘"@,
        ),
        info_view(
            "mysql"@,
            "MySQL"@,
            "Popular open source relational database"@,
            3306u16,
            ServiceCategory::Database,
            "🐬"@,
        ),
        info_view(
            "redis"@,
            "Redis"@,
            "In-memory data structure store"@,
            6379u16,
            ServiceCategory::Cache,
            "⚡"@,
        ),
        info_view(
            "nginx"@,
            "Nginx"@,
            "High performance web server & reverse proxy"@,
            80u16,
            ServiceCategory::WebServer,
            "🌐"@,
        ),
        info_view(
            "apache"@,
            "Apache"@,
            "The most widely used web server"@,
            8080u16,
            ServiceCategory::WebServer,
            "🎯"@,
        ),
        info_view(
            "php"@,
            "PHP-FPM"@,
            "PHP FastCGI Process Manager"@,
            9000u16,
            ServiceCategory::Runtime,
            "🐘"@,
        ),
        info_view(
            "phpmyadmin"@,
            "phpMyAdmin"@,
            "Web interface for MySQL administration"@,
            8081u16,
            ServiceCategory::Admin,
            "🔧"@,
        ),
        info_view(
            "pgadmin"@,
            "pgAdmin"@,
            "Web interface for PostgreSQL administration"@,
            8082u16,
            ServiceCategory::Admin,
            "🔧"@,
        ),
        info_view(
            "adminer"@,
            "Adminer"@,
            "Universal database management in single PHP file"@,
            8083u16,
            ServiceCategory::Admin,
            "🗄️"@,
        ),
        info_view(
            "ssl"@,
            "SSL/HTTPS"@,
            "Self-signed HTTPS reverse proxy"@,
            443u16,
            ServiceCategory::Security,
            "🔐"@,
        ),
    ]
}

fn info(
    name: &str,
    display_name: &str,
    description: &str,
    default_port: u16,
    category: ServiceCategory,
    icon: &'static str,
) -> (r: ServiceInfo)
    ensures
        r@ == info_view(name@, display_name@, description@, default_port, category, icon@),
{
    ServiceInfo {
        name: name.to_owned(),
        display_name: display_name.to_owned(),
        description: description.to_owned(),
        default_port,
        category,
        icon,
    }
}

/// The fixed catalog of known services with their default metadata.
pub fn get_service_registry() -> (r: Vec<ServiceInfo>)
    ensures
        r@.map_values(|s: ServiceInfo| s@) == registry_view(),
{
    let mut v: Vec<ServiceInfo> = Vec::new();
    v.push(
        info(
            "postgresql",
            "PostgreSQL",
            "Advanced open source relational database",
            5432,
            ServiceCategory::Database,
            "🐘",
        ),
    );
    v.push(
        info(
            "mysql",
            "MySQL",
            "Popular open source relational database",
            3306,
            ServiceCategory::Database,
            "🐬",
        ),
    );
    v.push(
        info("redis", "Redis", "In-memory data structure store", 6379, ServiceCategory::Cache, "⚡"),
    );
    v.push(
        info(
            "nginx",
            "Nginx",
            "High performance web server & reverse proxy",
            80,
            ServiceCategory::WebServer,
            "🌐",
        ),
    );
    v.push(
        info(
            "apache",
            "Apache",
            "The most widely used web server",
            8080,
            ServiceCategory::WebServer,
            "🎯",
        ),
    );
    v.push(
        info("php", "PHP-FPM", "PHP FastCGI Process Manager", 9000, ServiceCategory::Runtime, "🐘"),
    );
    v.push(
        info(
            "phpmyadmin",
            "phpMyAdmin",
            "Web interface for MySQL administration",
            8081,
            ServiceCategory::Admin,
            "🔧",
        ),
    );
    v.push(
        info(
            "pgadmin",
            "pgAdmin",
            "Web interface for PostgreSQL administration",
            8082,
            ServiceCategory::Admin,
            "🔧",
        ),
    );
    v.push(
        info(
            "adminer",
            "Adminer",
            "Universal database management in single PHP file",
            8083,
            ServiceCategory::Admin,
            "🗄️",
        ),
    );
    v.push(
        info(
            "ssl",
            "SSL/HTTPS",
            "Self-signed HTTPS reverse proxy",
            443,
            ServiceCategory::Security,
            "🔐",
        ),
    );
    proof {
        assert(v@.map_values(|s: ServiceInfo| s@) =~= registry_view());
    }
    v
}

/// Looks a service up in the registry by its key; yields the entry whose name
/// is the key, or nothing when the key is not in the catalog.
pub fn get_service_info(name: &str) -> (r: Option<ServiceInfo>)
    ensures
        match r {
            Some(i) => exists|j: int|
                0 <= j < registry_view().len() && registry_view()[j] == i@ && i@.name == name@,
            None => forall|j: int|
                0 <= j < registry_view().len() ==> (#[trigger] registry_view()[j]).name != name@,
        },
{
    let registry = get_service_registry();
    let mut j: usize = 0;
    while j < registry.len()
        invariant
            j <= registry.len(),
            registry@.map_values(|s: ServiceInfo| s@) == registry_view(),
            forall|k: int| 0 <= k < j ==> (#[trigger] registry_view()[k]).name != name@,
        decreases registry.len() - j,
    {
        if str_eq(registry[j].name.as_str(), name) {
            let found = registry[j].clone();
            proof {
                assert(registry@.map_values(|s: ServiceInfo| s@)[j as int] == registry@[j as int]@);
            }
            return Some(found);
        }
        proof {
            assert(registry@.map_values(|s: ServiceInfo| s@)[j as int] == registry@[j as int]@);
        }
        j = j + 1;
    }
    None
}

} // verus!
