//! Project and service declarations: the data every core operation works on,
//! with association-list lookups and the default project.

use vstd::prelude::*;

use crate::strutil::str_eq;

verus! {

broadcast use vstd::prelude::Seq::group_seq_extra;

/// One declared service of a project.
#[derive(Debug)]
pub struct ServiceConfig {
    pub enabled: bool,
    pub port: u16,
    pub version: String,
    pub display_name: Option<String>,
    pub image: Option<String>,
    pub is_custom: bool,
    pub is_locked: bool,
    pub env_vars: Vec<(String, String)>,
    pub settings: Vec<(String, String)>,
}

/// The mathematical image of a `ServiceConfig`.
#[verifier::ext_equal]
pub struct ServiceConfigView {
    pub enabled: bool,
    pub port: u16,
    pub version: Seq<char>,
    pub display_name: Option<Seq<char>>,
    pub image: Option<Seq<char>>,
    pub is_custom: bool,
    pub is_locked: bool,
    pub env_vars: Seq<(Seq<char>, Seq<char>)>,
    pub settings: Seq<(Seq<char>, Seq<char>)>,
}

/// The view of a vector of string pairs.
pub open spec fn pairs_view(v: Seq<(String, String)>) -> Seq<(Seq<char>, Seq<char>)> {
    v.map_values(|p: (String, String)| (p.0@, p.1@))
}

impl View for ServiceConfig {
    type V = ServiceConfigView;

    open spec fn view(&self) -> ServiceConfigView {
        ServiceConfigView {
            enabled: self.enabled,
            port: self.port,
            version: self.version@,
            display_name: match self.display_name {
                Some(ref s) => Some(s@),
                None => None,
            },
            image: match self.image {
                Some(ref s) => Some(s@),
                None => None,
            },
            is_custom: self.is_custom,
            is_locked: self.is_locked,
            env_vars: pairs_view(self.env_vars@),
            settings: pairs_view(self.settings@),
        }
    }
}

/// Copies a vector of string pairs.
pub fn clone_pairs(v: &Vec<(String, String)>) -> (r: Vec<(String, String)>)
    ensures
        pairs_view(r@) == pairs_view(v@),
{
    let mut out: Vec<(String, String)> = Vec::new();
    let mut i: usize = 0;
    while i < v.len()
        invariant
            i <= v.len(),
            pairs_view(out@) == pairs_view(v@.take(i as int)),
        decreases v.len() - i,
    {
        out.push((v[i].0.clone(), v[i].1.clone()));
        proof {
            assert(pairs_view(out@) =~= pairs_view(v@.take(i + 1 as int)));
        }
        i = i + 1;
    }
    proof {
        assert(v@.take(v@.len() as int) =~= v@);
    }
    out
}

fn clone_opt_string(v: &Option<String>) -> (r: Option<String>)
    ensures
        match v {
            Some(s) => r matches Some(t) && t@ == s@,
            None => r is None,
        },
{
    match v {
        Some(s) => Some(s.clone()),
        None => None,
    }
}

impl Clone for ServiceConfig {
    fn clone(&self) -> (r: Self)
        ensures
            r@ == self@,
    {
        let r = ServiceConfig {
            enabled: self.enabled,
            port: self.port,
            version: self.version.clone(),
            display_name: clone_opt_string(&self.display_name),
            image: clone_opt_string(&self.image),
            is_custom: self.is_custom,
            is_locked: self.is_locked,
            env_vars: clone_pairs(&self.env_vars),
            settings: clone_pairs(&self.settings),
        };
        proof {
            assert(r@ =~= self@);
        }
        r
    }
}

/// A project: its identity, directory, routing settings and declared services.
#[derive(Debug)]
pub struct ProjectConfig {
    pub id: String,
    pub name: String,
    pub directory: String,
    pub services: Vec<(String, ServiceConfig)>,
    pub ssl_enabled: bool,
    pub custom_ports: Vec<(String, u16)>,
    pub domain: String,
}

/// The mathematical image of a `ProjectConfig`.
#[verifier::ext_equal]
pub struct ProjectConfigView {
    pub id: Seq<char>,
    pub name: Seq<char>,
    pub directory: Seq<char>,
    pub services: Seq<(Seq<char>, ServiceConfigView)>,
    pub ssl_enabled: bool,
    pub custom_ports: Seq<(Seq<char>, u16)>,
    pub domain: Seq<char>,
}

impl View for ProjectConfig {
    type V = ProjectConfigView;

    open spec fn view(&self) -> ProjectConfigView {
        ProjectConfigView {
            id: self.id@,
            name: self.name@,
            directory: self.directory@,
            services: self.services@.map_values(|p: (String, ServiceConfig)| (p.0@, p.1@)),
            ssl_enabled: self.ssl_enabled,
            custom_ports: self.custom_ports@.map_values(|p: (String, u16)| (p.0@, p.1)),
            domain: self.domain@,
        }
    }
}

impl Clone for ProjectConfig {
    fn clone(&self) -> (r: Self)
        ensures
            r@ == self@,
    {
        let mut services: Vec<(String, ServiceConfig)> = Vec::new();
        let mut i: usize = 0;
        while i < self.services.len()
            invariant
                i <= self.services.len(),
                services@.map_values(|p: (String, ServiceConfig)| (p.0@, p.1@))
                    == self.services@.take(i as int).map_values(
                    |p: (String, ServiceConfig)| (p.0@, p.1@),
                ),
            decreases self.services.len() - i,
        {
            services.push((self.services[i].0.clone(), self.services[i].1.clone()));
            proof {
                assert(services@.map_values(|p: (String, ServiceConfig)| (p.0@, p.1@))
                    =~= self.services@.take(i + 1 as int).map_values(
                    |p: (String, ServiceConfig)| (p.0@, p.1@),
                ));
            }
            i = i + 1;
        }
        let mut custom_ports: Vec<(String, u16)> = Vec::new();
        let mut j: usize = 0;
        while j < self.custom_ports.len()
            invariant
                j <= self.custom_ports.len(),
                custom_ports@.map_values(|p: (String, u16)| (p.0@, p.1))
                    == self.custom_ports@.take(j as int).map_values(|p: (String, u16)| (p.0@, p.1)),
            decreases self.custom_ports.len() - j,
        {
            custom_ports.push((self.custom_ports[j].0.clone(), self.custom_ports[j].1));
            proof {
                assert(custom_ports@.map_values(|p: (String, u16)| (p.0@, p.1))
                    =~= self.custom_ports@.take(j + 1 as int).map_values(
                    |p: (String, u16)| (p.0@, p.1),
                ));
            }
            j = j + 1;
        }
        let r = ProjectConfig {
            id: self.id.clone(),
            name: self.name.clone(),
            directory: self.directory.clone(),
            services,
            ssl_enabled: self.ssl_enabled,
            custom_ports,
            domain: self.domain.clone(),
        };
        proof {
            assert(self.services@.take(self.services@.len() as int) =~= self.services@);
            assert(self.custom_ports@.take(self.custom_ports@.len() as int) =~= self.custom_ports@);
            assert(r@ =~= self@);
        }
        r
    }
}

/// Colour preference of the user interface.
#[derive(Debug, Clone, Copy, PartialEq, Eq, Structural)]
pub struct ThemeConfig {
    pub dark_mode: bool,
}

/// No two entries of the association list share a key.
pub open spec fn unique_keys<V>(s: Seq<(Seq<char>, V)>) -> bool {
    forall|i: int, j: int| 0 <= i < j < s.len() ==> (#[trigger] s[i]).0 != (#[trigger] s[j]).0
}

/// The value of the first entry with the given key, if any.
pub open spec fn lookup<V>(s: Seq<(Seq<char>, V)>, k: Seq<char>) -> Option<V>
    decreases s.len(),
{
    if s.len() == 0 {
        None
    } else if s[0].0 == k {
        Some(s[0].1)
    } else {
        lookup(s.skip(1), k)
    }
}

/// The key names a service and that service is enabled.
pub open spec fn enabled_in(s: Seq<(Seq<char>, ServiceConfigView)>, k: Seq<char>) -> bool {
    match lookup(s, k) {
        Some(v) => v.enabled,
        None => false,
    }
}

pub proof fn lemma_lookup_skip<V>(s: Seq<(Seq<char>, V)>, k: Seq<char>, i: int)
    requires
        0 <= i <= s.len(),
        forall|j: int| 0 <= j < i ==> (#[trigger] s[j]).0 != k,
    ensures
        lookup(s, k) == lookup(s.skip(i), k),
    decreases i,
{
    if i == 0 {
        assert(s.skip(0) =~= s);
    } else {
        lemma_lookup_skip(s, k, i - 1);
        assert(s.skip(i - 1).len() > 0);
        assert(s.skip(i - 1)[0] == s[i - 1]);
        assert(s.skip(i - 1).skip(1) =~= s.skip(i));
    }
}

/// The keys of the enabled services, in declaration order.
pub open spec fn enabled_keys(s: Seq<(Seq<char>, ServiceConfigView)>) -> Seq<Seq<char>>
    decreases s.len(),
{
    if s.len() == 0 {
        Seq::empty()
    } else if s.last().1.enabled {
        enabled_keys(s.drop_last()).push(s.last().0)
    } else {
        enabled_keys(s.drop_last())
    }
}

/// There are no enabled services exactly when the list of enabled keys is
/// empty.
pub proof fn lemma_enabled_keys_empty(s: Seq<(Seq<char>, ServiceConfigView)>)
    ensures
        enabled_keys(s).len() == 0 <==> forall|i: int|
            0 <= i < s.len() ==> !(#[trigger] s[i]).1.enabled,
    decreases s.len(),
{
    if s.len() > 0 {
        lemma_enabled_keys_empty(s.drop_last());
        if enabled_keys(s).len() == 0 {
            assert(forall|i: int|
                0 <= i < s.len() - 1 ==> s.drop_last()[i] == (#[trigger] s[i]));
        }
    }
}

impl ProjectConfig {
    /// The first declared service with the given key, if any.
    pub fn find_service(&self, key: &str) -> (r: Option<&ServiceConfig>)
        ensures
            match r {
                Some(svc) => lookup(self@.services, key@) == Some(svc@),
                None => lookup(self@.services, key@) is None,
            },
    {
        let mut i: usize = 0;
        while i < self.services.len()
            invariant
                i <= self.services.len(),
                forall|j: int| 0 <= j < i ==> (#[trigger] self@.services[j]).0 != key@,
            decreases self.services.len() - i,
        {
            if str_eq(self.services[i].0.as_str(), key) {
                proof {
                    lemma_lookup_skip(self@.services, key@, i as int);
                    assert(self@.services.skip(i as int)[0] == self@.services[i as int]);
                }
                return Some(&self.services[i].1);
            }
            i = i + 1;
        }
        proof {
            lemma_lookup_skip(self@.services, key@, self@.services.len() as int);
            assert(self@.services.skip(self@.services.len() as int).len() == 0);
        }
        None
    }

    /// The key names a declared service and that service is enabled.
    pub fn service_enabled(&self, key: &str) -> (r: bool)
        ensures
            r == enabled_in(self@.services, key@),
    {
        match self.find_service(key) {
            Some(svc) => svc.enabled,
            None => false,
        }
    }

    /// The keys of all enabled services, in declaration order.
    pub fn enabled_services(&self) -> (r: Vec<String>)
        ensures
            r@.map_values(|s: String| s@) == enabled_keys(self@.services),
    {
        let mut out: Vec<String> = Vec::new();
        let mut i: usize = 0;
        while i < self.services.len()
            invariant
                i <= self.services.len(),
                out@.map_values(|s: String| s@) == enabled_keys(self@.services.take(i as int)),
            decreases self.services.len() - i,
        {
            proof {
                assert(self@.services.take(i + 1 as int).drop_last() =~= self@.services.take(
                    i as int,
                ));
                assert(self@.services.take(i + 1 as int).last() == self@.services[i as int]);
            }
            if self.services[i].1.enabled {
                out.push(self.services[i].0.clone());
                proof {
                    assert(out@.map_values(|s: String| s@) =~= enabled_keys(
                        self@.services.take(i + 1 as int),
                    ));
                }
            }
            i = i + 1;
        }
        proof {
            assert(self@.services.take(self@.services.len() as int) =~= self@.services);
        }
        out
    }

    /// How many services are enabled.
    pub fn enabled_count(&self) -> (r: usize)
        ensures
            r == enabled_keys(self@.services).len(),
    {
        let keys = self.enabled_services();
        proof {
            assert(keys@.map_values(|s: String| s@).len() == keys@.len());
        }
        keys.len()
    }
}

/// One catalog service's default declaration: disabled, not custom, not
/// locked, no display name and no explicit image.
pub open spec fn default_svc_view(
    port: u16,
    version: Seq<char>,
    env_vars: Seq<(Seq<char>, Seq<char>)>,
    settings: Seq<(Seq<char>, Seq<char>)>,
) -> ServiceConfigView {
    ServiceConfigView {
        enabled: false,
        port,
        version,
        display_name: None,
        image: None,
        is_custom: false,
        is_locked: false,
        env_vars,
        settings,
    }
}

/// The catalog's default service declarations, in their fixed order.
pub open spec fn default_services_view() -> Seq<(Seq<char>, ServiceConfigView)> {
    seq![
        (
            "postgresql"@,
            default_svc_view(
                5432u16,
                "16"@,
                seq![
                    ("POSTGRES_USER"@, "postgres"@),
                    ("POSTGRES_PASSWORD"@, "postgres"@),
                    ("POSTGRES_DB"@, "devdb"@),
                ],
                Seq::empty(),
            ),
        ),
        (
            "mysql"@,
            default_svc_view(
                3306u16,
                "8.0"@,
                seq![("MYSQL_ROOT_PASSWORD"@, "root"@), ("MYSQL_DATABASE"@, "devdb"@)],
                Seq::empty(),
            ),
        ),
        (
            "php"@,
            default_svc_view(
                9000u16,
                "8.3-fpm"@,
                Seq::empty(),
                seq![("extensions"@, "pdo_mysql,gd,zip,intl"@), ("memory_limit"@, "256M"@)],
            ),
        ),
        ("apache"@, default_svc_view(8080u16, "2.4"@, Seq::empty(), Seq::empty())),
        ("nginx"@, default_svc_view(80u16, "latest"@, Seq::empty(), Seq::empty())),
        (
            "phpmyadmin"@,
            default_svc_view(
                8081u16,
                "latest"@,
                seq![("PMA_USER"@, "root"@), ("PMA_PASSWORD"@, "root"@)],
                Seq::empty(),
            ),
        ),
        (
            "pgadmin"@,
            default_svc_view(
                8082u16,
                "latest"@,
                seq![
                    ("PGADMIN_DEFAULT_EMAIL"@, "admin@admin.com"@),
                    ("PGADMIN_DEFAULT_PASSWORD"@, "admin"@),
                ],
                Seq::empty(),
            ),
        ),
        ("redis"@, default_svc_view(6379u16, "7"@, Seq::empty(), Seq::empty())),
        ("adminer"@, default_svc_view(8083u16, "latest"@, Seq::empty(), Seq::empty())),
        ("ssl"@, default_svc_view(443u16, "latest"@, Seq::empty(), Seq::empty())),
    ]
}

fn default_service(port: u16, version: &str, env_vars: &Vec<(String, String)>) -> (r: ServiceConfig)
    ensures
        r@ == default_svc_view(port, version@, pairs_view(env_vars@), Seq::empty()),
{
    let r = ServiceConfig {
        enabled: false,
        port,
        version: version.to_owned(),
        display_name: None,
        image: None,
        is_custom: false,
        is_locked: false,
        env_vars: clone_pairs(env_vars),
        settings: Vec::new(),
    };
    proof {
        assert(pairs_view(r.settings@) =~= Seq::<(Seq<char>, Seq<char>)>::empty());
        assert(r@ =~~= default_svc_view(port, version@, pairs_view(env_vars@), Seq::empty()));
    }
    r
}

/// The default project in a given working directory: every catalog service
/// declared with its default port, version and environment, all disabled,
/// TLS off, and the default domain.
#[verifier::rlimit(100)]
pub fn default_with_directory(directory: &str) -> (r: ProjectConfig)
    ensures
        r@.id == "default"@,
        r@.name == "Default Project"@,
        r@.directory == directory@,
        r@.services == default_services_view(),
        !r@.ssl_enabled,
        r@.custom_ports == Seq::<(Seq<char>, u16)>::empty(),
        r@.domain == "dockstack.test"@,
{
    let mut services: Vec<(String, ServiceConfig)> = Vec::new();

    let mut pg_env: Vec<(String, String)> = Vec::new();
    pg_env.push(("POSTGRES_USER".to_owned(), "postgres".to_owned()));
    pg_env.push(("POSTGRES_PASSWORD".to_owned(), "postgres".to_owned()));
    pg_env.push(("POSTGRES_DB".to_owned(), "devdb".to_owned()));
    services.push(("postgresql".to_owned(), default_service(5432, "16", &pg_env)));

    let mut mysql_env: Vec<(String, String)> = Vec::new();
    mysql_env.push(("MYSQL_ROOT_PASSWORD".to_owned(), "root".to_owned()));
    mysql_env.push(("MYSQL_DATABASE".to_owned(), "devdb".to_owned()));
    services.push(("mysql".to_owned(), default_service(3306, "8.0", &mysql_env)));

    let no_env: Vec<(String, String)> = Vec::new();
    let mut php = default_service(9000, "8.3-fpm", &no_env);
    let mut php_settings: Vec<(String, String)> = Vec::new();
    php_settings.push(("extensions".to_owned(), "pdo_mysql,gd,zip,intl".to_owned()));
    php_settings.push(("memory_limit".to_owned(), "256M".to_owned()));
    php.settings = php_settings;
    services.push(("php".to_owned(), php));

    services.push(("apache".to_owned(), default_service(8080, "2.4", &no_env)));
    services.push(("nginx".to_owned(), default_service(80, "latest", &no_env)));

    let mut pma_env: Vec<(String, String)> = Vec::new();
    pma_env.push(("PMA_USER".to_owned(), "root".to_owned()));
    pma_env.push(("PMA_PASSWORD".to_owned(), "root".to_owned()));
    services.push(("phpmyadmin".to_owned(), default_service(8081, "latest", &pma_env)));

    let mut pga_env: Vec<(String, String)> = Vec::new();
    pga_env.push(("PGADMIN_DEFAULT_EMAIL".to_owned(), "admin@admin.com".to_owned()));
    pga_env.push(("PGADMIN_DEFAULT_PASSWORD".to_owned(), "admin".to_owned()));
    services.push(("pgadmin".to_owned(), default_service(8082, "latest", &pga_env)));

    services.push(("redis".to_owned(), default_service(6379, "7", &no_env)));
    services.push(("adminer".to_owned(), default_service(8083, "latest", &no_env)));
    services.push(("ssl".to_owned(), default_service(443, "latest", &no_env)));

    let r = ProjectConfig {
        id: "default".to_owned(),
        name: "Default Project".to_owned(),
        directory: directory.to_owned(),
        services,
        ssl_enabled: false,
        custom_ports: Vec::new(),
        domain: "dockstack.test".to_owned(),
    };
    proof {
        assert(r@.services =~~= default_services_view());
        assert(r@.custom_ports =~= Seq::<(Seq<char>, u16)>::empty());
    }
    r
}

/// Looks a key up in a settings or environment mapping.
pub fn pairs_get<'a>(m: &'a Vec<(String, String)>, key: &str) -> (r: Option<&'a String>)
    ensures
        match r {
            Some(v) => lookup(pairs_view(m@), key@) == Some(v@),
            None => lookup(pairs_view(m@), key@) is None,
        },
{
    let mut i: usize = 0;
    while i < m.len()
        invariant
            i <= m.len(),
            forall|j: int| 0 <= j < i ==> (#[trigger] pairs_view(m@)[j]).0 != key@,
        decreases m.len() - i,
    {
        if str_eq(m[i].0.as_str(), key) {
            proof {
                lemma_lookup_skip(pairs_view(m@), key@, i as int);
                assert(pairs_view(m@).skip(i as int)[0] == pairs_view(m@)[i as int]);
            }
            return Some(&m[i].1);
        }
        i = i + 1;
    }
    proof {
        lemma_lookup_skip(pairs_view(m@), key@, m@.len() as int);
        assert(pairs_view(m@).skip(m@.len() as int).len() == 0);
    }
    None
}

} // verus!
