//! Deterministic rendering of a project's declared service set into an
//! orchestration manifest: one stanza per enabled service, named volumes for
//! the stateful kinds, and one project-scoped bridge network.

use vstd::prelude::*;

use crate::catalog::{
    container_port, container_port_spec, container_suffix, container_suffix_spec, healthcheck_cmd,
    healthcheck_cmd_spec, image_base, image_base_spec, kind_of_key, named_volume,
    named_volume_spec, service_kind, ServiceKind,
};
use crate::config::{enabled_in, pairs_view, ProjectConfig, ProjectConfigView, ServiceConfig, ServiceConfigView};
use crate::strutil::{concat2, concat3, dec_str, u16_to_string};

verus! {

broadcast use vstd::prelude::Seq::group_seq_extra;

/// The liveness probe of a stateful service's stanza.
#[derive(Debug)]
pub struct Healthcheck {
    pub test: String,
    pub interval_secs: u32,
    pub timeout_secs: u32,
    pub retries: u32,
}

/// The mathematical image of a `Healthcheck`.
#[verifier::ext_equal]
pub struct HealthcheckView {
    pub test: Seq<char>,
    pub interval_secs: u32,
    pub timeout_secs: u32,
    pub retries: u32,
}

impl View for Healthcheck {
    type V = HealthcheckView;

    open spec fn view(&self) -> HealthcheckView {
        HealthcheckView {
            test: self.test@,
            interval_secs: self.interval_secs,
            timeout_secs: self.timeout_secs,
            retries: self.retries,
        }
    }
}

/// One service stanza of the manifest.
#[derive(Debug)]
pub struct ServiceStanza {
    pub image: String,
    pub container_name: String,
    pub restart: Option<String>,
    pub environment: Option<Vec<(String, String)>>,
    pub ports: Vec<String>,
    pub volumes: Vec<String>,
    pub networks: Vec<String>,
    pub depends_on: Vec<String>,
    pub healthcheck: Option<Healthcheck>,
}

/// The mathematical image of a `ServiceStanza`.
#[verifier::ext_equal]
pub struct StanzaView {
    pub image: Seq<char>,
    pub container_name: Seq<char>,
    pub restart: Option<Seq<char>>,
    pub environment: Option<Seq<(Seq<char>, Seq<char>)>>,
    pub ports: Seq<Seq<char>>,
    pub volumes: Seq<Seq<char>>,
    pub networks: Seq<Seq<char>>,
    pub depends_on: Seq<Seq<char>>,
    pub healthcheck: Option<HealthcheckView>,
}

/// The view of a vector of strings.
pub open spec fn strings_view(v: Seq<String>) -> Seq<Seq<char>> {
    v.map_values(|s: String| s@)
}

impl View for ServiceStanza {
    type V = StanzaView;

    open spec fn view(&self) -> StanzaView {
        StanzaView {
            image: self.image@,
            container_name: self.container_name@,
            restart: match self.restart {
                Some(ref r) => Some(r@),
                None => None,
            },
            environment: match self.environment {
                Some(ref e) => Some(pairs_view(e@)),
                None => None,
            },
            ports: strings_view(self.ports@),
            volumes: strings_view(self.volumes@),
            networks: strings_view(self.networks@),
            depends_on: strings_view(self.depends_on@),
            healthcheck: match self.healthcheck {
                Some(ref h) => Some(h@),
                None => None,
            },
        }
    }
}

/// The whole manifest: named stanzas, named volumes, one bridge network.
#[derive(Debug)]
pub struct Manifest {
    pub services: Vec<(String, ServiceStanza)>,
    pub volumes: Vec<String>,
    pub network: String,
}

/// The mathematical image of a `Manifest`.
#[verifier::ext_equal]
pub struct ManifestView {
    pub services: Seq<(Seq<char>, StanzaView)>,
    pub volumes: Seq<Seq<char>>,
    pub network: Seq<char>,
}

impl View for Manifest {
    type V = ManifestView;

    open spec fn view(&self) -> ManifestView {
        ManifestView {
            services: self.services@.map_values(|p: (String, ServiceStanza)| (p.0@, p.1@)),
            volumes: strings_view(self.volumes@),
            network: self.network@,
        }
    }
}

/// The project-scoped bridge network's name.
pub open spec fn network_name_spec(id: Seq<char>) -> Seq<char> {
    "dockstack_"@ + id
}

/// The deterministic container name derived from project id and a suffix.
pub open spec fn container_name_spec(id: Seq<char>, suffix: Seq<char>) -> Seq<char> {
    "dockstack_"@ + id + "_"@ + suffix
}

/// A published port: declared host port, canonical container port.
pub open spec fn port_mapping_spec(host: u16, container: u16) -> Seq<char> {
    dec_str(host as nat) + ":"@ + dec_str(container as nat)
}

/// An image reference assembled from repository and version tag.
pub open spec fn image_ref_spec(base: Seq<char>, version: Seq<char>) -> Seq<char> {
    base + ":"@ + version
}

/// What the generator reads of a project besides the services themselves.
pub struct GenCtx {
    pub id: Seq<char>,
    pub directory: Seq<char>,
    pub ssl_enabled: bool,
    pub mysql_on: bool,
    pub postgresql_on: bool,
}

/// The generation context a project denotes.
pub open spec fn ctx_of(p: ProjectConfigView) -> GenCtx {
    GenCtx {
        id: p.id,
        directory: p.directory,
        ssl_enabled: p.ssl_enabled,
        mysql_on: enabled_in(p.services, "mysql"@),
        postgresql_on: enabled_in(p.services, "postgresql"@),
    }
}

/// Index of the first entry with the given key, or the length if none.
pub open spec fn index_of_key<V>(s: Seq<(Seq<char>, V)>, k: Seq<char>) -> int
    decreases s.len(),
{
    if s.len() == 0 {
        0
    } else if s[0].0 == k {
        0
    } else {
        1 + index_of_key(s.skip(1), k)
    }
}

/// Replaces the first entry with the pair's key, or appends the pair.
pub open spec fn upsert<V>(s: Seq<(Seq<char>, V)>, p: (Seq<char>, V)) -> Seq<(Seq<char>, V)> {
    let i = index_of_key(s, p.0);
    if i < s.len() {
        s.update(i, p)
    } else {
        s.push(p)
    }
}

/// The environment a service stanza carries when catalog-mandatory entries
/// seed it: each user entry overrides its seed or is appended after them.
pub open spec fn seeded_env_spec(
    defaults: Seq<(Seq<char>, Seq<char>)>,
    user: Seq<(Seq<char>, Seq<char>)>,
) -> Seq<(Seq<char>, Seq<char>)>
    decreases user.len(),
{
    if user.len() == 0 {
        defaults
    } else {
        upsert(seeded_env_spec(defaults, user.drop_last()), user.last())
    }
}

/// The catalog-mandatory environment of the MySQL administration tool: a
/// database host pointer and arbitrary-server access.
pub open spec fn pma_defaults() -> Seq<(Seq<char>, Seq<char>)> {
    seq![("PMA_HOST"@, "mysql"@), ("PMA_ARBITRARY"@, "1"@)]
}

/// The environment block of one stanza, if it carries one.
pub open spec fn env_for(k: ServiceKind, svc: ServiceConfigView) -> Option<
    Seq<(Seq<char>, Seq<char>)>,
> {
    match k {
        ServiceKind::Postgresql => Some(svc.env_vars),
        ServiceKind::Mysql => Some(svc.env_vars),
        ServiceKind::Pgadmin => Some(svc.env_vars),
        ServiceKind::Phpmyadmin => Some(seeded_env_spec(pma_defaults(), svc.env_vars)),
        ServiceKind::Custom => if svc.env_vars.len() > 0 {
            Some(svc.env_vars)
        } else {
            None
        },
        _ => None,
    }
}

/// The published ports of one stanza.
pub open spec fn ports_for(c: GenCtx, k: ServiceKind, svc: ServiceConfigView) -> Seq<Seq<char>> {
    match k {
        ServiceKind::Nginx => if c.ssl_enabled {
            seq![port_mapping_spec(svc.port, 80u16), "443:443"@]
        } else {
            seq![port_mapping_spec(svc.port, 80u16)]
        },
        ServiceKind::Custom => seq![port_mapping_spec(svc.port, svc.port)],
        _ => match container_port_spec(k) {
            Some(cp) => seq![port_mapping_spec(svc.port, cp)],
            None => Seq::empty(),
        },
    }
}

/// The volume mounts of one stanza: bind mounts rooted at the project
/// directory for the web and runtime kinds, the named volume for the
/// stateful kinds.
pub open spec fn volumes_for(c: GenCtx, k: ServiceKind) -> Seq<Seq<char>> {
    match k {
        ServiceKind::Php => seq![
            c.directory + "/www:/var/www/html"@,
            c.directory + "/php/php.ini:/usr/local/etc/php/conf.d/dockstack.ini"@,
        ],
        ServiceKind::Apache => seq![
            c.directory + "/www:/usr/local/apache2/htdocs/"@,
            "./apache/httpd.conf:/usr/local/apache2/conf/httpd.conf"@,
        ],
        ServiceKind::Nginx => if c.ssl_enabled {
            seq![
                c.directory + "/www:/usr/share/nginx/html"@,
                "./nginx/default.conf:/etc/nginx/conf.d/default.conf"@,
                "./certs:/etc/nginx/certs:ro"@,
            ]
        } else {
            seq![
                c.directory + "/www:/usr/share/nginx/html"@,
                "./nginx/default.conf:/etc/nginx/conf.d/default.conf"@,
            ]
        },
        _ => match named_volume_spec(k) {
            Some(nv) => seq![nv.0 + ":"@ + nv.1],
            None => Seq::empty(),
        },
    }
}

/// The admin tools wait for their database where it is enabled.
pub open spec fn depends_on_for(c: GenCtx, k: ServiceKind) -> Seq<Seq<char>> {
    match k {
        ServiceKind::Phpmyadmin => if c.mysql_on {
            seq!["mysql"@]
        } else {
            Seq::empty()
        },
        ServiceKind::Pgadmin => if c.postgresql_on {
            seq!["postgresql"@]
        } else {
            Seq::empty()
        },
        _ => Seq::empty(),
    }
}

/// The healthcheck of one stanza: the kind's probe with the fixed 10 s
/// interval, 5 s timeout and 5 retries.
pub open spec fn healthcheck_for(k: ServiceKind) -> Option<HealthcheckView> {
    match healthcheck_cmd_spec(k) {
        Some(cmd) => Some(
            HealthcheckView { test: cmd, interval_secs: 10u32, timeout_secs: 5u32, retries: 5u32 },
        ),
        None => None,
    }
}

/// The stanza one enabled service denotes. A catalog kind carries its
/// catalog image and container-name suffix; a custom key is rendered
/// generically: its own image (or the key) with its version tag, its port
/// published on both sides, the project network, and no healthcheck.
pub open spec fn stanza_spec(c: GenCtx, key: Seq<char>, svc: ServiceConfigView) -> StanzaView {
    let k = kind_of_key(key);
    StanzaView {
        image: match k {
            ServiceKind::Custom => image_ref_spec(
                match svc.image {
                    Some(img) => img,
                    None => key,
                },
                svc.version,
            ),
            _ => image_ref_spec(image_base_spec(k), svc.version),
        },
        container_name: match k {
            ServiceKind::Custom => container_name_spec(c.id, key),
            _ => container_name_spec(c.id, container_suffix_spec(k)),
        },
        restart: match k {
            ServiceKind::Custom => None,
            _ => Some("unless-stopped"@),
        },
        environment: env_for(k, svc),
        ports: ports_for(c, k, svc),
        volumes: volumes_for(c, k),
        networks: seq![network_name_spec(c.id)],
        depends_on: depends_on_for(c, k),
        healthcheck: healthcheck_for(k),
    }
}

/// An entry takes part in generation: it is enabled and is not the synthetic
/// security toggle, which only flips the project's TLS flag.
pub open spec fn included(e: (Seq<char>, ServiceConfigView)) -> bool {
    e.1.enabled && kind_of_key(e.0) != ServiceKind::Ssl
}

/// The named stanzas of the manifest, one per included service, in
/// declaration order.
pub open spec fn gen_services_from(c: GenCtx, s: Seq<(Seq<char>, ServiceConfigView)>) -> Seq<
    (Seq<char>, StanzaView),
>
    decreases s.len(),
{
    if s.len() == 0 {
        Seq::empty()
    } else {
        let rest = gen_services_from(c, s.drop_last());
        if included(s.last()) {
            rest.push((s.last().0, stanza_spec(c, s.last().0, s.last().1)))
        } else {
            rest
        }
    }
}

/// The named volumes of the manifest, one per included stateful service.
pub open spec fn gen_volumes_from(s: Seq<(Seq<char>, ServiceConfigView)>) -> Seq<Seq<char>>
    decreases s.len(),
{
    if s.len() == 0 {
        Seq::empty()
    } else {
        let rest = gen_volumes_from(s.drop_last());
        if included(s.last()) {
            match named_volume_spec(kind_of_key(s.last().0)) {
                Some(nv) => rest.push(nv.0),
                None => rest,
            }
        } else {
            rest
        }
    }
}

/// The manifest a project denotes.
pub open spec fn manifest_spec(p: ProjectConfigView) -> ManifestView {
    ManifestView {
        services: gen_services_from(ctx_of(p), p.services),
        volumes: gen_volumes_from(p.services),
        network: network_name_spec(p.id),
    }
}

proof fn lemma_index_of_key_at<V>(s: Seq<(Seq<char>, V)>, k: Seq<char>, i: int)
    requires
        0 <= i <= s.len(),
        forall|j: int| 0 <= j < i ==> (#[trigger] s[j]).0 != k,
        i == s.len() || s[i].0 == k,
    ensures
        index_of_key(s, k) == i,
    decreases i,
{
    if i == 0 {
    } else {
        assert(s[0].0 != k);
        lemma_index_of_key_at(s.skip(1), k, i - 1);
        assert(forall|j: int| 0 <= j < i - 1 ==> (#[trigger] s.skip(1)[j]).0 == s[j + 1].0);
    }
}

fn upsert_exec(acc: &Vec<(String, String)>, k: &str, v: &str) -> (r: Vec<(String, String)>)
    ensures
        pairs_view(r@) == upsert(pairs_view(acc@), (k@, v@)),
{
    let ghost s = pairs_view(acc@);
    let mut out = crate::config::clone_pairs(acc);
    let mut i: usize = 0;
    while i < out.len()
        invariant
            i <= out.len(),
            s == pairs_view(acc@),
            s == pairs_view(out@),
            forall|j: int| 0 <= j < i ==> (#[trigger] s[j]).0 != k@,
        decreases out.len() - i,
    {
        if crate::strutil::str_eq(out[i].0.as_str(), k) {
            proof {
                assert(s[i as int].0 == k@);
                lemma_index_of_key_at(s, k@, i as int);
            }
            out.set(i, (k.to_owned(), v.to_owned()));
            proof {
                assert(pairs_view(out@) =~= s.update(i as int, (k@, v@)));
                assert(upsert(s, (k@, v@)) == s.update(i as int, (k@, v@)));
            }
            return out;
        }
        i = i + 1;
    }
    proof {
        lemma_index_of_key_at(s, k@, s.len() as int);
    }
    out.push((k.to_owned(), v.to_owned()));
    proof {
        assert(pairs_view(out@) =~= s.push((k@, v@)));
    }
    out
}

fn seeded_env_exec(defaults: &Vec<(String, String)>, user: &Vec<(String, String)>) -> (r: Vec<
    (String, String),
>)
    ensures
        pairs_view(r@) == seeded_env_spec(pairs_view(defaults@), pairs_view(user@)),
{
    let ghost d0 = pairs_view(defaults@);
    let ghost u = pairs_view(user@);
    let mut acc = crate::config::clone_pairs(defaults);
    let mut i: usize = 0;
    while i < user.len()
        invariant
            i <= user.len(),
            u == pairs_view(user@),
            d0 == pairs_view(defaults@),
            pairs_view(acc@) == seeded_env_spec(d0, u.take(i as int)),
        decreases user.len() - i,
    {
        proof {
            assert(u.take(i + 1 as int).drop_last() =~= u.take(i as int));
            assert(u.take(i + 1 as int).last() == u[i as int]);
        }
        acc = upsert_exec(&acc, user[i].0.as_str(), user[i].1.as_str());
        i = i + 1;
    }
    proof {
        assert(u.take(u.len() as int) =~= u);
    }
    acc
}

/// Renders a published port pair.
pub fn port_mapping(host: u16, container: u16) -> (r: String)
    ensures
        r@ == port_mapping_spec(host, container),
{
    let mut s = u16_to_string(host);
    s.append(":");
    let c = u16_to_string(container);
    s.append(c.as_str());
    s
}

fn build_stanza(
    project: &ProjectConfig,
    mysql_on: bool,
    pg_on: bool,
    key: &str,
    svc: &ServiceConfig,
) -> (r: ServiceStanza)
    requires
        mysql_on == enabled_in(project@.services, "mysql"@),
        pg_on == enabled_in(project@.services, "postgresql"@),
    ensures
        r@ == stanza_spec(ctx_of(project@), key@, svc@),
{
    let ghost c = ctx_of(project@);
    let k = service_kind(key);
    let image = match k {
        ServiceKind::Custom => {
            let base = match &svc.image {
                Some(img) => img.as_str(),
                None => key,
            };
            concat3(base, ":", svc.version.as_str())
        },
        _ => concat3(image_base(k), ":", svc.version.as_str()),
    };
    let container_name = match k {
        ServiceKind::Custom => {
            let mut n = concat3("dockstack_", project.id.as_str(), "_");
            n.append(key);
            n
        },
        _ => {
            let mut n = concat3("dockstack_", project.id.as_str(), "_");
            n.append(container_suffix(k));
            n
        },
    };
    let restart = match k {
        ServiceKind::Custom => None,
        _ => Some("unless-stopped".to_owned()),
    };
    let environment = match k {
        ServiceKind::Postgresql => Some(crate::config::clone_pairs(&svc.env_vars)),
        ServiceKind::Mysql => Some(crate::config::clone_pairs(&svc.env_vars)),
        ServiceKind::Pgadmin => Some(crate::config::clone_pairs(&svc.env_vars)),
        ServiceKind::Phpmyadmin => {
            let mut d: Vec<(String, String)> = Vec::new();
            d.push(("PMA_HOST".to_owned(), "mysql".to_owned()));
            d.push(("PMA_ARBITRARY".to_owned(), "1".to_owned()));
            proof {
                assert(pairs_view(d@) =~= pma_defaults());
            }
            Some(seeded_env_exec(&d, &svc.env_vars))
        },
        ServiceKind::Custom => {
            if svc.env_vars.len() > 0 {
                Some(crate::config::clone_pairs(&svc.env_vars))
            } else {
                None
            }
        },
        _ => None,
    };
    let mut ports: Vec<String> = Vec::new();
    match k {
        ServiceKind::Nginx => {
            ports.push(port_mapping(svc.port, 80));
            if project.ssl_enabled {
                ports.push("443:443".to_owned());
            }
        },
        ServiceKind::Custom => {
            ports.push(port_mapping(svc.port, svc.port));
        },
        _ => {
            match container_port(k) {
                Some(cp) => {
                    ports.push(port_mapping(svc.port, cp));
                },
                None => {},
            }
        },
    }
    proof {
        assert(strings_view(ports@) =~= ports_for(c, k, svc@));
    }
    let mut volumes: Vec<String> = Vec::new();
    match k {
        ServiceKind::Php => {
            volumes.push(concat2(project.directory.as_str(), "/www:/var/www/html"));
            volumes.push(
                concat2(
                    project.directory.as_str(),
                    "/php/php.ini:/usr/local/etc/php/conf.d/dockstack.ini",
                ),
            );
        },
        ServiceKind::Apache => {
            volumes.push(concat2(project.directory.as_str(), "/www:/usr/local/apache2/htdocs/"));
            volumes.push("./apache/httpd.conf:/usr/local/apache2/conf/httpd.conf".to_owned());
        },
        ServiceKind::Nginx => {
            volumes.push(concat2(project.directory.as_str(), "/www:/usr/share/nginx/html"));
            volumes.push("./nginx/default.conf:/etc/nginx/conf.d/default.conf".to_owned());
            if project.ssl_enabled {
                volumes.push("./certs:/etc/nginx/certs:ro".to_owned());
            }
        },
        _ => {
            match named_volume(k) {
                Some((vn, vm)) => {
                    volumes.push(concat3(vn, ":", vm));
                },
                None => {},
            }
        },
    }
    proof {
        assert(strings_view(volumes@) =~= volumes_for(c, k));
    }
    let mut networks: Vec<String> = Vec::new();
    networks.push(concat2("dockstack_", project.id.as_str()));
    proof {
        assert(strings_view(networks@) =~= seq![network_name_spec(c.id)]);
    }
    let mut depends_on: Vec<String> = Vec::new();
    match k {
        ServiceKind::Phpmyadmin => {
            if mysql_on {
                depends_on.push("mysql".to_owned());
            }
        },
        ServiceKind::Pgadmin => {
            if pg_on {
                depends_on.push("postgresql".to_owned());
            }
        },
        _ => {},
    }
    proof {
        assert(strings_view(depends_on@) =~= depends_on_for(c, k));
    }
    let healthcheck = match healthcheck_cmd(k) {
        Some(cmd) => Some(
            Healthcheck { test: cmd.to_owned(), interval_secs: 10, timeout_secs: 5, retries: 5 },
        ),
        None => None,
    };
    let r = ServiceStanza {
        image,
        container_name,
        restart,
        environment,
        ports,
        volumes,
        networks,
        depends_on,
        healthcheck,
    };
    proof {
        assert(r@ =~~= stanza_spec(c, key@, svc@));
    }
    r
}

/// Renders a project's declared service set into a manifest: one stanza per
/// enabled service other than the security toggle, one named volume per
/// enabled stateful service, and the project-scoped bridge network. Pure and
/// deterministic for a given project value.
pub fn generate(project: &ProjectConfig) -> (m: Manifest)
    ensures
        m@ == manifest_spec(project@),
{
    let mysql_on = project.service_enabled("mysql");
    let pg_on = project.service_enabled("postgresql");
    let ghost c = ctx_of(project@);
    let ghost entries = project@.services;
    let mut services: Vec<(String, ServiceStanza)> = Vec::new();
    let mut volumes: Vec<String> = Vec::new();
    let mut i: usize = 0;
    while i < project.services.len()
        invariant
            i <= project.services.len(),
            entries == project@.services,
            c == ctx_of(project@),
            mysql_on == enabled_in(project@.services, "mysql"@),
            pg_on == enabled_in(project@.services, "postgresql"@),
            services@.map_values(|p: (String, ServiceStanza)| (p.0@, p.1@)) == gen_services_from(
                c,
                entries.take(i as int),
            ),
            strings_view(volumes@) == gen_volumes_from(entries.take(i as int)),
        decreases project.services.len() - i,
    {
        proof {
            assert(entries.take(i + 1 as int).drop_last() =~= entries.take(i as int));
            assert(entries.take(i + 1 as int).last() == entries[i as int]);
        }
        let key = &project.services[i].0;
        let svc = &project.services[i].1;
        let k = service_kind(key.as_str());
        if svc.enabled && !matches!(k, ServiceKind::Ssl) {
            let st = build_stanza(project, mysql_on, pg_on, key.as_str(), svc);
            services.push((key.clone(), st));
            proof {
                assert(services@.map_values(|p: (String, ServiceStanza)| (p.0@, p.1@))
                    =~= gen_services_from(c, entries.take(i + 1 as int)));
            }
            match named_volume(k) {
                Some((vn, _vm)) => {
                    volumes.push(vn.to_owned());
                },
                None => {},
            }
            proof {
                assert(strings_view(volumes@) =~= gen_volumes_from(entries.take(i + 1 as int)));
            }
        } else {
            proof {
                assert(!included(entries[i as int]));
                assert(gen_services_from(c, entries.take(i + 1 as int)) == gen_services_from(
                    c,
                    entries.take(i as int),
                ));
                assert(gen_volumes_from(entries.take(i + 1 as int)) == gen_volumes_from(
                    entries.take(i as int),
                ));
            }
        }
        i = i + 1;
    }
    proof {
        assert(entries.take(entries.len() as int) =~= entries);
    }
    let network = concat2("dockstack_", project.id.as_str());
    let m = Manifest { services, volumes, network };
    proof {
        assert(m@ =~~= manifest_spec(project@));
    }
    m
}

} // verus!

