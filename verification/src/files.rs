//! What a project write puts on disk: the manifest text, the ancillary
//! config files of the reverse proxy, the legacy web server and the runtime,
//! a default index page, and the plan that says which files to write where —
//! skipping every locked service's config file.

use vstd::prelude::*;

use crate::config::{lookup, pairs_view, ProjectConfig, ProjectConfigView};
use crate::manifest::manifest_spec;
use crate::strutil::concat2;
use crate::yaml::yaml_manifest;

verus! {

broadcast use vstd::prelude::Seq::group_seq_extra;

/// Head of the reverse-proxy config, up to the server name.
pub const NGINX_HTTP_HEAD: &'static str = "server {\n    listen 80;\n    server_name ";

/// Tail of the reverse-proxy config without TLS.
pub const NGINX_HTTP_TAIL: &'static str =
    ";\n\n    root /usr/share/nginx/html;\n    index index.php index.html;\n\n    location / {\n        try_files $uri $uri/ /index.php?$query_string;\n    }\n\n    location ~ \\.php$ {\n        fastcgi_pass php:9000;\n        fastcgi_index index.php;\n        fastcgi_param SCRIPT_FILENAME $document_root$fastcgi_script_name;\n        include fastcgi_params;\n    }\n}\n";

/// Middle of the TLS reverse-proxy config: redirect block, then the server
/// name of the TLS block.
pub const NGINX_SSL_MID: &'static str =
    ";\n    return 301 https://$server_name$request_uri;\n}\n\nserver {\n    listen 443 ssl;\n    server_name ";

/// Tail of the TLS reverse-proxy config.
pub const NGINX_SSL_TAIL: &'static str =
    ";\n\n    ssl_certificate /etc/nginx/certs/server.crt;\n    ssl_certificate_key /etc/nginx/certs/server.key;\n\n    root /usr/share/nginx/html;\n    index index.php index.html;\n\n    location / {\n        try_files $uri $uri/ /index.php?$query_string;\n    }\n\n    location ~ \\.php$ {\n        fastcgi_pass php:9000;\n        fastcgi_index index.php;\n        fastcgi_param SCRIPT_FILENAME $document_root$fastcgi_script_name;\n        include fastcgi_params;\n    }\n}\n";

/// The reverse-proxy config text for a domain, reflecting the TLS flag. The
/// domain is interpolated verbatim.
pub open spec fn nginx_config_spec(domain: Seq<char>, ssl: bool) -> Seq<char> {
    if ssl {
        NGINX_HTTP_HEAD@ + domain + NGINX_SSL_MID@ + domain + NGINX_SSL_TAIL@
    } else {
        NGINX_HTTP_HEAD@ + domain + NGINX_HTTP_TAIL@
    }
}

/// See `nginx_config_spec`.
pub fn nginx_config(domain: &str, ssl: bool) -> (r: String)
    ensures
        r@ == nginx_config_spec(domain@, ssl),
{
    if ssl {
        let mut s = concat2(NGINX_HTTP_HEAD, domain);
        s.append(NGINX_SSL_MID);
        s.append(domain);
        s.append(NGINX_SSL_TAIL);
        s
    } else {
        let mut s = concat2(NGINX_HTTP_HEAD, domain);
        s.append(NGINX_HTTP_TAIL);
        s
    }
}

/// Head of the legacy web server's config, up to the server name.
pub const APACHE_HEAD: &'static str =
    "\nServerRoot \"/usr/local/apache2\"\nListen 80\nServerName ";

/// Tail of the legacy web server's config: modules, users, document root,
/// directory policy, logging and the runtime handler.
pub const APACHE_TAIL: &'static str = "\n\nLoadModule mpm_event_module modules/mod_mpm_event.so\nLoadModule authz_core_module modules/mod_authz_core.so\nLoadModule authz_host_module modules/mod_authz_host.so\nLoadModule dir_module modules/mod_dir.so\nLoadModule mime_module modules/mod_mime.so\nLoadModule log_config_module modules/mod_log_config.so\nLoadModule unixd_module modules/mod_unixd.so\nLoadModule rewrite_module modules/mod_rewrite.so\nLoadModule proxy_module modules/mod_proxy.so\nLoadModule proxy_fcgi_module modules/mod_proxy_fcgi.so\n\nUser daemon\nGroup daemon\n\nServerAdmin you@example.com\nDocumentRoot \"/usr/local/apache2/htdocs\"\n\n<Directory />\n    AllowOverride none\n    Require all denied\n</Directory>\n\n<Directory \"/usr/local/apache2/htdocs\">\n    Options Indexes FollowSymLinks\n    AllowOverride All\n    Require all granted\n</Directory>\n\n<IfModule dir_module>\n    DirectoryIndex index.php index.html\n</IfModule>\n\n<IfModule log_config_module>\n    LogFormat \"%h %l %u %t \\\"%r\\\" %>s %b \\\"%{Referer}i\\\" \\\"%{User-Agent}i\\\"\" combined\n    CustomLog /proc/self/fd/1 combined\n    ErrorLog /proc/self/fd/2\n</IfModule>\n\n<Files \".ht*\">\n    Require all denied\n</Files>\n\n<FilesMatch \\.php$>\n    SetHandler \"proxy:fcgi://php:9000\"\n</FilesMatch>\n";

/// The legacy web server's config text for a domain, interpolated verbatim.
pub open spec fn apache_config_spec(domain: Seq<char>) -> Seq<char> {
    APACHE_HEAD@ + domain + APACHE_TAIL@
}

/// See `apache_config_spec`.
pub fn apache_config(domain: &str) -> (r: String)
    ensures
        r@ == apache_config_spec(domain@),
{
    let mut s = concat2(APACHE_HEAD, domain);
    s.append(APACHE_TAIL);
    s
}

/// Tail of the runtime config after the memory limit: fixed upload, runtime
/// and diagnostics settings.
pub const PHP_INI_TAIL: &'static str =
    "\nupload_max_filesize = 100M\npost_max_size = 100M\nmax_execution_time = 300\ndisplay_errors = On\nerror_reporting = E_ALL\n";

/// The memory limit a settings mapping declares, with the fixed default.
pub open spec fn memory_limit_of(settings: Seq<(Seq<char>, Seq<char>)>) -> Seq<char> {
    match lookup(settings, "memory_limit"@) {
        Some(v) => v,
        None => "256M"@,
    }
}

/// The runtime config text a settings mapping denotes.
pub open spec fn php_ini_spec(settings: Seq<(Seq<char>, Seq<char>)>) -> Seq<char> {
    "memory_limit = "@ + memory_limit_of(settings) + PHP_INI_TAIL@
}

/// See `php_ini_spec`.
pub fn php_ini_config(settings: &Vec<(String, String)>) -> (r: String)
    ensures
        r@ == php_ini_spec(pairs_view(settings@)),
{
    let mem = match crate::config::pairs_get(settings, "memory_limit") {
        Some(v) => v.clone(),
        None => "256M".to_owned(),
    };
    let mut s = concat2("memory_limit = ", mem.as_str());
    s.append(PHP_INI_TAIL);
    s
}

/// Head of the default index page, up to the project name in the title.
pub const INDEX_HEAD: &'static str =
    "<!DOCTYPE html>\n<html>\n<head>\n    <title>DockStack - ";

/// Middle of the default index page: styling, up to the project name shown on
/// the page.
pub const INDEX_MID: &'static str = "</title>\n    <style>\n        body { font-family: sans-serif; display: flex; justify-content: center; align-items: center; height: 100vh; margin: 0; background: #f0f2f5; }\n        .container { text-align: center; padding: 2rem; background: white; border-radius: 8px; box-shadow: 0 2px 4px rgba(0,0,0,0.1); }\n        h1 { color: #1a73e8; }\n        p { color: #5f6368; }\n    </style>\n</head>\n<body>\n    <div class=\"container\">\n        <h1>DockStack \u{26a1}</h1>\n        <p>Your service is up and running!</p>\n        <p>Project: <strong>";

/// Tail of the default index page.
pub const INDEX_TAIL: &'static str =
    "</strong></p>\n        <p><small>PHP Version: <?php echo phpversion(); ?></small></p>\n    </div>\n</body>\n</html>";

/// The default placeholder page of a project, shown until served content
/// exists.
pub open spec fn default_index_spec(name: Seq<char>) -> Seq<char> {
    INDEX_HEAD@ + name + INDEX_MID@ + name + INDEX_TAIL@
}

/// See `default_index_spec`.
pub fn default_index(name: &str) -> (r: String)
    ensures
        r@ == default_index_spec(name@),
{
    let mut s = concat2(INDEX_HEAD, name);
    s.append(INDEX_MID);
    s.append(name);
    s.append(INDEX_TAIL);
    s
}

/// One file the write plan puts on disk: where, what, and the paths whose
/// presence makes the writer skip it.
#[derive(Debug)]
pub struct FileWrite {
    pub path: String,
    pub content: String,
    pub skip_if_present: Vec<String>,
}

/// The mathematical image of a `FileWrite`.
#[verifier::ext_equal]
pub struct FileWriteView {
    pub path: Seq<char>,
    pub content: Seq<char>,
    pub skip_if_present: Seq<Seq<char>>,
}

impl View for FileWrite {
    type V = FileWriteView;

    open spec fn view(&self) -> FileWriteView {
        FileWriteView {
            path: self.path@,
            content: self.content@,
            skip_if_present: self.skip_if_present@.map_values(|s: String| s@),
        }
    }
}

/// Everything one project write puts on disk: the directories to ensure, in
/// order, then the files, in order.
#[derive(Debug)]
pub struct WritePlan {
    pub dirs: Vec<String>,
    pub files: Vec<FileWrite>,
}

/// The mathematical image of a `WritePlan`.
#[verifier::ext_equal]
pub struct WritePlanView {
    pub dirs: Seq<Seq<char>>,
    pub files: Seq<FileWriteView>,
}

impl View for WritePlan {
    type V = WritePlanView;

    open spec fn view(&self) -> WritePlanView {
        WritePlanView {
            dirs: self.dirs@.map_values(|s: String| s@),
            files: self.files@.map_values(|f: FileWrite| f@),
        }
    }
}

/// The key names a service that is enabled and whose ancillary config file
/// may be regenerated. A locked service's config is never rewritten: that is
/// the only way hand edits survive a restart.
pub open spec fn regen_config(p: ProjectConfigView, key: Seq<char>) -> bool {
    match lookup(p.services, key) {
        Some(svc) => svc.enabled && !svc.is_locked,
        None => false,
    }
}

/// The manifest file of a project.
pub open spec fn compose_path_spec(dir: Seq<char>) -> Seq<char> {
    dir + "/docker-compose.yml"@
}

/// The reverse-proxy config file of a project.
pub open spec fn nginx_path_spec(dir: Seq<char>) -> Seq<char> {
    dir + "/nginx/default.conf"@
}

/// The legacy web server's config file of a project.
pub open spec fn apache_path_spec(dir: Seq<char>) -> Seq<char> {
    dir + "/apache/httpd.conf"@
}

/// The runtime config file of a project.
pub open spec fn php_ini_path_spec(dir: Seq<char>) -> Seq<char> {
    dir + "/php/php.ini"@
}

/// The default page of a project.
pub open spec fn index_path_spec(dir: Seq<char>) -> Seq<char> {
    dir + "/www/index.php"@
}

/// One planned file, at spec level.
pub open spec fn file_write_view(
    path: Seq<char>,
    content: Seq<char>,
    skip_if_present: Seq<Seq<char>>,
) -> FileWriteView {
    FileWriteView { path, content, skip_if_present }
}

/// The files one project write puts on disk, in write order: the manifest,
/// the unlocked ancillary configs of the enabled reverse proxy, web server
/// and runtime, and the default page where no served content exists yet.
pub open spec fn plan_files_spec(p: ProjectConfigView) -> Seq<FileWriteView> {
    let d = p.directory;
    seq![
        file_write_view(
            compose_path_spec(d),
            yaml_manifest(manifest_spec(p)),
            Seq::empty(),
        ),
    ] + (if regen_config(p, "nginx"@) {
        seq![
            file_write_view(nginx_path_spec(d), nginx_config_spec(p.domain, p.ssl_enabled), Seq::empty()),
        ]
    } else {
        Seq::empty()
    }) + (if regen_config(p, "apache"@) {
        seq![file_write_view(apache_path_spec(d), apache_config_spec(p.domain), Seq::empty())]
    } else {
        Seq::empty()
    }) + seq![
        file_write_view(
            index_path_spec(d),
            default_index_spec(p.name),
            seq![index_path_spec(d), d + "/www/index.html"@],
        ),
    ] + (if regen_config(p, "php"@) {
        seq![
            file_write_view(
                php_ini_path_spec(d),
                php_ini_spec(
                    match lookup(p.services, "php"@) {
                        Some(svc) => svc.settings,
                        None => Seq::empty(),
                    },
                ),
                Seq::empty(),
            ),
        ]
    } else {
        Seq::empty()
    })
}

/// The directories one project write ensures, in order.
pub open spec fn plan_dirs_spec(p: ProjectConfigView) -> Seq<Seq<char>> {
    let d = p.directory;
    seq![d] + (if regen_config(p, "nginx"@) {
        seq![d + "/nginx"@]
    } else {
        Seq::empty()
    }) + (if regen_config(p, "apache"@) {
        seq![d + "/apache"@]
    } else {
        Seq::empty()
    }) + seq![d + "/www"@] + (if regen_config(p, "php"@) {
        seq![d + "/php"@]
    } else {
        Seq::empty()
    })
}

/// The whole plan a project denotes.
pub open spec fn plan_spec(p: ProjectConfigView) -> WritePlanView {
    WritePlanView { dirs: plan_dirs_spec(p), files: plan_files_spec(p) }
}

fn regen_config_exec(project: &ProjectConfig, key: &str) -> (r: bool)
    ensures
        r == regen_config(project@, key@),
{
    match project.find_service(key) {
        Some(svc) => svc.enabled && !svc.is_locked,
        None => false,
    }
}

/// Plans one project write: the manifest always; each ancillary config only
/// for its enabled, unlocked service; the default page only where none of the
/// served files exists. The caller performs the writes in order, aborting on
/// the first failure, and skips a file when one of its `skip_if_present`
/// paths exists.
#[verifier::rlimit(100)]
pub fn plan_project_files(project: &ProjectConfig) -> (plan: WritePlan)
    ensures
        plan@ == plan_spec(project@),
        plan@.files.len() > 0,
        plan@.files[0].path == compose_path_spec(project@.directory),
        plan@.files[0].content == yaml_manifest(manifest_spec(project@)),
{
    let dir = project.directory.as_str();
    let mut dirs: Vec<String> = Vec::new();
    let mut files: Vec<FileWrite> = Vec::new();
    dirs.push(dir.to_owned());
    let manifest = crate::yaml::generate_compose(project);
    files.push(
        FileWrite {
            path: concat2(dir, "/docker-compose.yml"),
            content: manifest,
            skip_if_present: Vec::new(),
        },
    );
    if regen_config_exec(project, "nginx") {
        dirs.push(concat2(dir, "/nginx"));
        files.push(
            FileWrite {
                path: concat2(dir, "/nginx/default.conf"),
                content: nginx_config(project.domain.as_str(), project.ssl_enabled),
                skip_if_present: Vec::new(),
            },
        );
    }
    if regen_config_exec(project, "apache") {
        dirs.push(concat2(dir, "/apache"));
        files.push(
            FileWrite {
                path: concat2(dir, "/apache/httpd.conf"),
                content: apache_config(project.domain.as_str()),
                skip_if_present: Vec::new(),
            },
        );
    }
    dirs.push(concat2(dir, "/www"));
    let mut skip: Vec<String> = Vec::new();
    skip.push(concat2(dir, "/www/index.php"));
    skip.push(concat2(dir, "/www/index.html"));
    files.push(
        FileWrite {
            path: concat2(dir, "/www/index.php"),
            content: default_index(project.name.as_str()),
            skip_if_present: skip,
        },
    );
    if regen_config_exec(project, "php") {
        dirs.push(concat2(dir, "/php"));
        let ini = match project.find_service("php") {
            Some(svc) => php_ini_config(&svc.settings),
            None => php_ini_config(&Vec::new()),
        };
        files.push(
            FileWrite {
                path: concat2(dir, "/php/php.ini"),
                content: ini,
                skip_if_present: Vec::new(),
            },
        );
    }
    let plan = WritePlan { dirs, files };
    proof {
        assert(plan@.dirs =~= plan_dirs_spec(project@));
        assert(plan@.files =~~= plan_files_spec(project@));
        assert(plan@ =~~= plan_spec(project@));
    }
    plan
}

/// The ancillary config file of a service that carries one.
pub open spec fn ancillary_path_spec(dir: Seq<char>, key: Seq<char>) -> Seq<char> {
    if key == "nginx"@ {
        nginx_path_spec(dir)
    } else if key == "apache"@ {
        apache_path_spec(dir)
    } else {
        php_ini_path_spec(dir)
    }
}

proof fn lemma_append_ne(d: Seq<char>, a: Seq<char>, b: Seq<char>)
    requires
        a != b,
    ensures
        d + a != d + b,
{
    if d + a == d + b {
        assert((d + a).len() == (d + b).len());
        assert(a.len() == b.len());
        assert forall|i: int| 0 <= i < a.len() implies a[i] == b[i] by {
            assert((d + a)[d.len() + i] == a[i]);
            assert((d + b)[d.len() + i] == b[i]);
        }
        assert(a =~= b);
    }
}

/// A locked service's ancillary config file is never among the planned
/// writes, even if its settings mapping changed since it was last written.
pub proof fn lemma_locked_config_preserved(p: ProjectConfigView, key: Seq<char>)
    requires
        key == "nginx"@ || key == "apache"@ || key == "php"@,
        lookup(p.services, key) matches Some(svc) && svc.is_locked,
    ensures
        forall|i: int|
            0 <= i < plan_files_spec(p).len() ==> (#[trigger] plan_files_spec(p)[i]).path
                != ancillary_path_spec(p.directory, key),
{
    let d = p.directory;
    reveal_strlit("/docker-compose.yml");
    reveal_strlit("/nginx/default.conf");
    reveal_strlit("/apache/httpd.conf");
    reveal_strlit("/php/php.ini");
    reveal_strlit("/www/index.php");
    assert("/docker-compose.yml"@.len() == 19);
    assert("/nginx/default.conf"@.len() == 19);
    assert("/apache/httpd.conf"@.len() == 18);
    assert("/php/php.ini"@.len() == 12);
    assert("/www/index.php"@.len() == 14);
    assert("/docker-compose.yml"@[1] == 'd');
    assert("/nginx/default.conf"@[1] == 'n');
    lemma_append_ne(d, "/docker-compose.yml"@, "/nginx/default.conf"@);
    lemma_append_ne(d, "/docker-compose.yml"@, "/apache/httpd.conf"@);
    lemma_append_ne(d, "/docker-compose.yml"@, "/php/php.ini"@);
    lemma_append_ne(d, "/nginx/default.conf"@, "/apache/httpd.conf"@);
    lemma_append_ne(d, "/nginx/default.conf"@, "/php/php.ini"@);
    lemma_append_ne(d, "/apache/httpd.conf"@, "/php/php.ini"@);
    lemma_append_ne(d, "/www/index.php"@, "/docker-compose.yml"@);
    lemma_append_ne(d, "/www/index.php"@, "/nginx/default.conf"@);
    lemma_append_ne(d, "/www/index.php"@, "/apache/httpd.conf"@);
    lemma_append_ne(d, "/www/index.php"@, "/php/php.ini"@);
    assert(!regen_config(p, key));
    let fs = plan_files_spec(p);
    assert forall|i: int| 0 <= i < fs.len() implies (#[trigger] fs[i]).path != ancillary_path_spec(
        d,
        key,
    ) by {
        let s0 = seq![
            file_write_view(compose_path_spec(d), yaml_manifest(manifest_spec(p)), Seq::empty()),
        ];
        let s1 = if regen_config(p, "nginx"@) {
            seq![
                file_write_view(
                    nginx_path_spec(d),
                    nginx_config_spec(p.domain, p.ssl_enabled),
                    Seq::empty(),
                ),
            ]
        } else {
            Seq::empty()
        };
        let s2 = if regen_config(p, "apache"@) {
            seq![file_write_view(apache_path_spec(d), apache_config_spec(p.domain), Seq::empty())]
        } else {
            Seq::empty()
        };
        let s3 = seq![
            file_write_view(
                index_path_spec(d),
                default_index_spec(p.name),
                seq![index_path_spec(d), d + "/www/index.html"@],
            ),
        ];
        let s4 = if regen_config(p, "php"@) {
            seq![
                file_write_view(
                    php_ini_path_spec(d),
                    php_ini_spec(
                        match lookup(p.services, "php"@) {
                            Some(svc) => svc.settings,
                            None => Seq::empty(),
                        },
                    ),
                    Seq::empty(),
                ),
            ]
        } else {
            Seq::empty()
        };
        assert(fs == s0 + s1 + s2 + s3 + s4);
    }
}

} // verus!
