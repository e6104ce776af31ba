//! Server configuration: the qBittorrent instances to drive and how the
//! settings from defaults, configuration sources and the command line combine.
use vstd::prelude::*;
use crate::text::owned;
use crate::cli::{CliArgs, CliError, parse_args, opt_view};

verus! {

/// One qBittorrent instance to connect to.
#[derive(Debug)]
pub struct QBitInstance {
    pub name: String,
    pub host: String,
    pub port: Option<u16>,
    pub username: Option<String>,
    pub password: Option<String>,
    pub no_verify_ssl: Option<bool>,
}

/// `QBitInstance` over character sequences.
pub struct InstanceView {
    pub name: Seq<char>,
    pub host: Seq<char>,
    pub port: Option<u16>,
    pub username: Option<Seq<char>>,
    pub password: Option<Seq<char>>,
    pub no_verify_ssl: Option<bool>,
}

impl View for QBitInstance {
    type V = InstanceView;

    open spec fn view(&self) -> InstanceView {
        InstanceView {
            name: self.name@,
            host: self.host@,
            port: self.port,
            username: opt_view(self.username),
            password: opt_view(self.password),
            no_verify_ssl: self.no_verify_ssl,
        }
    }
}

/// A copy of an optional string.
pub fn copy_opt(o: &Option<String>) -> (r: Option<String>)
    ensures
        opt_view(r) == opt_view(*o),
{
    match o {
        Some(s) => Some(s.clone()),
        None => None,
    }
}

impl QBitInstance {
    /// A copy of this instance.
    pub fn duplicate(&self) -> (r: QBitInstance)
        ensures
            r@ == self@,
    {
        QBitInstance {
            name: self.name.clone(),
            host: self.host.clone(),
            port: self.port,
            username: copy_opt(&self.username),
            password: copy_opt(&self.password),
            no_verify_ssl: self.no_verify_ssl,
        }
    }
}

/// The views of a list of instances.
pub open spec fn instance_views(v: Seq<QBitInstance>) -> Seq<InstanceView> {
    v.map_values(|i: QBitInstance| i@)
}

/// The settings the server runs with.
#[derive(Debug)]
pub struct AppConfig {
    pub instances: Option<Vec<QBitInstance>>,
    pub qbittorrent_host: String,
    pub qbittorrent_port: Option<u16>,
    pub qbittorrent_username: Option<String>,
    pub qbittorrent_password: Option<String>,
    pub server_mode: String,
    pub lazy_mode: bool,
    pub no_verify_ssl: bool,
    pub log_level: String,
    pub log_file_enable: bool,
    pub log_dir: String,
    pub log_filename: String,
    pub log_rotate: String,
    pub http_auth_token: Option<String>,
    pub polling_interval_ms: u64,
}

/// The single instance described by the top-level `qbittorrent_*` settings.
pub open spec fn legacy_instance(c: AppConfig) -> InstanceView {
    InstanceView {
        name: "default"@,
        host: c.qbittorrent_host@,
        port: c.qbittorrent_port,
        username: opt_view(c.qbittorrent_username),
        password: opt_view(c.qbittorrent_password),
        no_verify_ssl: Some(c.no_verify_ssl),
    }
}

/// The instances a configuration describes: its `instances` list when that
/// is given and not empty, otherwise the single top-level instance.
pub open spec fn configured_instances(c: AppConfig) -> Seq<InstanceView> {
    match c.instances {
        Some(v) if v.len() > 0 => instance_views(v@),
        _ => seq![legacy_instance(c)],
    }
}

/// A copy of a list of instances.
pub fn copy_instances(v: &Vec<QBitInstance>) -> (r: Vec<QBitInstance>)
    ensures
        instance_views(r@) == instance_views(v@),
{
    let mut r: Vec<QBitInstance> = Vec::new();
    let mut i: usize = 0;
    while i < v.len()
        invariant
            i <= v.len(),
            r@.len() == i,
            forall|k: int| 0 <= k < i ==> r@[k]@ == v@[k]@,
        decreases v.len() - i,
    {
        r.push(v[i].duplicate());
        i = i + 1;
    }
    assert(instance_views(r@) =~= instance_views(v@));
    r
}

impl AppConfig {
    /// The instances to connect to: the configured list when it is given and
    /// not empty, otherwise one instance named `default` built from the
    /// top-level host, port, credentials and certificate setting.
    pub fn get_instances(&self) -> (r: Vec<QBitInstance>)
        ensures
            instance_views(r@) == configured_instances(*self),
    {
        match &self.instances {
            Some(v) => {
                if v.len() > 0 {
                    return copy_instances(v);
                }
            },
            None => {},
        }
        let inst = QBitInstance {
            name: owned("default"),
            host: self.qbittorrent_host.clone(),
            port: self.qbittorrent_port,
            username: copy_opt(&self.qbittorrent_username),
            password: copy_opt(&self.qbittorrent_password),
            no_verify_ssl: Some(self.no_verify_ssl),
        };
        let mut r: Vec<QBitInstance> = Vec::new();
        r.push(inst);
        assert(instance_views(r@) =~= seq![legacy_instance(*self)]);
        r
    }
}

/// Settings read from a configuration file and the environment, each as
/// given there (`None` where the source does not set it).
#[derive(Debug)]
pub struct ConfigLayer {
    pub instances: Option<Vec<QBitInstance>>,
    pub qbittorrent_host: Option<String>,
    pub qbittorrent_port: Option<u16>,
    pub qbittorrent_username: Option<String>,
    pub qbittorrent_password: Option<String>,
    pub server_mode: Option<String>,
    pub lazy_mode: Option<bool>,
    pub no_verify_ssl: Option<bool>,
    pub log_level: Option<String>,
    pub log_file_enable: Option<bool>,
    pub log_dir: Option<String>,
    pub log_filename: Option<String>,
    pub log_rotate: Option<String>,
    pub http_auth_token: Option<String>,
    pub polling_interval_ms: Option<u64>,
}

impl ConfigLayer {
    /// A layer that sets nothing.
    pub fn empty() -> (r: ConfigLayer)
        ensures
            r.instances is None,
            r.qbittorrent_host is None,
            r.qbittorrent_port is None,
            r.qbittorrent_username is None,
            r.qbittorrent_password is None,
            r.server_mode is None,
            r.lazy_mode is None,
            r.no_verify_ssl is None,
            r.log_level is None,
            r.log_file_enable is None,
            r.log_dir is None,
            r.log_filename is None,
            r.log_rotate is None,
            r.http_auth_token is None,
            r.polling_interval_ms is None,
    {
        ConfigLayer {
            instances: None,
            qbittorrent_host: None,
            qbittorrent_port: None,
            qbittorrent_username: None,
            qbittorrent_password: None,
            server_mode: None,
            lazy_mode: None,
            no_verify_ssl: None,
            log_level: None,
            log_file_enable: None,
            log_dir: None,
            log_filename: None,
            log_rotate: None,
            http_auth_token: None,
            polling_interval_ms: None,
        }
    }
}

/// The first of two optional values that is given, else `d`.
pub open spec fn first_given<T>(a: Option<T>, b: Option<T>, d: T) -> T {
    match a {
        Some(x) => x,
        None => match b {
            Some(y) => y,
            None => d,
        },
    }
}

/// The first of two optional values that is given.
pub open spec fn either<T>(a: Option<T>, b: Option<T>) -> Option<T> {
    match a {
        Some(x) => Some(x),
        None => b,
    }
}

/// A value given first wins: `either` keeps a given first value, and
/// falls back to the second only when the first is missing.
pub proof fn given_value_wins<T>(a: T, b: Option<T>, d: T)
    ensures
        either(Some(a), b) == Some(a),
        either(None, b) == b,
        first_given(Some(a), b, d) == a,
        first_given(None, Some(a), d) == a,
        first_given(None::<T>, None::<T>, d) == d,
{
}

/// A flag set on the command line, else as the layer gives it, else off.
pub open spec fn flag_of(cli: bool, layer: Option<bool>) -> bool {
    cli || (layer matches Some(b) && b)
}

/// Which configuration file to read.
#[derive(Debug)]
pub enum ConfigFile {
    /// A file that must exist (given by the caller or by `--config`).
    Required(String),
    /// `config` with any supported extension, read only if it exists.
    Optional(String),
}

fn pick(a: &Option<String>, b: &Option<String>, d: &str) -> (r: String)
    ensures
        r@ == first_given(opt_view(*a), opt_view(*b), d@),
        a matches Some(x) ==> r@ == x@,
        a is None && b is Some ==> r@ == b->0@,
        a is None && b is None ==> r@ == d@,
{
    match a {
        Some(x) => x.clone(),
        None => match b {
            Some(y) => y.clone(),
            None => owned(d),
        },
    }
}

fn pick_opt(a: &Option<String>, b: &Option<String>) -> (r: Option<String>)
    ensures
        opt_view(r) == either(opt_view(*a), opt_view(*b)),
        a matches Some(x) ==> (r matches Some(v) && v@ == x@),
        a is None ==> opt_view(r) == opt_view(*b),
{
    match a {
        Some(x) => Some(x.clone()),
        None => copy_opt(b),
    }
}

fn flag(cli: bool, layer: Option<bool>) -> (r: bool)
    ensures
        r == flag_of(cli, layer),
{
    if cli {
        true
    } else {
        match layer {
            Some(b) => b,
            None => false,
        }
    }
}

impl AppConfig {
    /// The configuration file to read: `file_path` when given, else the one
    /// named by `--config`, else an optional `config` file.
    pub fn config_file(file_path: Option<String>, cli: &CliArgs) -> (r: ConfigFile)
        ensures
            match file_path {
                Some(p) => r matches ConfigFile::Required(q) && q@ == p@,
                None => match cli.config {
                    Some(c) => r matches ConfigFile::Required(q) && q@ == c@,
                    None => r matches ConfigFile::Optional(q) && q@ == "config"@,
                },
            },
    {
        match file_path {
            Some(p) => ConfigFile::Required(p),
            None => match &cli.config {
                Some(c) => ConfigFile::Required(c.clone()),
                None => ConfigFile::Optional(owned("config")),
            },
        }
    }

    /// The settings, each taken from the command line when it sets it, else
    /// from the layer read from the configuration file and the environment,
    /// else from its default. `--lazy`, `--no-verify-ssl` and
    /// `--log-file-enable` can only switch their setting on.
    pub fn load(layer: ConfigLayer, cli: &CliArgs) -> (r: AppConfig)
        ensures
            r.instances == layer.instances,
            r.qbittorrent_host@ == first_given(opt_view(cli.qbittorrent_host), opt_view(layer.qbittorrent_host), "localhost"@),
            r.qbittorrent_port == either(cli.qbittorrent_port, layer.qbittorrent_port),
            opt_view(r.qbittorrent_username) == either(opt_view(cli.qbittorrent_username), opt_view(layer.qbittorrent_username)),
            opt_view(r.qbittorrent_password) == either(opt_view(cli.qbittorrent_password), opt_view(layer.qbittorrent_password)),
            r.server_mode@ == first_given(opt_view(cli.server_mode), opt_view(layer.server_mode), "stdio"@),
            r.lazy_mode == flag_of(cli.lazy_mode, layer.lazy_mode),
            r.no_verify_ssl == flag_of(cli.no_verify_ssl, layer.no_verify_ssl),
            r.log_level@ == first_given(opt_view(cli.log_level), opt_view(layer.log_level), "info"@),
            r.log_file_enable == flag_of(cli.log_file_enable, layer.log_file_enable),
            r.log_dir@ == first_given(opt_view(cli.log_dir), opt_view(layer.log_dir), "."@),
            r.log_filename@ == first_given(opt_view(cli.log_filename), opt_view(layer.log_filename), "qbittorrent-mcp-rs.log"@),
            r.log_rotate@ == first_given(opt_view(cli.log_rotate), opt_view(layer.log_rotate), "daily"@),
            opt_view(r.http_auth_token) == either(opt_view(cli.http_auth_token), opt_view(layer.http_auth_token)),
            r.polling_interval_ms == first_given(cli.polling_interval_ms, layer.polling_interval_ms, 2000u64),
            // What the command line gives wins over the file and environment.
            cli.qbittorrent_host matches Some(h) ==> r.qbittorrent_host@ == h@,
            cli.qbittorrent_port matches Some(p) ==> r.qbittorrent_port == Some(p),
            cli.qbittorrent_username matches Some(u) ==> (r.qbittorrent_username matches Some(v) && v@ == u@),
            cli.qbittorrent_password matches Some(u) ==> (r.qbittorrent_password matches Some(v) && v@ == u@),
            cli.server_mode matches Some(m) ==> r.server_mode@ == m@,
            cli.log_level matches Some(l) ==> r.log_level@ == l@,
            cli.log_dir matches Some(l) ==> r.log_dir@ == l@,
            cli.log_filename matches Some(l) ==> r.log_filename@ == l@,
            cli.log_rotate matches Some(l) ==> r.log_rotate@ == l@,
            cli.http_auth_token matches Some(t) ==> (r.http_auth_token matches Some(v) && v@ == t@),
            cli.polling_interval_ms matches Some(p) ==> r.polling_interval_ms == p,
            // What the command line leaves out comes from the file and environment.
            cli.qbittorrent_host is None && layer.qbittorrent_host is Some ==> r.qbittorrent_host@ == layer.qbittorrent_host->0@,
            cli.qbittorrent_port is None ==> r.qbittorrent_port == layer.qbittorrent_port,
            cli.qbittorrent_username is None ==> opt_view(r.qbittorrent_username) == opt_view(layer.qbittorrent_username),
            cli.qbittorrent_password is None ==> opt_view(r.qbittorrent_password) == opt_view(layer.qbittorrent_password),
            cli.server_mode is None && layer.server_mode is Some ==> r.server_mode@ == layer.server_mode->0@,
            cli.log_level is None && layer.log_level is Some ==> r.log_level@ == layer.log_level->0@,
            cli.log_dir is None && layer.log_dir is Some ==> r.log_dir@ == layer.log_dir->0@,
            cli.log_filename is None && layer.log_filename is Some ==> r.log_filename@ == layer.log_filename->0@,
            cli.log_rotate is None && layer.log_rotate is Some ==> r.log_rotate@ == layer.log_rotate->0@,
            cli.http_auth_token is None ==> opt_view(r.http_auth_token) == opt_view(layer.http_auth_token),
            cli.polling_interval_ms is None && layer.polling_interval_ms is Some ==> r.polling_interval_ms == layer.polling_interval_ms->0,
            // And else the defaults.
            cli.qbittorrent_host is None && layer.qbittorrent_host is None ==> r.qbittorrent_host@ == "localhost"@,
            cli.server_mode is None && layer.server_mode is None ==> r.server_mode@ == "stdio"@,
            cli.log_level is None && layer.log_level is None ==> r.log_level@ == "info"@,
            cli.log_dir is None && layer.log_dir is None ==> r.log_dir@ == "."@,
            cli.log_filename is None && layer.log_filename is None ==> r.log_filename@ == "qbittorrent-mcp-rs.log"@,
            cli.log_rotate is None && layer.log_rotate is None ==> r.log_rotate@ == "daily"@,
            cli.polling_interval_ms is None && layer.polling_interval_ms is None ==> r.polling_interval_ms == 2000,
            cli.lazy_mode ==> r.lazy_mode,
            !cli.lazy_mode ==> r.lazy_mode == (layer.lazy_mode == Some(true)),
            cli.no_verify_ssl ==> r.no_verify_ssl,
            !cli.no_verify_ssl ==> r.no_verify_ssl == (layer.no_verify_ssl == Some(true)),
            cli.log_file_enable ==> r.log_file_enable,
            !cli.log_file_enable ==> r.log_file_enable == (layer.log_file_enable == Some(true)),
    {
        let port = match cli.qbittorrent_port {
            Some(p) => Some(p),
            None => layer.qbittorrent_port,
        };
        let polling = match cli.polling_interval_ms {
            Some(p) => p,
            None => match layer.polling_interval_ms {
                Some(q) => q,
                None => 2000,
            },
        };
        AppConfig {
            qbittorrent_host: pick(&cli.qbittorrent_host, &layer.qbittorrent_host, "localhost"),
            qbittorrent_port: port,
            qbittorrent_username: pick_opt(&cli.qbittorrent_username, &layer.qbittorrent_username),
            qbittorrent_password: pick_opt(&cli.qbittorrent_password, &layer.qbittorrent_password),
            server_mode: pick(&cli.server_mode, &layer.server_mode, "stdio"),
            lazy_mode: flag(cli.lazy_mode, layer.lazy_mode),
            no_verify_ssl: flag(cli.no_verify_ssl, layer.no_verify_ssl),
            log_level: pick(&cli.log_level, &layer.log_level, "info"),
            log_file_enable: flag(cli.log_file_enable, layer.log_file_enable),
            log_dir: pick(&cli.log_dir, &layer.log_dir, "."),
            log_filename: pick(&cli.log_filename, &layer.log_filename, "qbittorrent-mcp-rs.log"),
            log_rotate: pick(&cli.log_rotate, &layer.log_rotate, "daily"),
            http_auth_token: pick_opt(&cli.http_auth_token, &layer.http_auth_token),
            polling_interval_ms: polling,
            instances: layer.instances,
        }
    }
}

} // verus!
