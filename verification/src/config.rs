//! Server settings, as read from `rs-mock-server.toml` or the command line.

use vstd::prelude::*;

verus! {

/// Default TCP port of the server.
pub const DEFAULT_PORT: u16 = 4520;

/// Default folder scanned for mock definitions.
pub const DEFAULT_FOLDER: &'static str = "mocks";

/// Default folder, under the mock root, scanned for collection seed files.
pub const DEFAULT_COLLECTIONS_FOLDER: &'static str = "{collections}";

/// Default folder, under the mock root, scanned for schema files.
pub const DEFAULT_SCHEMAS_FOLDER: &'static str = "{schemas}";

/// Default file name of a complete compact database schema.
pub const DEFAULT_SCHEMAS_DB_FILE: &'static str = "db.schema";

/// The `[server]` table.
#[derive(Debug, Clone)]
pub struct ServerConfig {
    /// Port to listen on.
    pub port: Option<u16>,
    /// Folder of mock definitions.
    pub folder: Option<String>,
    /// Whether CORS is enabled.
    pub enable_cors: Option<bool>,
    /// Allowed CORS origin.
    pub allowed_origin: Option<String>,
    /// Whether HTTPS is served.
    pub ssl: Option<bool>,
    /// PEM certificate path.
    pub ssl_cert: Option<String>,
    /// PEM private key path.
    pub ssl_key: Option<String>,
}

/// The `[collections]` table.
#[derive(Debug, Clone)]
pub struct CollectionsConfig {
    /// Folder of collection seed files.
    pub folder: Option<String>,
}

/// The whole configuration.
#[derive(Debug, Clone)]
pub struct Config {
    /// Server settings.
    pub server: Option<ServerConfig>,
    /// Collection loading settings.
    pub collections: Option<CollectionsConfig>,
}

impl Default for ServerConfig {
    fn default() -> (c: Self)
        ensures
            c.port.is_none(),
            c.folder.is_none(),
            c.enable_cors.is_none(),
            c.allowed_origin.is_none(),
            c.ssl.is_none(),
            c.ssl_cert.is_none(),
            c.ssl_key.is_none(),
    {
        ServerConfig {
            port: None,
            folder: None,
            enable_cors: None,
            allowed_origin: None,
            ssl: None,
            ssl_cert: None,
            ssl_key: None,
        }
    }
}

impl Default for CollectionsConfig {
    fn default() -> (c: Self)
        ensures
            c.folder.is_none(),
    {
        CollectionsConfig { folder: None }
    }
}

impl Default for Config {
    fn default() -> (c: Self)
        ensures
            c.server.is_none(),
            c.collections.is_none(),
    {
        Config { server: None, collections: None }
    }
}

/// The configured mock folder, or the default one.
pub open spec fn folder_of(config: Config) -> Seq<char> {
    match config.server {
        Some(server) => match server.folder {
            Some(folder) => folder@,
            None => DEFAULT_FOLDER@,
        },
        None => DEFAULT_FOLDER@,
    }
}

/// The configured port, or the default one.
pub open spec fn port_of(config: Config) -> u16 {
    match config.server {
        Some(server) => match server.port {
            Some(port) => port,
            None => DEFAULT_PORT,
        },
        None => DEFAULT_PORT,
    }
}

/// `b` is `a` after the command-line TLS options are laid over it: nothing
/// changes without any of them; otherwise `--ssl` turns HTTPS on (it never
/// turns it off), and a given certificate or key replaces the configured one.
pub open spec fn ssl_overlaid(
    a: Config,
    b: Config,
    ssl: bool,
    ssl_cert: Option<String>,
    ssl_key: Option<String>,
) -> bool {
    if !ssl && ssl_cert.is_none() && ssl_key.is_none() {
        b == a
    } else {
        let server = match a.server {
            Some(s) => s,
            None => ServerConfig {
                port: None,
                folder: None,
                enable_cors: None,
                allowed_origin: None,
                ssl: None,
                ssl_cert: None,
                ssl_key: None,
            },
        };
        b == (Config {
            server: Some(
                ServerConfig {
                    ssl: if ssl {
                        Some(true)
                    } else {
                        server.ssl
                    },
                    ssl_cert: if ssl_cert.is_some() {
                        ssl_cert
                    } else {
                        server.ssl_cert
                    },
                    ssl_key: if ssl_key.is_some() {
                        ssl_key
                    } else {
                        server.ssl_key
                    },
                    ..server
                },
            ),
            ..a
        })
    }
}

impl Config {
    /// The configured mock folder, or `mocks`.
    pub fn get_folder(&self) -> (folder: String)
        ensures
            folder@ == folder_of(*self),
    {
        match &self.server {
            Some(server) => match &server.folder {
                Some(folder) => folder.clone(),
                None => DEFAULT_FOLDER.to_string(),
            },
            None => DEFAULT_FOLDER.to_string(),
        }
    }

    /// The configured port, or 4520.
    pub fn get_port(&self) -> (port: u16)
        ensures
            port == port_of(*self),
    {
        match &self.server {
            Some(server) => match server.port {
                Some(port) => port,
                None => DEFAULT_PORT,
            },
            None => DEFAULT_PORT,
        }
    }
}

/// Lays the command-line TLS options over a configuration.
pub fn apply_cli_ssl_config(
    config: Config,
    ssl: bool,
    ssl_cert: Option<String>,
    ssl_key: Option<String>,
) -> (r: Config)
    ensures
        ssl_overlaid(config, r, ssl, ssl_cert, ssl_key),
{
    if !ssl && ssl_cert.is_none() && ssl_key.is_none() {
        return config;
    }
    let mut config = config;
    let mut server = match config.server {
        Some(s) => s,
        None => ServerConfig::default(),
    };
    if ssl {
        server.ssl = Some(true);
    }
    if ssl_cert.is_some() {
        server.ssl_cert = ssl_cert;
    }
    if ssl_key.is_some() {
        server.ssl_key = ssl_key;
    }
    config.server = Some(server);
    config
}

} // verus!
