//! Server settings and their defaults.
use vstd::prelude::*;

verus! {

/// The address the service binds to when none is configured.
pub open spec fn default_address() -> Seq<char> {
    "127.0.0.1"@
}

/// The port the service binds to when none is configured.
pub open spec fn default_port() -> u16 {
    29030
}

/// The storage path used when none is configured.
pub open spec fn default_db_name() -> Seq<char> {
    "muelsyse.db"@
}

/// The address the server listens on.
pub struct ServerBindAddress(pub String);

/// The port the server listens on.
pub struct ServerLitsenPort(pub u16);

/// The path of the database file that holds the counter.
pub struct DatabaseName(pub String);

/// Where the server listens.
pub struct ServerConfig {
    pub bind_address: ServerBindAddress,
    pub bind_port: ServerLitsenPort,
}

/// All settings of the service.
pub struct AppConfig {
    pub server: ServerConfig,
    pub db_name: DatabaseName,
}

/// Command-line arguments: the path of the settings file, and whether the
/// storage schema is (re)created at startup.
pub struct CmdArgs {
    pub config: String,
    pub init_database: bool,
}

impl Default for ServerBindAddress {
    fn default() -> (r: Self)
        ensures
            r.0@ == default_address(),
    {
        proof {
            reveal_strlit("127.0.0.1");
        }
        ServerBindAddress("127.0.0.1".to_owned())
    }
}

impl Default for ServerLitsenPort {
    fn default() -> (r: Self)
        ensures
            r.0 == default_port(),
    {
        ServerLitsenPort(29030)
    }
}

impl Default for DatabaseName {
    fn default() -> (r: Self)
        ensures
            r.0@ == default_db_name(),
    {
        proof {
            reveal_strlit("muelsyse.db");
        }
        DatabaseName("muelsyse.db".to_owned())
    }
}

impl Default for ServerConfig {
    fn default() -> (r: Self)
        ensures
            r.bind_address.0@ == default_address(),
            r.bind_port.0 == default_port(),
    {
        ServerConfig { bind_address: ServerBindAddress::default(), bind_port: ServerLitsenPort::default() }
    }
}

impl Default for AppConfig {
    fn default() -> (r: Self)
        ensures
            r.server.bind_address.0@ == default_address(),
            r.server.bind_port.0 == default_port(),
            r.db_name.0@ == default_db_name(),
    {
        AppConfig { server: ServerConfig::default(), db_name: DatabaseName::default() }
    }
}

impl ServerConfig {
    /// Builds the server settings from the fields a settings file gave,
    /// taking the default for each field that was left out.
    pub fn from_parts(bind_address: Option<String>, bind_port: Option<u16>) -> (r: Self)
        ensures
            r.bind_address.0@ == match bind_address {
                Some(a) => a@,
                None => default_address(),
            },
            r.bind_port.0 == match bind_port {
                Some(p) => p,
                None => default_port(),
            },
    {
        let bind_address = match bind_address {
            Some(a) => ServerBindAddress(a),
            None => ServerBindAddress::default(),
        };
        let bind_port = match bind_port {
            Some(p) => ServerLitsenPort(p),
            None => ServerLitsenPort::default(),
        };
        ServerConfig { bind_address, bind_port }
    }
}

impl AppConfig {
    /// Builds the settings from the sections a settings file gave, taking the
    /// default for each one that was left out.
    pub fn from_parts(server: Option<ServerConfig>, db_name: Option<String>) -> (r: Self)
        ensures
            server is None ==> r.server.bind_address.0@ == default_address()
                && r.server.bind_port.0 == default_port(),
            server matches Some(sc) ==> r.server.bind_address.0@ == sc.bind_address.0@
                && r.server.bind_port.0 == sc.bind_port.0,
            r.db_name.0@ == match db_name {
                Some(d) => d@,
                None => default_db_name(),
            },
    {
        let server = match server {
            Some(sc) => sc,
            None => ServerConfig::default(),
        };
        let db_name = match db_name {
            Some(d) => DatabaseName(d),
            None => DatabaseName::default(),
        };
        AppConfig { server, db_name }
    }
}

} // verus!
