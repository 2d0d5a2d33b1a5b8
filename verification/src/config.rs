use vstd::prelude::*;

verus! {

/// Name of the client's configuration file inside the configuration directory.
pub const CLIENT_CONFIG_PATH: &'static str = "client_config.json";

/// Name of the server's configuration file inside the configuration directory.
pub const SERVER_CONFIG_PATH: &'static str = "server_config.json";

/// Where a configuration file of the given name is kept: in the `config`
/// directory, relative to the working directory.
pub open spec fn config_file(file_name: Seq<char>) -> Seq<char> {
    "config/"@ + file_name
}

/// The path of a configuration file of the given name.
pub fn config_path(file_name: &str) -> (path: String)
    ensures
        path@ == config_file(file_name@),
{
    let dir = String::from_str("config/");
    dir.concat(file_name)
}

/// Settings of a chat client.
pub struct ClientConfig {
    pub username: String,
    pub user_color: [u8; 3],
    pub ip: String,
}

impl ClientConfig {
    /// The settings a client starts with when it has none saved.
    pub open spec fn is_default(self) -> bool {
        &&& self.username@ == "Default Username"@
        &&& self.user_color@ == seq![255u8, 255u8, 255u8]
        &&& self.ip@ == "127.0.0.1:5678"@
    }

    /// Picks the configuration to run with from what could be read from the
    /// saved file: that configuration if there was one, else the defaults.
    /// The flag says whether a new configuration was created, which the
    /// caller then saves.
    pub fn load(saved: Option<ClientConfig>) -> (loaded: (ClientConfig, bool))
        ensures
            match saved {
                Some(config) => loaded.0 == config && !loaded.1,
                None => loaded.0.is_default() && loaded.1,
            },
    {
        match saved {
            Some(config) => (config, false),
            None => (ClientConfig::default(), true),
        }
    }
}

impl Default for ClientConfig {
    fn default() -> (config: Self)
        ensures
            config.is_default(),
    {
        ClientConfig {
            username: String::from_str("Default Username"),
            user_color: [255, 255, 255],
            ip: String::from_str("127.0.0.1:5678"),
        }
    }
}

/// Settings of a chat server.
pub struct ServerConfig {
    pub name: String,
    pub motd: String,
    pub color: [u8; 3],
    pub tickrate: u64,
    pub ip: String,
}

impl ServerConfig {
    /// The settings a server starts with when it has none saved.
    pub open spec fn is_default(self) -> bool {
        &&& self.name@ == "Default Server Name"@
        &&& self.motd@ == "Default MOTD"@
        &&& self.color@ == seq![255u8, 247u8, 0u8]
        &&& self.tickrate == 50
        &&& self.ip@ == "127.0.0.1:5678"@
    }

    /// Picks the configuration to run with from what could be read from the
    /// saved file: that configuration if there was one, else the defaults.
    /// The flag says whether a new configuration was created, which the
    /// caller then saves.
    pub fn load(saved: Option<ServerConfig>) -> (loaded: (ServerConfig, bool))
        ensures
            match saved {
                Some(config) => loaded.0 == config && !loaded.1,
                None => loaded.0.is_default() && loaded.1,
            },
    {
        match saved {
            Some(config) => (config, false),
            None => (ServerConfig::default(), true),
        }
    }
}

impl Default for ServerConfig {
    fn default() -> (config: Self)
        ensures
            config.is_default(),
    {
        ServerConfig {
            name: String::from_str("Default Server Name"),
            motd: String::from_str("Default MOTD"),
            color: [255, 247, 0],
            tickrate: 50,
            ip: String::from_str("127.0.0.1:5678"),
        }
    }
}

/// The settings the client binary reads at start: who the user is and the
/// colour of their name.
pub struct Config {
    pub username: String,
    pub user_color: [u8; 3],
}

} // verus!
