//! Configuration of the gateway, with the defaults for what the
//! environment leaves unset.

use vstd::prelude::*;
use vstd::string::*;

verus! {

/// Where the gateway listens and where its static files are.
#[derive(Debug, Clone, PartialEq, Eq)]
pub struct ServerConfig {
    pub bind_address: String,
    pub static_dir: String,
}

/// How the upstream node is reached.
#[derive(Debug, Clone, PartialEq, Eq)]
pub struct RpcConfig {
    pub url: String,
    pub username: String,
    pub password: String,
}

/// The whole configuration.
#[derive(Debug, Clone, PartialEq, Eq)]
pub struct Config {
    pub server: ServerConfig,
    pub rpc: RpcConfig,
}

/// The settings as the environment gives them; `None` for one that is unset.
#[derive(Debug, Clone, PartialEq, Eq)]
pub struct Settings {
    pub bind_address: Option<String>,
    pub static_dir: Option<String>,
    pub rpc_url: Option<String>,
    pub rpc_username: Option<String>,
    pub rpc_password: Option<String>,
}

/// A setting, or its default where it is unset.
pub open spec fn or_default(value: Option<String>, default: Seq<char>) -> Seq<char> {
    match value {
        Some(v) => v@,
        None => default,
    }
}

fn setting(value: Option<String>, default: &str) -> (r: String)
    ensures
        r@ == or_default(value, default@),
{
    match value {
        Some(v) => v,
        None => String::from_str(default),
    }
}

impl Config {
    /// The configuration for the given settings: each setting that is set
    /// is taken as it is, each other one gets its default.
    pub fn from_settings(settings: Settings) -> (c: Config)
        ensures
            c.server.bind_address@ == or_default(settings.bind_address, "0.0.0.0:3000"@),
            c.server.static_dir@ == or_default(settings.static_dir, "./static"@),
            c.rpc.url@ == or_default(settings.rpc_url, "http://127.0.0.1:19998/"@),
            c.rpc.username@ == or_default(settings.rpc_username, "dashrpc"@),
            c.rpc.password@ == or_default(settings.rpc_password, "password"@),
    {
        Config {
            server: ServerConfig {
                bind_address: setting(settings.bind_address, "0.0.0.0:3000"),
                static_dir: setting(settings.static_dir, "./static"),
            },
            rpc: RpcConfig {
                url: setting(settings.rpc_url, "http://127.0.0.1:19998/"),
                username: setting(settings.rpc_username, "dashrpc"),
                password: setting(settings.rpc_password, "password"),
            },
        }
    }
}

} // verus!
