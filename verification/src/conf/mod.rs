//! Settings the engine is started with.

pub mod mongodb;
pub mod paths;
pub mod ssh;

pub use paths::PathError;

use vstd::prelude::*;

verus! {

/// Everything the engine is configured with.
#[derive(Debug)]
pub struct Configs {
    pub ssh: SSHConfig,
    pub mongodb: MongoDBConfig,
    pub paths: PathsConf,
}

/// Where the remote host is reached and under which user.
#[derive(Debug)]
pub struct SSHConfig {
    pub host: String,
    pub port: u16,
    pub username: String,
}

/// Where the metadata store is reached and with which credentials.
#[derive(Debug)]
pub struct MongoDBConfig {
    pub username: String,
    pub host: String,
    pub port: Option<u16>,
    pub password: String,
}

/// The sandbox: the local directory every path must stay inside, and the
/// prefix its files are stored under on the remote side.
#[derive(Debug)]
pub struct PathsConf {
    pub local: String,
    pub remote: String,
}

} // verus!
