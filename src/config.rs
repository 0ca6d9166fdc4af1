//! The run configuration: which backends to back up, and where the result goes.
use vstd::prelude::*;
use vstd::string::*;

verus! {

/// One configured backend instance.
#[derive(Debug, Clone)]
pub struct DatabaseConfig {
    /// Server host name, or the directory holding the files of the embedded store.
    pub host: String,
    pub port: u16,
    pub user: String,
    pub password: String,
    /// The logical databases (or database files) to back up.
    pub databases: Vec<String>,
}

/// The configured backends, at most one per kind.
#[derive(Debug, Clone)]
pub struct Databases {
    pub mysql: Option<DatabaseConfig>,
    pub postgres: Option<DatabaseConfig>,
    pub sqlite: Option<DatabaseConfig>,
    pub mongodb: Option<DatabaseConfig>,
}

/// When periodic runs happen, as a cron expression.
#[derive(Debug, Clone)]
pub struct Schedule {
    pub cron: String,
}

/// The storage sink that receives the archived result of a run.
#[derive(Debug, Clone)]
pub struct Storage {
    /// `local` or `s3`.
    pub type_: String,
    pub path: Option<String>,
    pub bucket: Option<String>,
    pub region: Option<String>,
    pub access_key: Option<String>,
    pub secret_key: Option<String>,
}

/// A whole run configuration.
#[derive(Debug, Clone)]
pub struct Config {
    pub databases: Databases,
    pub schedule: Option<Schedule>,
    pub storage: Storage,
}

pub open spec fn default_storage_root() -> Seq<char> {
    "/backups"@
}

impl Storage {
    /// The directory that receives archives: the configured path, or `/backups`.
    pub fn base_path(&self) -> (r: String)
        ensures
            r@ == match self.path {
                Some(p) => p@,
                None => default_storage_root(),
            },
    {
        match &self.path {
            Some(p) => p.clone(),
            None => String::from_str("/backups"),
        }
    }
}

} // verus!
