//! The embedded file-based store, backed up by an online page-level copy of
//! each database file into `<file>.bak`.
use vstd::prelude::*;
use vstd::string::*;
use crate::config::DatabaseConfig;
use crate::connection::{BackendKind, DatabaseConnection, DatabaseInfo, ConnectionStatus, check_config, config_problem, estimate_for, file_path, layout_problem, validated};
use crate::error::{Error, ErrorKind, fails_with};
use crate::text::cat;

verus! {

/// Pages copied by each step of the online copy.
pub const PAGES_PER_STEP: i32 = 10;

/// Pause between two steps of the online copy, in milliseconds.
pub const STEP_PAUSE_MS: u64 = 1000;

pub struct SQLiteDatabase<'a> {
    config: &'a DatabaseConfig,
}

/// The first failure among the attempts to open the database files.
pub open spec fn first_failure(opened: Seq<Result<(), Error>>) -> Option<Error>
    decreases opened.len(),
{
    if opened.len() == 0 {
        None
    } else {
        match opened[0] {
            Err(e) => Some(e),
            Ok(_) => first_failure(opened.drop_first()),
        }
    }
}

/// Relies on `std::path::Path::exists`: whether something is at `path` on
/// disk at the moment of the call. Nothing is promised of the answer.
#[verifier::external_body]
fn path_exists(path: &str) -> (r: bool) {
    std::path::Path::new(path).exists()
}

impl<'a> SQLiteDatabase<'a> {
    pub closed spec fn spec_config(&self) -> DatabaseConfig {
        *self.config
    }

    pub fn new(config: &'a DatabaseConfig) -> (r: Self)
        ensures
            r.spec_config() == *config,
    {
        SQLiteDatabase { config }
    }

    /// The artifact of database file `db`: `<db>.bak`.
    pub fn backup_file_name(db: &str) -> (r: String)
        ensures
            r@ == db@ + ".bak"@,
    {
        cat(db, ".bak")
    }

    /// The full check of a configuration for the embedded store: its fields,
    /// then whether the host directory exists, then whether each database
    /// file in it exists (`files_exist[i]` for the `i`-th database).
    pub fn validate_layout(config: &DatabaseConfig, host_exists: bool, files_exist: &Vec<bool>) -> (r: Result<(), Error>)
        requires
            files_exist@.len() == config.databases@.len(),
        ensures
            config_problem(BackendKind::SQLite, *config) is Some ==> validated(r, BackendKind::SQLite, *config),
            config_problem(BackendKind::SQLite, *config) is None ==> match layout_problem(*config, host_exists, files_exist@) {
                None => r is Ok,
                Some(m) => fails_with(r, ErrorKind::Config, m),
            },
    {
        let fields = check_config(BackendKind::SQLite, config);
        if fields.is_err() {
            return fields;
        }
        if !host_exists {
            return Err(Error::Config(cat("SQLite host directory does not exist: ", config.host.as_str())));
        }
        let mut i: usize = 0;
        while i < files_exist.len()
            invariant
                i <= files_exist@.len(),
                files_exist@.len() == config.databases@.len(),
                config_problem(BackendKind::SQLite, *config) is None,
                host_exists,
                forall|j: int| 0 <= j < i ==> files_exist@[j],
            decreases files_exist@.len() - i,
        {
            if !files_exist[i] {
                let path = Self::source_path(config.host.as_str(), config.databases[i].as_str());
                let m = cat("SQLite database file does not exist: ", path.as_str());
                proof {
                    let fe = files_exist@;
                    let k = choose|k: int| 0 <= k < fe.len() && !fe[k]
                        && forall|j: int| 0 <= j < k ==> fe[j];
                    if k < i {
                    } else if k > i {
                        assert(fe[i as int]);
                    }
                }
                return Err(Error::Config(m));
            }
            i = i + 1;
        }
        Ok(())
    }

    /// The path of database file `db` in directory `host`.
    pub fn source_path(host: &str, db: &str) -> (r: String)
        ensures
            r@ == file_path(host@, db@),
    {
        let mut r = cat(host, "/");
        r.append(db);
        r
    }

    /// The check made before copying database file `db` of directory `host`:
    /// it must exist.
    pub fn check_source(host: &str, db: &str, exists: bool) -> (r: Result<(), Error>)
        ensures
            exists ==> r is Ok,
            !exists ==> fails_with(r, ErrorKind::Database, "Database file not found: "@ + file_path(host@, db@)),
    {
        if exists {
            Ok(())
        } else {
            let path = Self::source_path(host, db);
            Err(Error::Database(cat("Database file not found: ", path.as_str())))
        }
    }

    /// The probe status from the attempts to open each database file, in
    /// order: connected when all opened, else the first failure.
    pub fn probe_status(opened: &Vec<Result<(), Error>>) -> (r: ConnectionStatus)
        ensures
            match first_failure(opened@) {
                None => r is Connected,
                Some(e) => r matches ConnectionStatus::Error(m) && m@ == e.display(),
            },
    {
        let mut i: usize = 0;
        assert(opened@.skip(0) =~= opened@);
        while i < opened.len()
            invariant
                i <= opened@.len(),
                first_failure(opened@) == first_failure(opened@.skip(i as int)),
            decreases opened@.len() - i,
        {
            assert(opened@.skip(i as int).drop_first() =~= opened@.skip(i + 1));
            match &opened[i] {
                Err(e) => return ConnectionStatus::Error(e.to_string()),
                Ok(_) => {},
            }
            i = i + 1;
        }
        ConnectionStatus::Connected
    }

    /// The listing entry of database file `db`: its size and engine version
    /// when the file is present, nothing otherwise.
    pub fn info_for(db: &str, present: bool, size: Option<u64>, version: Option<String>) -> (r: DatabaseInfo)
        ensures
            r.name@ == db@,
            present ==> r.size == size && r.schema_version == version,
            !present ==> r.size is None && r.schema_version is None,
    {
        if present {
            DatabaseInfo::new(db, size, version)
        } else {
            DatabaseInfo::new(db, None, None)
        }
    }
}

impl<'a> DatabaseConnection for SQLiteDatabase<'a> {
    open spec fn backend_kind(&self) -> BackendKind {
        BackendKind::SQLite
    }

    fn database_type(&self) -> (r: &'static str) {
        "sqlite"
    }

    /// Checks the fields, then that the directory and each database file in
    /// it exist on disk.
    fn validate_config(&self, config: &DatabaseConfig) -> (r: Result<(), Error>) {
        let fields = check_config(BackendKind::SQLite, config);
        if fields.is_err() {
            return fields;
        }
        let host_exists = path_exists(config.host.as_str());
        let mut files_exist: Vec<bool> = Vec::new();
        let mut i: usize = 0;
        while i < config.databases.len()
            invariant
                i <= config.databases@.len(),
                files_exist@.len() == i,
            decreases config.databases@.len() - i,
        {
            let path = Self::source_path(config.host.as_str(), config.databases[i].as_str());
            files_exist.push(path_exists(path.as_str()));
            i = i + 1;
        }
        let r = Self::validate_layout(config, host_exists, &files_exist);
        r
    }

    fn estimate_backup_size(&self, sizes: &Vec<Option<u64>>) -> (r: u64) {
        estimate_for(BackendKind::SQLite, sizes)
    }
}

} // verus!
