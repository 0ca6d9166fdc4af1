//! The document store, backed up with its dump tool into a directory that
//! the tool manages.
use vstd::prelude::*;
use vstd::string::*;
use crate::config::DatabaseConfig;
use crate::connection::{BackendKind, DatabaseConnection, DatabaseInfo, check_config, estimate_for, opt_text};
use crate::error::Error;
use crate::text::{cat, decimal, decimal_text, strip_quotes, trim, trimmed, unquoted};
use crate::tool::{Invocation, ToolOutcome, interpret, outcome_result, push_arg, push_flag, reads_as, texts};

verus! {

pub struct MongoDatabase<'a> {
    config: &'a DatabaseConfig,
}

pub open spec fn mongo_connection_string(c: DatabaseConfig) -> Seq<char> {
    "mongodb://"@ + c.user@ + ":"@ + c.password@ + "@"@ + c.host@ + ":"@ + decimal(c.port as nat) + "/"@
}

pub open spec fn mongo_connection_args(c: DatabaseConfig) -> Seq<Seq<char>> {
    seq![
        "--host="@ + c.host@ + ":"@ + decimal(c.port as nat),
        "--username="@ + c.user@,
        "--password="@ + c.password@,
        "--authenticationDatabase=admin"@,
    ]
}

pub open spec fn mongo_shell_args(c: DatabaseConfig, db: Seq<char>, command: Seq<char>) -> Seq<Seq<char>> {
    mongo_connection_args(c) + seq![db, "--quiet"@, "--eval"@, command]
}

pub open spec fn mongodump_args(c: DatabaseConfig, db: Seq<char>, out_dir: Seq<char>) -> Seq<Seq<char>> {
    mongo_connection_args(c) + seq!["--db="@ + db, "--out="@ + out_dir, "--gzip"@]
}

pub open spec fn stats_command() -> Seq<char> {
    "JSON.stringify(db.stats())"@
}

pub open spec fn version_command() -> Seq<char> {
    "JSON.stringify(db.version())"@
}

/// The unsigned integer stored under `key` at the top level of the JSON
/// document `text`, if `text` is one and the member is such an integer.
pub uninterp spec fn json_u64_member(text: Seq<char>, key: Seq<char>) -> Option<u64>;

/// Relies on `serde_json::from_str` into a `serde_json::Value`, then on
/// indexing that value by `key` and `Value::as_u64`: the result depends on
/// the two texts alone.
#[verifier::external_body]
fn json_u64_field(text: &str, key: &str) -> (r: Option<u64>)
    ensures
        r == json_u64_member(text@, key@),
{
    serde_json::from_str::<serde_json::Value>(text).ok().and_then(|v| v[key].as_u64())
}

/// The size a statistics query's outcome gives: its `dataSize` member.
pub open spec fn mongo_size(out: Result<String, Error>) -> Option<u64> {
    match out {
        Ok(s) => json_u64_member(s@, "dataSize"@),
        Err(_) => None,
    }
}

/// The version a version query's outcome gives: its output trimmed and unquoted.
pub open spec fn mongo_version(out: Result<String, Error>) -> Option<Seq<char>> {
    match out {
        Ok(s) => Some(unquoted(trimmed(s@))),
        Err(_) => None,
    }
}

impl<'a> MongoDatabase<'a> {
    pub closed spec fn spec_config(&self) -> DatabaseConfig {
        *self.config
    }

    pub fn new(config: &'a DatabaseConfig) -> (r: Self)
        ensures
            r.spec_config() == *config,
    {
        MongoDatabase { config }
    }

    pub fn get_connection_string(&self) -> (r: String)
        ensures
            r@ == mongo_connection_string(self.spec_config()),
    {
        let mut r = cat("mongodb://", self.config.user.as_str());
        r.append(":");
        r.append(self.config.password.as_str());
        r.append("@");
        r.append(self.config.host.as_str());
        r.append(":");
        let port = decimal_text(self.config.port as u64);
        r.append(port.as_str());
        r.append("/");
        r
    }

    pub fn get_connection_args(&self) -> (r: Vec<String>)
        ensures
            texts(r@) == mongo_connection_args(self.spec_config()),
    {
        let mut r: Vec<String> = Vec::new();
        let mut host = cat("--host=", self.config.host.as_str());
        host.append(":");
        let port = decimal_text(self.config.port as u64);
        host.append(port.as_str());
        push_arg(&mut r, host.as_str());
        push_flag(&mut r, "--username=", self.config.user.as_str());
        push_flag(&mut r, "--password=", self.config.password.as_str());
        push_arg(&mut r, "--authenticationDatabase=admin");
        assert(texts(r@) =~= mongo_connection_args(self.spec_config()));
        r
    }

    /// The shell evaluating `command` against database `db`.
    pub fn shell_invocation(&self, db: &str, command: &str) -> (r: Invocation)
        ensures
            r.is("mongo"@, mongo_shell_args(self.spec_config(), db@, command@), seq![]),
    {
        let mut args = self.get_connection_args();
        push_arg(&mut args, db);
        push_arg(&mut args, "--quiet");
        push_arg(&mut args, "--eval");
        push_arg(&mut args, command);
        let env: Vec<(String, String)> = Vec::new();
        let r = Invocation { program: String::from_str("mongo"), args, env };
        assert(texts(r.args@) =~= mongo_shell_args(self.spec_config(), db@, command@));
        assert(crate::tool::env_texts(r.env@) =~= seq![]);
        r
    }

    /// The connectivity probe: a ping of the administrative database.
    pub fn probe_invocation(&self) -> (r: Invocation)
        ensures
            r.is("mongo"@, mongo_shell_args(self.spec_config(), "admin"@, "db.runCommand('ping')"@), seq![]),
    {
        self.shell_invocation("admin", "db.runCommand('ping')")
    }

    /// The statistics of database `db`, as JSON.
    pub fn stats_invocation(&self, db: &str) -> (r: Invocation)
        ensures
            r.is("mongo"@, mongo_shell_args(self.spec_config(), db@, stats_command()), seq![]),
    {
        self.shell_invocation(db, "JSON.stringify(db.stats())")
    }

    /// The server version, as JSON.
    pub fn version_invocation(&self, db: &str) -> (r: Invocation)
        ensures
            r.is("mongo"@, mongo_shell_args(self.spec_config(), db@, version_command()), seq![]),
    {
        self.shell_invocation(db, "JSON.stringify(db.version())")
    }

    /// The dump of database `db` under directory `out_dir`.
    pub fn dump_invocation(&self, db: &str, out_dir: &str) -> (r: Invocation)
        ensures
            r.is("mongodump"@, mongodump_args(self.spec_config(), db@, out_dir@), seq![]),
    {
        let mut args = self.get_connection_args();
        push_flag(&mut args, "--db=", db);
        push_flag(&mut args, "--out=", out_dir);
        push_arg(&mut args, "--gzip");
        let env: Vec<(String, String)> = Vec::new();
        let r = Invocation { program: String::from_str("mongodump"), args, env };
        assert(texts(r.args@) =~= mongodump_args(self.spec_config(), db@, out_dir@));
        assert(crate::tool::env_texts(r.env@) =~= seq![]);
        r
    }

    /// Reads the outcome of a shell run.
    pub fn read_shell_outcome(outcome: ToolOutcome) -> (r: Result<String, Error>)
        ensures
            reads_as(r, outcome_result("mongo command"@, "mongo command"@, outcome)),
    {
        interpret("mongo command", "mongo command", outcome)
    }

    /// Reads the outcome of a dump run.
    pub fn read_dump_outcome(outcome: ToolOutcome) -> (r: Result<String, Error>)
        ensures
            reads_as(r, outcome_result("mongodump"@, "mongodump"@, outcome)),
    {
        interpret("mongodump", "mongodump", outcome)
    }

    /// The data size that a statistics query returned, when it returned one.
    pub fn size_from(out: &Result<String, Error>) -> (r: Option<u64>)
        ensures
            r == mongo_size(*out),
    {
        match out {
            Ok(s) => json_u64_field(s.as_str(), "dataSize"),
            Err(_) => None,
        }
    }

    /// The server version that a version query returned, trimmed and unquoted.
    pub fn version_from(out: &Result<String, Error>) -> (r: Option<String>)
        ensures
            opt_text(r) == mongo_version(*out),
    {
        match out {
            Ok(s) => {
                let t = trim(s.as_str());
                Some(strip_quotes(t.as_str()))
            },
            Err(_) => None,
        }
    }

    /// The listing entry of database `db` from the outcomes of its statistics
    /// and version queries; a failed query leaves its field absent.
    pub fn info_from(db: &str, stats_out: &Result<String, Error>, version_out: &Result<String, Error>) -> (r: DatabaseInfo)
        ensures
            r.name@ == db@,
            r.size == mongo_size(*stats_out),
            opt_text(r.schema_version) == mongo_version(*version_out),
    {
        DatabaseInfo::new(db, Self::size_from(stats_out), Self::version_from(version_out))
    }
}

impl<'a> DatabaseConnection for MongoDatabase<'a> {
    open spec fn backend_kind(&self) -> BackendKind {
        BackendKind::MongoDB
    }

    fn database_type(&self) -> (r: &'static str) {
        "mongodb"
    }

    fn validate_config(&self, config: &DatabaseConfig) -> (r: Result<(), Error>) {
        check_config(BackendKind::MongoDB, config)
    }

    fn estimate_backup_size(&self, sizes: &Vec<Option<u64>>) -> (r: u64) {
        estimate_for(BackendKind::MongoDB, sizes)
    }
}

} // verus!
