//! Relational server B, backed up with its dump tool in custom format; the
//! password reaches the tools through their environment, never their
//! argument list.
use vstd::prelude::*;
use vstd::string::*;
use crate::config::DatabaseConfig;
use crate::connection::{BackendKind, DatabaseConnection, DatabaseInfo, check_config, estimate_for, opt_text};
use crate::error::Error;
use crate::text::{cat, decimal, decimal_text, decimal_u64, line_at, nth_line, parse_u64, trim, trimmed};
use crate::tool::{Invocation, ToolOutcome, env_texts, interpret, outcome_result, push_arg, push_flag, reads_as, texts};

verus! {

pub struct PostgreSQLDatabase<'a> {
    config: &'a DatabaseConfig,
}

pub open spec fn postgres_connection_string(c: DatabaseConfig) -> Seq<char> {
    "postgresql://"@ + c.user@ + ":"@ + c.password@ + "@"@ + c.host@ + ":"@ + decimal(c.port as nat) + "/"@
}

/// The connection flags; the password is not among them.
pub open spec fn postgres_connection_args(c: DatabaseConfig) -> Seq<Seq<char>> {
    seq!["--host="@ + c.host@, "--port="@ + decimal(c.port as nat), "--username="@ + c.user@]
}

/// The environment of every tool run: the password.
pub open spec fn postgres_env(c: DatabaseConfig) -> Seq<(Seq<char>, Seq<char>)> {
    seq![("PGPASSWORD"@, c.password@)]
}

pub open spec fn psql_args(c: DatabaseConfig, db: Seq<char>, query: Seq<char>) -> Seq<Seq<char>> {
    postgres_connection_args(c) + seq![
        "--dbname="@ + db,
        "--no-password"@,
        "--tuples-only"@,
        "--no-align"@,
        "--command="@ + query,
    ]
}

pub open spec fn pg_dump_args(c: DatabaseConfig, db: Seq<char>, file: Seq<char>) -> Seq<Seq<char>> {
    postgres_connection_args(c) + seq![
        "--dbname="@ + db,
        "--no-password"@,
        "--verbose"@,
        "--clean"@,
        "--create"@,
        "--if-exists"@,
        "--format=custom"@,
        "--file="@ + file,
    ]
}

pub open spec fn size_query() -> Seq<char> {
    "SELECT pg_database_size(current_database());"@
}

pub open spec fn version_query() -> Seq<char> {
    "SELECT version();"@
}

/// The size a size query's outcome gives: its output, trimmed, as a number.
pub open spec fn postgres_size(out: Result<String, Error>) -> Option<u64> {
    match out {
        Ok(s) => decimal_u64(trimmed(s@)),
        Err(_) => None,
    }
}

/// The version a version query's outcome gives: its first line, trimmed.
pub open spec fn postgres_version(out: Result<String, Error>) -> Option<Seq<char>> {
    match out {
        Ok(s) => match line_at(s@, 0) {
            Some(l) => Some(trimmed(l)),
            None => None,
        },
        Err(_) => None,
    }
}

impl<'a> PostgreSQLDatabase<'a> {
    pub closed spec fn spec_config(&self) -> DatabaseConfig {
        *self.config
    }

    pub fn new(config: &'a DatabaseConfig) -> (r: Self)
        ensures
            r.spec_config() == *config,
    {
        PostgreSQLDatabase { config }
    }

    pub fn get_connection_string(&self) -> (r: String)
        ensures
            r@ == postgres_connection_string(self.spec_config()),
    {
        let mut r = cat("postgresql://", self.config.user.as_str());
        r.append(":");
        r.append(self.config.password.as_str());
        r.append("@");
        r.append(self.config.host.as_str());
        r.append(":");
        let port = decimal_text(self.config.port as u64);
        r.append(port.as_str());
        r.append("/");
        r
    }

    pub fn get_connection_args(&self) -> (r: Vec<String>)
        ensures
            texts(r@) == postgres_connection_args(self.spec_config()),
    {
        let mut r: Vec<String> = Vec::new();
        push_flag(&mut r, "--host=", self.config.host.as_str());
        let port = decimal_text(self.config.port as u64);
        push_flag(&mut r, "--port=", port.as_str());
        push_flag(&mut r, "--username=", self.config.user.as_str());
        assert(texts(r@) =~= postgres_connection_args(self.spec_config()));
        r
    }

    fn password_env(&self) -> (r: Vec<(String, String)>)
        ensures
            env_texts(r@) == postgres_env(self.spec_config()),
    {
        let mut r: Vec<(String, String)> = Vec::new();
        r.push((String::from_str("PGPASSWORD"), self.config.password.clone()));
        assert(env_texts(r@) =~= postgres_env(self.spec_config()));
        r
    }

    /// The client running `query` against database `db`.
    pub fn psql_invocation(&self, db: &str, query: &str) -> (r: Invocation)
        ensures
            r.is("psql"@, psql_args(self.spec_config(), db@, query@), postgres_env(self.spec_config())),
    {
        let mut args = self.get_connection_args();
        push_flag(&mut args, "--dbname=", db);
        push_arg(&mut args, "--no-password");
        push_arg(&mut args, "--tuples-only");
        push_arg(&mut args, "--no-align");
        push_flag(&mut args, "--command=", query);
        let r = Invocation { program: String::from_str("psql"), args, env: self.password_env() };
        assert(texts(r.args@) =~= psql_args(self.spec_config(), db@, query@));
        r
    }

    /// The connectivity probe: a trivial query on the administrative database.
    pub fn probe_invocation(&self) -> (r: Invocation)
        ensures
            r.is("psql"@, psql_args(self.spec_config(), "postgres"@, "SELECT 1;"@), postgres_env(self.spec_config())),
    {
        self.psql_invocation("postgres", "SELECT 1;")
    }

    /// The query of the size of database `db`.
    pub fn size_invocation(&self, db: &str) -> (r: Invocation)
        ensures
            r.is("psql"@, psql_args(self.spec_config(), db@, size_query()), postgres_env(self.spec_config())),
    {
        self.psql_invocation(db, "SELECT pg_database_size(current_database());")
    }

    /// The query of the server version, through database `db`.
    pub fn version_invocation(&self, db: &str) -> (r: Invocation)
        ensures
            r.is("psql"@, psql_args(self.spec_config(), db@, version_query()), postgres_env(self.spec_config())),
    {
        self.psql_invocation(db, "SELECT version();")
    }

    /// The dump of database `db` into `file`, written by the tool itself.
    pub fn dump_invocation(&self, db: &str, file: &str) -> (r: Invocation)
        ensures
            r.is("pg_dump"@, pg_dump_args(self.spec_config(), db@, file@), postgres_env(self.spec_config())),
    {
        let mut args = self.get_connection_args();
        push_flag(&mut args, "--dbname=", db);
        push_arg(&mut args, "--no-password");
        push_arg(&mut args, "--verbose");
        push_arg(&mut args, "--clean");
        push_arg(&mut args, "--create");
        push_arg(&mut args, "--if-exists");
        push_arg(&mut args, "--format=custom");
        push_flag(&mut args, "--file=", file);
        let r = Invocation { program: String::from_str("pg_dump"), args, env: self.password_env() };
        assert(texts(r.args@) =~= pg_dump_args(self.spec_config(), db@, file@));
        r
    }

    /// The artifact of database `db`: `<db>.dump`.
    pub fn dump_file_name(db: &str) -> (r: String)
        ensures
            r@ == db@ + ".dump"@,
    {
        cat(db, ".dump")
    }

    /// Reads the outcome of a client run.
    pub fn read_client_outcome(outcome: ToolOutcome) -> (r: Result<String, Error>)
        ensures
            reads_as(r, outcome_result("psql command"@, "psql command"@, outcome)),
    {
        interpret("psql command", "psql command", outcome)
    }

    /// Reads the outcome of a dump run.
    pub fn read_dump_outcome(outcome: ToolOutcome) -> (r: Result<String, Error>)
        ensures
            reads_as(r, outcome_result("pg_dump"@, "pg_dump"@, outcome)),
    {
        interpret("pg_dump", "pg_dump", outcome)
    }

    /// The size in bytes that a size query returned, when it returned one.
    pub fn size_from(out: &Result<String, Error>) -> (r: Option<u64>)
        ensures
            r == postgres_size(*out),
    {
        match out {
            Ok(s) => {
                let t = trim(s.as_str());
                parse_u64(t.as_str())
            },
            Err(_) => None,
        }
    }

    /// The server version that a version query returned: its first line, trimmed.
    pub fn version_from(out: &Result<String, Error>) -> (r: Option<String>)
        ensures
            opt_text(r) == postgres_version(*out),
    {
        match out {
            Ok(s) => match nth_line(s.as_str(), 0) {
                Some(l) => Some(trim(l.as_str())),
                None => None,
            },
            Err(_) => None,
        }
    }

    /// The listing entry of database `db` from the outcomes of its size and
    /// version queries; a failed query leaves its field absent.
    pub fn info_from(db: &str, size_out: &Result<String, Error>, version_out: &Result<String, Error>) -> (r: DatabaseInfo)
        ensures
            r.name@ == db@,
            r.size == postgres_size(*size_out),
            opt_text(r.schema_version) == postgres_version(*version_out),
    {
        DatabaseInfo::new(db, Self::size_from(size_out), Self::version_from(version_out))
    }
}

impl<'a> DatabaseConnection for PostgreSQLDatabase<'a> {
    open spec fn backend_kind(&self) -> BackendKind {
        BackendKind::Postgres
    }

    fn database_type(&self) -> (r: &'static str) {
        "postgres"
    }

    fn validate_config(&self, config: &DatabaseConfig) -> (r: Result<(), Error>) {
        check_config(BackendKind::Postgres, config)
    }

    fn estimate_backup_size(&self, sizes: &Vec<Option<u64>>) -> (r: u64) {
        estimate_for(BackendKind::Postgres, sizes)
    }
}

} // verus!
