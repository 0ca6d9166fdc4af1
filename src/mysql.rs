//! Relational server A, backed up with its dump tool; the dump arrives on
//! the tool's standard output.
use vstd::prelude::*;
use vstd::string::*;
use crate::config::DatabaseConfig;
use crate::connection::{BackendKind, DatabaseConnection, DatabaseInfo, check_config, estimate_for, opt_text};
use crate::error::Error;
use crate::text::{cat, decimal, decimal_text, decimal_u64, line_at, nth_line, parse_u64};
use crate::tool::{Invocation, ToolOutcome, interpret, outcome_result, push_arg, push_flag, reads_as, texts};

verus! {

pub struct MySQLDatabase<'a> {
    config: &'a DatabaseConfig,
}

/// The connection flags, password included.
pub open spec fn mysql_connection_args(c: DatabaseConfig) -> Seq<Seq<char>> {
    seq![
        "--host="@ + c.host@,
        "--port="@ + decimal(c.port as nat),
        "--user="@ + c.user@,
        "--password="@ + c.password@,
    ]
}

/// The options of the dump tool, before the database name.
pub open spec fn mysqldump_options() -> Seq<Seq<char>> {
    seq![
        "--single-transaction"@,
        "--routines"@,
        "--triggers"@,
        "--events"@,
        "--add-drop-database"@,
        "--create-options"@,
    ]
}

pub open spec fn size_listing_statement(db: Seq<char>) -> Seq<char> {
    "SELECT ROUND(SUM(data_length + index_length) / 1024 / 1024, 1) AS 'DB Size in MB' FROM information_schema.tables WHERE table_schema='"@ + db + "'"@
}

pub open spec fn size_estimate_statement(db: Seq<char>) -> Seq<char> {
    "SELECT COALESCE(SUM(data_length + index_length), 0) FROM information_schema.tables WHERE table_schema='"@ + db + "'"@
}

/// The first row of a client result, after its header line.
pub open spec fn mysql_result_row(out: Seq<char>) -> Option<Seq<char>> {
    line_at(out, 1)
}

/// The size an estimate query's outcome gives: its result row as a number.
pub open spec fn mysql_size(out: Result<String, Error>) -> Option<u64> {
    match out {
        Ok(s) => match mysql_result_row(s@) {
            Some(l) => decimal_u64(l),
            None => None,
        },
        Err(_) => None,
    }
}

/// The version a version query's outcome gives: its result row.
pub open spec fn mysql_version(out: Result<String, Error>) -> Option<Seq<char>> {
    match out {
        Ok(s) => mysql_result_row(s@),
        Err(_) => None,
    }
}

impl<'a> MySQLDatabase<'a> {
    pub closed spec fn spec_config(&self) -> DatabaseConfig {
        *self.config
    }

    pub fn new(config: &'a DatabaseConfig) -> (r: Self)
        ensures
            r.spec_config() == *config,
    {
        MySQLDatabase { config }
    }

    pub fn get_connection_args(&self) -> (r: Vec<String>)
        ensures
            texts(r@) == mysql_connection_args(self.spec_config()),
    {
        let mut r: Vec<String> = Vec::new();
        push_flag(&mut r, "--host=", self.config.host.as_str());
        let port = decimal_text(self.config.port as u64);
        push_flag(&mut r, "--port=", port.as_str());
        push_flag(&mut r, "--user=", self.config.user.as_str());
        push_flag(&mut r, "--password=", self.config.password.as_str());
        assert(texts(r@) =~= mysql_connection_args(self.spec_config()));
        r
    }

    /// The client running `statement`.
    pub fn client_invocation(&self, statement: &str) -> (r: Invocation)
        ensures
            r.is("mysql"@, mysql_connection_args(self.spec_config()).push("--execute="@ + statement@), seq![]),
    {
        let mut args = self.get_connection_args();
        push_flag(&mut args, "--execute=", statement);
        let env: Vec<(String, String)> = Vec::new();
        let r = Invocation { program: String::from_str("mysql"), args, env };
        assert(crate::tool::env_texts(r.env@) =~= seq![]);
        r
    }

    /// The connectivity probe: a trivial query.
    pub fn probe_invocation(&self) -> (r: Invocation)
        ensures
            r.is("mysql"@, mysql_connection_args(self.spec_config()).push("--execute="@ + "SELECT 1"@), seq![]),
    {
        self.client_invocation("SELECT 1")
    }

    /// The query of a database's size in megabytes, for the listing.
    pub fn size_listing_invocation(&self, db: &str) -> (r: Invocation)
        ensures
            r.is("mysql"@, mysql_connection_args(self.spec_config()).push("--execute="@ + size_listing_statement(db@)), seq![]),
    {
        let mut q = cat("SELECT ROUND(SUM(data_length + index_length) / 1024 / 1024, 1) AS 'DB Size in MB' FROM information_schema.tables WHERE table_schema='", db);
        q.append("'");
        self.client_invocation(q.as_str())
    }

    /// The query of a database's size in bytes, for the estimate.
    pub fn size_estimate_invocation(&self, db: &str) -> (r: Invocation)
        ensures
            r.is("mysql"@, mysql_connection_args(self.spec_config()).push("--execute="@ + size_estimate_statement(db@)), seq![]),
    {
        let mut q = cat("SELECT COALESCE(SUM(data_length + index_length), 0) FROM information_schema.tables WHERE table_schema='", db);
        q.append("'");
        self.client_invocation(q.as_str())
    }

    /// The query of the server version.
    pub fn version_invocation(&self) -> (r: Invocation)
        ensures
            r.is("mysql"@, mysql_connection_args(self.spec_config()).push("--execute="@ + "SELECT VERSION()"@), seq![]),
    {
        self.client_invocation("SELECT VERSION()")
    }

    /// The dump of database `db`; its standard output is the artifact.
    pub fn dump_invocation(&self, db: &str) -> (r: Invocation)
        ensures
            r.is("mysqldump"@, mysql_connection_args(self.spec_config()) + mysqldump_options() + seq![db@], seq![]),
    {
        let mut args = self.get_connection_args();
        push_arg(&mut args, "--single-transaction");
        push_arg(&mut args, "--routines");
        push_arg(&mut args, "--triggers");
        push_arg(&mut args, "--events");
        push_arg(&mut args, "--add-drop-database");
        push_arg(&mut args, "--create-options");
        push_arg(&mut args, db);
        let env: Vec<(String, String)> = Vec::new();
        let r = Invocation { program: String::from_str("mysqldump"), args, env };
        assert(texts(r.args@) =~= mysql_connection_args(self.spec_config()) + mysqldump_options() + seq![db@]);
        assert(crate::tool::env_texts(r.env@) =~= seq![]);
        r
    }

    /// The artifact of database `db`: `<db>.sql`.
    pub fn dump_file_name(db: &str) -> (r: String)
        ensures
            r@ == db@ + ".sql"@,
    {
        cat(db, ".sql")
    }

    /// Reads the outcome of a client run.
    pub fn read_client_outcome(outcome: ToolOutcome) -> (r: Result<String, Error>)
        ensures
            reads_as(r, outcome_result("mysql command"@, "MySQL command"@, outcome)),
    {
        interpret("mysql command", "MySQL command", outcome)
    }

    /// Reads the outcome of a dump run; on success, the dump text.
    pub fn read_dump_outcome(outcome: ToolOutcome) -> (r: Result<String, Error>)
        ensures
            reads_as(r, outcome_result("mysqldump"@, "mysqldump"@, outcome)),
    {
        interpret("mysqldump", "mysqldump", outcome)
    }

    /// The first result row of a client output.
    pub fn result_row(out: &str) -> (r: Option<String>)
        ensures
            match r {
                Some(l) => mysql_result_row(out@) == Some(l@),
                None => mysql_result_row(out@) is None,
            },
    {
        nth_line(out, 1)
    }

    /// The size in bytes that an estimate query returned, when it returned one.
    pub fn size_from_estimate(out: &Result<String, Error>) -> (r: Option<u64>)
        ensures
            r == mysql_size(*out),
    {
        match out {
            Ok(s) => match nth_line(s.as_str(), 1) {
                Some(l) => parse_u64(l.as_str()),
                None => None,
            },
            Err(_) => None,
        }
    }

    /// The server version that a version query returned, when it returned one.
    pub fn version_from(out: &Result<String, Error>) -> (r: Option<String>)
        ensures
            opt_text(r) == mysql_version(*out),
    {
        match out {
            Ok(s) => nth_line(s.as_str(), 1),
            Err(_) => None,
        }
    }

    /// The listing entry of database `db`, from its size (read from the
    /// listing query, when that succeeded) and the outcome of the version
    /// query; a failed query leaves its field absent.
    pub fn info_from(db: &str, size: Option<u64>, version_out: &Result<String, Error>) -> (r: DatabaseInfo)
        ensures
            r.name@ == db@,
            r.size == size,
            opt_text(r.schema_version) == mysql_version(*version_out),
    {
        DatabaseInfo::new(db, size, Self::version_from(version_out))
    }
}

impl<'a> DatabaseConnection for MySQLDatabase<'a> {
    open spec fn backend_kind(&self) -> BackendKind {
        BackendKind::MySQL
    }

    fn database_type(&self) -> (r: &'static str) {
        "mysql"
    }

    fn validate_config(&self, config: &DatabaseConfig) -> (r: Result<(), Error>) {
        check_config(BackendKind::MySQL, config)
    }

    fn estimate_backup_size(&self, sizes: &Vec<Option<u64>>) -> (r: u64) {
        estimate_for(BackendKind::MySQL, sizes)
    }
}

} // verus!
