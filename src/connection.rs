//! The capability contract shared by all backends, the data it produces, and
//! the factory that builds a backend from its type tag.
use vstd::prelude::*;
use vstd::string::*;
use crate::config::DatabaseConfig;
use crate::error::{Error, ErrorKind, fails_with};
use crate::mongodb::MongoDatabase;
use crate::mysql::MySQLDatabase;
use crate::postgres::PostgreSQLDatabase;
use crate::sqlite::SQLiteDatabase;
use crate::text::{cat, str_equal};

verus! {

/// Metadata of one logical database, gathered during an information listing.
#[derive(Debug, Clone)]
pub struct DatabaseInfo {
    pub name: String,
    /// Size in bytes, when it could be obtained.
    pub size: Option<u64>,
    /// Server version or schema tag, when it could be obtained.
    pub schema_version: Option<String>,
}

/// The outcome of a connectivity probe.
#[derive(Debug, Clone)]
pub enum ConnectionStatus {
    Connected,
    Disconnected,
    Error(String),
}

/// The views of an optional string.
pub open spec fn opt_text(o: Option<String>) -> Option<Seq<char>> {
    match o {
        Some(s) => Some(s@),
        None => None,
    }
}

impl DatabaseInfo {
    /// The listing entry of database `name`; absent fields stand for what
    /// could not be obtained.
    pub fn new(name: &str, size: Option<u64>, schema_version: Option<String>) -> (r: DatabaseInfo)
        ensures
            r.name@ == name@,
            r.size == size,
            r.schema_version == schema_version,
    {
        DatabaseInfo { name: String::from_str(name), size, schema_version }
    }
}

impl ConnectionStatus {
    /// The status a probe query gives: connected when it ran, else an error
    /// status carrying the failure's display text.
    pub fn from_probe(r: Result<String, Error>) -> (s: ConnectionStatus)
        ensures
            match r {
                Ok(_) => s is Connected,
                Err(e) => s matches ConnectionStatus::Error(m) && m@ == e.display(),
            },
    {
        match r {
            Ok(_) => ConnectionStatus::Connected,
            Err(e) => ConnectionStatus::Error(e.to_string()),
        }
    }
}

/// The supported backend kinds.
#[derive(Debug, Clone, Copy, PartialEq, Eq, Structural)]
pub enum BackendKind {
    /// Relational server A.
    MySQL,
    /// Relational server B.
    Postgres,
    /// The embedded file-based store.
    SQLite,
    /// The document store.
    MongoDB,
}

/// The type tag of each kind.
pub open spec fn kind_tag(k: BackendKind) -> Seq<char> {
    match k {
        BackendKind::MySQL => "mysql"@,
        BackendKind::Postgres => "postgres"@,
        BackendKind::SQLite => "sqlite"@,
        BackendKind::MongoDB => "mongodb"@,
    }
}

/// The kind whose tag is `tag`, if any.
pub open spec fn kind_of_tag(tag: Seq<char>) -> Option<BackendKind> {
    if tag == "mysql"@ {
        Some(BackendKind::MySQL)
    } else if tag == "postgres"@ {
        Some(BackendKind::Postgres)
    } else if tag == "sqlite"@ {
        Some(BackendKind::SQLite)
    } else if tag == "mongodb"@ {
        Some(BackendKind::MongoDB)
    } else {
        None
    }
}

/// The supported kinds, in the order in which they are listed.
pub open spec fn supported_kinds() -> Seq<BackendKind> {
    seq![BackendKind::MySQL, BackendKind::Postgres, BackendKind::SQLite, BackendKind::MongoDB]
}

/// The type tag of a kind.
pub fn tag_of(k: BackendKind) -> (r: &'static str)
    ensures
        r@ == kind_tag(k),
{
    match k {
        BackendKind::MySQL => "mysql",
        BackendKind::Postgres => "postgres",
        BackendKind::SQLite => "sqlite",
        BackendKind::MongoDB => "mongodb",
    }
}

/// The first problem found in `c` for a backend of kind `k`, as the message of
/// a Config error, or `None` when its fields are acceptable.
pub open spec fn config_problem(k: BackendKind, c: DatabaseConfig) -> Option<Seq<char>> {
    match k {
        BackendKind::SQLite => if c.host@.len() == 0 {
            Some("SQLite host (directory path) cannot be empty"@)
        } else if c.databases@.len() == 0 {
            Some("At least one database file must be specified"@)
        } else {
            None
        },
        BackendKind::MySQL => if c.host@.len() == 0 {
            Some("MySQL host cannot be empty"@)
        } else if c.user@.len() == 0 {
            Some("MySQL user cannot be empty"@)
        } else if c.databases@.len() == 0 {
            Some("At least one database must be specified"@)
        } else {
            None
        },
        BackendKind::Postgres => if c.host@.len() == 0 {
            Some("PostgreSQL host cannot be empty"@)
        } else if c.user@.len() == 0 {
            Some("PostgreSQL user cannot be empty"@)
        } else if c.databases@.len() == 0 {
            Some("At least one database must be specified"@)
        } else {
            None
        },
        BackendKind::MongoDB => if c.host@.len() == 0 {
            Some("MongoDB host cannot be empty"@)
        } else if c.user@.len() == 0 {
            Some("MongoDB user cannot be empty"@)
        } else if c.password@.len() == 0 {
            Some("MongoDB password cannot be empty"@)
        } else if c.databases@.len() == 0 {
            Some("At least one database must be specified"@)
        } else {
            None
        },
    }
}

/// `r` is what validating `c` for kind `k` gives.
pub open spec fn validated(r: Result<(), Error>, k: BackendKind, c: DatabaseConfig) -> bool {
    match config_problem(k, c) {
        None => r is Ok,
        Some(m) => fails_with(r, ErrorKind::Config, m),
    }
}

fn config_error(m: &str) -> (r: Result<(), Error>)
    ensures
        fails_with(r, ErrorKind::Config, m@),
{
    Err(Error::Config(String::from_str(m)))
}

/// The path of database file `db` in directory `host`.
pub open spec fn file_path(host: Seq<char>, db: Seq<char>) -> Seq<char> {
    host + "/"@ + db
}

/// What the disk says of an embedded-store configuration: `None` when its
/// directory and every database file in it exist (`files_exist[i]` for the
/// `i`-th database), else the message of the Config error for the first
/// thing missing.
pub open spec fn layout_problem(c: DatabaseConfig, host_exists: bool, files_exist: Seq<bool>) -> Option<Seq<char>> {
    if !host_exists {
        Some("SQLite host directory does not exist: "@ + c.host@)
    } else if exists|i: int| 0 <= i < files_exist.len() && !files_exist[i] {
        let i = choose|i: int| 0 <= i < files_exist.len() && !files_exist[i]
            && forall|j: int| 0 <= j < i ==> files_exist[j];
        Some("SQLite database file does not exist: "@ + file_path(c.host@, c.databases@[i]@))
    } else {
        None
    }
}

/// What validating `c` for kind `k` gives. A problem in the fields is the
/// Config error [`config_problem`] names. Otherwise the server backends
/// succeed; the embedded store, whose check also looks at the disk, either
/// succeeds or fails with the Config error that some state of the disk gives.
pub open spec fn validation_outcome(r: Result<(), Error>, k: BackendKind, c: DatabaseConfig) -> bool {
    match config_problem(k, c) {
        Some(m) => fails_with(r, ErrorKind::Config, m),
        None => if k == BackendKind::SQLite {
            r is Ok || exists|h: bool, fe: Seq<bool>| fe.len() == c.databases@.len()
                && (#[trigger] layout_problem(c, h, fe) matches Some(m) && fails_with(r, ErrorKind::Config, m))
        } else {
            r is Ok
        },
    }
}

/// Checks the fields of `c` for a backend of kind `k`.
pub fn check_config(k: BackendKind, c: &DatabaseConfig) -> (r: Result<(), Error>)
    ensures
        validated(r, k, *c),
{
    let host_empty = c.host.as_str().unicode_len() == 0;
    let user_empty = c.user.as_str().unicode_len() == 0;
    let password_empty = c.password.as_str().unicode_len() == 0;
    let none = c.databases.len() == 0;
    match k {
        BackendKind::SQLite => if host_empty {
            config_error("SQLite host (directory path) cannot be empty")
        } else if none {
            config_error("At least one database file must be specified")
        } else {
            Ok(())
        },
        BackendKind::MySQL => if host_empty {
            config_error("MySQL host cannot be empty")
        } else if user_empty {
            config_error("MySQL user cannot be empty")
        } else if none {
            config_error("At least one database must be specified")
        } else {
            Ok(())
        },
        BackendKind::Postgres => if host_empty {
            config_error("PostgreSQL host cannot be empty")
        } else if user_empty {
            config_error("PostgreSQL user cannot be empty")
        } else if none {
            config_error("At least one database must be specified")
        } else {
            Ok(())
        },
        BackendKind::MongoDB => if host_empty {
            config_error("MongoDB host cannot be empty")
        } else if user_empty {
            config_error("MongoDB user cannot be empty")
        } else if password_empty {
            config_error("MongoDB password cannot be empty")
        } else if none {
            config_error("At least one database must be specified")
        } else {
            Ok(())
        },
    }
}

/// An empty list of databases is refused with a Config error, whatever the
/// backend kind and the other fields.
pub proof fn empty_database_list_is_refused(k: BackendKind, c: DatabaseConfig)
    requires
        c.databases@.len() == 0,
    ensures
        config_problem(k, c) is Some,
        forall|r: Result<(), Error>| validation_outcome(r, k, c) ==> (r matches Err(e) && e.spec_kind() == ErrorKind::Config),
{
}

/// The sum of the sizes that are known.
pub open spec fn total_size(sizes: Seq<Option<u64>>) -> nat
    decreases sizes.len(),
{
    if sizes.len() == 0 {
        0
    } else {
        total_size(sizes.drop_last()) + match sizes.last() {
            Some(v) => v as nat,
            None => 0,
        }
    }
}

/// The overhead factor of each kind's artifacts, as numerator and denominator:
/// the embedded store copies its file as is, relational server A's SQL dump
/// adds a fifth, relational server B's custom dump format adds 15%, and the
/// document store's BSON adds a quarter.
pub open spec fn overhead(k: BackendKind) -> (nat, nat) {
    match k {
        BackendKind::SQLite => (1, 1),
        BackendKind::MySQL => (6, 5),
        BackendKind::Postgres => (23, 20),
        BackendKind::MongoDB => (5, 4),
    }
}

/// `total` scaled by `num / den`, rounded down, saturating at the largest `u64`.
pub open spec fn scaled(total: nat, num: nat, den: nat) -> u64 {
    if total * num / den > u64::MAX as nat {
        u64::MAX
    } else {
        (total * num / den) as u64
    }
}

/// The predicted artifact size for a backend of kind `k` whose databases have
/// the given sizes (unknown sizes count as zero).
pub open spec fn estimate(k: BackendKind, sizes: Seq<Option<u64>>) -> u64 {
    scaled(total_size(sizes), overhead(k).0, overhead(k).1)
}

proof fn lemma_scaled_at_least(total: nat, num: nat, den: nat)
    requires
        0 < den <= num,
    ensures
        total * num / den >= total,
{
    assert(total * num >= total * den) by (nonlinear_arith)
        requires
            den <= num,
    ;
    assert((total * den) / den == total) by (nonlinear_arith)
        requires
            den > 0,
    ;
    vstd::arithmetic::div_mod::lemma_div_is_ordered((total * den) as int, (total * num) as int, den as int);
}

/// Applies the overhead of kind `k` to the known sizes.
pub fn estimate_for(k: BackendKind, sizes: &Vec<Option<u64>>) -> (r: u64)
    ensures
        r == estimate(k, sizes@),
{
    let (num, den): (u64, u64) = match k {
        BackendKind::SQLite => (1, 1),
        BackendKind::MySQL => (6, 5),
        BackendKind::Postgres => (23, 20),
        BackendKind::MongoDB => (5, 4),
    };
    let mut acc: u64 = 0;
    let mut i: usize = 0;
    while i < sizes.len()
        invariant
            i <= sizes@.len(),
            acc as nat == if total_size(sizes@.take(i as int)) > u64::MAX as nat {
                u64::MAX as nat
            } else {
                total_size(sizes@.take(i as int))
            },
        decreases sizes@.len() - i,
    {
        assert(sizes@.take(i + 1).drop_last() =~= sizes@.take(i as int));
        if let Some(v) = sizes[i] {
            acc = acc.saturating_add(v);
        }
        i = i + 1;
    }
    assert(sizes@.take(i as int) =~= sizes@);
    let ghost total = total_size(sizes@);
    proof {
        lemma_scaled_at_least(total, num as nat, den as nat);
    }
    if acc == u64::MAX {
        return u64::MAX;
    }
    let p: u128 = (acc as u128) * (num as u128) / (den as u128);
    if p > u64::MAX as u128 {
        u64::MAX
    } else {
        p as u64
    }
}

/// The estimate of each kind is a fixed multiple of the known total: the
/// embedded store's is the total itself, relational server A's 1.2 times it,
/// relational server B's 1.15 times it and the document store's 1.25 times
/// it, rounded down and capped at the largest `u64`.
pub proof fn estimate_multipliers(sizes: Seq<Option<u64>>)
    ensures
        total_size(sizes) <= u64::MAX as nat ==> estimate(BackendKind::SQLite, sizes) as nat == total_size(sizes),
        estimate(BackendKind::MySQL, sizes) == scaled(total_size(sizes), 12, 10),
        estimate(BackendKind::Postgres, sizes) == scaled(total_size(sizes), 115, 100),
        estimate(BackendKind::MongoDB, sizes) == scaled(total_size(sizes), 125, 100),
{
    let t = total_size(sizes);
    assert(t * 1 / 1 == t);
    assert(t * 6 / 5 == t * 12 / 10) by (nonlinear_arith);
    assert(t * 23 / 20 == t * 115 / 100) by (nonlinear_arith);
    assert(t * 5 / 4 == t * 125 / 100) by (nonlinear_arith);
}

/// The capability contract that every backend offers to the orchestrator.
pub trait DatabaseConnection {
    /// The kind of this backend.
    spec fn backend_kind(&self) -> BackendKind;

    /// The type tag: `mysql`, `postgres`, `sqlite` or `mongodb`.
    fn database_type(&self) -> (r: &'static str)
        ensures
            r@ == kind_tag(self.backend_kind()),
    ;

    /// Checks a configuration for this kind of backend.
    fn validate_config(&self, config: &DatabaseConfig) -> (r: Result<(), Error>)
        ensures
            validation_outcome(r, self.backend_kind(), *config),
    ;

    /// Predicts the size of this backend's artifacts from the sizes of its
    /// databases (`None` where a size could not be obtained).
    fn estimate_backup_size(&self, sizes: &Vec<Option<u64>>) -> (r: u64)
        ensures
            r == estimate(self.backend_kind(), sizes@),
    ;
}

/// A constructed backend of one of the supported kinds.
pub enum Backend<'a> {
    MySQL(MySQLDatabase<'a>),
    Postgres(PostgreSQLDatabase<'a>),
    SQLite(SQLiteDatabase<'a>),
    MongoDB(MongoDatabase<'a>),
}

impl<'a> Backend<'a> {
    pub open spec fn spec_config(&self) -> DatabaseConfig {
        match self {
            Backend::MySQL(b) => b.spec_config(),
            Backend::Postgres(b) => b.spec_config(),
            Backend::SQLite(b) => b.spec_config(),
            Backend::MongoDB(b) => b.spec_config(),
        }
    }

    pub fn kind(&self) -> (r: BackendKind)
        ensures
            r == self.backend_kind(),
    {
        match self {
            Backend::MySQL(_) => BackendKind::MySQL,
            Backend::Postgres(_) => BackendKind::Postgres,
            Backend::SQLite(_) => BackendKind::SQLite,
            Backend::MongoDB(_) => BackendKind::MongoDB,
        }
    }
}

impl<'a> DatabaseConnection for Backend<'a> {
    open spec fn backend_kind(&self) -> BackendKind {
        match self {
            Backend::MySQL(_) => BackendKind::MySQL,
            Backend::Postgres(_) => BackendKind::Postgres,
            Backend::SQLite(_) => BackendKind::SQLite,
            Backend::MongoDB(_) => BackendKind::MongoDB,
        }
    }

    fn database_type(&self) -> (r: &'static str) {
        tag_of(self.kind())
    }

    fn validate_config(&self, config: &DatabaseConfig) -> (r: Result<(), Error>) {
        match self {
            Backend::MySQL(b) => b.validate_config(config),
            Backend::Postgres(b) => b.validate_config(config),
            Backend::SQLite(b) => b.validate_config(config),
            Backend::MongoDB(b) => b.validate_config(config),
        }
    }

    fn estimate_backup_size(&self, sizes: &Vec<Option<u64>>) -> (r: u64) {
        estimate_for(self.kind(), sizes)
    }
}

/// Builds backends from type tags.
pub struct DatabaseConnectionFactory;

impl DatabaseConnectionFactory {
    /// The backend whose type tag is `db_type`, bound to `config`; an unknown
    /// tag is a Database error that names it.
    pub fn create_connection<'a>(db_type: &str, config: &'a DatabaseConfig) -> (r: Result<Backend<'a>, Error>)
        ensures
            match kind_of_tag(db_type@) {
                Some(k) => r matches Ok(b) && b.backend_kind() == k && b.spec_config() == *config,
                None => fails_with(r, ErrorKind::Database, "Unsupported database type: "@ + db_type@),
            },
    {
        if str_equal(db_type, "mysql") {
            Ok(Backend::MySQL(MySQLDatabase::new(config)))
        } else if str_equal(db_type, "postgres") {
            Ok(Backend::Postgres(PostgreSQLDatabase::new(config)))
        } else if str_equal(db_type, "sqlite") {
            Ok(Backend::SQLite(SQLiteDatabase::new(config)))
        } else if str_equal(db_type, "mongodb") {
            Ok(Backend::MongoDB(MongoDatabase::new(config)))
        } else {
            Err(Error::Database(cat("Unsupported database type: ", db_type)))
        }
    }

    /// The type tags of the supported kinds.
    pub fn supported_types() -> (r: Vec<&'static str>)
        ensures
            r@.len() == supported_kinds().len(),
            forall|i: int| 0 <= i < r@.len() ==> (#[trigger] r@[i])@ == kind_tag(supported_kinds()[i]),
    {
        let mut r: Vec<&'static str> = Vec::new();
        r.push(tag_of(BackendKind::MySQL));
        r.push(tag_of(BackendKind::Postgres));
        r.push(tag_of(BackendKind::SQLite));
        r.push(tag_of(BackendKind::MongoDB));
        r
    }
}

/// Every supported tag is recognised as its own kind, and the tags are
/// distinct, so the factory builds a backend for each of them.
pub proof fn supported_tags_are_recognised(k: BackendKind)
    ensures
        kind_of_tag(kind_tag(k)) == Some(k),
        supported_kinds().contains(k),
{
    reveal_strlit("mysql");
    reveal_strlit("postgres");
    reveal_strlit("sqlite");
    reveal_strlit("mongodb");
    assert("mysql"@.len() == 5);
    assert("postgres"@.len() == 8);
    assert("sqlite"@.len() == 6);
    assert("mongodb"@.len() == 7);
    assert("sqlite"@[0] != "mongodb"@[0]);
    assert(supported_kinds()[0] == BackendKind::MySQL);
    assert(supported_kinds()[1] == BackendKind::Postgres);
    assert(supported_kinds()[2] == BackendKind::SQLite);
    assert(supported_kinds()[3] == BackendKind::MongoDB);
}

/// A tag outside the supported set is no kind at all.
pub proof fn unknown_tags_are_refused(tag: Seq<char>)
    requires
        forall|k: BackendKind| kind_tag(k) != tag,
    ensures
        kind_of_tag(tag) is None,
{
    assert(kind_tag(BackendKind::MySQL) != tag);
    assert(kind_tag(BackendKind::Postgres) != tag);
    assert(kind_tag(BackendKind::SQLite) != tag);
    assert(kind_tag(BackendKind::MongoDB) != tag);
}

} // verus!
