use kronos::config::{Config, DatabaseConfig, Databases, Storage};
use kronos::connection::{BackendKind, ConnectionStatus, DatabaseConnection, DatabaseConnectionFactory};
use kronos::error::{Error, ErrorKind};
use kronos::mongodb::MongoDatabase;
use kronos::mysql::MySQLDatabase;
use kronos::performer::{Action, BackupPerformer, Event, RunState};
use kronos::postgres::PostgreSQLDatabase;
use kronos::sqlite::SQLiteDatabase;
use kronos::stamp::RunStamp;
use kronos::storage::LocalStorage;
use kronos::tool::ToolOutcome;

fn db_config(host: &str, port: u16, user: &str, password: &str, dbs: &[&str]) -> DatabaseConfig {
    DatabaseConfig {
        host: host.to_string(),
        port,
        user: user.to_string(),
        password: password.to_string(),
        databases: dbs.iter().map(|s| s.to_string()).collect(),
    }
}

fn run_config(databases: Databases) -> Config {
    Config {
        databases,
        schedule: None,
        storage: Storage {
            type_: "local".to_string(),
            path: None,
            bucket: None,
            region: None,
            access_key: None,
            secret_key: None,
        },
    }
}

fn no_databases() -> Databases {
    Databases { mysql: None, postgres: None, sqlite: None, mongodb: None }
}

fn strings(v: &[&str]) -> Vec<String> {
    v.iter().map(|s| s.to_string()).collect()
}

#[test]
fn test_framework_creation() {
    let sqlite_config = db_config("/tmp", 0, "", "", &["test.db"]);
    let sqlite_db = DatabaseConnectionFactory::create_connection("sqlite", &sqlite_config).unwrap();
    assert_eq!(sqlite_db.database_type(), "sqlite");

    let mysql_config = db_config("localhost", 3306, "root", "password", &["test_db"]);
    let mysql_db = DatabaseConnectionFactory::create_connection("mysql", &mysql_config).unwrap();
    assert_eq!(mysql_db.database_type(), "mysql");

    let postgres_config = db_config("localhost", 5432, "postgres", "password", &["test_db"]);
    let postgres_db = DatabaseConnectionFactory::create_connection("postgres", &postgres_config).unwrap();
    assert_eq!(postgres_db.database_type(), "postgres");

    let mongodb_config = db_config("localhost", 27017, "admin", "password", &["test_db"]);
    let mongodb_db = DatabaseConnectionFactory::create_connection("mongodb", &mongodb_config).unwrap();
    assert_eq!(mongodb_db.database_type(), "mongodb");

    assert!(DatabaseConnectionFactory::create_connection("unsupported", &sqlite_config).is_err());

    let supported = DatabaseConnectionFactory::supported_types();
    assert_eq!(supported, vec!["mysql", "postgres", "sqlite", "mongodb"]);
}

#[test]
fn empty_database_list_is_a_config_error_for_every_kind() {
    let c = db_config("localhost", 1, "u", "p", &[]);
    for tag in DatabaseConnectionFactory::supported_types() {
        let b = DatabaseConnectionFactory::create_connection(tag, &c).unwrap();
        let e = b.validate_config(&c).unwrap_err();
        assert_eq!(e.kind(), ErrorKind::Config);
    }
    let e = SQLiteDatabase::new(&c).validate_config(&c).unwrap_err();
    assert_eq!(e.message(), "At least one database file must be specified");
    let e = MySQLDatabase::new(&c).validate_config(&c).unwrap_err();
    assert_eq!(e.message(), "At least one database must be specified");
}

#[test]
fn validation_reports_the_first_missing_field() {
    let c = db_config("", 1, "", "", &["a"]);
    let e = MongoDatabase::new(&c).validate_config(&c).unwrap_err();
    assert_eq!(e.message(), "MongoDB host cannot be empty");
    let c = db_config("h", 1, "", "", &["a"]);
    let e = PostgreSQLDatabase::new(&c).validate_config(&c).unwrap_err();
    assert_eq!(e.message(), "PostgreSQL user cannot be empty");
    let c = db_config("h", 1, "u", "", &["a"]);
    let e = MongoDatabase::new(&c).validate_config(&c).unwrap_err();
    assert_eq!(e.message(), "MongoDB password cannot be empty");
    assert!(MySQLDatabase::new(&c).validate_config(&c).is_ok());
    let c = db_config("", 0, "", "", &["a.db"]);
    let e = SQLiteDatabase::new(&c).validate_config(&c).unwrap_err();
    assert_eq!(e.message(), "SQLite host (directory path) cannot be empty");
}

#[test]
fn sqlite_layout_checks_directory_then_files() {
    let c = db_config("/data", 0, "", "", &["a.db", "b.db", "c.db"]);
    let e = SQLiteDatabase::validate_layout(&c, false, &vec![true, true, true]).unwrap_err();
    assert_eq!(e.kind(), ErrorKind::Config);
    assert_eq!(e.message(), "SQLite host directory does not exist: /data");
    let e = SQLiteDatabase::validate_layout(&c, true, &vec![true, false, false]).unwrap_err();
    assert_eq!(e.message(), "SQLite database file does not exist: /data/b.db");
    assert!(SQLiteDatabase::validate_layout(&c, true, &vec![true, true, true]).is_ok());
    let e = SQLiteDatabase::check_source("/data/store", "x.db", false).unwrap_err();
    assert_eq!(e.kind(), ErrorKind::Database);
    assert_eq!(e.message(), "Database file not found: /data/store/x.db");
    assert!(SQLiteDatabase::check_source("/data/store", "x.db", true).is_ok());
    assert_eq!(SQLiteDatabase::source_path("/data", "a.db"), "/data/a.db");
}

#[test]
fn unknown_tag_is_a_database_error_naming_it() {
    let c = db_config("h", 1, "u", "p", &["a"]);
    for tag in ["oracle", "", "MySQL", "sqlite3"] {
        let e = match DatabaseConnectionFactory::create_connection(tag, &c) {
            Err(e) => e,
            Ok(_) => panic!("tag accepted"),
        };
        assert_eq!(e.kind(), ErrorKind::Database);
        assert_eq!(e.message(), format!("Unsupported database type: {}", tag));
        assert!(e.message().contains(tag));
    }
}

#[test]
fn factory_builds_the_named_kind() {
    let c = db_config("h", 1, "u", "p", &["a"]);
    let b = DatabaseConnectionFactory::create_connection("postgres", &c).unwrap();
    assert_eq!(b.kind(), BackendKind::Postgres);
    let b = DatabaseConnectionFactory::create_connection("mongodb", &c).unwrap();
    assert_eq!(b.kind(), BackendKind::MongoDB);
}

#[test]
fn estimates_apply_each_kinds_overhead() {
    let c = db_config("h", 1, "u", "p", &["a"]);
    let sizes = vec![Some(100), None, Some(900)];
    assert_eq!(SQLiteDatabase::new(&c).estimate_backup_size(&sizes), 1000);
    assert_eq!(MySQLDatabase::new(&c).estimate_backup_size(&sizes), 1200);
    assert_eq!(PostgreSQLDatabase::new(&c).estimate_backup_size(&sizes), 1150);
    assert_eq!(MongoDatabase::new(&c).estimate_backup_size(&sizes), 1250);
    let odd = vec![Some(7)];
    assert_eq!(PostgreSQLDatabase::new(&c).estimate_backup_size(&odd), 8);
    assert_eq!(MySQLDatabase::new(&c).estimate_backup_size(&odd), 8);
    assert_eq!(MongoDatabase::new(&c).estimate_backup_size(&odd), 8);
    assert_eq!(SQLiteDatabase::new(&c).estimate_backup_size(&vec![]), 0);
}

#[test]
fn estimates_saturate_at_the_largest_value() {
    let c = db_config("h", 1, "u", "p", &["a"]);
    let big = vec![Some(u64::MAX), Some(5)];
    assert_eq!(SQLiteDatabase::new(&c).estimate_backup_size(&big), u64::MAX);
    let near = vec![Some(u64::MAX / 10 * 9)];
    assert_eq!(MySQLDatabase::new(&c).estimate_backup_size(&near), u64::MAX);
    assert_eq!(SQLiteDatabase::new(&c).estimate_backup_size(&near), u64::MAX / 10 * 9);
}

#[test]
fn run_without_backends_is_a_config_error() {
    let cfg = run_config(no_databases());
    let p = BackupPerformer::new(&cfg, "/tmp/out");
    let e = p.plan().unwrap_err();
    assert_eq!(e.kind(), ErrorKind::Config);
    assert_eq!(e.message(), "No database configurations found");
}

#[test]
fn run_drives_configured_kinds_in_order() {
    let mut d = no_databases();
    d.mongodb = Some(db_config("h", 1, "u", "p", &["a"]));
    d.sqlite = Some(db_config("/data", 0, "", "", &["a.db", "b.db"]));
    d.postgres = Some(db_config("h", 2, "u", "p", &["b"]));
    let cfg = run_config(d);
    let p = BackupPerformer::new(&cfg, "/tmp/out");
    assert_eq!(p.plan().unwrap(), vec![BackendKind::SQLite, BackendKind::Postgres, BackendKind::MongoDB]);
    assert!(p.connect(BackendKind::MySQL).is_none());
    let b = p.connect(BackendKind::SQLite).unwrap();
    assert_eq!(b.database_type(), "sqlite");
    assert_eq!(p.config_for(BackendKind::Postgres).unwrap().port, 2);
    assert_eq!(p.backup_path(), "/tmp/out");
}

#[test]
fn embedded_store_artifacts_are_named_after_their_files() {
    assert_eq!(SQLiteDatabase::backup_file_name("a.db"), "a.db.bak");
    assert_eq!(SQLiteDatabase::backup_file_name("b.db"), "b.db.bak");
    assert_eq!(MySQLDatabase::dump_file_name("shop"), "shop.sql");
    assert_eq!(PostgreSQLDatabase::dump_file_name("shop"), "shop.dump");
}

#[test]
fn failed_dump_is_a_database_error_carrying_stderr() {
    let out = ToolOutcome::Exited {
        success: false,
        stdout: "partial".to_string(),
        stderr: "access denied for user".to_string(),
    };
    let e = MySQLDatabase::read_dump_outcome(out).unwrap_err();
    assert_eq!(e.kind(), ErrorKind::Database);
    assert_eq!(e.message(), "mysqldump failed: access denied for user");
    let out = ToolOutcome::Exited { success: false, stdout: String::new(), stderr: "no such db".to_string() };
    let e = PostgreSQLDatabase::read_dump_outcome(out).unwrap_err();
    assert!(e.message().contains("no such db"));
    let out = ToolOutcome::Exited { success: false, stdout: String::new(), stderr: "boom".to_string() };
    let e = MongoDatabase::read_dump_outcome(out).unwrap_err();
    assert_eq!(e.message(), "mongodump failed: boom");
    let out = ToolOutcome::LaunchFailed("not found".to_string());
    let e = PostgreSQLDatabase::read_client_outcome(out).unwrap_err();
    assert_eq!(e.message(), "Failed to execute psql command: not found");
    let out = ToolOutcome::Exited { success: false, stdout: String::new(), stderr: "x".to_string() };
    let e = MySQLDatabase::read_client_outcome(out).unwrap_err();
    assert_eq!(e.message(), "MySQL command failed: x");
}

#[test]
fn successful_run_yields_its_stdout() {
    let out = ToolOutcome::Exited { success: true, stdout: "1\n".to_string(), stderr: "warn".to_string() };
    assert_eq!(MongoDatabase::read_shell_outcome(out).unwrap(), "1\n");
}

#[test]
fn mysql_invocations() {
    let c = db_config("db.local", 3306, "root", "pw", &["shop"]);
    let m = MySQLDatabase::new(&c);
    assert_eq!(m.get_connection_args(), strings(&["--host=db.local", "--port=3306", "--user=root", "--password=pw"]));
    let p = m.probe_invocation();
    assert_eq!(p.program, "mysql");
    assert_eq!(p.args.last().unwrap(), "--execute=SELECT 1");
    assert!(p.env.is_empty());
    let d = m.dump_invocation("shop");
    assert_eq!(d.program, "mysqldump");
    assert_eq!(
        d.args,
        strings(&[
            "--host=db.local", "--port=3306", "--user=root", "--password=pw",
            "--single-transaction", "--routines", "--triggers", "--events",
            "--add-drop-database", "--create-options", "shop",
        ])
    );
    let s = m.size_estimate_invocation("shop");
    assert_eq!(
        s.args.last().unwrap(),
        "--execute=SELECT COALESCE(SUM(data_length + index_length), 0) FROM information_schema.tables WHERE table_schema='shop'"
    );
    let s = m.size_listing_invocation("shop");
    assert!(s.args.last().unwrap().ends_with("WHERE table_schema='shop'"));
    assert_eq!(m.version_invocation().args.last().unwrap(), "--execute=SELECT VERSION()");
}

#[test]
fn postgres_invocations_keep_the_password_out_of_arguments() {
    let c = db_config("pg", 5432, "admin", "s3cret", &["app"]);
    let p = PostgreSQLDatabase::new(&c);
    assert_eq!(p.get_connection_string(), "postgresql://admin:s3cret@pg:5432/");
    let d = p.dump_invocation("app", "/out/app.dump");
    assert_eq!(d.program, "pg_dump");
    assert_eq!(
        d.args,
        strings(&[
            "--host=pg", "--port=5432", "--username=admin", "--dbname=app", "--no-password",
            "--verbose", "--clean", "--create", "--if-exists", "--format=custom", "--file=/out/app.dump",
        ])
    );
    assert!(d.args.iter().all(|a| !a.contains("s3cret")));
    assert_eq!(d.env, vec![("PGPASSWORD".to_string(), "s3cret".to_string())]);
    let q = p.probe_invocation();
    assert_eq!(q.program, "psql");
    assert_eq!(
        q.args,
        strings(&[
            "--host=pg", "--port=5432", "--username=admin", "--dbname=postgres", "--no-password",
            "--tuples-only", "--no-align", "--command=SELECT 1;",
        ])
    );
    assert_eq!(p.size_invocation("app").args.last().unwrap(), "--command=SELECT pg_database_size(current_database());");
    assert_eq!(p.version_invocation("app").args.last().unwrap(), "--command=SELECT version();");
}

#[test]
fn mongo_invocations() {
    let c = db_config("mongo", 27017, "admin", "pw", &["app"]);
    let m = MongoDatabase::new(&c);
    assert_eq!(m.get_connection_string(), "mongodb://admin:pw@mongo:27017/");
    assert_eq!(
        m.get_connection_args(),
        strings(&["--host=mongo:27017", "--username=admin", "--password=pw", "--authenticationDatabase=admin"])
    );
    let p = m.probe_invocation();
    assert_eq!(p.program, "mongo");
    assert_eq!(&p.args[4..], &strings(&["admin", "--quiet", "--eval", "db.runCommand('ping')"])[..]);
    let d = m.dump_invocation("app", "/out");
    assert_eq!(d.program, "mongodump");
    assert_eq!(&d.args[4..], &strings(&["--db=app", "--out=/out", "--gzip"])[..]);
    assert_eq!(m.stats_invocation("app").args.last().unwrap(), "JSON.stringify(db.stats())");
    assert_eq!(m.version_invocation("app").args.last().unwrap(), "JSON.stringify(db.version())");
}

#[test]
fn postgres_reads_size_and_version() {
    let ok = |s: &str| -> Result<String, Error> { Ok(s.to_string()) };
    assert_eq!(PostgreSQLDatabase::size_from(&ok("  8123456\n")), Some(8123456));
    assert_eq!(PostgreSQLDatabase::size_from(&ok("n/a")), None);
    assert_eq!(PostgreSQLDatabase::size_from(&Err(Error::Database("x".to_string()))), None);
    assert_eq!(
        PostgreSQLDatabase::version_from(&ok(" PostgreSQL 16.2 on x86_64 \nsecond\n")),
        Some("PostgreSQL 16.2 on x86_64".to_string())
    );
    assert_eq!(PostgreSQLDatabase::version_from(&ok("")), None);
}

#[test]
fn mysql_reads_the_row_after_the_header() {
    let ok = |s: &str| -> Result<String, Error> { Ok(s.to_string()) };
    assert_eq!(MySQLDatabase::size_from_estimate(&ok("COALESCE(...)\n52428800\n")), Some(52428800));
    assert_eq!(MySQLDatabase::size_from_estimate(&ok("header only\n")), None);
    assert_eq!(MySQLDatabase::version_from(&ok("VERSION()\r\n8.0.36\r\n")), Some("8.0.36".to_string()));
    assert_eq!(MySQLDatabase::result_row("DB Size in MB\n12.5"), Some("12.5".to_string()));
}

#[test]
fn mongo_reads_stats_and_version() {
    let ok = |s: &str| -> Result<String, Error> { Ok(s.to_string()) };
    assert_eq!(MongoDatabase::size_from(&ok("{\"db\":\"app\",\"dataSize\":4096,\"ok\":1}")), Some(4096));
    assert_eq!(MongoDatabase::size_from(&ok("{\"dataSize\":-3}")), None);
    assert_eq!(MongoDatabase::size_from(&ok("not json")), None);
    assert_eq!(MongoDatabase::version_from(&ok("\"7.0.5\"\n")), Some("7.0.5".to_string()));
    assert_eq!(MongoDatabase::version_from(&Err(Error::Database("x".to_string()))), None);
}

#[test]
fn connectivity_results() {
    assert!(BackupPerformer::check_status(&ConnectionStatus::Connected, "mysql").is_ok());
    let e = BackupPerformer::check_status(&ConnectionStatus::Error("refused".to_string()), "mysql").unwrap_err();
    assert_eq!(e.kind(), ErrorKind::Database);
    assert_eq!(e.message(), "Failed to connect to mysql database: refused");
    let e = BackupPerformer::check_status(&ConnectionStatus::Disconnected, "postgres").unwrap_err();
    assert_eq!(e.message(), "postgres database is disconnected");
    assert_eq!(BackupPerformer::size_label(Some(2048)), "2048 bytes");
    assert_eq!(BackupPerformer::size_label(None), "unknown size");
}

#[test]
fn error_display_texts() {
    assert_eq!(Error::Config("bad".to_string()).to_string(), "Configuration error: bad");
    assert_eq!(Error::Database("down".to_string()).to_string(), "Database error: down");
    assert_eq!(Error::Io("disk".to_string()).to_string(), "I/O error: disk");
    assert_eq!(Error::Storage("s".to_string()).to_string(), "Storage error: s");
    assert_eq!(Error::Backup("b".to_string()).to_string(), "Backup error: b");
    assert_eq!(Error::Restore("r".to_string()).to_string(), "Restore error: r");
}

#[test]
fn run_identifiers_and_archive_names() {
    let t = RunStamp { year: 2024, month: 3, day: 7, hour: 4, minute: 5, second: 9 };
    assert_eq!(t.backup_id(), "backup-20240307T040509");
    let t = RunStamp { year: 987, month: 12, day: 31, hour: 23, minute: 59, second: 59 };
    assert_eq!(t.backup_id(), "backup-09871231T235959");
    assert_eq!(LocalStorage::archive_name("backup-1"), "backup-1.tar.gz");
    assert_eq!(LocalStorage::new("/srv/b").base_path(), "/srv/b");
    let cfg = run_config(no_databases());
    assert_eq!(cfg.storage.base_path(), "/backups");
}

#[test]
fn run_state_drives_each_backend_through_its_phases() {
    let mut d = no_databases();
    d.mysql = Some(db_config("h", 1, "u", "p", &["a"]));
    d.sqlite = Some(db_config("/data", 0, "", "", &["a.db", "b.db"]));
    let cfg = run_config(d);
    let p = BackupPerformer::new(&cfg, "/tmp/out");
    let mut s = RunState::start(&p).unwrap();
    assert_eq!(s.next_action(), Action::Probe(BackendKind::SQLite));
    assert!(!s.accepts(&Event::Listed));
    assert!(s.advance(Event::Probed(ConnectionStatus::Connected)).is_ok());
    assert_eq!(s.next_action(), Action::List(BackendKind::SQLite));
    assert!(s.advance(Event::Listed).is_ok());
    assert_eq!(s.next_action(), Action::Estimate(BackendKind::SQLite));
    assert!(s.advance(Event::Estimated).is_ok());
    assert_eq!(s.next_action(), Action::Backup(BackendKind::SQLite));
    assert!(s.advance(Event::BackedUp(Ok(()))).is_ok());
    assert_eq!(s.next_action(), Action::Probe(BackendKind::MySQL));
    s.advance(Event::Probed(ConnectionStatus::Connected)).unwrap();
    s.advance(Event::Listed).unwrap();
    s.advance(Event::Estimated).unwrap();
    s.advance(Event::BackedUp(Ok(()))).unwrap();
    assert_eq!(s.next_action(), Action::Done);
}

#[test]
fn run_state_stops_on_a_failed_probe_or_backup() {
    let mut d = no_databases();
    d.postgres = Some(db_config("h", 1, "u", "p", &["a"]));
    let cfg = run_config(d);
    let p = BackupPerformer::new(&cfg, "/tmp/out");
    let mut s = RunState::start(&p).unwrap();
    let e = s.advance(Event::Probed(ConnectionStatus::Error("timeout".to_string()))).unwrap_err();
    assert_eq!(e.kind(), ErrorKind::Database);
    assert_eq!(e.message(), "Failed to connect to postgres database: timeout");

    let mut s = RunState::start(&p).unwrap();
    s.advance(Event::Probed(ConnectionStatus::Connected)).unwrap();
    s.advance(Event::Listed).unwrap();
    s.advance(Event::Estimated).unwrap();
    let e = s.advance(Event::BackedUp(Err(Error::Database("pg_dump failed: disk full".to_string())))).unwrap_err();
    assert_eq!(e.message(), "pg_dump failed: disk full");

    let empty = run_config(no_databases());
    let p = BackupPerformer::new(&empty, "/tmp/out");
    assert_eq!(RunState::start(&p).err().unwrap().kind(), ErrorKind::Config);
}

#[test]
fn sqlite_validation_looks_at_the_disk() {
    let c = db_config("/definitely/not/a/dir/kronos", 0, "", "", &["a.db"]);
    let e = SQLiteDatabase::new(&c).validate_config(&c).unwrap_err();
    assert_eq!(e.kind(), ErrorKind::Config);
    assert_eq!(e.message(), "SQLite host directory does not exist: /definitely/not/a/dir/kronos");
    let c = db_config("/", 0, "", "", &["tmp", "no-such-file-kronos.db"]);
    let e = SQLiteDatabase::new(&c).validate_config(&c).unwrap_err();
    assert_eq!(e.message(), "SQLite database file does not exist: //no-such-file-kronos.db");
    let c = db_config("/", 0, "", "", &["tmp"]);
    assert!(SQLiteDatabase::new(&c).validate_config(&c).is_ok());
    let b = DatabaseConnectionFactory::create_connection("sqlite", &c).unwrap();
    assert!(b.validate_config(&c).is_ok());
}

#[test]
fn probe_results_become_statuses() {
    match ConnectionStatus::from_probe(Ok("1".to_string())) {
        ConnectionStatus::Connected => {}
        other => panic!("{:?}", other),
    }
    match ConnectionStatus::from_probe(Err(Error::Database("psql command failed: refused".to_string()))) {
        ConnectionStatus::Error(m) => assert_eq!(m, "Database error: psql command failed: refused"),
        other => panic!("{:?}", other),
    }
    let opened = vec![Ok(()), Err(Error::Database("Failed to open SQLite database: bad".to_string())), Err(Error::Io("x".to_string()))];
    match SQLiteDatabase::probe_status(&opened) {
        ConnectionStatus::Error(m) => assert_eq!(m, "Database error: Failed to open SQLite database: bad"),
        other => panic!("{:?}", other),
    }
    match SQLiteDatabase::probe_status(&vec![Ok(()), Ok(())]) {
        ConnectionStatus::Connected => {}
        other => panic!("{:?}", other),
    }
}

#[test]
fn listing_entries_keep_what_was_obtained() {
    let failed: Result<String, Error> = Err(Error::Database("psql command failed: x".to_string()));
    let e = PostgreSQLDatabase::info_from("app", &failed, &Ok(" PostgreSQL 16 \n".to_string()));
    assert_eq!(e.name, "app");
    assert_eq!(e.size, None);
    assert_eq!(e.schema_version, Some("PostgreSQL 16".to_string()));
    let e = MongoDatabase::info_from("m", &Ok("{\"dataSize\":10}".to_string()), &failed);
    assert_eq!(e.size, Some(10));
    assert_eq!(e.schema_version, None);
    let e = MySQLDatabase::info_from("s", Some(5), &Ok("VERSION()\n8.0\n".to_string()));
    assert_eq!((e.name.as_str(), e.size, e.schema_version.as_deref()), ("s", Some(5), Some("8.0")));
    let e = SQLiteDatabase::info_for("a.db", false, Some(1), Some("3.45".to_string()));
    assert_eq!((e.size, e.schema_version), (None, None));
    let e = SQLiteDatabase::info_for("a.db", true, Some(1), Some("3.45".to_string()));
    assert_eq!((e.size, e.schema_version.as_deref()), (Some(1), Some("3.45")));
}

#[test]
fn failed_step_leaves_the_run_where_it_was() {
    let mut d = no_databases();
    d.mysql = Some(db_config("h", 1, "u", "p", &["a"]));
    let cfg = run_config(d);
    let p = BackupPerformer::new(&cfg, "/tmp/out");
    let mut s = RunState::start(&p).unwrap();
    assert!(s.advance(Event::Probed(ConnectionStatus::Disconnected)).is_err());
    assert_eq!(s.next_action(), Action::Probe(BackendKind::MySQL));
}
