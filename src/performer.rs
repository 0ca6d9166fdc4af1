//! The orchestrator's decisions: which backends a run drives and in which
//! order, and how a connectivity result turns into success or failure.
use vstd::prelude::*;
use vstd::string::*;
use crate::config::{Config, DatabaseConfig, Databases};
use crate::connection::{Backend, BackendKind, ConnectionStatus, DatabaseConnection, DatabaseConnectionFactory, kind_tag, tag_of};
use crate::error::{Error, ErrorKind, fails_with};
use crate::text::{cat, decimal, decimal_text};

verus! {

/// Drives every configured backend of a run into one destination directory.
pub struct BackupPerformer<'a> {
    config: &'a Config,
    backup_path: &'a str,
}

/// The configuration of kind `k`, if the run has one.
pub open spec fn config_of(d: Databases, k: BackendKind) -> Option<DatabaseConfig> {
    match k {
        BackendKind::SQLite => d.sqlite,
        BackendKind::MySQL => d.mysql,
        BackendKind::Postgres => d.postgres,
        BackendKind::MongoDB => d.mongodb,
    }
}

pub open spec fn if_configured(d: Databases, k: BackendKind) -> Seq<BackendKind> {
    if config_of(d, k) is Some { seq![k] } else { seq![] }
}

/// The kinds a run drives, in order: the embedded store, relational server A,
/// relational server B, then the document store, each only if configured.
pub open spec fn configured_kinds(d: Databases) -> Seq<BackendKind> {
    if_configured(d, BackendKind::SQLite) + if_configured(d, BackendKind::MySQL)
        + if_configured(d, BackendKind::Postgres) + if_configured(d, BackendKind::MongoDB)
}

pub open spec fn no_backend_message() -> Seq<char> {
    "No database configurations found"@
}

/// What a connectivity result means for backend `db_type`: success when
/// connected, else a Database error naming the backend.
pub open spec fn status_problem(status: ConnectionStatus, db_type: Seq<char>) -> Option<Seq<char>> {
    match status {
        ConnectionStatus::Connected => None,
        ConnectionStatus::Error(e) => Some("Failed to connect to "@ + db_type + " database: "@ + e@),
        ConnectionStatus::Disconnected => Some(db_type + " database is disconnected"@),
    }
}

/// How a database's size is shown in progress lines.
pub open spec fn size_text(size: Option<u64>) -> Seq<char> {
    match size {
        Some(n) => decimal(n as nat) + " bytes"@,
        None => "unknown size"@,
    }
}

impl<'a> BackupPerformer<'a> {
    pub closed spec fn spec_config(&self) -> Config {
        *self.config
    }

    pub closed spec fn spec_backup_path(&self) -> Seq<char> {
        self.backup_path@
    }

    pub fn new(config: &'a Config, backup_path: &'a str) -> (r: Self)
        ensures
            r.spec_config() == *config,
            r.spec_backup_path() == backup_path@,
    {
        BackupPerformer { config, backup_path }
    }

    /// The shared destination directory of the run.
    pub fn backup_path(&self) -> (r: &'a str)
        ensures
            r@ == self.spec_backup_path(),
    {
        self.backup_path
    }

    /// The kinds to drive, in order; a run with none configured is a Config
    /// error, found before anything is touched.
    pub fn plan(&self) -> (r: Result<Vec<BackendKind>, Error>)
        ensures
            configured_kinds(self.spec_config().databases).len() == 0
                ==> fails_with(r, ErrorKind::Config, no_backend_message()),
            configured_kinds(self.spec_config().databases).len() > 0
                ==> (r matches Ok(v) && v@ == configured_kinds(self.spec_config().databases)),
    {
        let d = &self.config.databases;
        let mut v: Vec<BackendKind> = Vec::new();
        if d.sqlite.is_some() {
            v.push(BackendKind::SQLite);
        }
        if d.mysql.is_some() {
            v.push(BackendKind::MySQL);
        }
        if d.postgres.is_some() {
            v.push(BackendKind::Postgres);
        }
        if d.mongodb.is_some() {
            v.push(BackendKind::MongoDB);
        }
        assert(v@ =~= configured_kinds(self.spec_config().databases));
        if v.len() == 0 {
            return Err(Error::Config(String::from_str("No database configurations found")));
        }
        Ok(v)
    }

    /// The configuration of kind `k`, if the run has one.
    pub fn config_for(&self, k: BackendKind) -> (r: Option<&'a DatabaseConfig>)
        ensures
            match (r, config_of(self.spec_config().databases, k)) {
                (Some(c), Some(s)) => *c == s,
                (None, None) => true,
                _ => false,
            },
    {
        let d = &self.config.databases;
        match k {
            BackendKind::SQLite => d.sqlite.as_ref(),
            BackendKind::MySQL => d.mysql.as_ref(),
            BackendKind::Postgres => d.postgres.as_ref(),
            BackendKind::MongoDB => d.mongodb.as_ref(),
        }
    }

    /// Builds the backend of kind `k` through the factory, when configured.
    pub fn connect(&self, k: BackendKind) -> (r: Option<Backend<'a>>)
        ensures
            match (r, config_of(self.spec_config().databases, k)) {
                (Some(b), Some(c)) => b.backend_kind() == k && b.spec_config() == c,
                (None, None) => true,
                _ => false,
            },
    {
        match self.config_for(k) {
            Some(c) => {
                proof {
                    crate::connection::supported_tags_are_recognised(k);
                }
                match DatabaseConnectionFactory::create_connection(tag_of(k), c) {
                    Ok(b) => Some(b),
                    Err(_) => None,
                }
            },
            None => None,
        }
    }

    /// Turns a connectivity result into success, or into the Database error
    /// that stops backend `db_type`.
    pub fn check_status(status: &ConnectionStatus, db_type: &str) -> (r: Result<(), Error>)
        ensures
            match status_problem(*status, db_type@) {
                None => r is Ok,
                Some(m) => fails_with(r, ErrorKind::Database, m),
            },
    {
        match status {
            ConnectionStatus::Connected => Ok(()),
            ConnectionStatus::Error(e) => {
                let mut m = cat("Failed to connect to ", db_type);
                m.append(" database: ");
                m.append(e.as_str());
                Err(Error::Database(m))
            },
            ConnectionStatus::Disconnected => Err(Error::Database(cat(db_type, " database is disconnected"))),
        }
    }

    /// How a database's size is shown: `<n> bytes`, or `unknown size`.
    pub fn size_label(size: Option<u64>) -> (r: String)
        ensures
            r@ == size_text(size),
    {
        match size {
            Some(n) => {
                let mut s = decimal_text(n);
                s.append(" bytes");
                s
            },
            None => String::from_str("unknown size"),
        }
    }
}

/// A run drives each configured kind exactly once, and fails for want of
/// backends exactly when none is configured.
pub proof fn plan_covers_configured_kinds(d: Databases, k: BackendKind)
    ensures
        configured_kinds(d).contains(k) <==> config_of(d, k) is Some,
        configured_kinds(d).len() == 0 <==> (d.sqlite is None && d.mysql is None && d.postgres is None && d.mongodb is None),
{
    let s = configured_kinds(d);
    if config_of(d, k) is Some {
        let i: int = match k {
            BackendKind::SQLite => 0,
            BackendKind::MySQL => if_configured(d, BackendKind::SQLite).len() as int,
            BackendKind::Postgres => (if_configured(d, BackendKind::SQLite).len() + if_configured(d, BackendKind::MySQL).len()) as int,
            BackendKind::MongoDB => (if_configured(d, BackendKind::SQLite).len() + if_configured(d, BackendKind::MySQL).len()
                + if_configured(d, BackendKind::Postgres).len()) as int,
        };
        assert(s[i] == k);
    }
}

/// Where a run stands within the backend it is driving.
#[derive(Debug, Clone, Copy, PartialEq, Eq, Structural)]
pub enum Phase {
    Probe,
    List,
    Estimate,
    Copy,
}

/// What the run asks to be done next.
#[derive(Debug, Clone, Copy, PartialEq, Eq, Structural)]
pub enum Action {
    /// Probe the connectivity of this backend.
    Probe(BackendKind),
    /// List its databases.
    List(BackendKind),
    /// Estimate the size of its artifacts.
    Estimate(BackendKind),
    /// Back it up into the shared destination directory.
    Backup(BackendKind),
    /// Every configured backend has been backed up.
    Done,
}

/// What came of an [`Action`].
#[derive(Debug)]
pub enum Event {
    Probed(ConnectionStatus),
    Listed,
    Estimated,
    BackedUp(Result<(), Error>),
}

/// The progress of a run: the kinds it drives, the one it is at, and the
/// phase of that one. Backends are driven strictly one after the other.
pub struct RunState {
    kinds: Vec<BackendKind>,
    index: usize,
    phase: Phase,
}

pub open spec fn action_for(kinds: Seq<BackendKind>, index: nat, phase: Phase) -> Action {
    if index >= kinds.len() {
        Action::Done
    } else {
        match phase {
            Phase::Probe => Action::Probe(kinds[index as int]),
            Phase::List => Action::List(kinds[index as int]),
            Phase::Estimate => Action::Estimate(kinds[index as int]),
            Phase::Copy => Action::Backup(kinds[index as int]),
        }
    }
}

/// Whether `e` answers `a`.
pub open spec fn answers(a: Action, e: Event) -> bool {
    match (a, e) {
        (Action::Probe(_), Event::Probed(_)) => true,
        (Action::List(_), Event::Listed) => true,
        (Action::Estimate(_), Event::Estimated) => true,
        (Action::Backup(_), Event::BackedUp(_)) => true,
        _ => false,
    }
}

impl RunState {
    pub closed spec fn spec_kinds(&self) -> Seq<BackendKind> {
        self.kinds@
    }

    pub closed spec fn spec_index(&self) -> nat {
        self.index as nat
    }

    pub closed spec fn spec_phase(&self) -> Phase {
        self.phase
    }

    pub open spec fn wf(&self) -> bool {
        self.spec_index() <= self.spec_kinds().len()
    }

    /// The next action of the run.
    pub open spec fn spec_action(&self) -> Action {
        action_for(self.spec_kinds(), self.spec_index(), self.spec_phase())
    }

    /// Starts a run over the kinds the configuration holds; none is a Config
    /// error, before any action.
    pub fn start(performer: &BackupPerformer) -> (r: Result<RunState, Error>)
        ensures
            configured_kinds(performer.spec_config().databases).len() == 0
                ==> fails_with(r, ErrorKind::Config, no_backend_message()),
            configured_kinds(performer.spec_config().databases).len() > 0 ==> (r matches Ok(s) && s.wf()
                && s.spec_kinds() == configured_kinds(performer.spec_config().databases)
                && s.spec_index() == 0 && s.spec_phase() == Phase::Probe),
    {
        match performer.plan() {
            Ok(kinds) => Ok(RunState { kinds, index: 0, phase: Phase::Probe }),
            Err(e) => Err(e),
        }
    }

    /// The next action of the run.
    pub fn next_action(&self) -> (r: Action)
        requires
            self.wf(),
        ensures
            r == self.spec_action(),
    {
        if self.index >= self.kinds.len() {
            Action::Done
        } else {
            let k = self.kinds[self.index];
            match self.phase {
                Phase::Probe => Action::Probe(k),
                Phase::List => Action::List(k),
                Phase::Estimate => Action::Estimate(k),
                Phase::Copy => Action::Backup(k),
            }
        }
    }

    /// Whether `event` answers the next action.
    pub fn accepts(&self, event: &Event) -> (r: bool)
        requires
            self.wf(),
        ensures
            r == answers(self.spec_action(), *event),
    {
        match (self.next_action(), event) {
            (Action::Probe(_), Event::Probed(_)) => true,
            (Action::List(_), Event::Listed) => true,
            (Action::Estimate(_), Event::Estimated) => true,
            (Action::Backup(_), Event::BackedUp(_)) => true,
            _ => false,
        }
    }

    /// Moves the run on by what came of its next action. A probe that did not
    /// connect, or a failed backup, ends the run with that failure; listing
    /// and estimation never do. After a backup the run goes on to the next
    /// kind, from its probe.
    pub fn advance(&mut self, event: Event) -> (r: Result<(), Error>)
        requires
            old(self).wf(),
            answers(old(self).spec_action(), event),
        ensures
            final(self).wf(),
            final(self).spec_kinds() == old(self).spec_kinds(),
            match event {
                Event::Probed(status) => match status_problem(status, kind_tag(old(self).spec_kinds()[old(self).spec_index() as int])) {
                    None => r is Ok && final(self).spec_index() == old(self).spec_index()
                        && final(self).spec_phase() == Phase::List,
                    Some(m) => fails_with(r, ErrorKind::Database, m)
                        && final(self).spec_index() == old(self).spec_index()
                        && final(self).spec_phase() == old(self).spec_phase(),
                },
                Event::Listed => r is Ok && final(self).spec_index() == old(self).spec_index()
                    && final(self).spec_phase() == Phase::Estimate,
                Event::Estimated => r is Ok && final(self).spec_index() == old(self).spec_index()
                    && final(self).spec_phase() == Phase::Copy,
                Event::BackedUp(res) => match res {
                    Ok(_) => r is Ok && final(self).spec_index() == old(self).spec_index() + 1
                        && final(self).spec_phase() == Phase::Probe,
                    Err(e) => r == Err::<(), Error>(e)
                        && final(self).spec_index() == old(self).spec_index()
                        && final(self).spec_phase() == old(self).spec_phase(),
                },
            },
    {
        match event {
            Event::Probed(status) => {
                let k = self.kinds[self.index];
                let checked = BackupPerformer::check_status(&status, tag_of(k));
                if checked.is_ok() {
                    self.phase = Phase::List;
                }
                checked
            },
            Event::Listed => {
                self.phase = Phase::Estimate;
                Ok(())
            },
            Event::Estimated => {
                self.phase = Phase::Copy;
                Ok(())
            },
            Event::BackedUp(res) => match res {
                Ok(()) => {
                    let n = self.kinds.len();
                    assert(self.index < n);
                    self.index = self.index + 1;
                    self.phase = Phase::Probe;
                    Ok(())
                },
                Err(e) => Err(e),
            },
        }
    }
}

} // verus!
