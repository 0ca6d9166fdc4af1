//! The error taxonomy shared by every backend and by the orchestrator.
use vstd::prelude::*;
use vstd::string::*;

verus! {

/// The category of an [`Error`], without its message.
#[derive(Debug, Clone, Copy, PartialEq, Eq, Structural)]
pub enum ErrorKind {
    Config,
    Database,
    Storage,
    Backup,
    Restore,
    Io,
}

/// A failure of the backup engine, with a human-readable message.
#[derive(Debug, Clone)]
pub enum Error {
    /// Bad, missing or malformed configuration.
    Config(String),
    /// Connectivity, query or dump-tool failure.
    Database(String),
    /// Failure to place an artifact into its storage sink.
    Storage(String),
    /// Failure to create an archive of a completed backup.
    Backup(String),
    /// Reserved for restore operations.
    Restore(String),
    /// Underlying filesystem or process failure.
    Io(String),
}

impl Error {
    pub open spec fn spec_kind(&self) -> ErrorKind {
        match self {
            Error::Config(_) => ErrorKind::Config,
            Error::Database(_) => ErrorKind::Database,
            Error::Storage(_) => ErrorKind::Storage,
            Error::Backup(_) => ErrorKind::Backup,
            Error::Restore(_) => ErrorKind::Restore,
            Error::Io(_) => ErrorKind::Io,
        }
    }

    /// The message carried by the error.
    pub open spec fn text(&self) -> Seq<char> {
        match self {
            Error::Config(m) => m@,
            Error::Database(m) => m@,
            Error::Storage(m) => m@,
            Error::Backup(m) => m@,
            Error::Restore(m) => m@,
            Error::Io(m) => m@,
        }
    }

    /// The display form: a prefix naming the category, then the message.
    pub open spec fn display(&self) -> Seq<char> {
        kind_prefix(self.spec_kind()) + self.text()
    }

    pub fn kind(&self) -> (r: ErrorKind)
        ensures
            r == self.spec_kind(),
    {
        match self {
            Error::Config(_) => ErrorKind::Config,
            Error::Database(_) => ErrorKind::Database,
            Error::Storage(_) => ErrorKind::Storage,
            Error::Backup(_) => ErrorKind::Backup,
            Error::Restore(_) => ErrorKind::Restore,
            Error::Io(_) => ErrorKind::Io,
        }
    }

    pub fn message(&self) -> (r: &str)
        ensures
            r@ == self.text(),
    {
        match self {
            Error::Config(m) => m.as_str(),
            Error::Database(m) => m.as_str(),
            Error::Storage(m) => m.as_str(),
            Error::Backup(m) => m.as_str(),
            Error::Restore(m) => m.as_str(),
            Error::Io(m) => m.as_str(),
        }
    }

    /// The text shown to a user when a run fails.
    pub fn to_string(&self) -> (r: String)
        ensures
            r@ == self.display(),
    {
        let mut r = String::from_str(kind_prefix_str(self.kind()));
        r.append(self.message());
        r
    }
}

pub open spec fn kind_prefix(k: ErrorKind) -> Seq<char> {
    match k {
        ErrorKind::Config => "Configuration error: "@,
        ErrorKind::Database => "Database error: "@,
        ErrorKind::Storage => "Storage error: "@,
        ErrorKind::Backup => "Backup error: "@,
        ErrorKind::Restore => "Restore error: "@,
        ErrorKind::Io => "I/O error: "@,
    }
}

fn kind_prefix_str(k: ErrorKind) -> (r: &'static str)
    ensures
        r@ == kind_prefix(k),
{
    match k {
        ErrorKind::Config => "Configuration error: ",
        ErrorKind::Database => "Database error: ",
        ErrorKind::Storage => "Storage error: ",
        ErrorKind::Backup => "Backup error: ",
        ErrorKind::Restore => "Restore error: ",
        ErrorKind::Io => "I/O error: ",
    }
}

/// `r` failed with an error of kind `k` whose message is `msg`.
pub open spec fn fails_with<T>(r: Result<T, Error>, k: ErrorKind, msg: Seq<char>) -> bool {
    match r {
        Ok(_) => false,
        Err(e) => e.spec_kind() == k && e.text() == msg,
    }
}

} // verus!
