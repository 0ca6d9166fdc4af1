//! Local placement of archived runs.
use vstd::prelude::*;
use vstd::string::*;
use crate::text::cat;

verus! {

/// A storage sink on the local filesystem.
pub struct LocalStorage {
    base_path: String,
}

impl LocalStorage {
    pub closed spec fn spec_base_path(&self) -> Seq<char> {
        self.base_path@
    }

    pub fn new(base_path: &str) -> (r: Self)
        ensures
            r.spec_base_path() == base_path@,
    {
        LocalStorage { base_path: String::from_str(base_path) }
    }

    /// The directory that receives archives.
    pub fn base_path(&self) -> (r: &str)
        ensures
            r@ == self.spec_base_path(),
    {
        self.base_path.as_str()
    }

    /// The archive of run `backup_id`: `<backup_id>.tar.gz`.
    pub fn archive_name(backup_id: &str) -> (r: String)
        ensures
            r@ == backup_id@ + ".tar.gz"@,
    {
        cat(backup_id, ".tar.gz")
    }
}

} // verus!
