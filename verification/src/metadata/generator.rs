//! The metadata record of a backup and the place it is written to.

use vstd::prelude::*;
use vstd::string::*;

use crate::clock::Timestamp;
use crate::text::{join_path, join_path_text};

verus! {

/// The persisted description of one backup.
#[derive(Debug, Clone, PartialEq, Eq)]
pub struct BackupMeta {
    pub snapshot_name: String,
    /// Where the data came from on the remote host.
    pub remote_path: String,
    pub local_path: String,
    pub size_bytes: u64,
    /// SHA-256 in lower-case hex.
    pub sha256: String,
    pub timestamp: Timestamp,
    /// The filesystems that an archive holds; empty for a disk snapshot.
    pub filesystems: Vec<String>,
}

/// Decides where a metadata record goes.
pub struct JsonWriter;

impl JsonWriter {
    /// The file of a record in `dir`: `<dir>/<snapshot_name>.json`.
    pub open spec fn target_text(meta: &BackupMeta, dir: Seq<char>) -> Seq<char> {
        join_path_text(dir, meta.snapshot_name@ + ".json"@)
    }

    /// The file that the record `meta` is written to under `dir`.
    pub fn target(meta: &BackupMeta, dir: &str) -> (path: String)
        ensures
            path@ == Self::target_text(meta, dir@),
    {
        let name = meta.snapshot_name.clone().concat(".json");
        join_path(dir, name.as_str())
    }
}

} // verus!
