//! The record of a finished snapshot.

use vstd::prelude::*;

use crate::clock::Timestamp;

verus! {

/// What a successful snapshot run reports. Made once, when the run is done.
#[derive(Debug, Clone, PartialEq, Eq)]
pub struct DdSnapshotMeta {
    /// Canonical path of the device that was read.
    pub device: String,
    /// The remote host, as `<address>:<port>`.
    pub host: String,
    /// The local destination file.
    pub local_path: String,
    /// Size of the remote device as reported when the run began.
    pub bytes_total: u64,
    /// Length of the destination when the run ended: what it held before a
    /// resumed run, plus what this run appended.
    pub bytes_written: u64,
    /// SHA-256 of the bytes streamed in this run, in lower-case hex.
    pub sha256: String,
    /// Name of the compression mode.
    pub compression: String,
    /// When the run ended.
    pub finished_at: Timestamp,
}

} // verus!
