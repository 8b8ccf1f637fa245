//! Planning and bookkeeping for remote machine backups: filesystem archives
//! built by a remote `tar`, and raw block-device snapshots streamed from a
//! remote `dd`.

pub mod backup;
pub mod clock;
pub mod config;
pub mod dd;
pub mod digest;
pub mod error;
pub mod metadata;
pub mod tar;
pub mod text;
