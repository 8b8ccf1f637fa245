//! Raw-disk snapshots: cloning a remote block device through `dd`.

pub mod builder;
pub mod meta;
pub mod pipeline;
pub mod probe;

pub use builder::{Compression, DdBuilder, ResumeMode};
