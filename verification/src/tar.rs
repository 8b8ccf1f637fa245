//! Filesystem archives: assembling the remote `tar` command.

pub mod builder;
pub mod command;
pub mod compression;
pub mod exclude;
pub mod paths;
pub mod verify;

pub use builder::TarBuilder;
pub use compression::Compression;
