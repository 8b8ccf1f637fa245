//! Durable records of finished backups.

pub mod generator;

pub use generator::{BackupMeta, JsonWriter};
