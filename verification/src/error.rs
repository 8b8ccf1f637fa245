//! The failures that a backup run can end in.

use vstd::prelude::*;
use vstd::string::*;

use crate::text::{signed_decimal, signed_decimal_text};

verus! {

/// Why a configuration could not be used.
#[derive(Debug, Clone, PartialEq, Eq)]
pub enum ConfigError {
    /// The configuration file could not be read.
    Io(String),
    /// The configuration file is not well-formed TOML of the expected shape.
    Toml(String),
    /// A setting is missing or has a value that cannot be used.
    Validation(String),
}

/// Why a backup run was aborted. No failure is retried.
#[derive(Debug, Clone, PartialEq, Eq)]
pub enum AppError {
    /// Malformed or missing settings.
    Config(ConfigError),
    /// The transport could not connect, authenticate or carry a request.
    Ssh(String),
    /// A local directory or file could not be created, opened or written.
    Io(String),
    /// A remote command ended with this non-zero exit status.
    RemoteExit(i32),
    /// A remote probe answered with output of an unexpected shape.
    Remote(String),
    /// No device of the catalog answers to this query.
    DeviceNotFound(String),
}

impl ConfigError {
    /// The text shown to the operator.
    pub open spec fn message_text(&self) -> Seq<char> {
        match self {
            ConfigError::Io(e) => "cannot read config file: "@ + e@,
            ConfigError::Toml(e) => "TOML syntax error: "@ + e@,
            ConfigError::Validation(m) => m@,
        }
    }

    /// The text shown to the operator.
    pub fn to_string(&self) -> (out: String)
        ensures
            out@ == self.message_text(),
    {
        match self {
            ConfigError::Io(e) => String::from_str("cannot read config file: ").concat(e.as_str()),
            ConfigError::Toml(e) => String::from_str("TOML syntax error: ").concat(e.as_str()),
            ConfigError::Validation(m) => m.clone(),
        }
    }
}

impl AppError {
    /// The text shown to the operator.
    pub open spec fn message_text(&self) -> Seq<char> {
        match self {
            AppError::Config(e) => "configuration error: "@ + e.message_text(),
            AppError::Ssh(e) => "SSH error: "@ + e@,
            AppError::Io(e) => "I/O error: "@ + e@,
            AppError::RemoteExit(code) => "remote command exit status "@ + signed_decimal_text(
                *code as int,
            ),
            AppError::Remote(m) => "malformed remote response: "@ + m@,
            AppError::DeviceNotFound(q) => "Device `"@ + q@ + "` not found"@,
        }
    }

    /// The text shown to the operator.
    pub fn to_string(&self) -> (out: String)
        ensures
            out@ == self.message_text(),
    {
        match self {
            AppError::Config(e) => {
                let inner = e.to_string();
                String::from_str("configuration error: ").concat(inner.as_str())
            },
            AppError::Ssh(e) => String::from_str("SSH error: ").concat(e.as_str()),
            AppError::Io(e) => String::from_str("I/O error: ").concat(e.as_str()),
            AppError::RemoteExit(code) => {
                let digits = signed_decimal(*code);
                String::from_str("remote command exit status ").concat(digits.as_str())
            },
            AppError::Remote(m) => String::from_str("malformed remote response: ").concat(
                m.as_str(),
            ),
            AppError::DeviceNotFound(q) => String::from_str("Device `").concat(q.as_str()).concat(
                "` not found",
            ),
        }
    }
}

/// Judges the exit status of a remote command: zero is success, anything else
/// is a failure that carries the status.
pub fn check_exit(status: i32) -> (r: Result<(), AppError>)
    ensures
        status == 0 ==> r == Ok::<(), AppError>(()),
        status != 0 ==> r == Err::<(), AppError>(AppError::RemoteExit(status)),
{
    if status == 0 {
        Ok(())
    } else {
        Err(AppError::RemoteExit(status))
    }
}

} // verus!
