//! The compression of an archive.

use vstd::prelude::*;
use vstd::string::*;

verus! {

/// How `tar` compresses the archive.
#[derive(Debug, Clone, Copy, PartialEq, Eq, Structural)]
pub enum Compression {
    Gzip,
    Xz,
    Zstd,
}

impl Compression {
    /// The `tar` flag that selects this compression.
    pub open spec fn flag_text(self) -> Seq<char> {
        match self {
            Compression::Gzip => "z"@,
            Compression::Xz => "J"@,
            Compression::Zstd => "--zstd"@,
        }
    }

    /// The name of this compression.
    pub open spec fn name_text(self) -> Seq<char> {
        match self {
            Compression::Gzip => "gzip"@,
            Compression::Xz => "xz"@,
            Compression::Zstd => "zstd"@,
        }
    }

    /// The `tar` flag that selects this compression.
    pub fn flag(self) -> (s: &'static str)
        ensures
            s@ == self.flag_text(),
    {
        match self {
            Compression::Gzip => "z",
            Compression::Xz => "J",
            Compression::Zstd => "--zstd",
        }
    }

    /// The name of this compression.
    pub fn to_string(&self) -> (out: String)
        ensures
            out@ == self.name_text(),
    {
        match self {
            Compression::Gzip => String::from_str("gzip"),
            Compression::Xz => String::from_str("xz"),
            Compression::Zstd => String::from_str("zstd"),
        }
    }
}

} // verus!
