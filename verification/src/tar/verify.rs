//! Checking an archive after it was written.

use vstd::prelude::*;
use vstd::string::*;

verus! {

/// How thoroughly an archive is checked.
#[derive(Debug, Clone, Copy, PartialEq, Eq, Structural)]
pub enum VerifyMode {
    /// Compute the SHA-256 of the archive.
    Sha256,
    /// List the archive's contents, then compute its SHA-256.
    ListAndHash,
}

/// One step of checking an archive.
#[derive(Debug, Clone, Copy, PartialEq, Eq, Structural)]
pub enum VerifyStep {
    /// Let `tar` list the archive; a failure to do so fails the check.
    List,
    /// Compute the SHA-256 of the archive file.
    Hash,
}

impl VerifyMode {
    /// The name of this mode.
    pub open spec fn name_text(self) -> Seq<char> {
        match self {
            VerifyMode::Sha256 => "sha256"@,
            VerifyMode::ListAndHash => "list+sha256"@,
        }
    }

    /// The steps of this mode, in the order in which they are taken.
    pub open spec fn steps_of(self) -> Seq<VerifyStep> {
        match self {
            VerifyMode::Sha256 => seq![VerifyStep::Hash],
            VerifyMode::ListAndHash => seq![VerifyStep::List, VerifyStep::Hash],
        }
    }

    /// The name of this mode.
    pub fn to_string(&self) -> (out: String)
        ensures
            out@ == self.name_text(),
    {
        match self {
            VerifyMode::Sha256 => String::from_str("sha256"),
            VerifyMode::ListAndHash => String::from_str("list+sha256"),
        }
    }

    /// The steps of this mode, in the order in which they are taken.
    pub fn steps(self) -> (out: Vec<VerifyStep>)
        ensures
            out@ == self.steps_of(),
    {
        let mut out: Vec<VerifyStep> = Vec::new();
        match self {
            VerifyMode::Sha256 => {
                out.push(VerifyStep::Hash);
            },
            VerifyMode::ListAndHash => {
                out.push(VerifyStep::List);
                out.push(VerifyStep::Hash);
            },
        }
        assert(out@ =~= self.steps_of());
        out
    }
}

} // verus!
