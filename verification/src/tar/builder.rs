//! A step-by-step builder of the remote `tar` command.

use vstd::prelude::*;
use vstd::string::*;

use crate::tar::command::{build_tar_command, tar_command_text};
use crate::tar::compression::Compression;
use crate::tar::exclude::{runtime_rules, ExcludeList};
use crate::tar::paths::PathList;
use crate::tar::verify::{VerifyMode, VerifyStep};
use crate::text::{texts, with_all_unique, with_unique};

verus! {

/// Why no archive command could be built, or why an archive was rejected.
#[derive(Debug, Clone, PartialEq, Eq)]
pub enum TarError {
    /// No path was given to archive.
    EmptyPathList,
    /// A local file could not be read, or a local tool could not be run.
    Io(String),
    /// The archive did not pass the check.
    VerifyFailed(String),
}

/// Collects what a `tar` command needs. Gzip is the compression unless
/// another is chosen; no check is made unless one is asked for.
pub struct TarBuilder {
    out_file: String,
    paths: PathList,
    excludes: ExcludeList,
    compression: Compression,
    verify: Option<VerifyMode>,
}

impl TarBuilder {
    /// The archive file on the remote host.
    pub closed spec fn out_file_text(&self) -> Seq<char> {
        self.out_file@
    }

    /// The paths to archive, in order.
    pub closed spec fn path_texts(&self) -> Seq<Seq<char>> {
        self.paths@
    }

    /// The exclusion rules, in order.
    pub closed spec fn exclude_texts(&self) -> Seq<Seq<char>> {
        self.excludes@
    }

    /// The chosen compression.
    pub closed spec fn chosen_compression(&self) -> Compression {
        self.compression
    }

    /// The check to make on the archive, if any.
    pub closed spec fn verify_mode(&self) -> Option<VerifyMode> {
        self.verify
    }

    /// No path and no exclusion occurs twice. Every builder made by this
    /// module is well-formed.
    pub open spec fn wf(&self) -> bool {
        self.path_texts().no_duplicates() && self.exclude_texts().no_duplicates()
    }

    /// Whether `self` differs from `before` at most in its paths.
    pub open spec fn same_but_paths(&self, before: &TarBuilder) -> bool {
        &&& self.out_file_text() == before.out_file_text()
        &&& self.exclude_texts() == before.exclude_texts()
        &&& self.chosen_compression() == before.chosen_compression()
        &&& self.verify_mode() == before.verify_mode()
    }

    /// Whether `self` differs from `before` at most in its exclusions.
    pub open spec fn same_but_excludes(&self, before: &TarBuilder) -> bool {
        &&& self.out_file_text() == before.out_file_text()
        &&& self.path_texts() == before.path_texts()
        &&& self.chosen_compression() == before.chosen_compression()
        &&& self.verify_mode() == before.verify_mode()
    }

    /// A builder for the archive `out_file`: no paths, no exclusions, gzip, no
    /// check.
    pub fn new(out_file: &str) -> (b: Self)
        ensures
            b.out_file_text() == out_file@,
            b.path_texts().len() == 0,
            b.exclude_texts().len() == 0,
            b.chosen_compression() == Compression::Gzip,
            b.verify_mode() is None,
            b.wf(),
    {
        TarBuilder {
            out_file: String::from_str(out_file),
            paths: PathList::new(),
            excludes: ExcludeList::new(),
            compression: Compression::Gzip,
            verify: None,
        }
    }

    /// Adds each of `items` to the paths, unless it is there already.
    pub fn paths(self, items: Vec<String>) -> (b: Self)
        ensures
            b.path_texts() == with_all_unique(self.path_texts(), texts(items@)),
            b.same_but_paths(&self),
            self.wf() ==> b.wf(),
    {
        let mut b = self;
        b.paths.extend_unique(&items);
        b
    }

    /// Adds `p` to the paths, unless it is there already.
    pub fn add_path(self, p: &str) -> (b: Self)
        ensures
            b.path_texts() == with_unique(self.path_texts(), p@),
            b.same_but_paths(&self),
            self.wf() ==> b.wf(),
    {
        let mut b = self;
        b.paths.push_unique(p);
        b
    }

    /// Adds `p` to the exclusions, unless it is there already.
    pub fn exclude(self, p: &str) -> (b: Self)
        ensures
            b.exclude_texts() == with_unique(self.exclude_texts(), p@),
            b.same_but_excludes(&self),
            self.wf() ==> b.wf(),
    {
        let mut b = self;
        b.excludes.push_unique(p);
        b
    }

    /// Adds the run-time directories to the exclusions, each unless it is
    /// there already.
    pub fn exclude_default_runtime(self) -> (b: Self)
        ensures
            b.exclude_texts() == with_all_unique(self.exclude_texts(), runtime_rules()),
            b.same_but_excludes(&self),
            self.wf() ==> b.wf(),
    {
        let mut b = self;
        b.excludes.add_default_runtime();
        b
    }

    /// Chooses the compression.
    pub fn compression(self, c: Compression) -> (b: Self)
        ensures
            b.chosen_compression() == c,
            b.out_file_text() == self.out_file_text(),
            b.path_texts() == self.path_texts(),
            b.exclude_texts() == self.exclude_texts(),
            b.verify_mode() == self.verify_mode(),
            self.wf() ==> b.wf(),
    {
        let mut b = self;
        b.compression = c;
        b
    }

    /// Asks for the archive to be checked as `mode` says.
    pub fn verify(self, mode: VerifyMode) -> (b: Self)
        ensures
            b.verify_mode() == Some(mode),
            b.out_file_text() == self.out_file_text(),
            b.path_texts() == self.path_texts(),
            b.exclude_texts() == self.exclude_texts(),
            b.chosen_compression() == self.chosen_compression(),
            self.wf() ==> b.wf(),
    {
        let mut b = self;
        b.verify = Some(mode);
        b
    }

    /// The command, or `EmptyPathList` exactly when no path was given.
    pub fn build(&self) -> (r: Result<String, TarError>)
        ensures
            self.path_texts().len() == 0 ==> r == Err::<String, TarError>(TarError::EmptyPathList),
            self.path_texts().len() > 0 ==> (r matches Ok(cmd) && cmd@ == tar_command_text(
                self.out_file_text(),
                self.path_texts(),
                self.exclude_texts(),
                self.chosen_compression(),
            )),
    {
        if self.paths.is_empty() {
            return Err(TarError::EmptyPathList);
        }
        Ok(build_tar_command(self.out_file.as_str(), &self.paths, &self.excludes, self.compression))
    }

    /// The steps that check the archive, in order: none where no check was
    /// asked for.
    pub fn verify_archive(&self) -> (steps: Vec<VerifyStep>)
        ensures
            steps@ == match self.verify_mode() {
                Some(mode) => mode.steps_of(),
                None => Seq::<VerifyStep>::empty(),
            },
    {
        match self.verify {
            Some(mode) => mode.steps(),
            None => Vec::new(),
        }
    }

    /// The command, or `<invalid tar builder>` where none can be built.
    pub fn to_string(&self) -> (out: String)
        ensures
            self.path_texts().len() == 0 ==> out@ == "<invalid tar builder>"@,
            self.path_texts().len() > 0 ==> out@ == tar_command_text(
                self.out_file_text(),
                self.path_texts(),
                self.exclude_texts(),
                self.chosen_compression(),
            ),
    {
        match self.build() {
            Ok(cmd) => cmd,
            Err(_) => String::from_str("<invalid tar builder>"),
        }
    }
}

} // verus!
