//! Planning a filesystem archive run: the archive's name and place, the
//! remote command that creates it, and the record kept of it.

use vstd::prelude::*;
use vstd::string::*;

use crate::clock::{format_rfc3339, rfc3339_utc, Timestamp};
use crate::config::{Config, Filesystem};
use crate::error::{AppError, ConfigError};
use crate::metadata::generator::BackupMeta;
use crate::tar::builder::{TarBuilder, TarError};
use crate::tar::command::tar_command_text;
use crate::tar::compression::Compression;
use crate::tar::exclude::runtime_rules;
use crate::text::{
    contains, join_path, join_path_text, occurs_in, replace, replace_text, strip_trailing, texts,
    trim_end_matches, with_all_unique,
};

verus! {

/// The marker in a file name template that stands for the time of the run.
pub open spec fn placeholder_text() -> Seq<char> {
    "{{timestamp}}"@
}

/// The paths that a list of filesystems stands for, in order.
pub open spec fn filesystem_texts(list: Seq<Filesystem>) -> Seq<Seq<char>> {
    Seq::new(list.len(), |i: int| list[i].path_text())
}

/// The archive file on the remote host: `filename` in `dir`, whose trailing
/// slashes do not count.
pub open spec fn remote_path_text(dir: Seq<char>, filename: Seq<char>) -> Seq<char> {
    strip_trailing(dir, '/') + "/"@ + filename
}

/// The command that archives the configured filesystems into `remote_path`:
/// each filesystem once, the run-time directories left out, compressed with
/// gzip.
pub open spec fn archive_command_text(cfg: &Config, remote_path: Seq<char>) -> Seq<char> {
    tar_command_text(
        remote_path,
        with_all_unique(Seq::<Seq<char>>::empty(), filesystem_texts(cfg.filesystems@)),
        with_all_unique(Seq::<Seq<char>>::empty(), runtime_rules()),
        Compression::Gzip,
    )
}

/// What an archive run will do.
#[derive(Debug, Clone, PartialEq, Eq)]
pub struct ArchivePlan {
    /// The archive's file name.
    pub filename: String,
    /// The archive file on the remote host.
    pub remote_path: String,
    /// The remote command that creates the archive.
    pub tar_cmd: String,
    /// The local file that the archive is downloaded to, where a download
    /// is configured.
    pub local_path: Option<String>,
}

/// Whether `plan` is the plan of `cfg` for an archive named `filename`.
pub open spec fn is_plan_of(plan: ArchivePlan, cfg: &Config, filename: Seq<char>) -> bool {
    &&& plan.filename@ == filename
    &&& plan.remote_path@ == remote_path_text(cfg.backup.dir@, filename)
    &&& plan.tar_cmd@ == archive_command_text(cfg, plan.remote_path@)
    &&& if cfg.options.download_to_local {
        plan.local_path matches Some(p) && p@ == join_path_text(
            cfg.options.local_download_dir@,
            filename,
        )
    } else {
        plan.local_path is None
    }
}

/// What planning comes to once the file name is known: a configuration
/// error where no filesystem is configured, else the plan.
pub open spec fn is_planning_of(
    r: Result<ArchivePlan, AppError>,
    cfg: &Config,
    filename: Seq<char>,
) -> bool {
    if cfg.filesystems@.len() == 0 {
        r matches Err(AppError::Config(ConfigError::Validation(m))) && m@
            == "`filesystems` list must not be empty"@
    } else {
        r matches Ok(plan) && is_plan_of(plan, cfg, filename)
    }
}

/// `template` with the time stamp `stamp` in the place of every
/// `{{timestamp}}`.
pub fn fill_timestamp(template: &str, stamp: &str) -> (out: String)
    ensures
        out@ == replace_text(template@, placeholder_text(), stamp@),
{
    replace(template, "{{timestamp}}", stamp)
}

/// The archive's file name at the instant `now`.
///
/// A template without `{{timestamp}}` is the name. Otherwise each
/// `{{timestamp}}` is replaced by the RFC 3339 form of `now` in UTC, to the
/// second; where the calendar cannot express `now`, this is a configuration
/// error.
pub fn resolve_filename(template: &str, now: Timestamp) -> (r: Result<String, AppError>)
    ensures
        !occurs_in(template@, placeholder_text()) ==> (r matches Ok(name) && name@ == template@),
        occurs_in(template@, placeholder_text()) ==> match rfc3339_utc(now.secs as int) {
            Some(stamp) => r matches Ok(name) && name@ == replace_text(
                template@,
                placeholder_text(),
                stamp,
            ),
            None => r matches Err(AppError::Config(ConfigError::Validation(m))) && m@
                == "timestamp out of range"@,
        },
{
    if contains(template, "{{timestamp}}") {
        match format_rfc3339(now.secs) {
            Some(stamp) => Ok(fill_timestamp(template, stamp.as_str())),
            None => Err(
                AppError::Config(
                    ConfigError::Validation(String::from_str("timestamp out of range")),
                ),
            ),
        }
    } else {
        Ok(String::from_str(template))
    }
}

/// The archive file on the remote host.
pub fn remote_archive_path(dir: &str, filename: &str) -> (out: String)
    ensures
        out@ == remote_path_text(dir@, filename@),
{
    trim_end_matches(dir, '/').concat("/").concat(filename)
}

fn filesystem_paths(list: &Vec<Filesystem>) -> (out: Vec<String>)
    ensures
        texts(out@) == filesystem_texts(list@),
{
    let mut out: Vec<String> = Vec::new();
    let mut i: usize = 0;
    while i < list.len()
        invariant
            i <= list@.len(),
            out@.len() == i,
            forall|k: int| 0 <= k < i ==> out@[k]@ == list@[k].path_text(),
        decreases list@.len() - i,
    {
        out.push(list[i].to_string());
        i += 1;
    }
    assert(texts(out@) =~= filesystem_texts(list@));
    out
}

/// The remote command that archives the configured filesystems into
/// `remote_path`, or `EmptyPathList` exactly when none is configured.
pub fn archive_command(cfg: &Config, remote_path: &str) -> (r: Result<String, TarError>)
    ensures
        cfg.filesystems@.len() == 0 ==> r == Err::<String, TarError>(TarError::EmptyPathList),
        cfg.filesystems@.len() > 0 ==> (r matches Ok(cmd) && cmd@ == archive_command_text(
            cfg,
            remote_path@,
        )),
{
    let paths = filesystem_paths(&cfg.filesystems);
    let builder = TarBuilder::new(remote_path);
    proof {
        assert(builder.path_texts() =~= Seq::<Seq<char>>::empty());
        assert(builder.exclude_texts() =~= Seq::<Seq<char>>::empty());
        lemma_first_stays(Seq::<Seq<char>>::empty(), filesystem_texts(cfg.filesystems@));
    }
    builder.paths(paths).exclude_default_runtime().compression(Compression::Gzip).build()
}

/// A list that items are added to is empty afterwards only if it was empty
/// and nothing was added.
pub proof fn lemma_first_stays(list: Seq<Seq<char>>, items: Seq<Seq<char>>)
    ensures
        with_all_unique(list, items).len() >= list.len(),
        items.len() > 0 ==> with_all_unique(list, items).len() > 0,
    decreases items.len(),
{
    if items.len() > 0 {
        lemma_first_stays(list, items.drop_last());
        let before = with_all_unique(list, items.drop_last());
        if before.contains(items.last()) {
            assert(before.len() > 0);
        }
    }
}

/// Plans the archive named `filename`: where it is created, by which
/// command, and where it is downloaded to. With no filesystem configured
/// there is nothing to archive, which is a configuration error.
pub fn plan_archive(cfg: &Config, filename: &str) -> (r: Result<ArchivePlan, AppError>)
    ensures
        is_planning_of(r, cfg, filename@),
{
    let remote_path = remote_archive_path(cfg.backup.dir.as_str(), filename);
    match archive_command(cfg, remote_path.as_str()) {
        Ok(tar_cmd) => {
            let local_path = if cfg.options.download_to_local {
                Some(join_path(cfg.options.local_download_dir.as_str(), filename))
            } else {
                None
            };
            Ok(ArchivePlan { filename: String::from_str(filename), remote_path, tar_cmd, local_path })
        },
        Err(_) => Err(
            AppError::Config(
                ConfigError::Validation(String::from_str("`filesystems` list must not be empty")),
            ),
        ),
    }
}

/// Whether `meta` is the record of the archive of `cfg` named `filename`,
/// downloaded to `local_path` with the given size and digest at `now`.
pub open spec fn is_archive_record(
    meta: BackupMeta,
    cfg: &Config,
    filename: Seq<char>,
    local_path: Seq<char>,
    size_bytes: u64,
    sha256: Seq<char>,
    now: Timestamp,
) -> bool {
    &&& meta.snapshot_name@ == filename
    &&& meta.remote_path@ == remote_path_text(cfg.backup.dir@, filename)
    &&& meta.local_path@ == local_path
    &&& meta.size_bytes == size_bytes
    &&& meta.sha256@ == sha256
    &&& meta.timestamp == now
    &&& texts(meta.filesystems@) == filesystem_texts(cfg.filesystems@)
}

/// The record of a downloaded archive.
pub fn archive_record(
    cfg: &Config,
    filename: &str,
    local_path: &str,
    size_bytes: u64,
    sha256: &str,
    now: Timestamp,
) -> (meta: BackupMeta)
    ensures
        is_archive_record(meta, cfg, filename@, local_path@, size_bytes, sha256@, now),
{
    BackupMeta {
        snapshot_name: String::from_str(filename),
        remote_path: remote_archive_path(cfg.backup.dir.as_str(), filename),
        local_path: String::from_str(local_path),
        size_bytes,
        sha256: String::from_str(sha256),
        timestamp: now,
        filesystems: filesystem_paths(&cfg.filesystems),
    }
}

} // verus!
