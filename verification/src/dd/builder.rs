//! Resolving static configuration and a live device catalog into a snapshot
//! job.

use vstd::prelude::*;
use vstd::string::*;

use crate::clock::{compact_utc, format_compact, Timestamp};
use crate::config::Config;
use crate::dd::probe::BlockDevice;
use crate::error::{AppError, ConfigError};
use crate::text::{
    ascii_lower, ascii_lower_text, chars_of, join_path, join_path_text, push_range, starts_with,
    str_eq,
};

verus! {

/// What to do when the local destination already exists.
#[derive(Debug, Clone, Copy, PartialEq, Eq, Structural)]
pub enum ResumeMode {
    /// Create the destination, or truncate it, and start at offset zero.
    Fresh,
    /// Append to the existing destination, starting at its current length.
    Continue,
}

/// The program that the remote byte stream is piped through.
#[derive(Debug, Clone, Copy, PartialEq, Eq, Structural)]
pub enum Compression {
    /// No compression: the stream passes through `cat`.
    Identity,
    Gzip,
    Zstd,
    Xz,
}

impl Compression {
    /// The mode that a configuration text names, letter case aside. Text that
    /// names no mode means no compression.
    pub open spec fn of_text(txt: Seq<char>) -> Compression {
        let lower = ascii_lower_text(txt);
        if lower == "gzip"@ {
            Compression::Gzip
        } else if lower == "zstd"@ {
            Compression::Zstd
        } else if lower == "xz"@ {
            Compression::Xz
        } else {
            Compression::Identity
        }
    }

    /// The suffix of a destination file written in this mode.
    pub open spec fn ext_text(self) -> Seq<char> {
        match self {
            Compression::Identity => ".img"@,
            Compression::Gzip => ".img.gz"@,
            Compression::Zstd => ".img.zst"@,
            Compression::Xz => ".img.xz"@,
        }
    }

    /// The remote pipe command of this mode.
    pub open spec fn pipe_text(self) -> Seq<char> {
        match self {
            Compression::Identity => "cat"@,
            Compression::Gzip => "gzip -c"@,
            Compression::Zstd => "zstd -q -c"@,
            Compression::Xz => "xz -c"@,
        }
    }

    /// The name of the variant, as recorded in snapshot metadata.
    pub open spec fn label_text(self) -> Seq<char> {
        match self {
            Compression::Identity => "None"@,
            Compression::Gzip => "Gzip"@,
            Compression::Zstd => "Zstd"@,
            Compression::Xz => "Xz"@,
        }
    }

    /// Reads a mode from configuration text. Never fails: unknown text means
    /// [`Compression::Identity`].
    pub fn parse(txt: &str) -> (c: Self)
        ensures
            c == Self::of_text(txt@),
    {
        let lower = ascii_lower(txt);
        if str_eq(lower.as_str(), "gzip") {
            Compression::Gzip
        } else if str_eq(lower.as_str(), "zstd") {
            Compression::Zstd
        } else if str_eq(lower.as_str(), "xz") {
            Compression::Xz
        } else {
            Compression::Identity
        }
    }

    /// The suffix of a destination file written in this mode.
    pub fn ext(self) -> (s: &'static str)
        ensures
            s@ == self.ext_text(),
    {
        match self {
            Compression::Identity => ".img",
            Compression::Gzip => ".img.gz",
            Compression::Zstd => ".img.zst",
            Compression::Xz => ".img.xz",
        }
    }

    /// The remote pipe command of this mode.
    pub fn pipe(self) -> (s: &'static str)
        ensures
            s@ == self.pipe_text(),
    {
        match self {
            Compression::Identity => "cat",
            Compression::Gzip => "gzip -c",
            Compression::Zstd => "zstd -q -c",
            Compression::Xz => "xz -c",
        }
    }

    /// The name of the variant, as recorded in snapshot metadata.
    pub fn label(self) -> (s: &'static str)
        ensures
            s@ == self.label_text(),
    {
        match self {
            Compression::Identity => "None",
            Compression::Gzip => "Gzip",
            Compression::Zstd => "Zstd",
            Compression::Xz => "Xz",
        }
    }
}

/// Text that spells none of `gzip`, `zstd`, `xz` in any letter case selects
/// no compression, and with it the suffix `.img` and the pipe `cat`.
pub proof fn lemma_unknown_text_is_none(txt: Seq<char>)
    requires
        ascii_lower_text(txt) != "gzip"@,
        ascii_lower_text(txt) != "zstd"@,
        ascii_lower_text(txt) != "xz"@,
    ensures
        Compression::of_text(txt) == Compression::Identity,
        Compression::of_text(txt).ext_text() == ".img"@,
        Compression::of_text(txt).pipe_text() == "cat"@,
{
}

/// The resume policy that a configuration text names, letter case aside:
/// `continue` resumes, anything else starts afresh.
pub open spec fn resume_of_text(txt: Seq<char>) -> ResumeMode {
    if ascii_lower_text(txt) == "continue"@ {
        ResumeMode::Continue
    } else {
        ResumeMode::Fresh
    }
}

impl ResumeMode {
    /// Reads a resume policy from configuration text. Never fails.
    pub fn parse(txt: &str) -> (m: Self)
        ensures
            m == resume_of_text(txt@),
    {
        let lower = ascii_lower(txt);
        if str_eq(lower.as_str(), "continue") {
            ResumeMode::Continue
        } else {
            ResumeMode::Fresh
        }
    }
}

/// Whether a device answers to a query.
///
/// A query that begins with `/dev/` names a device by its canonical path; one
/// that begins with `UUID=` by its UUID; one that begins with `SERIAL=` by its
/// serial. The first form that applies decides. Any other query names nothing.
pub open spec fn answers(dev: BlockDevice, q: Seq<char>) -> bool {
    if "/dev/"@.is_prefix_of(q) {
        dev.path_text() == q
    } else if "UUID="@.is_prefix_of(q) {
        dev.uuid matches Some(u) && u@ == q.skip("UUID="@.len() as int)
    } else if "SERIAL="@.is_prefix_of(q) {
        dev.serial matches Some(s) && s@ == q.skip("SERIAL="@.len() as int)
    } else {
        false
    }
}

/// The position of the first device of `list` that answers to `q`, if any.
pub open spec fn first_answer(q: Seq<char>, list: Seq<BlockDevice>) -> Option<int>
    decreases list.len(),
{
    if list.len() == 0 {
        None
    } else if answers(list[0], q) {
        Some(0)
    } else {
        match first_answer(q, list.skip(1)) {
            Some(i) => Some(i + 1),
            None => None,
        }
    }
}

/// `first_answer` finds a device that answers, and none before it does; it
/// finds nothing exactly when no device answers.
pub proof fn lemma_first_answer(q: Seq<char>, list: Seq<BlockDevice>)
    ensures
        match first_answer(q, list) {
            Some(i) => 0 <= i < list.len() && answers(list[i], q) && forall|j: int|
                0 <= j < i ==> !answers(#[trigger] list[j], q),
            None => forall|j: int| 0 <= j < list.len() ==> !answers(#[trigger] list[j], q),
        },
    decreases list.len(),
{
    if list.len() > 0 && !answers(list[0], q) {
        let rest = list.skip(1);
        lemma_first_answer(q, rest);
        match first_answer(q, rest) {
            Some(i) => {
                assert(list[i + 1] == rest[i]);
                assert forall|j: int| 0 <= j < i + 1 implies !answers(#[trigger] list[j], q) by {
                    if j > 0 {
                        assert(list[j] == rest[j - 1]);
                    }
                }
            },
            None => {
                assert forall|j: int| 0 <= j < list.len() implies !answers(
                    #[trigger] list[j],
                    q,
                ) by {
                    if j > 0 {
                        assert(list[j] == rest[j - 1]);
                    }
                }
            },
        }
    }
}

/// Resolution is exact: when the device at `i` is the only one of the catalog
/// that answers to the query, it is the one found; when none answers, nothing
/// is found.
pub proof fn lemma_resolution_exact(q: Seq<char>, list: Seq<BlockDevice>, i: int)
    requires
        0 <= i < list.len(),
    ensures
        (answers(list[i], q) && forall|j: int|
            0 <= j < list.len() && j != i ==> !answers(#[trigger] list[j], q)) ==> first_answer(
            q,
            list,
        ) == Some(i),
        (forall|j: int| 0 <= j < list.len() ==> !answers(#[trigger] list[j], q)) ==> first_answer(
            q,
            list,
        ) is None,
{
    lemma_first_answer(q, list);
}

fn option_is(field: &Option<String>, wanted: &str) -> (r: bool)
    ensures
        r == (*field matches Some(s) && s@ == wanted@),
{
    match field {
        Some(s) => str_eq(s.as_str(), wanted),
        None => false,
    }
}

fn device_answers(dev: &BlockDevice, q: &str) -> (r: bool)
    ensures
        r == answers(*dev, q@),
{
    let chars = chars_of(q);
    proof {
        reveal_strlit("UUID=");
        reveal_strlit("SERIAL=");
    }
    if starts_with(&chars, "/dev/") {
        let path = dev.dev_path();
        str_eq(path.as_str(), q)
    } else if starts_with(&chars, "UUID=") {
        let mut wanted = String::new();
        push_range(&mut wanted, &chars, 5, chars.len());
        assert(wanted@ =~= q@.skip(5));
        option_is(&dev.uuid, wanted.as_str())
    } else if starts_with(&chars, "SERIAL=") {
        let mut wanted = String::new();
        push_range(&mut wanted, &chars, 7, chars.len());
        assert(wanted@ =~= q@.skip(7));
        option_is(&dev.serial, wanted.as_str())
    } else {
        false
    }
}

/// Resolves a device query against a catalog: the first device that answers
/// to it, or nothing.
pub fn select_device<'d>(q: &str, list: &'d [BlockDevice]) -> (r: Option<&'d BlockDevice>)
    ensures
        match first_answer(q@, list@) {
            Some(i) => r == Some(&list@[i]),
            None => r is None,
        },
{
    let mut i: usize = 0;
    proof {
        lemma_first_answer(q@, list@);
    }
    while i < list.len()
        invariant
            i <= list@.len(),
            forall|j: int| 0 <= j < i ==> !answers(#[trigger] list@[j], q@),
        decreases list@.len() - i,
    {
        if device_answers(&list[i], q) {
            proof {
                lemma_first_answer(q@, list@);
            }
            return Some(&list[i]);
        }
        i += 1;
    }
    proof {
        lemma_first_answer(q@, list@);
    }
    None
}

/// A fully resolved snapshot job. Built once, run once, never changed.
#[derive(Debug, Clone, PartialEq, Eq)]
pub struct DdSnapshotConfig {
    /// The remote host, as `<address>:<port>`.
    pub host: String,
    /// The device to read.
    pub device: BlockDevice,
    pub compression: Compression,
    /// Block size of the remote read, in bytes.
    pub block_size: u64,
    pub resume_mode: ResumeMode,
    /// Whether remote commands run under `sudo`.
    pub sudo: bool,
    /// The local destination file.
    pub local_path: String,
    /// Read timeout of the transport, in seconds.
    pub read_to: u64,
    /// Write timeout of the transport, in seconds.
    pub write_to: u64,
}

/// What the configuration asks of a snapshot, with defaults filled in.
#[derive(Debug, Clone, PartialEq, Eq)]
pub struct DdPlan {
    pub dev_query: String,
    pub block_size: u64,
    pub compression: Compression,
    pub resume_mode: ResumeMode,
    pub sudo: bool,
}

/// The device query of a configuration; `/dev/vda` where it has no snapshot
/// settings.
pub open spec fn planned_query(cfg: &Config) -> Seq<char> {
    match cfg.dd {
        Some(dd) => dd.device@,
        None => "/dev/vda"@,
    }
}

/// The block size of a configuration; 65536 where it has no snapshot
/// settings.
pub open spec fn planned_block_size(cfg: &Config) -> u64 {
    match cfg.dd {
        Some(dd) => dd.block_size,
        None => 65536,
    }
}

/// The compression of a configuration; none where it has no snapshot
/// settings.
pub open spec fn planned_compression(cfg: &Config) -> Compression {
    match cfg.dd {
        Some(dd) => Compression::of_text(dd.compression@),
        None => Compression::Identity,
    }
}

/// The resume policy of a configuration; a fresh start where it has no
/// snapshot settings.
pub open spec fn planned_resume(cfg: &Config) -> ResumeMode {
    match cfg.dd {
        Some(dd) => resume_of_text(dd.resume@),
        None => ResumeMode::Fresh,
    }
}

/// Whether the remote commands of a configuration run under `sudo`; they do
/// where it has no snapshot settings.
pub open spec fn planned_sudo(cfg: &Config) -> bool {
    match cfg.dd {
        Some(dd) => dd.sudo,
        None => true,
    }
}

/// The destination file of a snapshot: in `dir`, named by the time stamp,
/// with the suffix of the compression mode.
pub open spec fn destination_text(dir: Seq<char>, stamp: Seq<char>, c: Compression) -> Seq<char> {
    join_path_text(dir, stamp + c.ext_text())
}

/// Whether `job` is the job that `cfg` asks for on the host `host`, with
/// `device` resolved and the destination named by `stamp`.
pub open spec fn is_job_of(
    job: DdSnapshotConfig,
    cfg: &Config,
    host: Seq<char>,
    device: BlockDevice,
    stamp: Seq<char>,
) -> bool {
    &&& job.host@ == host
    &&& job.device == device
    &&& job.compression == planned_compression(cfg)
    &&& job.block_size == planned_block_size(cfg)
    &&& job.resume_mode == planned_resume(cfg)
    &&& job.sudo == planned_sudo(cfg)
    &&& job.local_path@ == destination_text(
        cfg.options.local_download_dir@,
        stamp,
        planned_compression(cfg),
    )
    &&& job.read_to == 120
    &&& job.write_to == 120
}

/// What building a job comes to once the time stamp is known: the job with
/// the first device that answers to the query, or `DeviceNotFound` with the
/// query where none does.
pub open spec fn is_build_of(
    r: Result<DdSnapshotConfig, AppError>,
    cfg: &Config,
    host: Seq<char>,
    devices: Seq<BlockDevice>,
    stamp: Seq<char>,
) -> bool {
    match first_answer(planned_query(cfg), devices) {
        Some(i) => r matches Ok(job) && is_job_of(job, cfg, host, devices[i], stamp),
        None => r matches Err(AppError::DeviceNotFound(q)) && q@ == planned_query(cfg),
    }
}

fn clone_text(field: &Option<String>) -> (out: Option<String>)
    ensures
        out == *field,
{
    match field {
        Some(s) => Some(s.clone()),
        None => None,
    }
}

fn clone_device(dev: &BlockDevice) -> (out: BlockDevice)
    ensures
        out == *dev,
{
    BlockDevice {
        name: dev.name.clone(),
        serial: clone_text(&dev.serial),
        uuid: clone_text(&dev.uuid),
        size: dev.size.clone(),
        mountpoint: clone_text(&dev.mountpoint),
    }
}

/// Builds snapshot jobs from a configuration.
pub struct DdBuilder<'a> {
    cfg: &'a Config,
}

impl<'a> DdBuilder<'a> {
    /// The configuration that jobs are built from.
    pub closed spec fn config(&self) -> &Config {
        self.cfg
    }

    /// A builder over `cfg`.
    pub fn new(cfg: &'a Config) -> (b: Self)
        ensures
            b.config() == cfg,
    {
        DdBuilder { cfg }
    }

    /// What the configuration asks for, with the defaults filled in: device
    /// `/dev/vda`, blocks of 65536 bytes, no compression, a fresh start, and
    /// privilege escalation.
    pub fn plan(&self) -> (p: DdPlan)
        ensures
            p.dev_query@ == planned_query(self.config()),
            p.block_size == planned_block_size(self.config()),
            p.compression == planned_compression(self.config()),
            p.resume_mode == planned_resume(self.config()),
            p.sudo == planned_sudo(self.config()),
    {
        match &self.cfg.dd {
            Some(dd) => DdPlan {
                dev_query: dd.device.clone(),
                block_size: dd.block_size,
                compression: Compression::parse(dd.compression.as_str()),
                resume_mode: ResumeMode::parse(dd.resume.as_str()),
                sudo: dd.sudo,
            },
            None => DdPlan {
                dev_query: String::from_str("/dev/vda"),
                block_size: 65536,
                compression: Compression::Identity,
                resume_mode: ResumeMode::Fresh,
                sudo: true,
            },
        }
    }

    /// Builds the job from the catalog that the host `host` reported and the
    /// time stamp that names the destination. Fails, with no job, exactly
    /// when no device of the catalog answers to the configured query.
    pub fn assemble(&self, host: &str, devices: &[BlockDevice], stamp: &str) -> (r: Result<
        DdSnapshotConfig,
        AppError,
    >)
        ensures
            is_build_of(r, self.config(), host@, devices@, stamp@),
    {
        let plan = self.plan();
        match select_device(plan.dev_query.as_str(), devices) {
            Some(dev) => {
                let name = String::from_str(stamp).concat(plan.compression.ext());
                let local_path = join_path(self.cfg.options.local_download_dir.as_str(), name.as_str());
                Ok(
                    DdSnapshotConfig {
                        host: String::from_str(host),
                        device: clone_device(dev),
                        compression: plan.compression,
                        block_size: plan.block_size,
                        resume_mode: plan.resume_mode,
                        sudo: plan.sudo,
                        local_path,
                        read_to: 120,
                        write_to: 120,
                    },
                )
            },
            None => Err(AppError::DeviceNotFound(plan.dev_query)),
        }
    }

    /// Builds the job from the catalog that the host `host` reported, naming
    /// the destination after the instant `now`.
    ///
    /// Where the calendar cannot express `now`, this is a configuration
    /// error; otherwise the outcome is that of [`DdBuilder::assemble`] with
    /// the compact UTC form of `now` as the time stamp.
    pub fn build(self, host: &str, devices: &[BlockDevice], now: Timestamp) -> (r: Result<
        DdSnapshotConfig,
        AppError,
    >)
        ensures
            match compact_utc(now.secs as int) {
                Some(stamp) => is_build_of(r, self.config(), host@, devices@, stamp),
                None => r matches Err(AppError::Config(ConfigError::Validation(m))) && m@
                    == "timestamp out of range"@,
            },
    {
        match format_compact(now.secs) {
            Some(stamp) => self.assemble(host, devices, stamp.as_str()),
            None => Err(
                AppError::Config(
                    ConfigError::Validation(String::from_str("timestamp out of range")),
                ),
            ),
        }
    }
}

} // verus!
