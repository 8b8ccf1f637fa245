//! The snapshot pipeline: the decisions of a raw-disk copy, as a state machine.
//!
//! The pipeline itself performs no I/O. It is told what happened (an
//! [`Event`]) and answers with what to do next (an [`Action`]); whoever drives
//! it runs the remote commands, owns the destination file and reads the
//! channel. The stages follow one another in a fixed order:
//!
//! `SizeQuery -> StreamOpen -> Copying -> Finalizing -> Done | Failed`
//!
//! While copying, each chunk is folded into the running digest before the
//! driver is told to append it, so the digest covers the streamed bytes in
//! the order in which they reach the destination.
//!
//! # Resuming
//!
//! A resumed run appends to the destination but the remote command reads the
//! device from its start again: the remote side is not told to skip what the
//! destination already holds. The digest of a resumed run covers the bytes
//! streamed in that run only.

use vstd::prelude::*;
use vstd::string::*;

use crate::clock::Timestamp;
use crate::dd::builder::{DdSnapshotConfig, ResumeMode};
use crate::dd::meta::DdSnapshotMeta;
use crate::digest::{is_lower_hex, sha256_hex, StreamDigest};
use crate::error::AppError;
use crate::metadata::generator::BackupMeta;
use crate::text::{
    decimal_text, file_stem, file_stem_text, lossy_text, parse_size, push_decimal, size_of_text,
};

verus! {

/// Where a pipeline stands.
#[derive(Debug, Clone, Copy, PartialEq, Eq, Structural)]
pub enum Stage {
    /// Waiting for the answer to the size query.
    SizeQuery,
    /// Waiting for the destination and the remote channel to be opened.
    StreamOpen,
    /// Waiting for the next chunk of the stream.
    Copying,
    /// The stream has ended; waiting for the remote exit status.
    Finalizing,
    /// The run succeeded.
    Done,
    /// The run was aborted.
    Failed,
}

/// What the driver reports to the pipeline.
#[derive(Debug, Clone, PartialEq, Eq)]
pub enum Event {
    /// The size query ended with this exit status and printed this output.
    SizeReported { status: i32, output: Vec<u8> },
    /// The destination and the channel are open. `local_len` is the length of
    /// the destination as it was found.
    Opened { local_len: u64 },
    /// One read from the channel returned these bytes; none means that the
    /// remote side has closed the stream.
    Chunk(Vec<u8>),
    /// The channel is closed and the remote command ended with this status,
    /// at this instant.
    Closed { status: i32, finished_at: Timestamp },
}

/// What the pipeline asks of the driver.
#[derive(Debug, Clone, PartialEq, Eq)]
pub enum Action {
    /// Run this command to completion, capturing its output.
    QuerySize(String),
    /// Open the destination `path` as `mode` says, then open a channel that
    /// runs `command`.
    Open { path: String, mode: ResumeMode, command: String },
    /// Read the next chunk from the channel.
    Read,
    /// Append the chunk just reported to the destination, advance the
    /// progress display by its length, then read the next chunk.
    Append,
    /// Read no more; wait for the channel to close and fetch the exit status.
    AwaitClose,
    /// The run succeeded: persist `record`; `meta` is the result.
    Finish { meta: DdSnapshotMeta, record: BackupMeta },
    /// The run is aborted with this error.
    Fail(AppError),
}

/// The state of a pipeline, as contracts see it.
pub struct PipelineState {
    pub job: DdSnapshotConfig,
    pub stage: Stage,
    /// Size of the remote device, as reported when the run began.
    pub dev_size: u64,
    /// Length of the destination before the first byte of this run.
    pub offset: u64,
    /// Length of the destination now.
    pub written: u64,
    /// The bytes received from the channel so far, in order.
    pub streamed: Seq<u8>,
}

/// `sudo ` where the job escalates privileges, nothing otherwise.
pub open spec fn sudo_text(sudo: bool) -> Seq<char> {
    if sudo {
        "sudo "@
    } else {
        Seq::<char>::empty()
    }
}

/// The remote command that prints the size of the job's device in bytes.
pub open spec fn size_query_text(job: DdSnapshotConfig) -> Seq<char> {
    sudo_text(job.sudo) + "blockdev --getsize64 "@ + job.device.path_text()
}

/// The remote command that reads the job's device and pipes it through the
/// job's compression program.
pub open spec fn copy_text(job: DdSnapshotConfig) -> Seq<char> {
    sudo_text(job.sudo) + "dd if="@ + job.device.path_text() + " bs="@ + decimal_text(
        job.block_size as nat,
    ) + " iflag=fullblock,noatime status=progress | "@ + job.compression.pipe_text()
}

/// The directory that metadata records of snapshots are written to.
pub open spec fn metadata_dir_text() -> Seq<char> {
    "metadata"@
}

impl PipelineState {
    /// The state of a pipeline that has not begun.
    pub open spec fn initial(job: DdSnapshotConfig) -> PipelineState {
        PipelineState {
            job,
            stage: Stage::SizeQuery,
            dev_size: 0,
            offset: 0,
            written: 0,
            streamed: Seq::<u8>::empty(),
        }
    }

    /// What holds of every state that a pipeline passes through: the
    /// destination is as long as it was found plus what was streamed, a fresh
    /// run found it empty, and nothing is streamed before copying begins.
    pub open spec fn wf(self) -> bool {
        &&& self.written == self.offset + self.streamed.len()
        &&& self.job.resume_mode == ResumeMode::Fresh ==> self.offset == 0
        &&& (self.stage == Stage::SizeQuery || self.stage == Stage::StreamOpen) ==> self.offset
            == 0 && self.streamed.len() == 0
        &&& self.stage == Stage::SizeQuery ==> self.dev_size == 0
    }

    /// Whether `event` is what a pipeline in this state waits for.
    pub open spec fn expects(self, event: Event) -> bool {
        match event {
            Event::SizeReported { .. } => self.stage == Stage::SizeQuery,
            Event::Opened { .. } => self.stage == Stage::StreamOpen,
            Event::Chunk(data) => self.stage == Stage::Copying && self.written + data@.len()
                <= u64::MAX,
            Event::Closed { .. } => self.stage == Stage::Finalizing,
        }
    }

    /// The state after `event`.
    pub open spec fn next(self, event: Event) -> PipelineState {
        match event {
            Event::SizeReported { status, output } => if status != 0 {
                PipelineState { stage: Stage::Failed, ..self }
            } else {
                PipelineState {
                    stage: Stage::StreamOpen,
                    dev_size: size_of_text(lossy_text(output@)),
                    ..self
                }
            },
            Event::Opened { local_len } => {
                let offset = match self.job.resume_mode {
                    ResumeMode::Fresh => 0,
                    ResumeMode::Continue => local_len,
                };
                PipelineState { stage: Stage::Copying, offset, written: offset, ..self }
            },
            Event::Chunk(data) => if data@.len() == 0 {
                PipelineState { stage: Stage::Finalizing, ..self }
            } else {
                PipelineState {
                    written: (self.written + data@.len()) as u64,
                    streamed: self.streamed + data@,
                    ..self
                }
            },
            Event::Closed { status, finished_at } => if status != 0 {
                PipelineState { stage: Stage::Failed, ..self }
            } else {
                PipelineState { stage: Stage::Done, ..self }
            },
        }
    }

    /// What the progress display counts up to: the part of the device that
    /// the destination does not hold yet, by the reported size.
    pub open spec fn progress_total(self) -> u64 {
        if self.dev_size >= self.offset {
            (self.dev_size - self.offset) as u64
        } else {
            0
        }
    }

    /// The contents of the destination, given what it held when it was
    /// found: a fresh run starts from nothing, a resumed run keeps what was
    /// there; what was streamed follows.
    pub open spec fn destination(self, found: Seq<u8>) -> Seq<u8> {
        match self.job.resume_mode {
            ResumeMode::Fresh => self.streamed,
            ResumeMode::Continue => found + self.streamed,
        }
    }

    /// Whether `meta` is the result of a run that ended in this state at the
    /// instant `finished_at`.
    pub open spec fn has_result(self, meta: DdSnapshotMeta, finished_at: Timestamp) -> bool {
        &&& meta.device@ == self.job.device.path_text()
        &&& meta.host@ == self.job.host@
        &&& meta.local_path@ == self.job.local_path@
        &&& meta.bytes_total == self.dev_size
        &&& meta.bytes_written == self.written
        &&& meta.sha256@ == sha256_hex(self.streamed)
        &&& meta.sha256@.len() == 64
        &&& forall|i: int| 0 <= i < 64 ==> is_lower_hex(#[trigger] meta.sha256@[i])
        &&& meta.compression@ == self.job.compression.label_text()
        &&& meta.finished_at == finished_at
    }

    /// Whether `action` is the pipeline's answer to `event` in this state.
    pub open spec fn answers_with(self, event: Event, action: Action) -> bool {
        match event {
            Event::SizeReported { status, output } => if status != 0 {
                action == Action::Fail(AppError::RemoteExit(status))
            } else {
                action matches Action::Open { path, mode, command } && path@
                    == self.job.local_path@ && mode == self.job.resume_mode && command@
                    == copy_text(self.job)
            },
            Event::Opened { local_len } => action == Action::Read,
            Event::Chunk(data) => if data@.len() == 0 {
                action == Action::AwaitClose
            } else {
                action == Action::Append
            },
            Event::Closed { status, finished_at } => if status != 0 {
                action == Action::Fail(AppError::RemoteExit(status))
            } else {
                action matches Action::Finish { meta, record } && self.has_result(
                    meta,
                    finished_at,
                ) && is_record_of(record, meta)
            },
        }
    }
}

/// Whether `record` is the metadata record of the snapshot `meta`: named
/// after the destination file without its final extension, with no
/// filesystems.
pub open spec fn is_record_of(record: BackupMeta, meta: DdSnapshotMeta) -> bool {
    &&& record.snapshot_name@ == file_stem_text(meta.local_path@)
    &&& record.remote_path@ == meta.device@
    &&& record.local_path@ == meta.local_path@
    &&& record.size_bytes == meta.bytes_total
    &&& record.sha256@ == meta.sha256@
    &&& record.timestamp == meta.finished_at
    &&& record.filesystems@.len() == 0
}

/// A snapshot job in progress.
pub struct DdPipeline {
    cfg: DdSnapshotConfig,
    stage: Stage,
    dev_size: u64,
    offset: u64,
    written: u64,
    digest: StreamDigest,
    streamed: Ghost<Seq<u8>>,
}

impl View for DdPipeline {
    type V = PipelineState;

    closed spec fn view(&self) -> PipelineState {
        PipelineState {
            job: self.cfg,
            stage: self.stage,
            dev_size: self.dev_size,
            offset: self.offset,
            written: self.written,
            streamed: self.streamed@,
        }
    }
}

fn sudo_prefix(sudo: bool) -> (out: String)
    ensures
        out@ == sudo_text(sudo),
{
    if sudo {
        String::from_str("sudo ")
    } else {
        String::new()
    }
}

impl DdPipeline {
    /// Whether the running digest has taken in exactly what was streamed.
    pub closed spec fn inv(&self) -> bool {
        &&& self@.wf()
        &&& (self.stage == Stage::Done || self.stage == Stage::Failed || self.digest@
            == self.streamed@)
    }

    /// A pipeline for `cfg`, about to ask for the size of the device.
    pub fn new(cfg: DdSnapshotConfig) -> (p: Self)
        ensures
            p@ == PipelineState::initial(cfg),
            p.inv(),
    {
        DdPipeline {
            cfg,
            stage: Stage::SizeQuery,
            dev_size: 0,
            offset: 0,
            written: 0,
            digest: StreamDigest::new(),
            streamed: Ghost(Seq::<u8>::empty()),
        }
    }

    /// The stage that the pipeline is in.
    pub fn stage(&self) -> (s: Stage)
        ensures
            s == self@.stage,
    {
        self.stage
    }

    /// The length of the destination so far.
    pub fn written(&self) -> (n: u64)
        ensures
            n == self@.written,
    {
        self.written
    }

    /// What the progress display counts up to.
    pub fn progress_total(&self) -> (n: u64)
        ensures
            n == self@.progress_total(),
    {
        if self.dev_size >= self.offset {
            self.dev_size - self.offset
        } else {
            0
        }
    }

    fn size_command(&self) -> (cmd: String)
        ensures
            cmd@ == size_query_text(self@.job),
    {
        let path = self.cfg.device.dev_path();
        sudo_prefix(self.cfg.sudo).concat("blockdev --getsize64 ").concat(path.as_str())
    }

    fn copy_command(&self) -> (cmd: String)
        ensures
            cmd@ == copy_text(self@.job),
    {
        let path = self.cfg.device.dev_path();
        let mut cmd = sudo_prefix(self.cfg.sudo).concat("dd if=").concat(path.as_str()).concat(
            " bs=",
        );
        push_decimal(&mut cmd, self.cfg.block_size);
        cmd.append(" iflag=fullblock,noatime status=progress | ");
        cmd.append(self.cfg.compression.pipe());
        cmd
    }

    /// The first thing to do: query the size of the device.
    pub fn begin(&self) -> (action: Action)
        ensures
            action matches Action::QuerySize(cmd) && cmd@ == size_query_text(self@.job),
    {
        Action::QuerySize(self.size_command())
    }

    fn result(&mut self, finished_at: Timestamp) -> (meta: DdSnapshotMeta)
        requires
            old(self).digest@ == old(self).streamed@,
        ensures
            old(self)@.has_result(meta, finished_at),
            final(self).cfg == old(self).cfg,
            final(self).stage == old(self).stage,
            final(self).dev_size == old(self).dev_size,
            final(self).offset == old(self).offset,
            final(self).written == old(self).written,
            final(self).streamed == old(self).streamed,
    {
        let mut digest = StreamDigest::new();
        core::mem::swap(&mut self.digest, &mut digest);
        let sha256 = digest.finish();
        DdSnapshotMeta {
            device: self.cfg.device.dev_path(),
            host: self.cfg.host.clone(),
            local_path: self.cfg.local_path.clone(),
            bytes_total: self.dev_size,
            bytes_written: self.written,
            sha256,
            compression: String::from_str(self.cfg.compression.label()),
            finished_at,
        }
    }

    /// Whether `event` is what the pipeline waits for: the event of its
    /// stage, and for a chunk, one that does not take the length of the
    /// destination past what 64 bits count.
    pub fn expects(&self, event: &Event) -> (r: bool)
        ensures
            r == self@.expects(*event),
    {
        match event {
            Event::SizeReported { .. } => self.stage == Stage::SizeQuery,
            Event::Opened { .. } => self.stage == Stage::StreamOpen,
            Event::Chunk(data) => self.stage == Stage::Copying && data.len() as u64 <= u64::MAX
                - self.written,
            Event::Closed { .. } => self.stage == Stage::Finalizing,
        }
    }

    /// Takes in what happened and decides what to do next.
    ///
    /// The event must be the one that the pipeline waits for, and a chunk
    /// must not take the length of the destination past what 64 bits count.
    pub fn step(&mut self, event: Event) -> (action: Action)
        requires
            old(self).inv(),
            old(self)@.expects(event),
        ensures
            final(self).inv(),
            final(self)@ == old(self)@.next(event),
            old(self)@.answers_with(event, action),
    {
        match event {
            Event::SizeReported { status, output } => {
                if status != 0 {
                    self.stage = Stage::Failed;
                    Action::Fail(AppError::RemoteExit(status))
                } else {
                    self.dev_size = parse_size(output.as_slice());
                    self.stage = Stage::StreamOpen;
                    Action::Open {
                        path: self.cfg.local_path.clone(),
                        mode: self.cfg.resume_mode,
                        command: self.copy_command(),
                    }
                }
            },
            Event::Opened { local_len } => {
                self.offset = match self.cfg.resume_mode {
                    ResumeMode::Fresh => 0,
                    ResumeMode::Continue => local_len,
                };
                self.written = self.offset;
                self.stage = Stage::Copying;
                assert(self.streamed@ =~= Seq::<u8>::empty());
                Action::Read
            },
            Event::Chunk(data) => {
                if data.len() == 0 {
                    self.stage = Stage::Finalizing;
                    Action::AwaitClose
                } else {
                    self.digest.update(data.as_slice());
                    self.written = self.written + data.len() as u64;
                    proof {
                        self.streamed@ = self.streamed@ + data@;
                    }
                    Action::Append
                }
            },
            Event::Closed { status, finished_at } => {
                if status != 0 {
                    self.stage = Stage::Failed;
                    Action::Fail(AppError::RemoteExit(status))
                } else {
                    let meta = self.result(finished_at);
                    let record = BackupMeta {
                        snapshot_name: file_stem(meta.local_path.as_str()),
                        remote_path: meta.device.clone(),
                        local_path: meta.local_path.clone(),
                        size_bytes: meta.bytes_total,
                        sha256: meta.sha256.clone(),
                        timestamp: meta.finished_at,
                        filesystems: Vec::new(),
                    };
                    self.stage = Stage::Done;
                    Action::Finish { meta, record }
                }
            },
        }
    }
}

/// The directory that metadata records of snapshots are written to.
pub fn metadata_dir() -> (dir: &'static str)
    ensures
        dir@ == metadata_dir_text(),
{
    "metadata"
}

/// The state after a series of events, taken in order.
pub open spec fn run(start: PipelineState, events: Seq<Event>) -> PipelineState
    decreases events.len(),
{
    if events.len() == 0 {
        start
    } else {
        run(start, events.drop_last()).next(events.last())
    }
}

/// The bytes that a series of events carries in its chunks, in order.
pub open spec fn payload(events: Seq<Event>) -> Seq<u8>
    decreases events.len(),
{
    if events.len() == 0 {
        Seq::<u8>::empty()
    } else {
        payload(events.drop_last()) + match events.last() {
            Event::Chunk(data) => data@,
            _ => Seq::<u8>::empty(),
        }
    }
}

/// Whether every event of a series is a chunk that holds at least one byte.
pub open spec fn all_chunks(events: Seq<Event>) -> bool {
    forall|i: int|
        0 <= i < events.len() ==> (#[trigger] events[i] matches Event::Chunk(data) && data@.len()
            > 0)
}

/// Every state that a pipeline reaches is well-formed: an expected event
/// leads from a well-formed state to a well-formed state.
pub proof fn lemma_next_preserves_wf(s: PipelineState, event: Event)
    requires
        s.wf(),
        s.expects(event),
    ensures
        s.next(event).wf(),
{
    match event {
        Event::Chunk(data) => {
            assert((s.streamed + data@).len() == s.streamed.len() + data@.len());
        },
        _ => {},
    }
}

/// Copying keeps order and leaves no gap: after any series of non-empty
/// chunks, what was streamed is what was streamed before followed by the
/// chunks' bytes in the order of arrival, the pipeline is still copying, and
/// the length of the destination has grown by exactly that many bytes.
pub proof fn lemma_copying_appends_in_order(s: PipelineState, chunks: Seq<Event>)
    requires
        s.stage == Stage::Copying,
        all_chunks(chunks),
        s.written + payload(chunks).len() <= u64::MAX,
    ensures
        run(s, chunks).streamed == s.streamed + payload(chunks),
        run(s, chunks).written == s.written + payload(chunks).len(),
        run(s, chunks).stage == Stage::Copying,
        run(s, chunks).offset == s.offset,
        run(s, chunks).dev_size == s.dev_size,
        run(s, chunks).job == s.job,
    decreases chunks.len(),
{
    if chunks.len() == 0 {
        assert(s.streamed + payload(chunks) =~= s.streamed);
    } else {
        let front = chunks.drop_last();
        assert forall|i: int| 0 <= i < front.len() implies (#[trigger] front[i] matches Event::Chunk(
            data,
        ) && data@.len() > 0) by {
            assert(front[i] == chunks[i]);
        }
        lemma_copying_appends_in_order(s, front);
        assert(chunks.last() == chunks[chunks.len() - 1]);
        match chunks.last() {
            Event::Chunk(data) => {
                assert(s.streamed + payload(front) + data@ =~= s.streamed + (payload(front)
                    + data@));
            },
            _ => {},
        }
    }
}

/// The digest of a fresh run is the digest of the destination file: whatever
/// the destination held when it was found, after a fresh run it holds the
/// streamed bytes and nothing else, and the reported digest is theirs.
pub proof fn lemma_fresh_digest_covers_destination(
    s: PipelineState,
    found: Seq<u8>,
    meta: DdSnapshotMeta,
    finished_at: Timestamp,
)
    requires
        s.job.resume_mode == ResumeMode::Fresh,
        s.has_result(meta, finished_at),
    ensures
        meta.sha256@ == sha256_hex(s.destination(found)),
{
}

/// A resumed run counts from the length that the destination was found
/// with: after the destination was opened with `local_len` bytes in it and
/// the chunks were copied, the result reports `local_len` plus the number of
/// bytes copied.
pub proof fn lemma_resumed_count(
    s: PipelineState,
    local_len: u64,
    chunks: Seq<Event>,
    meta: DdSnapshotMeta,
    finished_at: Timestamp,
)
    requires
        s.stage == Stage::StreamOpen,
        s.job.resume_mode == ResumeMode::Continue,
        all_chunks(chunks),
        local_len + payload(chunks).len() <= u64::MAX,
        run(s.next(Event::Opened { local_len }), chunks).has_result(meta, finished_at),
    ensures
        meta.bytes_written == local_len + payload(chunks).len(),
{
    lemma_copying_appends_in_order(s.next(Event::Opened { local_len }), chunks);
}

/// A fresh run starts from an empty destination: the pipeline asks for the
/// destination to be opened afresh, and whatever length and contents it was
/// found with, once it is opened its counted length is zero and it holds
/// nothing, before any chunk is taken in.
pub proof fn lemma_fresh_starts_empty(
    s: PipelineState,
    sized: Event,
    action: Action,
    local_len: u64,
    found: Seq<u8>,
)
    requires
        s.wf(),
        s.stage == Stage::SizeQuery,
        s.job.resume_mode == ResumeMode::Fresh,
        sized matches Event::SizeReported { status, .. } && status == 0,
        s.answers_with(sized, action),
    ensures
        action matches Action::Open { mode, .. } && mode == ResumeMode::Fresh,
        s.next(sized).stage == Stage::StreamOpen,
        s.next(sized).next(Event::Opened { local_len }).offset == 0,
        s.next(sized).next(Event::Opened { local_len }).written == 0,
        s.next(sized).next(Event::Opened { local_len }).destination(found) == Seq::<u8>::empty(),
{
    assert(s.streamed =~= Seq::<u8>::empty());
}

/// An empty chunk ends the copy, once and for all: it takes a copying
/// pipeline to `Finalizing` with the answer `AwaitClose`; and from any stage
/// after `Copying`, no expected event leads back to `Copying` or is answered
/// with a request to read or append.
pub proof fn lemma_end_of_stream_is_final(s: PipelineState, event: Event, action: Action)
    requires
        s.expects(event),
        s.answers_with(event, action),
    ensures
        (s.stage == Stage::Copying && (event matches Event::Chunk(data) && data@.len() == 0)) ==> (
        s.next(event).stage == Stage::Finalizing && action == Action::AwaitClose),
        (s.stage == Stage::Finalizing || s.stage == Stage::Done || s.stage == Stage::Failed) ==> (
        s.next(event).stage != Stage::Copying && action != Action::Read && action
            != Action::Append),
        (action == Action::Read || action == Action::Append) ==> s.next(event).stage
            == Stage::Copying,
{
}

/// A finished or failed pipeline waits for nothing more.
pub proof fn lemma_terminal_stages_accept_nothing(s: PipelineState, event: Event)
    requires
        s.stage == Stage::Done || s.stage == Stage::Failed,
    ensures
        !s.expects(event),
{
}

/// The remote exit status decides the outcome, however much was copied: a
/// non-zero status ends the run in `Failed` with that status as the error,
/// and only a zero status ends it in `Done`.
pub proof fn lemma_exit_status_decides(
    s: PipelineState,
    status: i32,
    finished_at: Timestamp,
    action: Action,
)
    requires
        s.stage == Stage::Finalizing,
        s.answers_with(Event::Closed { status, finished_at }, action),
    ensures
        status != 0 ==> s.next(Event::Closed { status, finished_at }).stage == Stage::Failed
            && action == Action::Fail(AppError::RemoteExit(status)),
        s.next(Event::Closed { status, finished_at }).stage == Stage::Done <==> status == 0,
        status == 0 ==> action is Finish,
{
}

} // verus!
