//! Decisions of the iCloud sync commands: the engine handle state, the
//! status shown in settings, the copy-back progress counter, how each
//! directory entry is moved or copied, the rebuild-from-iCloud state
//! machine, and the ordered steps of enabling and disabling sync.
use vstd::prelude::*;

use crate::icloud::{
    icloud_placeholder_path, is_placeholder_name_spec, placeholder_path_spec,
    real_name_from_placeholder, real_name_spec, PLACEHOLDER_SUFFIX,
};
use crate::paths::{join, join_spec, path_file_name, spec_path_file_name};
use crate::text::owned;

verus! {

/// Calls `Arc::clone`: a second handle to the same allocation, so the
/// value seen through it is the same value.
#[verifier::external_body]
fn share<E>(a: &std::sync::Arc<E>) -> (r: std::sync::Arc<E>)
    ensures
        r == *a,
{
    std::sync::Arc::clone(a)
}

/// Why a sync command refused to go on.
#[derive(Debug)]
pub enum SyncError {
    /// No engine runs in this process.
    NotEnabled,
    /// No iCloud container could be found for enabling.
    ICloudUnavailable,
    /// Neither a recorded shared folder nor the iCloud container exists.
    SharedDirUnavailable,
    /// A placeholder under this directory names no real file.
    InvalidPlaceholder(String),
    /// A real file path derived from a placeholder has no file name.
    InvalidFilePath(String),
    /// iCloud did not materialise this file within the wait.
    DownloadTimedOut(String),
}

/// The text each error is reported with.
pub open spec fn sync_error_message(e: SyncError) -> Seq<char> {
    match e {
        SyncError::NotEnabled => "sync is not enabled on this device"@,
        SyncError::ICloudUnavailable => "iCloud is not available — sign in to iCloud and try again"@,
        SyncError::SharedDirUnavailable => "iCloud shared folder is not available"@,
        SyncError::InvalidPlaceholder(dir) => "invalid iCloud placeholder under "@ + dir@,
        SyncError::InvalidFilePath(path) => "invalid iCloud file path: "@ + path@,
        SyncError::DownloadTimedOut(path) => "Cannot disable sync: iCloud has not downloaded "@ + path@
            + " yet. Downloads have been triggered; try again once iCloud finishes."@,
    }
}

impl SyncError {
    /// The message shown to the user.
    pub fn message(&self) -> (r: String)
        ensures
            r@ == sync_error_message(*self),
    {
        match self {
            SyncError::NotEnabled => owned("sync is not enabled on this device"),
            SyncError::ICloudUnavailable => owned(
                "iCloud is not available — sign in to iCloud and try again",
            ),
            SyncError::SharedDirUnavailable => owned("iCloud shared folder is not available"),
            SyncError::InvalidPlaceholder(dir) => {
                let mut s = owned("invalid iCloud placeholder under ");
                s.append(dir.as_str());
                s
            },
            SyncError::InvalidFilePath(path) => {
                let mut s = owned("invalid iCloud file path: ");
                s.append(path.as_str());
                s
            },
            SyncError::DownloadTimedOut(path) => {
                let mut s = owned("Cannot disable sync: iCloud has not downloaded ");
                s.append(path.as_str());
                s.append(" yet. Downloads have been triggered; try again once iCloud finishes.");
                s
            },
        }
    }
}

/// The live engine and watcher handles; `enable` and `disable` swap them.
pub struct SyncState<E, W> {
    pub engine: Option<std::sync::Arc<E>>,
    pub watcher: Option<W>,
}

impl<E, W> SyncState<E, W> {
    /// A state holding the given handles.
    pub fn new(engine: Option<std::sync::Arc<E>>, watcher: Option<W>) -> (s: Self)
        ensures
            s.engine == engine,
            s.watcher == watcher,
    {
        SyncState { engine, watcher }
    }

    /// A second handle on the running engine, if any, so callers can work
    /// with it without holding the state.
    pub fn engine_snapshot(&self) -> (r: Option<std::sync::Arc<E>>)
        ensures
            r == self.engine,
    {
        match &self.engine {
            Some(e) => Some(share(e)),
            None => None,
        }
    }

    /// The running engine, or `NotEnabled` when sync is off in this
    /// process.
    pub fn require_engine(&self) -> (r: Result<std::sync::Arc<E>, SyncError>)
        ensures
            match self.engine {
                Some(e) => r == Ok::<std::sync::Arc<E>, SyncError>(e),
                None => r matches Err(SyncError::NotEnabled),
            },
    {
        match self.engine_snapshot() {
            Some(e) => Ok(e),
            None => Err(SyncError::NotEnabled),
        }
    }
}

/// The shared folder: the one recorded when sync was enabled, else the
/// iCloud container.
pub fn resolve_shared_dir(recorded: Option<String>, icloud: Option<String>) -> (r: Option<String>)
    ensures
        r == (match recorded {
            Some(d) => Some(d),
            None => icloud,
        }),
{
    match recorded {
        Some(d) => Some(d),
        None => icloud,
    }
}

/// How a launch of the app sets up its storage and sync.
#[derive(Debug)]
pub struct LaunchPlan {
    /// Remove the sync marker file: it outlived the database it belonged
    /// to (app data cleared by hand), so the app starts fresh.
    pub clear_stale_marker: bool,
    /// Whether sync is on for this launch; writes are then queued for
    /// publishing from the start.
    pub sync_on: bool,
    /// The shared folder, when sync is on and one is known.
    pub shared_dir: Option<String>,
    /// Where books and covers live: the shared folder, else local.
    pub data_dir: String,
}

/// The storage set-up of a launch. `marker_present` says whether the sync
/// marker file is in `local_dir`, `db_exists` whether the database is;
/// `recorded` is the folder the marker records and `icloud` the iCloud
/// container, if any. Sync is on only with both the marker and the
/// database; a marker without its database is cleared.
pub fn plan_launch(
    local_dir: &str,
    db_exists: bool,
    marker_present: bool,
    recorded: Option<String>,
    icloud: Option<String>,
) -> (r: LaunchPlan)
    ensures
        r.clear_stale_marker == (marker_present && !db_exists),
        r.sync_on == (marker_present && db_exists),
        r.shared_dir == (if marker_present && db_exists {
            match recorded {
                Some(d) => Some(d),
                None => icloud,
            }
        } else {
            None
        }),
        r.data_dir@ == (match r.shared_dir {
            Some(d) => d@,
            None => local_dir@,
        }),
{
    let clear_stale_marker = marker_present && !db_exists;
    let sync_on = marker_present && db_exists;
    let shared_dir = if sync_on {
        resolve_shared_dir(recorded, icloud)
    } else {
        None
    };
    let data_dir = match &shared_dir {
        Some(d) => d.clone(),
        None => owned(local_dir),
    };
    LaunchPlan { clear_stale_marker, sync_on, shared_dir, data_dir }
}

/// The folder the sync engine boots on at launch: the shared folder, when
/// sync is on and the folder is reachable (`shared_exists`). Otherwise the
/// boot is skipped and queued writes wait for a later launch.
pub fn engine_boot_dir(plan: &LaunchPlan, shared_exists: bool) -> (r: Option<String>)
    ensures
        r == (if plan.sync_on && shared_exists {
            plan.shared_dir
        } else {
            None
        }),
{
    if plan.sync_on && shared_exists {
        plan.shared_dir.clone()
    } else {
        None
    }
}

/// One peer device as the settings UI lists it.
#[derive(Debug)]
pub struct PeerInfo {
    pub device_uuid: String,
    pub name: String,
    pub platform: String,
    pub app_version: String,
    pub last_seen: i64,
    pub pending_events: i64,
}

/// Sync state for the settings UI.
#[derive(Debug)]
pub struct SyncStatus {
    pub enabled: bool,
    pub available: bool,
    pub sync_enabled: bool,
    pub shared_dir: Option<String>,
    pub device_uuid: String,
    pub device_name: String,
    pub peers: Vec<PeerInfo>,
    pub pending_events: i64,
    pub last_replay_at: Option<i64>,
}

/// Result of a manual replay tick.
#[derive(Debug)]
pub struct SyncNowResult {
    pub outbox_flushed: usize,
    pub snapshots_applied: usize,
    pub events_applied: usize,
    pub peers_seen: usize,
}

/// Result of compacting the device's own log.
#[derive(Debug)]
pub struct SyncCompactResult {
    pub events_folded: usize,
    pub snapshot_written: bool,
    pub bytes_freed: i64,
}

/// Assembles the settings status. iCloud counts as available when the
/// container exists or the Mobile Documents folder does; peers, the outbox
/// count and the last replay time are reported only while the user has
/// sync switched on.
pub fn sync_status(
    engine_running: bool,
    sync_enabled: bool,
    container_exists: bool,
    icloud_signed_in: bool,
    shared_dir: Option<String>,
    device_uuid: String,
    device_name: String,
    peers: Vec<PeerInfo>,
    pending_events: i64,
    last_replay_at: Option<i64>,
) -> (s: SyncStatus)
    ensures
        s.enabled == engine_running,
        s.available == (container_exists || icloud_signed_in),
        s.sync_enabled == sync_enabled,
        s.shared_dir == shared_dir,
        s.device_uuid == device_uuid,
        s.device_name == device_name,
        sync_enabled ==> s.peers@ == peers@ && s.pending_events == pending_events
            && s.last_replay_at == last_replay_at,
        !sync_enabled ==> s.peers@.len() == 0 && s.pending_events == 0 && s.last_replay_at is None,
{
    if sync_enabled {
        SyncStatus {
            enabled: engine_running,
            available: container_exists || icloud_signed_in,
            sync_enabled,
            shared_dir,
            device_uuid,
            device_name,
            peers,
            pending_events,
            last_replay_at,
        }
    } else {
        SyncStatus {
            enabled: engine_running,
            available: container_exists || icloud_signed_in,
            sync_enabled,
            shared_dir,
            device_uuid,
            device_name,
            peers: Vec::new(),
            pending_events: 0,
            last_replay_at: None,
        }
    }
}

/// A progress report of the copy-back run by `sync_disable`.
#[derive(Debug)]
pub struct SyncDisableProgress {
    pub phase: String,
    pub copied: usize,
    pub total: usize,
    pub current: Option<String>,
}

/// The copy-back counter: how many of the `total` entries are done.
pub struct DisableCopyProgress {
    copied: usize,
    total: usize,
}

impl DisableCopyProgress {
    /// Never more entries done than there are.
    pub open spec fn wf(&self) -> bool {
        self.copied_spec() <= self.total_spec()
    }

    /// Entries done so far.
    pub closed spec fn copied_spec(&self) -> nat {
        self.copied as nat
    }

    /// Entries to do in all.
    pub closed spec fn total_spec(&self) -> nat {
        self.total as nat
    }

    /// Nothing done yet out of `total`.
    pub fn new(total: usize) -> (p: Self)
        ensures
            p.wf(),
            p.copied_spec() == 0,
            p.total_spec() == total,
    {
        DisableCopyProgress { copied: 0, total }
    }

    /// Entries done so far.
    pub fn copied(&self) -> (n: usize)
        ensures
            n == self.copied_spec(),
    {
        self.copied
    }

    /// Entries to do in all.
    pub fn total(&self) -> (n: usize)
        ensures
            n == self.total_spec(),
    {
        self.total
    }

    /// One more entry done, capped at the total.
    pub fn complete(&mut self)
        requires
            old(self).wf(),
        ensures
            final(self).wf(),
            final(self).total_spec() == old(self).total_spec(),
            final(self).copied_spec() == if old(self).copied_spec() < old(self).total_spec() {
                old(self).copied_spec() + 1
            } else {
                old(self).total_spec()
            },
    {
        if self.copied < self.total {
            self.copied = self.copied + 1;
        }
    }

    /// The report sent for `phase` about the entry `current`.
    pub fn report(&self, phase: &str, current: Option<String>) -> (r: SyncDisableProgress)
        ensures
            r.phase@ == phase@,
            r.copied == self.copied_spec(),
            r.total == self.total_spec(),
            r.current == current,
    {
        SyncDisableProgress { phase: owned(phase), copied: self.copied, total: self.total, current }
    }
}

/// However many entries complete, the counter never passes the total and
/// never goes back.
pub proof fn law_progress_bounded(copied: nat, total: nat)
    requires
        copied <= total,
    ensures
        (if copied < total { copied + 1 } else { total }) <= total,
        (if copied < total { copied + 1 } else { total }) >= copied,
{
}

/// The name shown for a path: its file name, else the whole path.
pub open spec fn display_name_spec(path: Seq<char>) -> Seq<char> {
    match spec_path_file_name(path) {
        Some(n) => n,
        None => path,
    }
}

/// The file name of `path` for progress and log lines, or the path itself
/// when it has none.
pub fn display_file_name(path: &str) -> (r: String)
    ensures
        r@ == display_name_spec(path@),
{
    match path_file_name(path) {
        Some(n) => n,
        None => owned(path),
    }
}

/// `<dir>/foo.epub` → `<dir>/.foo.epub.icloud`.
pub fn icloud_placeholder_for(file: &str) -> (r: Option<String>)
    ensures
        match r {
            Some(p) => placeholder_path_spec(file@) == Some(p@),
            None => placeholder_path_spec(file@) is None,
        },
{
    icloud_placeholder_path(file)
}

/// Where one entry of a directory goes when it is moved into another.
pub struct MoveEntry {
    /// The destination path of the entry.
    pub target: String,
    /// The evicted-placeholder path whose presence also means "already
    /// there", when one can be formed.
    pub placeholder: Option<String>,
}

/// The destination of the entry `name` moved into `dst`, and the
/// placeholder that stands for it there when iCloud evicted it.
pub fn plan_move_entry(dst: &str, name: &str) -> (m: MoveEntry)
    ensures
        m.target@ == join_spec(dst@, name@),
        match m.placeholder {
            Some(p) => placeholder_path_spec(m.target@) == Some(p@),
            None => placeholder_path_spec(m.target@) is None,
        },
{
    let target = join(dst, name);
    let placeholder = icloud_placeholder_for(target.as_str());
    MoveEntry { target, placeholder }
}

/// An entry is moved only when neither it nor its placeholder is at the
/// destination: a peer's file, present or evicted, is never clobbered.
pub fn should_move_entry(target_exists: bool, placeholder_exists: bool) -> (b: bool)
    ensures
        b == (!target_exists && !placeholder_exists),
{
    !target_exists && !placeholder_exists
}

/// What copying one entry of the shared folder back to local involves.
pub struct CopyEntry {
    /// The file to read.
    pub source: String,
    /// Where the copy goes.
    pub target: String,
    /// Whether the entry was an evicted placeholder, so the real file must
    /// be downloaded before it is read.
    pub needs_download: bool,
}

/// The source path read for a placeholder entry named `name` in `src`.
pub open spec fn placeholder_source_spec(src: Seq<char>, name: Seq<char>) -> Seq<char> {
    join_spec(src, real_name_spec(name))
}

/// How the entry `name` of `src` is copied into `dst`. A placeholder is
/// never copied as if it were the book: its real file is the source, and
/// the copy lands under the real name.
pub fn plan_copy_entry(src: &str, dst: &str, name: &str) -> (r: Result<CopyEntry, SyncError>)
    requires
        is_placeholder_name_spec(name@) ==> name@.len() > PLACEHOLDER_SUFFIX@.len(),
    ensures
        !is_placeholder_name_spec(name@) ==> (r matches Ok(c) && c.source@ == join_spec(src@, name@)
            && c.target@ == join_spec(dst@, name@) && !c.needs_download),
        is_placeholder_name_spec(name@) ==> match spec_path_file_name(
            placeholder_source_spec(src@, name@),
        ) {
            Some(f) => (r matches Ok(c) && c.source@ == placeholder_source_spec(src@, name@)
                && c.target@ == join_spec(dst@, f) && c.needs_download),
            None => (r matches Err(SyncError::InvalidFilePath(p)) && p@ == placeholder_source_spec(
                src@,
                name@,
            )),
        },
{
    match real_name_from_placeholder(name) {
        None => Ok(
            CopyEntry { source: join(src, name), target: join(dst, name), needs_download: false },
        ),
        Some(stem) => {
            let source = join(src, stem.as_str());
            match path_file_name(source.as_str()) {
                Some(f) => {
                    let target = join(dst, f.as_str());
                    Ok(CopyEntry { source, target, needs_download: true })
                },
                None => Err(SyncError::InvalidFilePath(source)),
            }
        },
    }
}

/// What the wait for an iCloud download does next.
#[derive(Debug, PartialEq, Eq, Structural)]
pub enum WaitStep {
    /// The file is there.
    Ready,
    /// Give up: the wait ran out.
    TimedOut,
    /// Trigger the download again and poll after a pause.
    Poll,
}

/// One round of waiting for a file to materialise.
pub fn wait_step(exists: bool, elapsed_ms: u64, timeout_ms: u64) -> (w: WaitStep)
    ensures
        exists ==> w == WaitStep::Ready,
        !exists && elapsed_ms >= timeout_ms ==> w == WaitStep::TimedOut,
        !exists && elapsed_ms < timeout_ms ==> w == WaitStep::Poll,
{
    if exists {
        WaitStep::Ready
    } else if elapsed_ms >= timeout_ms {
        WaitStep::TimedOut
    } else {
        WaitStep::Poll
    }
}

/// The settings key marking a rebuild whose wipe and full replay have not
/// completed.
pub const REBUILD_MARKER_KEY: &'static str = "sync_rebuild_pending";

/// The marker counts as set only when its stored value is `true`.
pub fn rebuild_marker_is_set(value: Option<&str>) -> (b: bool)
    ensures
        b == (match value {
            Some(v) => v@ == "true"@,
            None => false,
        }),
{
    match value {
        Some(v) => crate::text::str_eq(v, "true"),
        None => false,
    }
}

/// What a boot, or the first tick after enabling, runs.
#[derive(Debug, PartialEq, Eq, Structural)]
pub enum TickKind {
    /// A plain replay tick.
    Tick,
    /// Resume an interrupted rebuild: wipe and replay everything.
    ResumeRebuild,
}

/// A set marker means an interrupted rebuild, which is resumed instead of
/// ticking over a wiped library.
pub fn boot_tick_kind(marker_set: bool) -> (k: TickKind)
    ensures
        k == (if marker_set { TickKind::ResumeRebuild } else { TickKind::Tick }),
{
    if marker_set {
        TickKind::ResumeRebuild
    } else {
        TickKind::Tick
    }
}

/// Enabling publishes a bootstrap snapshot, except while a rebuild is
/// pending: then the snapshot already in the shared folder is the only
/// complete copy and must not be replaced by the wiped database.
pub fn bootstrap_publish_needed(marker_set: bool) -> (b: bool)
    ensures
        b == !marker_set,
{
    !marker_set
}

/// Where a rebuild run stands, waiting for the outcome of its last action.
#[derive(Debug, Clone, Copy, PartialEq, Eq, Structural)]
pub enum RebuildStage {
    /// Waiting for the fold tick that precedes the publish.
    PreTick,
    /// Waiting for the bootstrap snapshot to be published.
    Publish,
    /// Waiting for the marker to be written.
    Marker,
    /// Waiting for the wipe and the full replay.
    Replay,
    /// Waiting for the marker to be cleared.
    Clear,
    /// Over.
    Finished,
}

/// One rebuild run: the cancel generation captured when it entered the
/// serialized state machine, whether the marker is known to be set,
/// whether it was cancelled or ended on an error, and where it stands.
#[derive(Debug, Clone, Copy, PartialEq, Eq, Structural)]
pub struct RebuildRun {
    pub captured: u64,
    pub marker_set: bool,
    pub cancelled: bool,
    pub failed: bool,
    pub stage: RebuildStage,
}

/// What the caller performs next for a rebuild.
#[derive(Debug, PartialEq, Eq, Structural)]
pub enum RebuildAction {
    /// Run a replay tick so pending local deletes land as tombstones.
    PreTick,
    /// Publish the bootstrap snapshot with the own log settled.
    Publish,
    /// Write the marker: from here on the rebuild is committed.
    SetMarker,
    /// Interrupt any in-flight tick, wipe the synced tables and replay
    /// everything from the shared folder.
    WipeAndReplay,
    /// Clear the marker: the replay ran to completion.
    ClearMarker,
    /// Report the run as over, cancelled or not.
    Finish { cancelled: bool },
    /// Report the error the last action returned; the marker stays as it
    /// was.
    Fail,
}

/// What came back from the last action.
#[derive(Debug, PartialEq, Eq, Structural)]
pub enum RebuildEvent {
    /// A tick ended; whether it saw the cancel flag, and the cancel
    /// generation read afterwards.
    TickDone { cancelled: bool, generation: u64 },
    /// The publish ended; the cancel generation read afterwards.
    Published { generation: u64 },
    /// The marker is written.
    MarkerWritten,
    /// The marker is cleared.
    MarkerCleared,
    /// The last action returned an error.
    Failed,
}

/// A full rebuild entering with the generation `generation`: with the
/// marker already set, a prior rebuild's publish is durable and the
/// database may be partial, so it goes straight to the wipe and replay.
pub open spec fn rebuild_start_spec(generation: u64, marker_set: bool) -> (RebuildRun, RebuildAction) {
    if marker_set {
        (
            RebuildRun { captured: generation, marker_set: true, cancelled: false, failed: false, stage: RebuildStage::Replay },
            RebuildAction::WipeAndReplay,
        )
    } else {
        (
            RebuildRun { captured: generation, marker_set: false, cancelled: false, failed: false, stage: RebuildStage::PreTick },
            RebuildAction::PreTick,
        )
    }
}

/// The transition of a rebuild run on the outcome of its last action. A
/// cancel counts when the generation moved since the capture; cancels from
/// before the capture are stale. Both gates before the marker abort with
/// nothing wiped; after the marker, a cancel keeps it so the next launch
/// resumes. An event that does not fit the stage leaves the run as it is.
pub open spec fn rebuild_next_spec(run: RebuildRun, event: RebuildEvent) -> (RebuildRun, RebuildAction) {
    match (run.stage, event) {
        (RebuildStage::PreTick, RebuildEvent::TickDone { cancelled, generation }) => {
            if cancelled || generation != run.captured {
                (
                    RebuildRun { cancelled: true, stage: RebuildStage::Finished, ..run },
                    RebuildAction::Finish { cancelled: true },
                )
            } else {
                (RebuildRun { stage: RebuildStage::Publish, ..run }, RebuildAction::Publish)
            }
        },
        (RebuildStage::Publish, RebuildEvent::Published { generation }) => {
            if generation != run.captured {
                (
                    RebuildRun { cancelled: true, stage: RebuildStage::Finished, ..run },
                    RebuildAction::Finish { cancelled: true },
                )
            } else {
                (RebuildRun { stage: RebuildStage::Marker, ..run }, RebuildAction::SetMarker)
            }
        },
        (RebuildStage::Marker, RebuildEvent::MarkerWritten) => {
            (
                RebuildRun { marker_set: true, stage: RebuildStage::Replay, ..run },
                RebuildAction::WipeAndReplay,
            )
        },
        (RebuildStage::Replay, RebuildEvent::TickDone { cancelled, generation }) => {
            if cancelled || generation != run.captured {
                (
                    RebuildRun { cancelled: true, stage: RebuildStage::Finished, ..run },
                    RebuildAction::Finish { cancelled: true },
                )
            } else {
                (RebuildRun { stage: RebuildStage::Clear, ..run }, RebuildAction::ClearMarker)
            }
        },
        (RebuildStage::Clear, RebuildEvent::MarkerCleared) => {
            (
                RebuildRun { marker_set: false, stage: RebuildStage::Finished, ..run },
                RebuildAction::Finish { cancelled: false },
            )
        },
        (stage, RebuildEvent::Failed) => {
            if stage is Finished {
                (run, RebuildAction::Finish { cancelled: run.cancelled })
            } else {
                (RebuildRun { failed: true, stage: RebuildStage::Finished, ..run }, RebuildAction::Fail)
            }
        },
        _ => (run, RebuildAction::Finish { cancelled: run.cancelled }),
    }
}

/// Starts a full rebuild (`sync_rebuild`).
pub fn rebuild_start(generation: u64, marker_set: bool) -> (r: (RebuildRun, RebuildAction))
    ensures
        r == rebuild_start_spec(generation, marker_set),
{
    if marker_set {
        (
            RebuildRun { captured: generation, marker_set: true, cancelled: false, failed: false, stage: RebuildStage::Replay },
            RebuildAction::WipeAndReplay,
        )
    } else {
        (
            RebuildRun { captured: generation, marker_set: false, cancelled: false, failed: false, stage: RebuildStage::PreTick },
            RebuildAction::PreTick,
        )
    }
}

/// Starts the wipe-and-replay half alone, as a boot that found the marker
/// set does.
pub fn rebuild_resume(generation: u64) -> (r: (RebuildRun, RebuildAction))
    ensures
        r == rebuild_start_spec(generation, true),
{
    rebuild_start(generation, true)
}

/// Advances a rebuild run by the outcome of its last action.
pub fn rebuild_next(run: RebuildRun, event: RebuildEvent) -> (r: (RebuildRun, RebuildAction))
    ensures
        r == rebuild_next_spec(run, event),
{
    match (run.stage, event) {
        (RebuildStage::PreTick, RebuildEvent::TickDone { cancelled, generation }) => {
            if cancelled || generation != run.captured {
                (
                    RebuildRun { cancelled: true, stage: RebuildStage::Finished, ..run },
                    RebuildAction::Finish { cancelled: true },
                )
            } else {
                (RebuildRun { stage: RebuildStage::Publish, ..run }, RebuildAction::Publish)
            }
        },
        (RebuildStage::Publish, RebuildEvent::Published { generation }) => {
            if generation != run.captured {
                (
                    RebuildRun { cancelled: true, stage: RebuildStage::Finished, ..run },
                    RebuildAction::Finish { cancelled: true },
                )
            } else {
                (RebuildRun { stage: RebuildStage::Marker, ..run }, RebuildAction::SetMarker)
            }
        },
        (RebuildStage::Marker, RebuildEvent::MarkerWritten) => {
            (
                RebuildRun { marker_set: true, stage: RebuildStage::Replay, ..run },
                RebuildAction::WipeAndReplay,
            )
        },
        (RebuildStage::Replay, RebuildEvent::TickDone { cancelled, generation }) => {
            if cancelled || generation != run.captured {
                (
                    RebuildRun { cancelled: true, stage: RebuildStage::Finished, ..run },
                    RebuildAction::Finish { cancelled: true },
                )
            } else {
                (RebuildRun { stage: RebuildStage::Clear, ..run }, RebuildAction::ClearMarker)
            }
        },
        (RebuildStage::Clear, RebuildEvent::MarkerCleared) => {
            (
                RebuildRun { marker_set: false, stage: RebuildStage::Finished, ..run },
                RebuildAction::Finish { cancelled: false },
            )
        },
        (RebuildStage::Finished, RebuildEvent::Failed) => {
            let c = run.cancelled;
            (run, RebuildAction::Finish { cancelled: c })
        },
        (_, RebuildEvent::Failed) => {
            (RebuildRun { failed: true, stage: RebuildStage::Finished, ..run }, RebuildAction::Fail)
        },
        _ => {
            let c = run.cancelled;
            (run, RebuildAction::Finish { cancelled: c })
        },
    }
}

/// The marker decision after the replay: a cancelled replay keeps it so
/// the next launch resumes, a completed one clears it.
pub fn settle_rebuild_marker(replay_cancelled: bool) -> (clear: bool)
    ensures
        clear == !replay_cancelled,
{
    !replay_cancelled
}

/// What every run keeps: it waits on the replay or on clearing only with
/// the marker set, and a finished run that was neither cancelled nor
/// failed has cleared its marker.
pub open spec fn rebuild_run_inv(run: RebuildRun) -> bool {
    &&& (run.stage is Replay || run.stage is Clear) ==> run.marker_set
    &&& (run.stage is PreTick || run.stage is Publish || run.stage is Marker) ==> !run.marker_set
    &&& !(run.stage is Finished) ==> !run.cancelled && !run.failed
    &&& (run.stage is Finished && !run.cancelled && !run.failed) ==> !run.marker_set
}

/// A run starts in the invariant and every step keeps it; the wipe is asked
/// for only once the marker is set, so an interruption anywhere after the
/// wipe leaves the marker for the next launch; the publish is asked for
/// only while the marker is unset, so a pending rebuild never republishes
/// a partial library.
pub proof fn law_rebuild_wipes_only_under_marker(run: RebuildRun, event: RebuildEvent, generation: u64, marker_set: bool)
    requires
        rebuild_run_inv(run),
    ensures
        rebuild_run_inv(rebuild_start_spec(generation, marker_set).0),
        rebuild_run_inv(rebuild_next_spec(run, event).0),
        rebuild_next_spec(run, event).1 is WipeAndReplay ==> rebuild_next_spec(run, event).0.marker_set,
        rebuild_start_spec(generation, marker_set).1 is WipeAndReplay ==> rebuild_start_spec(generation, marker_set).0.marker_set,
        rebuild_next_spec(run, event).1 is Publish ==> !run.marker_set,
        marker_set ==> !(rebuild_start_spec(generation, marker_set).1 is PreTick),
{
}

/// The marker is cleared exactly when the replay tick completed without a
/// cancel, counting a cancel whenever the generation moved since the run
/// captured it.
pub proof fn law_rebuild_clears_marker_iff_completed(run: RebuildRun, cancelled: bool, generation: u64)
    requires
        run.stage is Replay,
    ensures
        (rebuild_next_spec(run, RebuildEvent::TickDone { cancelled, generation }).1 is ClearMarker)
            <==> (!cancelled && generation == run.captured),
        (cancelled || generation != run.captured) ==> rebuild_next_spec(
            run,
            RebuildEvent::TickDone { cancelled, generation },
        ).1 == (RebuildAction::Finish { cancelled: true }),
{
}

/// A step that returns an error ends the run with that error and leaves
/// the marker as it was: an error before the marker is written (in the
/// pre-tick, the publish or the marker write) ends the run with nothing
/// wiped and the marker unset; an error in the replay or in clearing keeps
/// the marker, so the next launch resumes.
pub proof fn law_rebuild_error_keeps_marker(run: RebuildRun)
    requires
        rebuild_run_inv(run),
        !(run.stage is Finished),
    ensures
        ({
            let (r, a) = rebuild_next_spec(run, RebuildEvent::Failed);
            &&& a == RebuildAction::Fail
            &&& r.stage is Finished
            &&& r.failed
            &&& r.marker_set == run.marker_set
            &&& rebuild_run_inv(r)
            &&& (run.stage is PreTick || run.stage is Publish || run.stage is Marker) ==> !r.marker_set
            &&& (run.stage is Replay || run.stage is Clear) ==> r.marker_set
        }),
{
}

/// A cancel from before the run captured its generation is stale: a run
/// whose ticks see no cancel and whose generation never moves goes through
/// publish, marker, wipe-and-replay and clearing, and finishes not
/// cancelled with the marker cleared.
pub proof fn law_stale_cancel_ignored(generation: u64)
    ensures
        ({
            let (r0, a0) = rebuild_start_spec(generation, false);
            let (r1, a1) = rebuild_next_spec(r0, RebuildEvent::TickDone { cancelled: false, generation });
            let (r2, a2) = rebuild_next_spec(r1, RebuildEvent::Published { generation });
            let (r3, a3) = rebuild_next_spec(r2, RebuildEvent::MarkerWritten);
            let (r4, a4) = rebuild_next_spec(r3, RebuildEvent::TickDone { cancelled: false, generation });
            let (r5, a5) = rebuild_next_spec(r4, RebuildEvent::MarkerCleared);
            &&& a0 == RebuildAction::PreTick
            &&& a1 == RebuildAction::Publish
            &&& a2 == RebuildAction::SetMarker
            &&& a3 == RebuildAction::WipeAndReplay
            &&& a4 == RebuildAction::ClearMarker
            &&& a5 == (RebuildAction::Finish { cancelled: false })
            &&& !r5.marker_set
        }),
{
}

/// The synced tables the wipe clears, children before parents. Local-only
/// tables (`settings`, `book_settings`, `schema_version`), the tombstones,
/// the outbox and the legacy `translations` table are not among them.
pub open spec fn wipe_tables_spec() -> Seq<Seq<char>> {
    seq![
        "chat_messages"@,
        "chats"@,
        "collection_books"@,
        "collections"@,
        "vocab_words"@,
        "bookmarks"@,
        "highlights"@,
        "books"@,
    ]
}

/// The replay watermarks, cleared in the same transaction as the tables.
pub const REPLAY_STATE_TABLE: &'static str = "_replay_state";

/// The statements of the wipe transaction, in order: one `DELETE FROM` per
/// synced table, then the watermarks.
pub open spec fn wipe_statements_spec() -> Seq<Seq<char>> {
    wipe_tables_spec().map_values(|t: Seq<char>| "DELETE FROM "@ + t).push(
        "DELETE FROM "@ + REPLAY_STATE_TABLE@,
    )
}

/// The statements the wipe runs.
pub fn wipe_statements() -> (r: Vec<String>)
    ensures
        r@.len() == wipe_statements_spec().len(),
        forall|i: int| 0 <= i < r@.len() ==> #[trigger] r@[i]@ == wipe_statements_spec()[i],
{
    let tables: [&'static str; 8] = [
        "chat_messages",
        "chats",
        "collection_books",
        "collections",
        "vocab_words",
        "bookmarks",
        "highlights",
        "books",
    ];
    let mut out: Vec<String> = Vec::new();
    let mut i: usize = 0;
    while i < 8
        invariant
            i <= 8,
            forall|k: int| 0 <= k < 8 ==> #[trigger] tables@[k]@ == wipe_tables_spec()[k],
            out@.len() == i,
            forall|k: int| 0 <= k < i ==> #[trigger] out@[k]@ == wipe_statements_spec()[k],
        decreases 8 - i,
    {
        let mut s = owned("DELETE FROM ");
        s.append(tables[i]);
        out.push(s);
        i = i + 1;
    }
    let mut last = owned("DELETE FROM ");
    last.append(REPLAY_STATE_TABLE);
    out.push(last);
    out
}

/// The wipe leaves the local-only tables, the tombstones, the outbox and
/// the legacy translations table alone.
pub proof fn law_wipe_preserves_local_tables(name: Seq<char>)
    requires
        name == "settings"@ || name == "book_settings"@ || name == "schema_version"@
            || name == "_tombstones"@ || name == "_pending_publish"@ || name == "translations"@,
    ensures
        !wipe_tables_spec().contains(name),
        name != REPLAY_STATE_TABLE@,
{
    reveal_strlit("settings");
    reveal_strlit("book_settings");
    reveal_strlit("schema_version");
    reveal_strlit("_tombstones");
    reveal_strlit("_pending_publish");
    reveal_strlit("translations");
    reveal_strlit("chat_messages");
    reveal_strlit("chats");
    reveal_strlit("collection_books");
    reveal_strlit("collections");
    reveal_strlit("vocab_words");
    reveal_strlit("bookmarks");
    reveal_strlit("highlights");
    reveal_strlit("books");
    reveal_strlit("_replay_state");
    let t = wipe_tables_spec();
    assert forall|i: int| 0 <= i < t.len() implies t[i] != name by {
        if i == 0 {
            assert(t[0][0] != name[0] || t[0].len() != name.len());
        } else if i == 1 {
            assert(t[1].len() != name.len() || t[1][0] != name[0]);
        } else if i == 2 {
            assert(t[2][0] != name[0] || t[2].len() != name.len());
        } else if i == 3 {
            assert(t[3][0] != name[0] || t[3].len() != name.len());
        } else if i == 4 {
            assert(t[4][0] != name[0] || t[4].len() != name.len());
        } else if i == 5 {
            assert(t[5][0] != name[0] || t[5].len() != name.len());
        } else if i == 6 {
            assert(t[6][0] != name[0] || t[6].len() != name.len());
        } else {
            assert(t[7][0] != name[0] || t[7].len() != name.len());
        }
    }
    assert(REPLAY_STATE_TABLE@[1] != name[1] || REPLAY_STATE_TABLE@.len() != name.len());
}

/// `<dir>/logs/<file>`.
pub open spec fn in_logs_spec(dir: Seq<char>, file: Seq<char>) -> Seq<char> {
    join_spec(join_spec(dir, "logs"@), file)
}

/// The device's own event log in the shared folder.
pub open spec fn own_log_path_spec(dir: Seq<char>, device_uuid: Seq<char>) -> Seq<char> {
    in_logs_spec(dir, device_uuid + ".jsonl"@)
}

/// The device's bootstrap snapshot in the shared folder.
pub open spec fn snapshot_path_spec(dir: Seq<char>, device_uuid: Seq<char>) -> Seq<char> {
    in_logs_spec(dir, device_uuid + ".snapshot.json"@)
}

/// `<dir>/logs/<uuid><ext>`.
fn logs_file(dir: &str, device_uuid: &str, ext: &str) -> (r: String)
    ensures
        r@ == in_logs_spec(dir@, device_uuid@ + ext@),
{
    let logs = join(dir, "logs");
    let mut file = owned(device_uuid);
    file.append(ext);
    join(logs.as_str(), file.as_str())
}

/// The device's own event log path.
pub fn own_log_path(dir: &str, device_uuid: &str) -> (r: String)
    ensures
        r@ == own_log_path_spec(dir@, device_uuid@),
{
    logs_file(dir, device_uuid, ".jsonl")
}

/// The device's bootstrap snapshot path.
pub fn snapshot_path(dir: &str, device_uuid: &str) -> (r: String)
    ensures
        r@ == snapshot_path_spec(dir@, device_uuid@),
{
    logs_file(dir, device_uuid, ".snapshot.json")
}

/// One step of turning sync on, performed in order by the caller; a
/// failing step aborts the rest.
#[derive(Debug)]
pub enum EnableStep {
    /// Create this directory and its parents.
    CreateDir(String),
    /// Open (creating if needed) the own event log at this path and build
    /// the replay engine on it.
    OpenLog(String),
    /// Spawn the shared-folder watcher.
    SpawnWatcher,
    /// Publish the bootstrap snapshot to this path, unless a rebuild is
    /// pending when the step runs (see `bootstrap_publish_needed`).
    PublishBootstrap(String),
    /// Write this device's peer manifest.
    WriteOwnManifest,
    /// Record that sync is on, with the shared folder: the commit point.
    WriteSyncSettings,
    /// Resolve book and cover paths against this directory from now on.
    RepointDataDir(String),
    /// Queue writes for publishing, without a log yet.
    QueueWrites,
    /// Move every entry of `from` into `to`, never clobbering one there.
    MoveDir { from: String, to: String },
    /// Give the writer the log and start its workers.
    WireLog,
    /// Store the engine and the watcher: sync is on in this process.
    StoreEngine,
    /// Run the first tick in the background.
    InitialTick,
}

/// What enabling sync does.
#[derive(Debug)]
pub enum EnablePlan {
    /// The engine already runs: nothing to do.
    AlreadyOn,
    /// These steps, in order.
    Run(Vec<EnableStep>),
}

/// The steps of `sync_enable`. Everything that can fail without touching
/// durable state (directories, log, watcher) comes first; then the
/// snapshot and manifest, the settings marker that commits "sync is on",
/// the data-directory repoint, the binary move last of the durable steps,
/// and only then the engine is stored, so a failed move leaves the command
/// retryable. Enabling refuses when there is no container or its parent
/// folder is missing.
pub fn plan_sync_enable(
    engine_running: bool,
    icloud_dir: Option<&str>,
    container_parent_exists: bool,
    local_dir: &str,
    device_uuid: &str,
) -> (r: Result<EnablePlan, SyncError>)
    ensures
        engine_running ==> r matches Ok(EnablePlan::AlreadyOn),
        !engine_running && (icloud_dir is None || !container_parent_exists) ==> r matches Err(
            SyncError::ICloudUnavailable,
        ),
        !engine_running && container_parent_exists ==> match icloud_dir {
            Some(d) => (r matches Ok(EnablePlan::Run(steps)) && steps@.len() == 16
                && (steps@[0] matches EnableStep::CreateDir(p) && p@ == join_spec(d@, "logs"@))
                && (steps@[1] matches EnableStep::CreateDir(p) && p@ == join_spec(d@, "devices"@))
                && (steps@[2] matches EnableStep::CreateDir(p) && p@ == join_spec(d@, "books"@))
                && (steps@[3] matches EnableStep::CreateDir(p) && p@ == join_spec(d@, "covers"@))
                && (steps@[4] matches EnableStep::OpenLog(p) && p@ == own_log_path_spec(d@, device_uuid@))
                && steps@[5] is SpawnWatcher
                && (steps@[6] matches EnableStep::PublishBootstrap(p) && p@ == snapshot_path_spec(d@, device_uuid@))
                && steps@[7] is WriteOwnManifest
                && steps@[8] is WriteSyncSettings
                && (steps@[9] matches EnableStep::RepointDataDir(p) && p@ == d@)
                && steps@[10] is QueueWrites
                && (steps@[11] matches EnableStep::MoveDir { from, to } && from@ == join_spec(local_dir@, "books"@)
                    && to@ == join_spec(d@, "books"@))
                && (steps@[12] matches EnableStep::MoveDir { from, to } && from@ == join_spec(local_dir@, "covers"@)
                    && to@ == join_spec(d@, "covers"@))
                && steps@[13] is WireLog
                && steps@[14] is StoreEngine
                && steps@[15] is InitialTick),
            None => true,
        },
{
    if engine_running {
        return Ok(EnablePlan::AlreadyOn);
    }
    let d = match icloud_dir {
        Some(d) => d,
        None => return Err(SyncError::ICloudUnavailable),
    };
    if !container_parent_exists {
        return Err(SyncError::ICloudUnavailable);
    }
    let mut steps: Vec<EnableStep> = Vec::new();
    steps.push(EnableStep::CreateDir(join(d, "logs")));
    steps.push(EnableStep::CreateDir(join(d, "devices")));
    steps.push(EnableStep::CreateDir(join(d, "books")));
    steps.push(EnableStep::CreateDir(join(d, "covers")));
    steps.push(EnableStep::OpenLog(own_log_path(d, device_uuid)));
    steps.push(EnableStep::SpawnWatcher);
    steps.push(EnableStep::PublishBootstrap(snapshot_path(d, device_uuid)));
    steps.push(EnableStep::WriteOwnManifest);
    steps.push(EnableStep::WriteSyncSettings);
    steps.push(EnableStep::RepointDataDir(owned(d)));
    steps.push(EnableStep::QueueWrites);
    steps.push(EnableStep::MoveDir { from: join(local_dir, "books"), to: join(d, "books") });
    steps.push(EnableStep::MoveDir { from: join(local_dir, "covers"), to: join(d, "covers") });
    steps.push(EnableStep::WireLog);
    steps.push(EnableStep::StoreEngine);
    steps.push(EnableStep::InitialTick);
    Ok(EnablePlan::Run(steps))
}

/// The copy-back jobs of `sync_disable`: books and covers from the shared
/// folder to local; none when no shared folder is known.
pub fn disable_copy_jobs(shared: Option<&str>, local_dir: &str) -> (jobs: Vec<(String, String)>)
    ensures
        match shared {
            None => jobs@.len() == 0,
            Some(ub) => jobs@.len() == 2
                && jobs@[0].0@ == join_spec(ub@, "books"@) && jobs@[0].1@ == join_spec(local_dir@, "books"@)
                && jobs@[1].0@ == join_spec(ub@, "covers"@) && jobs@[1].1@ == join_spec(local_dir@, "covers"@),
        },
{
    let mut jobs: Vec<(String, String)> = Vec::new();
    if let Some(ub) = shared {
        jobs.push((join(ub, "books"), join(local_dir, "books")));
        jobs.push((join(ub, "covers"), join(local_dir, "covers")));
    }
    jobs
}

/// One step of turning sync off once the copy-back succeeded.
#[derive(Debug)]
pub enum DisableStep {
    /// Drop the engine.
    DropEngine,
    /// Stop publishing: no log, no queue, no cover or flush workers.
    StopPublishing,
    /// Resolve book and cover paths against this (local) directory.
    RepointDataDir(String),
    /// Remove this device's manifest from this shared folder, best effort.
    DeleteOwnManifest(String),
    /// Remove the record that sync is on.
    RemoveSyncSettings,
    /// Clear an engine or watcher a racing boot installed meanwhile.
    ClearRacingBoot,
}

/// What follows the copy-back of `sync_disable`.
#[derive(Debug)]
pub enum DisableOutcome {
    /// The copy-back failed: sync stays on, with the watcher restored when
    /// one was running and can be respawned.
    KeepEnabled { restore_watcher: bool },
    /// The copy-back succeeded: these teardown steps, in order.
    TearDown(Vec<DisableStep>),
}

/// The decision after the copy-back. A failed copy changes no durable
/// state; only a completed one reaches the data-directory repoint and the
/// removal of the sync marker.
pub fn disable_after_copy(
    copy_ok: bool,
    had_watcher: bool,
    engine_present: bool,
    shared: Option<&str>,
    local_dir: &str,
) -> (o: DisableOutcome)
    ensures
        !copy_ok ==> o == (DisableOutcome::KeepEnabled {
            restore_watcher: had_watcher && shared is Some && engine_present,
        }),
        copy_ok ==> match shared {
            Some(ub) => (o matches DisableOutcome::TearDown(steps) && steps@.len() == 6
                && steps@[0] is DropEngine && steps@[1] is StopPublishing
                && (steps@[2] matches DisableStep::RepointDataDir(p) && p@ == local_dir@)
                && (steps@[3] matches DisableStep::DeleteOwnManifest(p) && p@ == ub@)
                && steps@[4] is RemoveSyncSettings && steps@[5] is ClearRacingBoot),
            None => (o matches DisableOutcome::TearDown(steps) && steps@.len() == 5
                && steps@[0] is DropEngine && steps@[1] is StopPublishing
                && (steps@[2] matches DisableStep::RepointDataDir(p) && p@ == local_dir@)
                && steps@[3] is RemoveSyncSettings && steps@[4] is ClearRacingBoot),
        },
{
    if !copy_ok {
        return DisableOutcome::KeepEnabled {
            restore_watcher: had_watcher && shared.is_some() && engine_present,
        };
    }
    let mut steps: Vec<DisableStep> = Vec::new();
    steps.push(DisableStep::DropEngine);
    steps.push(DisableStep::StopPublishing);
    steps.push(DisableStep::RepointDataDir(owned(local_dir)));
    if let Some(ub) = shared {
        steps.push(DisableStep::DeleteOwnManifest(owned(ub)));
    }
    steps.push(DisableStep::RemoveSyncSettings);
    steps.push(DisableStep::ClearRacingBoot);
    DisableOutcome::TearDown(steps)
}

} // verus!
