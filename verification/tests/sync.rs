use std::sync::Arc;

use quill::sync::{
    boot_tick_kind, bootstrap_publish_needed, disable_after_copy, disable_copy_jobs,
    display_file_name, engine_boot_dir, icloud_placeholder_for, own_log_path, plan_launch, plan_copy_entry, plan_move_entry,
    plan_sync_enable, rebuild_marker_is_set, rebuild_next, rebuild_resume, rebuild_start,
    resolve_shared_dir, settle_rebuild_marker, should_move_entry, snapshot_path, sync_status,
    wait_step, wipe_statements, DisableCopyProgress, DisableOutcome, DisableStep, EnablePlan,
    EnableStep, PeerInfo, RebuildAction, RebuildEvent, SyncError, SyncState, TickKind, WaitStep,
};

fn peer(uuid: &str) -> PeerInfo {
    PeerInfo {
        device_uuid: uuid.to_string(),
        name: "Mac".to_string(),
        platform: "macos".to_string(),
        app_version: "1.0.0".to_string(),
        last_seen: 42,
        pending_events: 0,
    }
}

#[test]
fn engine_snapshot_shares_the_running_engine() {
    let state: SyncState<u32, ()> = SyncState::new(Some(Arc::new(7)), None);
    let snap = state.engine_snapshot().unwrap();
    assert_eq!(*snap, 7);
    assert!(Arc::ptr_eq(&snap, state.engine.as_ref().unwrap()));
    let off: SyncState<u32, ()> = SyncState::new(None, None);
    assert!(off.engine_snapshot().is_none());
    let err = off.require_engine().unwrap_err();
    assert!(matches!(err, SyncError::NotEnabled));
    assert_eq!(err.message(), "sync is not enabled on this device");
}

#[test]
fn error_messages() {
    assert_eq!(
        SyncError::ICloudUnavailable.message(),
        "iCloud is not available — sign in to iCloud and try again"
    );
    assert_eq!(SyncError::SharedDirUnavailable.message(), "iCloud shared folder is not available");
    assert_eq!(
        SyncError::InvalidPlaceholder("/x".to_string()).message(),
        "invalid iCloud placeholder under /x"
    );
    assert_eq!(
        SyncError::DownloadTimedOut("/x/a.epub".to_string()).message(),
        "Cannot disable sync: iCloud has not downloaded /x/a.epub yet. Downloads have been triggered; try again once iCloud finishes."
    );
}

#[test]
fn shared_dir_prefers_the_recorded_folder() {
    let s = |x: &str| Some(x.to_string());
    assert_eq!(resolve_shared_dir(s("/rec"), s("/ic")), s("/rec"));
    assert_eq!(resolve_shared_dir(None, s("/ic")), s("/ic"));
    assert_eq!(resolve_shared_dir(None, None), None);
}

#[test]
fn status_hides_peers_while_sync_is_off() {
    let on = sync_status(true, true, false, true, Some("/s".to_string()), "u".into(), "Mac".into(), vec![peer("p")], 3, Some(9));
    assert!(on.enabled && on.available && on.sync_enabled);
    assert_eq!(on.peers.len(), 1);
    assert_eq!(on.pending_events, 3);
    assert_eq!(on.last_replay_at, Some(9));
    let off = sync_status(false, false, false, false, None, "u".into(), "Mac".into(), vec![peer("p")], 3, Some(9));
    assert!(!off.available);
    assert!(off.peers.is_empty());
    assert_eq!(off.pending_events, 0);
    assert_eq!(off.last_replay_at, None);
}

#[test]
fn disable_progress_never_passes_the_total() {
    let mut p = DisableCopyProgress::new(2);
    p.complete();
    p.complete();
    p.complete();
    assert_eq!(p.copied(), 2);
    assert_eq!(p.total(), 2);
    let r = p.report("copying", Some("a.epub".to_string()));
    assert_eq!((r.phase.as_str(), r.copied, r.total), ("copying", 2, 2));
    assert_eq!(r.current.as_deref(), Some("a.epub"));
}

#[test]
fn display_names_and_placeholders() {
    assert_eq!(display_file_name("/data/books/a.epub"), "a.epub");
    assert_eq!(display_file_name("/"), "/");
    assert_eq!(icloud_placeholder_for("/d/foo.epub").as_deref(), Some("/d/.foo.epub.icloud"));
}

#[test]
fn move_skips_present_or_evicted_targets() {
    let m = plan_move_entry("/icloud/books", "real.epub");
    assert_eq!(m.target, "/icloud/books/real.epub");
    assert_eq!(m.placeholder.as_deref(), Some("/icloud/books/.real.epub.icloud"));
    assert!(should_move_entry(false, false));
    assert!(!should_move_entry(true, false));
    assert!(!should_move_entry(false, true));
}

#[test]
fn copy_reads_the_real_file_of_a_placeholder() {
    let plain = plan_copy_entry("/icloud", "/local", "good.epub").unwrap();
    assert_eq!((plain.source.as_str(), plain.target.as_str(), plain.needs_download), ("/icloud/good.epub", "/local/good.epub", false));
    let evicted = plan_copy_entry("/icloud", "/local", ".evicted.epub.icloud").unwrap();
    assert_eq!(evicted.source, "/icloud/evicted.epub");
    assert_eq!(evicted.target, "/local/evicted.epub");
    assert!(evicted.needs_download);
}

#[test]
fn wait_for_download_rounds() {
    assert_eq!(wait_step(true, 999_999, 10), WaitStep::Ready);
    assert_eq!(wait_step(false, 10, 10), WaitStep::TimedOut);
    assert_eq!(wait_step(false, 9, 10), WaitStep::Poll);
}

#[test]
fn marker_and_tick_decisions() {
    assert!(rebuild_marker_is_set(Some("true")));
    assert!(!rebuild_marker_is_set(Some("false")));
    assert!(!rebuild_marker_is_set(None));
    assert_eq!(boot_tick_kind(true), TickKind::ResumeRebuild);
    assert_eq!(boot_tick_kind(false), TickKind::Tick);
    assert!(bootstrap_publish_needed(false));
    assert!(!bootstrap_publish_needed(true));
    assert!(settle_rebuild_marker(false));
    assert!(!settle_rebuild_marker(true));
}

#[test]
fn stale_cancel_before_rebuild_is_ignored() {
    let gen = 5;
    let (run, a) = rebuild_start(gen, false);
    assert_eq!(a, RebuildAction::PreTick);
    let (run, a) = rebuild_next(run, RebuildEvent::TickDone { cancelled: false, generation: gen });
    assert_eq!(a, RebuildAction::Publish);
    let (run, a) = rebuild_next(run, RebuildEvent::Published { generation: gen });
    assert_eq!(a, RebuildAction::SetMarker);
    let (run, a) = rebuild_next(run, RebuildEvent::MarkerWritten);
    assert_eq!(a, RebuildAction::WipeAndReplay);
    let (run, a) = rebuild_next(run, RebuildEvent::TickDone { cancelled: false, generation: gen });
    assert_eq!(a, RebuildAction::ClearMarker);
    let (run, a) = rebuild_next(run, RebuildEvent::MarkerCleared);
    assert_eq!(a, RebuildAction::Finish { cancelled: false });
    assert!(!run.marker_set);
}

#[test]
fn cancel_after_the_final_gate_retains_the_marker() {
    let (run, a) = rebuild_resume(3);
    assert_eq!(a, RebuildAction::WipeAndReplay);
    let (run, a) = rebuild_next(run, RebuildEvent::TickDone { cancelled: false, generation: 4 });
    assert_eq!(a, RebuildAction::Finish { cancelled: true });
    assert!(run.marker_set && run.cancelled);
}

#[test]
fn cancel_before_the_marker_aborts_without_wiping() {
    let (run, _) = rebuild_start(1, false);
    let (_, a) = rebuild_next(run, RebuildEvent::TickDone { cancelled: true, generation: 1 });
    assert_eq!(a, RebuildAction::Finish { cancelled: true });
    let (run, _) = rebuild_start(1, false);
    let (run, _) = rebuild_next(run, RebuildEvent::TickDone { cancelled: false, generation: 1 });
    let (run, a) = rebuild_next(run, RebuildEvent::Published { generation: 2 });
    assert_eq!(a, RebuildAction::Finish { cancelled: true });
    assert!(!run.marker_set);
}

#[test]
fn rebuild_retry_after_interruption_does_not_republish_partial_state() {
    // The first run got as far as the wipe: the marker is set.
    let (run, a) = rebuild_start(0, true);
    assert_eq!(a, RebuildAction::WipeAndReplay, "a retry with the marker set never publishes again");
    assert!(run.marker_set);
    let (run, a) = rebuild_next(run, RebuildEvent::TickDone { cancelled: false, generation: 0 });
    assert_eq!(a, RebuildAction::ClearMarker);
    let (run, a) = rebuild_next(run, RebuildEvent::MarkerCleared);
    assert_eq!(a, RebuildAction::Finish { cancelled: false });
    assert!(!run.marker_set);
}

#[test]
fn interrupted_rebuild_resumes_on_next_launch() {
    // First launch: pre-tick, publish, marker, then the process dies
    // during the wipe and replay.
    let gen = 1000;
    let (run, a) = rebuild_start(gen, false);
    assert_eq!(a, RebuildAction::PreTick);
    let (run, a) = rebuild_next(run, RebuildEvent::TickDone { cancelled: false, generation: gen });
    assert_eq!(a, RebuildAction::Publish);
    let (run, a) = rebuild_next(run, RebuildEvent::Published { generation: gen });
    assert_eq!(a, RebuildAction::SetMarker);
    let (run, a) = rebuild_next(run, RebuildEvent::MarkerWritten);
    assert_eq!(a, RebuildAction::WipeAndReplay, "half-finished rebuild: library is wiped");
    assert!(run.marker_set, "marker survives the wipe");

    // Next launch: the stored marker sends boot into the resume.
    assert!(rebuild_marker_is_set(Some("true")));
    assert_eq!(boot_tick_kind(rebuild_marker_is_set(Some("true"))), TickKind::ResumeRebuild);
    let (run, a) = rebuild_resume(0);
    assert_eq!(a, RebuildAction::WipeAndReplay);
    let (run, a) = rebuild_next(run, RebuildEvent::TickDone { cancelled: false, generation: 0 });
    assert_eq!(a, RebuildAction::ClearMarker, "resume must converge");
    let (run, a) = rebuild_next(run, RebuildEvent::MarkerCleared);
    assert_eq!(a, RebuildAction::Finish { cancelled: false });
    assert!(!run.marker_set, "marker clears after the resumed replay completes");

    // A second launch finds no marker: the plain tick runs.
    assert_eq!(boot_tick_kind(rebuild_marker_is_set(None)), TickKind::Tick);
}

#[test]
fn enable_publish_is_skipped_while_rebuild_pending() {
    // The marker is set and the tables were wiped: enabling sync keeps the
    // pre-wipe snapshot rather than publishing the partial database.
    assert!(
        !bootstrap_publish_needed(rebuild_marker_is_set(Some("true"))),
        "the pre-wipe snapshot must not be overwritten while the marker is set",
    );
    assert!(bootstrap_publish_needed(rebuild_marker_is_set(None)));
    // The enable tick's resume then completes the rebuild.
    let (run, a) = rebuild_resume(7);
    assert_eq!(a, RebuildAction::WipeAndReplay);
    let (run, _) = rebuild_next(run, RebuildEvent::TickDone { cancelled: false, generation: 7 });
    let (run, a) = rebuild_next(run, RebuildEvent::MarkerCleared);
    assert_eq!(a, RebuildAction::Finish { cancelled: false });
    assert!(!run.marker_set);
}

#[test]
fn rebuild_right_after_delete_keeps_books_deleted_without_prior_tick() {
    // Pending local deletes land as tombstones in the fold tick that a
    // fresh rebuild runs before it publishes anything.
    let (run, a) = rebuild_start(3, false);
    assert_eq!(a, RebuildAction::PreTick);
    let (_, a) = rebuild_next(run, RebuildEvent::TickDone { cancelled: false, generation: 3 });
    assert_eq!(a, RebuildAction::Publish);
}

#[test]
fn rebuild_publishes_local_state_before_wiping() {
    let (run, _) = rebuild_start(9, false);
    let (run, a) = rebuild_next(run, RebuildEvent::TickDone { cancelled: false, generation: 9 });
    assert_eq!(a, RebuildAction::Publish);
    let (run, a) = rebuild_next(run, RebuildEvent::Published { generation: 9 });
    assert_eq!(a, RebuildAction::SetMarker);
    assert!(!run.marker_set);
    let (_, a) = rebuild_next(run, RebuildEvent::MarkerWritten);
    assert_eq!(a, RebuildAction::WipeAndReplay);
}

#[test]
fn wipe_clears_synced_tables_and_watermarks_only() {
    let stmts = wipe_statements();
    assert_eq!(
        stmts,
        vec![
            "DELETE FROM chat_messages",
            "DELETE FROM chats",
            "DELETE FROM collection_books",
            "DELETE FROM collections",
            "DELETE FROM vocab_words",
            "DELETE FROM bookmarks",
            "DELETE FROM highlights",
            "DELETE FROM books",
            "DELETE FROM _replay_state",
        ]
    );
    for kept in ["settings", "book_settings", "_tombstones", "_pending_publish", "translations"] {
        assert!(!stmts.iter().any(|s| s == &format!("DELETE FROM {kept}")));
    }
}

#[test]
fn log_and_snapshot_paths() {
    assert_eq!(own_log_path("/s", "dev1"), "/s/logs/dev1.jsonl");
    assert_eq!(snapshot_path("/s/", "dev1"), "/s/logs/dev1.snapshot.json");
}

#[test]
fn enable_plan_orders_durable_steps_last() {
    assert!(matches!(plan_sync_enable(true, None, false, "/l", "u"), Ok(EnablePlan::AlreadyOn)));
    assert!(matches!(plan_sync_enable(false, None, true, "/l", "u"), Err(SyncError::ICloudUnavailable)));
    assert!(matches!(plan_sync_enable(false, Some("/ic"), false, "/l", "u"), Err(SyncError::ICloudUnavailable)));
    let steps = match plan_sync_enable(false, Some("/ic"), true, "/l", "u").unwrap() {
        EnablePlan::Run(s) => s,
        EnablePlan::AlreadyOn => panic!("engine was not running"),
    };
    assert_eq!(steps.len(), 16);
    assert!(matches!(&steps[4], EnableStep::OpenLog(p) if p == "/ic/logs/u.jsonl"));
    let pos = |f: &dyn Fn(&EnableStep) -> bool| steps.iter().position(|s| f(s)).unwrap();
    let watcher = pos(&|s| matches!(s, EnableStep::SpawnWatcher));
    let marker = pos(&|s| matches!(s, EnableStep::WriteSyncSettings));
    let repoint = pos(&|s| matches!(s, EnableStep::RepointDataDir(_)));
    let mv = pos(&|s| matches!(s, EnableStep::MoveDir { .. }));
    let store = pos(&|s| matches!(s, EnableStep::StoreEngine));
    assert!(watcher < marker && marker < repoint && repoint < mv && mv < store);
    assert!(matches!(&steps[11], EnableStep::MoveDir { from, to } if from == "/l/books" && to == "/ic/books"));
}

#[test]
fn disable_keeps_sync_on_when_copy_back_fails() {
    let jobs = disable_copy_jobs(Some("/ub"), "/l");
    assert_eq!(
        jobs,
        vec![
            ("/ub/books".to_string(), "/l/books".to_string()),
            ("/ub/covers".to_string(), "/l/covers".to_string())
        ]
    );
    assert!(disable_copy_jobs(None, "/l").is_empty());
    assert!(matches!(disable_after_copy(false, true, true, Some("/ub"), "/l"), DisableOutcome::KeepEnabled { restore_watcher: true }));
    assert!(matches!(disable_after_copy(false, true, false, Some("/ub"), "/l"), DisableOutcome::KeepEnabled { restore_watcher: false }));
    match disable_after_copy(true, true, true, Some("/ub"), "/l") {
        DisableOutcome::TearDown(steps) => {
            assert_eq!(steps.len(), 6);
            assert!(matches!(&steps[2], DisableStep::RepointDataDir(p) if p == "/l"));
            assert!(matches!(&steps[3], DisableStep::DeleteOwnManifest(p) if p == "/ub"));
            assert!(matches!(&steps[4], DisableStep::RemoveSyncSettings));
        }
        DisableOutcome::KeepEnabled { .. } => panic!("copy-back succeeded"),
    }
}

#[test]
fn settle_rebuild_marker_follows_the_tick_report() {
    assert!(!settle_rebuild_marker(true), "cancelled replay must keep the marker");
    assert!(settle_rebuild_marker(false), "completed replay must clear the marker");
}

#[test]
fn launch_clears_a_marker_that_outlived_its_database() {
    let p = plan_launch("/local", false, true, Some("/shared".to_string()), None);
    assert!(p.clear_stale_marker);
    assert!(!p.sync_on);
    assert_eq!(p.shared_dir, None);
    assert_eq!(p.data_dir, "/local");
    assert_eq!(engine_boot_dir(&p, true), None);
}

#[test]
fn launch_with_sync_on_keeps_blobs_in_the_shared_folder() {
    let p = plan_launch("/local", true, true, None, Some("/icloud/Documents".to_string()));
    assert!(!p.clear_stale_marker);
    assert!(p.sync_on);
    assert_eq!(p.data_dir, "/icloud/Documents");
    assert_eq!(engine_boot_dir(&p, true).as_deref(), Some("/icloud/Documents"));
    assert_eq!(engine_boot_dir(&p, false), None, "unreachable container: boot skipped");
    let recorded = plan_launch("/local", true, true, Some("/rec".to_string()), Some("/icloud".to_string()));
    assert_eq!(recorded.data_dir, "/rec");
    let off = plan_launch("/local", true, false, Some("/rec".to_string()), Some("/icloud".to_string()));
    assert!(!off.sync_on && !off.clear_stale_marker);
    assert_eq!(off.data_dir, "/local");
}

#[test]
fn rebuild_error_before_marker_leaves_it_unset() {
    let (run, _) = rebuild_start(7, false);
    let (run, a) = rebuild_next(run, RebuildEvent::TickDone { cancelled: false, generation: 7 });
    assert_eq!(a, RebuildAction::Publish);
    let (run, a) = rebuild_next(run, RebuildEvent::Failed);
    assert_eq!(a, RebuildAction::Fail);
    assert!(run.failed);
    assert!(!run.marker_set, "a failed publish wipes nothing and sets no marker");
}

#[test]
fn rebuild_error_in_replay_keeps_marker() {
    let (run, a) = rebuild_resume(2);
    assert_eq!(a, RebuildAction::WipeAndReplay);
    let (run, a) = rebuild_next(run, RebuildEvent::Failed);
    assert_eq!(a, RebuildAction::Fail);
    assert!(run.marker_set, "the next launch resumes");
    let (_, a) = rebuild_next(run, RebuildEvent::MarkerCleared);
    assert_eq!(a, RebuildAction::Finish { cancelled: false });
}
