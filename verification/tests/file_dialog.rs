use entropy::app::{EntropyApp, StatusMessage};
use entropy::keyboard::Language;
use entropy::file_dialog::{
    can_start_file_dialog, classify_file_dialog_poll, device_generation_stale, dialog_result_stale,
    FileDialogAction, FileDialogPoll,
};
use std::path::PathBuf;
use std::sync::mpsc::TryRecvError;

#[test]
fn device_scoped_actions_are_classified_correctly() {
    assert!(FileDialogAction::ImportEntlayout.is_device_scoped());
    assert!(FileDialogAction::ExportEntlayout.is_device_scoped());
    assert!(FileDialogAction::ExportLayoutImage.is_device_scoped());
    assert!(!FileDialogAction::ImportEntsettings.is_device_scoped());
    assert!(!FileDialogAction::ExportEntsettings.is_device_scoped());
}

#[test]
fn device_scoped_result_is_stale_only_when_generation_changed() {
    assert!(!dialog_result_stale(FileDialogAction::ImportEntlayout, 7, 7));
    assert!(!dialog_result_stale(FileDialogAction::ExportEntlayout, 7, 7));
    assert!(dialog_result_stale(FileDialogAction::ImportEntlayout, 7, 8));
    assert!(dialog_result_stale(FileDialogAction::ExportLayoutImage, 7, 8));
}

#[test]
fn app_settings_result_never_stale() {
    assert!(!dialog_result_stale(FileDialogAction::ImportEntsettings, 1, 99));
    assert!(!dialog_result_stale(FileDialogAction::ExportEntsettings, 1, 99));
}

#[test]
fn deferred_import_generation_check() {
    assert!(!device_generation_stale(3, 3));
    assert!(device_generation_stale(3, 4));
}

#[test]
fn only_one_dialog_runs_at_a_time() {
    assert!(can_start_file_dialog(false));
    assert!(!can_start_file_dialog(true));
}

#[test]
fn poll_pending_keeps_waiting_without_freeing_the_slot() {
    let poll = classify_file_dialog_poll(
        Err(TryRecvError::Empty),
        FileDialogAction::ImportEntlayout,
        5,
        5,
    );
    assert_eq!(poll, FileDialogPoll::Pending);
}

#[test]
fn poll_success_dispatches_the_chosen_path() {
    let path = PathBuf::from("/tmp/layout.entlayout");
    let poll = classify_file_dialog_poll(
        Ok(Some(path.clone())),
        FileDialogAction::ImportEntlayout,
        5,
        5,
    );
    assert_eq!(poll, FileDialogPoll::Dispatch(path));
}

#[test]
fn poll_cancel_frees_the_slot_without_dispatching() {
    let poll = classify_file_dialog_poll(Ok(None), FileDialogAction::ExportLayoutImage, 5, 5);
    assert_eq!(poll, FileDialogPoll::Cancelled);
}

#[test]
fn poll_stale_device_discards_a_device_scoped_result() {
    let poll = classify_file_dialog_poll(
        Ok(Some(PathBuf::from("/tmp/b.entlayout"))),
        FileDialogAction::ExportEntlayout,
        5,
        6,
    );
    assert_eq!(poll, FileDialogPoll::StaleDevice);
}

#[test]
fn poll_device_change_still_dispatches_app_settings() {
    let path = PathBuf::from("/tmp/settings.entsettings");
    let poll = classify_file_dialog_poll(
        Ok(Some(path.clone())),
        FileDialogAction::ImportEntsettings,
        5,
        6,
    );
    assert_eq!(poll, FileDialogPoll::Dispatch(path));
}

#[test]
fn poll_worker_disconnect_is_surfaced_not_swallowed() {
    let poll = classify_file_dialog_poll(
        Err(TryRecvError::Disconnected),
        FileDialogAction::ImportEntlayout,
        5,
        5,
    );
    assert_eq!(poll, FileDialogPoll::WorkerLost);
}

#[test]
fn every_terminal_poll_outcome_frees_the_slot() {
    let terminal = [
        classify_file_dialog_poll(Ok(None), FileDialogAction::ImportEntlayout, 1, 1),
        classify_file_dialog_poll(
            Ok(Some(PathBuf::from("/tmp/x"))),
            FileDialogAction::ImportEntlayout,
            1,
            1,
        ),
        classify_file_dialog_poll(
            Ok(Some(PathBuf::from("/tmp/x"))),
            FileDialogAction::ExportEntlayout,
            1,
            2,
        ),
        classify_file_dialog_poll(
            Err(TryRecvError::Disconnected),
            FileDialogAction::ImportEntlayout,
            1,
            1,
        ),
    ];
    for outcome in terminal {
        assert_ne!(outcome, FileDialogPoll::Pending);
    }
}

#[test]
fn finishing_a_dispatch_hands_back_the_action_and_path() {
    let mut app = EntropyApp::new(Language::English);
    app.file_dialog_pending = Some((FileDialogAction::ExportEntlayout, 3));
    let dispatch = app.finish_file_dialog_poll(FileDialogPoll::Dispatch(PathBuf::from("/tmp/a.entlayout")));
    assert_eq!(
        dispatch,
        Some((FileDialogAction::ExportEntlayout, PathBuf::from("/tmp/a.entlayout")))
    );
    assert_eq!(app.file_dialog_pending, None);
}

#[test]
fn finishing_a_pending_poll_keeps_the_slot() {
    let mut app = EntropyApp::new(Language::English);
    app.file_dialog_pending = Some((FileDialogAction::ImportEntsettings, 0));
    assert_eq!(app.finish_file_dialog_poll(FileDialogPoll::Pending), None);
    assert_eq!(app.file_dialog_pending, Some((FileDialogAction::ImportEntsettings, 0)));
}

#[test]
fn finishing_a_stale_or_lost_dialog_reports_it() {
    let mut app = EntropyApp::new(Language::English);
    app.file_dialog_pending = Some((FileDialogAction::ImportEntlayout, 1));
    assert_eq!(app.finish_file_dialog_poll(FileDialogPoll::StaleDevice), None);
    assert_eq!(app.file_dialog_pending, None);
    assert_eq!(
        app.status_msg,
        StatusMessage::Catalog { key: "status_messages.file_dialog_device_changed", args: vec![] }
    );
    app.file_dialog_pending = Some((FileDialogAction::ExportLayoutImage, 1));
    assert_eq!(app.finish_file_dialog_poll(FileDialogPoll::WorkerLost), None);
    assert_eq!(app.file_dialog_pending, None);
    assert_eq!(
        app.status_msg,
        StatusMessage::Catalog { key: "status_messages.file_dialog_worker_lost", args: vec![] }
    );
    app.file_dialog_pending = Some((FileDialogAction::ExportLayoutImage, 1));
    assert_eq!(app.finish_file_dialog_poll(FileDialogPoll::Cancelled), None);
    assert_eq!(app.file_dialog_pending, None);
}

#[test]
fn a_dialog_claims_the_slot_under_the_current_connection() {
    let mut app = EntropyApp::new(Language::English);
    app.connection_generation = 4;
    assert!(app.begin_file_dialog(FileDialogAction::ExportLayoutImage));
    assert_eq!(app.file_dialog_pending, Some((FileDialogAction::ExportLayoutImage, 4)));
    assert!(!app.begin_file_dialog(FileDialogAction::ImportEntlayout));
    assert_eq!(app.file_dialog_pending, Some((FileDialogAction::ExportLayoutImage, 4)));
}
