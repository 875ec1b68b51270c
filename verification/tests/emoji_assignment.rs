use entropy::app::{EntropyApp, StatusMessage, UndoAction};
use entropy::emoji_assignment::{
    emoji_assignment_error_key, target_old_keycode, EmojiAssignment, EmojiAssignmentError, EmojiPoll,
    EmojiAssignmentResult, EmojiAssignmentTarget, EmojiAssignmentTask,
};
use entropy::keyboard::{KeyboardLayout, Language, PhysicalKey};

fn task(target: EmojiAssignmentTarget, slot: usize) -> (EmojiAssignmentTask, std::sync::mpsc::Sender<EmojiAssignmentResult>) {
    let (sender, receiver) = std::sync::mpsc::channel();
    (
        EmojiAssignmentTask {
            receiver,
            target,
            assignment: EmojiAssignment { slot, actions: vec![7], text: vec![0x01, 0x02] },
            connection_generation: 0,
            started_at: std::time::Instant::now(),
        },
        sender,
    )
}

#[test]
fn error_keys_and_old_keycodes() {
    assert_eq!(
        emoji_assignment_error_key(EmojiAssignmentError::SaveFailed),
        "key_picker.emoji_save_failed"
    );
    assert_eq!(
        emoji_assignment_error_key(EmojiAssignmentError::NoFreeMacroSlot),
        "key_picker.emoji_no_free_macro_slot"
    );
    let key = EmojiAssignmentTarget::Key { layer: 0, key_idx: 1, row: 0, col: 1, old_keycode: 0x0004 };
    assert_eq!(target_old_keycode(&key), 0x0004);
    let enc = EmojiAssignmentTarget::Encoder {
        layer: 0,
        encoder_visual_idx: 0,
        encoder_idx: 0,
        direction: 1,
        old_keycode: 0x0005,
    };
    assert_eq!(target_old_keycode(&enc), 0x0005);
}

#[test]
fn finished_emoji_binds_the_macro_keycode_with_undo() {
    let mut app = EntropyApp::new(Language::English);
    app.layout = Some(KeyboardLayout {
        rows: 1,
        cols: 2,
        keys: vec![PhysicalKey { row: 0, col: 0 }, PhysicalKey { row: 0, col: 1 }],
        encoders: vec![],
        layers: vec![vec![0x0004, 0x0005]],
        encoder_layers: vec![vec![]],
    });
    app.keycode_picker.macro_actions = vec![vec![]; 4];
    app.keycode_picker.macro_texts = vec![vec![]; 4];
    app.keycode_picker.open = true;
    let target = EmojiAssignmentTarget::Key { layer: 0, key_idx: 1, row: 0, col: 1, old_keycode: 0x0005 };
    let (task, _sender) = task(target, 3);
    app.finish_emoji_assignment(task);
    assert_eq!(app.layout.as_ref().unwrap().layers[0], vec![0x0004, 0x7703]);
    assert_eq!(app.keycode_picker.macro_texts[3], vec![0x01, 0x02]);
    assert!(!app.keycode_picker.open);
    assert!(matches!(
        app.undo_stack.last(),
        Some(UndoAction::Key { layer: 0, key_idx: 1, old_binding: 0x0005 })
    ));
    assert!(matches!(
        app.status_msg,
        StatusMessage::Catalog { key: "status_messages.emoji_assignment_saved", .. }
    ));
}

#[test]
fn abandoned_emoji_write_is_staged_for_retry_under_a_new_generation() {
    let mut app = EntropyApp::new(Language::English);
    app.abandon_emoji_assignment();
    assert!(app.emoji_assignment_reclaim_task.is_none());
    let target = EmojiAssignmentTarget::Key { layer: 0, key_idx: 0, row: 0, col: 0, old_keycode: 0 };
    let (task, _sender) = task(target, 0);
    app.emoji_assignment_task = Some(task);
    app.hid_connection_generation = u64::MAX;
    app.abandon_emoji_assignment();
    assert!(app.emoji_assignment_task.is_none());
    assert!(app.emoji_assignment_reclaim_task.is_some());
    assert_eq!(app.hid_connection_generation, 0);
    assert_eq!(app.keycode_picker.emoji_assignment_error, Some(EmojiAssignmentError::WorkerStopped));
    assert!(app.keycode_picker.open);
}

#[test]
fn stale_emoji_completion_cannot_restore_hid_or_commit_picker_state() {
    let mut app = EntropyApp::new(Language::English);
    app.keycode_picker.macro_actions = vec![vec![]; 2];
    app.keycode_picker.macro_texts = vec![vec![]; 2];
    let target = EmojiAssignmentTarget::Key { layer: 0, key_idx: 0, row: 0, col: 0, old_keycode: 0 };
    let (task, _sender) = task(target, 0);
    app.emoji_assignment_task = Some(task);
    app.hid_connection_generation = 1;

    let again = app.poll_emoji_assignment(EmojiPoll::Report(EmojiAssignmentResult {
        hid_returned: true,
        result: Ok(()),
    }));

    assert!(!again);
    assert!(app.emoji_assignment_task.is_none());
    assert!(!app.hid_connected);
    assert!(app.keycode_picker.emoji_assignment.is_none());
    assert_eq!(app.keycode_picker.macro_texts[0], Vec::<u8>::new());
}

#[test]
fn failed_emoji_report_keeps_the_assignment_for_retry() {
    let mut app = EntropyApp::new(Language::English);
    app.keycode_picker.macro_actions = vec![vec![]; 2];
    app.keycode_picker.macro_texts = vec![vec![]; 2];
    let target = EmojiAssignmentTarget::Key { layer: 0, key_idx: 0, row: 0, col: 0, old_keycode: 0 };
    let (task, _sender) = task(target, 1);
    app.emoji_assignment_task = Some(task);
    assert!(app.poll_emoji_assignment(EmojiPoll::Waiting));
    assert!(app.emoji_assignment_task.is_some());

    app.poll_emoji_assignment(EmojiPoll::Report(EmojiAssignmentResult {
        hid_returned: true,
        result: Err("macro buffer readback did not match".into()),
    }));
    assert!(app.hid_connected);
    assert_eq!(app.keycode_picker.emoji_assignment_error, Some(EmojiAssignmentError::SaveFailed));
    assert_eq!(app.keycode_picker.emoji_assignment.as_ref().map(|a| a.slot), Some(1));
    assert!(app.keycode_picker.open);
    assert_eq!(app.keycode_picker.macro_texts[1], Vec::<u8>::new());
}

#[test]
fn hung_emoji_worker_stops_blocking_hid_lifecycle() {
    let mut app = EntropyApp::new(Language::English);
    app.hid_connected = true;
    let target = EmojiAssignmentTarget::Key { layer: 0, key_idx: 0, row: 0, col: 0, old_keycode: 0 };
    let (task, sender) = task(target, 0);
    app.emoji_assignment_task = Some(task);
    app.poll_emoji_assignment(EmojiPoll::TimedOut);
    assert!(app.emoji_assignment_task.is_none());
    assert!(app.emoji_assignment_reclaim_task.is_some());
    assert!(!app.hid_connected);
    assert!(app.hid_disconnect_pending);
    assert_eq!(app.keycode_picker.emoji_assignment_error, Some(EmojiAssignmentError::WorkerStopped));

    let nothing_yet = app.emoji_assignment_reclaim_task.as_ref().expect("reclaim").receiver.try_recv();
    assert!(app.poll_abandoned_emoji_assignment(nothing_yet));
    assert!(app.emoji_assignment_reclaim_task.is_some());
    assert!(sender.send(EmojiAssignmentResult { hid_returned: false, result: Ok(()) }).is_ok());
    let late = app.emoji_assignment_reclaim_task.as_ref().expect("reclaim").receiver.try_recv();
    assert!(!app.poll_abandoned_emoji_assignment(late));
    assert!(app.emoji_assignment_reclaim_task.is_none());
    assert!(!app.poll_abandoned_emoji_assignment(Err(std::sync::mpsc::TryRecvError::Disconnected)));
}

#[test]
fn starting_an_emoji_write_needs_a_keyboard_and_an_existing_slot() {
    let mut app = EntropyApp::new(Language::English);
    app.keycode_picker.macro_texts = vec![vec![9], vec![]];
    app.keycode_picker.result = Some(0x0004);
    let target = EmojiAssignmentTarget::Key { layer: 0, key_idx: 0, row: 0, col: 0, old_keycode: 0 };
    let assignment = EmojiAssignment { slot: 1, actions: vec![], text: vec![0x01, 0x02] };

    assert!(app.start_emoji_assignment(target, assignment.clone()).is_none());
    assert_eq!(app.keycode_picker.emoji_assignment_error, Some(EmojiAssignmentError::DeviceUnavailable));
    assert!(app.keycode_picker.result.is_none());

    app.hid_connected = true;
    let far = EmojiAssignment { slot: 5, ..assignment.clone() };
    assert!(app.start_emoji_assignment(target, far).is_none());
    assert_eq!(app.keycode_picker.emoji_assignment_error, Some(EmojiAssignmentError::TargetUnavailable));
    assert!(app.hid_connected);

    let job = app.start_emoji_assignment(target, assignment).expect("job");
    assert_eq!(job.previous_macros, vec![vec![9], vec![]]);
    assert_eq!(job.desired_macros, vec![vec![9], vec![0x01, 0x02]]);
    assert_eq!(job.keycode, 0x7701);
    assert!(!app.hid_connected);
    assert!(matches!(
        app.status_msg,
        StatusMessage::Catalog { key: "status_messages.emoji_assignment_saving", .. }
    ));
}

#[test]
fn abandoned_worker_cannot_deliver_a_late_completion() {
    let mut app = EntropyApp::new(Language::English);
    app.keycode_picker.macro_actions = vec![vec![]; 2];
    app.keycode_picker.macro_texts = vec![vec![]; 2];
    let target = EmojiAssignmentTarget::Key { layer: 0, key_idx: 0, row: 0, col: 0, old_keycode: 0 };
    let (task, sender) = task(target, 0);
    app.emoji_assignment_task = Some(task);

    app.abandon_emoji_assignment();

    assert!(sender.send(EmojiAssignmentResult { hid_returned: false, result: Ok(()) }).is_ok());
    let late = app.emoji_assignment_reclaim_task.as_ref().expect("reclaim").receiver.try_recv();
    assert!(!app.poll_abandoned_emoji_assignment(late));
    assert!(app.emoji_assignment_task.is_none());
    assert!(app.emoji_assignment_reclaim_task.is_none());
    assert_eq!(app.keycode_picker.macro_texts[0], Vec::<u8>::new());
}

#[test]
fn failed_emoji_completion_preserves_explicit_retry_state() {
    let mut app = EntropyApp::new(Language::English);
    app.hid_connected = true;
    app.keycode_picker.macro_actions = vec![vec![]; 2];
    app.keycode_picker.macro_texts = vec![vec![]; 2];
    let target = EmojiAssignmentTarget::Key { layer: 0, key_idx: 0, row: 0, col: 0, old_keycode: 0 };
    let (task, _sender) = task(target, 0);
    app.emoji_assignment_task = Some(task);

    app.poll_emoji_assignment(EmojiPoll::Report(EmojiAssignmentResult {
        hid_returned: false,
        result: Err("device disconnected".into()),
    }));

    assert!(app.emoji_assignment_task.is_none());
    assert!(app.keycode_picker.open);
    assert!(!app.hid_connected);
    assert!(app.hid_disconnect_pending);
    assert_eq!(app.keycode_picker.emoji_assignment.as_ref().map(|a| a.slot), Some(0));
    assert_eq!(app.keycode_picker.emoji_assignment_error, Some(EmojiAssignmentError::SaveFailed));
    assert_eq!(
        app.status_msg,
        StatusMessage::Catalog { key: "key_picker.emoji_save_failed", args: vec![] }
    );
}

#[test]
fn failed_emoji_completion_with_hid_keeps_connected_session_for_retry() {
    let mut app = EntropyApp::new(Language::English);
    app.keycode_picker.macro_actions = vec![vec![]; 2];
    app.keycode_picker.macro_texts = vec![vec![]; 2];
    let generation = app.hid_connection_generation;
    let target = EmojiAssignmentTarget::Key { layer: 0, key_idx: 0, row: 0, col: 0, old_keycode: 0 };
    let (task, _sender) = task(target, 0);
    app.emoji_assignment_task = Some(task);

    app.poll_emoji_assignment(EmojiPoll::Report(EmojiAssignmentResult {
        hid_returned: true,
        result: Err("write rejected".into()),
    }));

    assert!(app.emoji_assignment_task.is_none());
    assert!(app.hid_connected);
    assert!(!app.hid_disconnect_pending);
    assert_eq!(app.hid_connection_generation, generation);
    assert!(app.keycode_picker.open);
    assert_eq!(app.keycode_picker.emoji_assignment_error, Some(EmojiAssignmentError::SaveFailed));
}
