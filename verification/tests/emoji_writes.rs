use entropy::emoji_assignment::EmojiAssignmentTarget;
use entropy::emoji_writes::{
    macro_buffer_matches, write_emoji_assignment, write_target, EmojiWriteError, RollbackOutcome,
};
use std::cell::RefCell;

/// A keyboard kept in memory: its macro buffer, its keys and its encoders, and a log of
/// the writes it received.
struct FakeKeyboard {
    macros: RefCell<Vec<Vec<u8>>>,
    keys: RefCell<Vec<u16>>,
    encoder: RefCell<(u16, u16)>,
    log: RefCell<Vec<String>>,
    fail_macro_writes: bool,
    corrupt_readback: bool,
    encoder_ignores_writes: bool,
}

impl FakeKeyboard {
    fn new() -> Self {
        FakeKeyboard {
            macros: RefCell::new(vec![Vec::new(); 4]),
            keys: RefCell::new(vec![0x0004; 2]),
            encoder: RefCell::new((0x00E9, 0x00EA)),
            log: RefCell::new(Vec::new()),
            fail_macro_writes: false,
            corrupt_readback: false,
            encoder_ignores_writes: false,
        }
    }

    fn write(&self, previous: &[Vec<u8>], desired: &[Vec<u8>], target: &EmojiAssignmentTarget, keycode: u16) -> Result<(), EmojiWriteError> {
        write_emoji_assignment(
            &|| Ok(64),
            &|_layer, _row, col, kc| {
                self.log.borrow_mut().push(format!("key {col} {kc:#06X}"));
                self.keys.borrow_mut()[col as usize] = kc;
                Ok(())
            },
            &|_layer, _idx, direction, kc| {
                self.log.borrow_mut().push(format!("encoder {direction} {kc:#06X}"));
                if !self.encoder_ignores_writes {
                    let mut encoder = self.encoder.borrow_mut();
                    if direction == 0 { encoder.0 = kc } else { encoder.1 = kc }
                }
                Ok(())
            },
            &|_layer, _idx| Ok(*self.encoder.borrow()),
            &|macros: &[Vec<u8>], _size| {
                self.log.borrow_mut().push("macros".to_owned());
                if self.fail_macro_writes && macros[0] == vec![0x01, 0x02] {
                    return Err("device disconnected".to_owned());
                }
                *self.macros.borrow_mut() = macros.to_vec();
                Ok(())
            },
            &|_size, count| {
                let mut macros = self.macros.borrow().clone();
                macros.truncate(count as usize);
                if self.corrupt_readback {
                    macros[0] = vec![0xFF];
                }
                Ok(macros)
            },
            target,
            previous,
            desired,
            keycode,
        )
    }
}

fn macros_with_emoji() -> (Vec<Vec<u8>>, Vec<Vec<u8>>) {
    let previous = vec![Vec::new(); 4];
    let mut desired = previous.clone();
    desired[0] = vec![0x01, 0x02];
    (previous, desired)
}

#[test]
fn successful_assignment_writes_macros_then_the_key() {
    let keyboard = FakeKeyboard::new();
    let (previous, desired) = macros_with_emoji();
    let target = EmojiAssignmentTarget::Key { layer: 0, key_idx: 1, row: 0, col: 1, old_keycode: 0x0004 };
    assert_eq!(keyboard.write(&previous, &desired, &target, 0x7700), Ok(()));
    assert_eq!(*keyboard.log.borrow(), vec!["macros".to_owned(), "key 1 0x7700".to_owned()]);
    assert_eq!(keyboard.keys.borrow()[1], 0x7700);
    assert_eq!(keyboard.macros.borrow()[0], vec![0x01, 0x02]);
}

#[test]
fn macro_write_failure_rolls_back_without_committing_target() {
    let mut keyboard = FakeKeyboard::new();
    keyboard.fail_macro_writes = true;
    let (previous, desired) = macros_with_emoji();
    let target = EmojiAssignmentTarget::Key { layer: 0, key_idx: 0, row: 0, col: 0, old_keycode: 0x0004 };
    let result = keyboard.write(&previous, &desired, &target, 0x7700);
    assert_eq!(
        result,
        Err(EmojiWriteError::MacroWrite {
            error: "device disconnected".to_owned(),
            rollback: RollbackOutcome { target: Ok(()), macros: Ok(()) },
        })
    );
    assert_eq!(keyboard.keys.borrow()[0], 0x0004);
    assert_eq!(
        *keyboard.log.borrow(),
        vec!["macros".to_owned(), "key 0 0x0004".to_owned(), "macros".to_owned()]
    );
}

#[test]
fn macro_readback_mismatch_rolls_back_original_values() {
    let mut keyboard = FakeKeyboard::new();
    keyboard.corrupt_readback = true;
    let (previous, desired) = macros_with_emoji();
    let target = EmojiAssignmentTarget::Key { layer: 0, key_idx: 0, row: 0, col: 0, old_keycode: 0x0004 };
    match keyboard.write(&previous, &desired, &target, 0x7700) {
        Err(EmojiWriteError::MacroWrite { error, rollback }) => {
            assert_eq!(error, "macro buffer readback did not match requested assignment");
            assert_eq!(rollback.target, Ok(()));
            assert!(rollback.macros.is_err());
        }
        other => panic!("unexpected {other:?}"),
    }
}

#[test]
fn target_readback_mismatch_rolls_back_original_values() {
    let mut keyboard = FakeKeyboard::new();
    keyboard.encoder_ignores_writes = true;
    let (previous, desired) = macros_with_emoji();
    let target = EmojiAssignmentTarget::Encoder {
        layer: 0,
        encoder_visual_idx: 0,
        encoder_idx: 0,
        direction: 1,
        old_keycode: 0x00EA,
    };
    match keyboard.write(&previous, &desired, &target, 0x7700) {
        Err(EmojiWriteError::TargetWrite { error, rollback }) => {
            assert_eq!(error, "encoder readback did not match requested assignment");
            assert_eq!(rollback, RollbackOutcome { target: Ok(()), macros: Ok(()) });
        }
        other => panic!("unexpected {other:?}"),
    }
    assert_eq!(*keyboard.macros.borrow(), previous);
}

#[test]
fn unreadable_buffer_size_writes_nothing() {
    let target = EmojiAssignmentTarget::Key { layer: 0, key_idx: 0, row: 0, col: 0, old_keycode: 0 };
    let result = write_emoji_assignment(
        &|| Err("timeout".to_owned()),
        &|_, _, _, _| panic!("no key write"),
        &|_, _, _, _| panic!("no encoder write"),
        &|_, _| panic!("no encoder read"),
        &|_: &[Vec<u8>], _| panic!("no macro write"),
        &|_, _| panic!("no macro read"),
        &target,
        &[],
        &[],
        0x7700,
    );
    assert_eq!(result, Err(EmojiWriteError::BufferSize("timeout".to_owned())));
}

#[test]
fn too_many_macros_are_refused_after_the_write() {
    let macros = vec![Vec::new(); 300];
    let result = macro_buffer_matches(&|_: &[Vec<u8>], _| Ok(()), &|_, _| panic!("no read"), &macros, 64);
    assert_eq!(result, Err("too many macros".to_owned()));
    let key = EmojiAssignmentTarget::Key { layer: 2, key_idx: 0, row: 1, col: 3, old_keycode: 0 };
    let result = write_target(
        &|layer, row, col, kc| Err(format!("{layer} {row} {col} {kc}")),
        &|_, _, _, _| Ok(()),
        &|_, _| Ok((0, 0)),
        &key,
        5,
    );
    assert_eq!(result, Err("2 1 3 5".to_owned()));
}

/// A keyboard that speaks in requests: each macro-buffer transfer moves the buffer in
/// 28-byte chunks, a key write is a set and a readback, and a fault can cut the link after
/// a number of requests, for one request or for good.
struct RequestKeyboard {
    buffer_size: u16,
    buffer: RefCell<Vec<u8>>,
    keycode: RefCell<u16>,
    requests: RefCell<Vec<u8>>,
    fault_after: Option<usize>,
    persistent: bool,
    faulted: RefCell<bool>,
}

const CHUNK: usize = 28;

impl RequestKeyboard {
    fn new(buffer_size: u16, fault_after: Option<usize>, persistent: bool) -> Self {
        RequestKeyboard {
            buffer_size,
            buffer: RefCell::new(vec![0; buffer_size as usize]),
            keycode: RefCell::new(0),
            requests: RefCell::new(Vec::new()),
            fault_after,
            persistent,
            faulted: RefCell::new(false),
        }
    }

    /// Records a request with `command` and says whether the link carried it.
    fn request(&self, command: u8) -> Result<(), String> {
        self.requests.borrow_mut().push(command);
        let n = self.requests.borrow().len();
        if let Some(limit) = self.fault_after {
            if n > limit && (self.persistent || !*self.faulted.borrow()) {
                *self.faulted.borrow_mut() = true;
                return Err("device disconnected".to_owned());
            }
        }
        Ok(())
    }

    fn count(&self, command: u8) -> usize {
        self.requests.borrow().iter().filter(|c| **c == command).count()
    }

    fn encode(macros: &[Vec<u8>], size: u16) -> Vec<u8> {
        let mut bytes = Vec::new();
        for m in macros {
            bytes.extend_from_slice(m);
            bytes.push(0);
        }
        bytes.resize(size as usize, 0);
        bytes
    }

    fn parse(bytes: &[u8], count: usize) -> Vec<Vec<u8>> {
        let mut out: Vec<Vec<u8>> = bytes.split(|b| *b == 0).map(|s| s.to_vec()).take(count).collect();
        out.resize(count, Vec::new());
        out
    }

    fn entries(&self, count: usize) -> Vec<Vec<u8>> {
        Self::parse(&self.buffer.borrow(), count)
    }

    fn write(&self, previous: &[Vec<u8>], desired: &[Vec<u8>], keycode: u16) -> Result<(), EmojiWriteError> {
        let target = EmojiAssignmentTarget::Key { layer: 0, key_idx: 0, row: 0, col: 0, old_keycode: 0 };
        write_emoji_assignment(
            &|| {
                self.request(0x0D)?;
                Ok(self.buffer_size)
            },
            &|_layer, _row, _col, kc| {
                self.request(0x05)?;
                *self.keycode.borrow_mut() = kc;
                self.request(0x04)?;
                Ok(())
            },
            &|_, _, _, _| panic!("no encoder here"),
            &|_, _| panic!("no encoder here"),
            &|macros: &[Vec<u8>], size| {
                let bytes = Self::encode(macros, size);
                for (i, chunk) in bytes.chunks(CHUNK).enumerate() {
                    self.request(0x0F)?;
                    self.buffer.borrow_mut()[i * CHUNK..i * CHUNK + chunk.len()].copy_from_slice(chunk);
                }
                Ok(())
            },
            &|size, count| {
                for _ in (0..size as usize).step_by(CHUNK) {
                    self.request(0x0E)?;
                }
                Ok(self.entries(count as usize))
            },
            &target,
            previous,
            desired,
            keycode,
        )
    }
}

#[test]
fn partial_macro_write_failure_rolls_back_full_buffer() {
    // A 56-byte buffer takes two chunks; the link drops on the second one.
    let keyboard = RequestKeyboard::new(56, Some(2), false);
    let mut previous = vec![Vec::new(); 16];
    previous[0] = vec![0x01; 40];
    let mut desired = previous.clone();
    desired[0] = vec![0x02; 40];
    *keyboard.buffer.borrow_mut() = RequestKeyboard::encode(&previous, 56);

    let error = keyboard.write(&previous, &desired, 0x7700).expect_err("second macro chunk must fail");

    assert!(matches!(error, EmojiWriteError::MacroWrite { .. }));
    assert!(error.message().contains("macro-buffer write failed"));
    assert_eq!(keyboard.count(0x0F), 4, "two attempted chunks and two rollback chunks");
    assert_eq!(keyboard.entries(16), previous);
    assert_eq!(*keyboard.keycode.borrow(), 0);
}

#[test]
fn target_write_failure_restores_previous_macro_buffer() {
    // Size, macro write and readback succeed; the target write drops the link.
    let keyboard = RequestKeyboard::new(28, Some(3), false);
    let (previous, desired) = (vec![Vec::new(); 16], {
        let mut d = vec![Vec::new(); 16];
        d[0] = vec![0x01, 0x02];
        d
    });

    let error = keyboard.write(&previous, &desired, 0x7700).expect_err("target write must fail");

    assert!(matches!(error, EmojiWriteError::TargetWrite { .. }));
    assert!(error.message().contains("target write failed"));
    assert_eq!(keyboard.count(0x0F), 2, "save then rollback macro buffer");
    assert_eq!(keyboard.count(0x05), 2, "failed target write then rollback");
    assert_eq!(keyboard.entries(16), previous);
    assert_eq!(*keyboard.keycode.borrow(), 0);
}

#[test]
fn persistent_disconnect_reports_rollback_failure_without_claiming_restore() {
    let keyboard = RequestKeyboard::new(56, Some(2), true);
    let mut previous = vec![Vec::new(); 16];
    previous[0] = vec![0x01; 40];
    let mut desired = previous.clone();
    desired[0] = vec![0x02; 40];
    *keyboard.buffer.borrow_mut() = RequestKeyboard::encode(&previous, 56);

    let error = keyboard.write(&previous, &desired, 0x7700).expect_err("persistent disconnect must fail the transaction");

    assert!(error.message().contains("rollback failed"));
    let rollback = match error {
        EmojiWriteError::MacroWrite { rollback, .. } | EmojiWriteError::TargetWrite { rollback, .. } => rollback,
        other => panic!("unexpected {other:?}"),
    };
    assert!(rollback.target.is_err() || rollback.macros.is_err(), "rollback failed");
    assert_ne!(keyboard.entries(16), previous);
}

#[test]
fn successful_assignment_writes_each_transaction_step_once() {
    let keyboard = RequestKeyboard::new(28, None, false);
    let previous = vec![Vec::new(); 16];
    let mut desired = previous.clone();
    desired[0] = vec![0x01, 0x02];

    keyboard.write(&previous, &desired, 0x7700).expect("transaction must succeed");

    assert_eq!(keyboard.count(0x0F), 1);
    assert_eq!(keyboard.count(0x0E), 1);
    assert_eq!(keyboard.count(0x05), 1);
    assert_eq!(keyboard.count(0x04), 1);
}

#[test]
fn failure_messages_name_the_failed_write_and_the_rollback() {
    let completed = RollbackOutcome { target: Ok(()), macros: Ok(()) };
    assert_eq!(completed.message(), "rollback completed");
    let failed = RollbackOutcome { target: Err("gone".to_owned()), macros: Ok(()) };
    assert_eq!(failed.message(), "rollback failed (target: Err(gone), macros: Ok(()))");
    let error = EmojiWriteError::MacroWrite { error: "timeout".to_owned(), rollback: completed };
    assert_eq!(error.message(), "macro-buffer write failed: timeout; rollback completed");
    let error = EmojiWriteError::TargetWrite { error: "nak".to_owned(), rollback: failed };
    assert_eq!(
        error.message(),
        "target write failed: nak; rollback failed (target: Err(gone), macros: Ok(()))"
    );
    assert_eq!(EmojiWriteError::BufferSize("timeout".to_owned()).message(), "timeout");
}
