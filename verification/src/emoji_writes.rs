//! The write of an emoji assignment to the keyboard: the macro buffer first, checked by
//! reading it back, then the target's binding; when a step fails, both are rolled back to
//! what they were. The keyboard's operations are handed in by the caller.
use vstd::prelude::*;

use crate::emoji_assignment::{old_keycode_of, EmojiAssignmentTarget};

verus! {

/// What a rollback achieved: the outcome of restoring the target's binding and of restoring
/// the macro buffer.
#[derive(Debug, PartialEq, Eq)]
pub struct RollbackOutcome {
    pub target: Result<(), String>,
    pub macros: Result<(), String>,
}

/// Why an emoji write failed.
#[derive(Debug, PartialEq, Eq)]
pub enum EmojiWriteError {
    /// The size of the macro buffer could not be read; nothing was written.
    BufferSize(String),
    /// Writing the macro buffer failed or did not read back as written; a rollback followed.
    MacroWrite { error: String, rollback: RollbackOutcome },
    /// Writing the target's binding failed or did not read back as written; a rollback
    /// followed.
    TargetWrite { error: String, rollback: RollbackOutcome },
}

/// How the outcome of one restoring step reads in a message: `Ok(())`, or `Err(` followed
/// by the keyboard's error and `)`.
pub open spec fn result_text(r: Result<(), String>) -> Seq<char> {
    match r {
        Ok(()) => "Ok(())"@,
        Err(e) => "Err("@ + e@ + ")"@,
    }
}

/// How a rollback reads in a message: that it completed when both steps succeeded, else
/// that it failed, with the outcome of each step.
pub open spec fn rollback_text(o: RollbackOutcome) -> Seq<char> {
    if o.target is Ok && o.macros is Ok {
        "rollback completed"@
    } else {
        "rollback failed (target: "@ + result_text(o.target) + ", macros: "@ + result_text(o.macros)
            + ")"@
    }
}

/// How a failed emoji write reads in a message: the keyboard's error when the buffer size
/// could not be read; else which write failed, its error, and how the rollback went.
pub open spec fn error_text(e: EmojiWriteError) -> Seq<char> {
    match e {
        EmojiWriteError::BufferSize(error) => error@,
        EmojiWriteError::MacroWrite { error, rollback } => "macro-buffer write failed: "@ + error@
            + "; "@ + rollback_text(rollback),
        EmojiWriteError::TargetWrite { error, rollback } => "target write failed: "@ + error@
            + "; "@ + rollback_text(rollback),
    }
}

fn append_result_text(out: &mut String, r: &Result<(), String>)
    ensures
        final(out)@ == old(out)@ + result_text(*r),
{
    match r {
        Ok(()) => {
            out.append("Ok(())");
        },
        Err(e) => {
            let ghost before = out@;
            out.append("Err(");
            out.append(e.as_str());
            out.append(")");
            assert(out@ =~= before + ("Err("@ + e@ + ")"@));
        },
    }
}

impl RollbackOutcome {
    /// The message that tells how the rollback went.
    pub fn message(&self) -> (text: String)
        ensures
            text@ == rollback_text(*self),
    {
        if self.target.is_ok() && self.macros.is_ok() {
            return String::from_str("rollback completed");
        }
        let mut out = String::from_str("rollback failed (target: ");
        append_result_text(&mut out, &self.target);
        out.append(", macros: ");
        append_result_text(&mut out, &self.macros);
        out.append(")");
        out
    }
}

fn append_rollback_text(out: &mut String, rollback: &RollbackOutcome)
    ensures
        final(out)@ == old(out)@ + rollback_text(*rollback),
{
    let ghost before = out@;
    let text = rollback.message();
    out.append(text.as_str());
    assert(out@ =~= before + rollback_text(*rollback));
}

impl EmojiWriteError {
    /// The message that reports the failure.
    pub fn message(&self) -> (text: String)
        ensures
            text@ == error_text(*self),
    {
        match self {
            EmojiWriteError::BufferSize(error) => error.clone(),
            EmojiWriteError::MacroWrite { error, rollback } => {
                let mut out = String::from_str("macro-buffer write failed: ");
                out.append(error.as_str());
                out.append("; ");
                append_rollback_text(&mut out, rollback);
                out
            },
            EmojiWriteError::TargetWrite { error, rollback } => {
                let mut out = String::from_str("target write failed: ");
                out.append(error.as_str());
                out.append("; ");
                append_rollback_text(&mut out, rollback);
                out
            },
        }
    }
}

/// The text of a failure that the keyboard did not report itself.
pub open spec fn is_text(s: String, text: &'static str) -> bool {
    s@ == text@
}

/// Whether `result` is what writing `macros` and reading the buffer back can give, when
/// the keyboard answered the write with `written` and the read with `read`: success
/// exactly when the write succeeded, the macros fit a byte count, and they read back
/// unchanged.
pub open spec fn macro_write_outcome(
    macros: Seq<Vec<u8>>,
    written: Result<(), String>,
    read: Result<Vec<Vec<u8>>, String>,
    result: Result<(), String>,
) -> bool {
    match written {
        Err(e) => result == Err::<(), String>(e),
        Ok(()) => if macros.len() > 255 {
            result matches Err(e) && is_text(e, "too many macros")
        } else {
            match read {
                Err(e) => result == Err::<(), String>(e),
                Ok(actual) => if actual@.map_values(|m: Vec<u8>| m@) == macros.map_values(|m: Vec<u8>| m@) {
                    result is Ok
                } else {
                    result matches Err(e) && is_text(
                        e,
                        "macro buffer readback did not match requested assignment",
                    )
                },
            }
        },
    }
}

/// Whether `result` is what writing the macros can give, given the keyboard's operations.
pub open spec fn macro_write_result<
    S: Fn(&[Vec<u8>], u16) -> Result<(), String>,
    R: Fn(u16, u8) -> Result<Vec<Vec<u8>>, String>,
>(set_buffer: S, read_buffer: R, macros: &[Vec<u8>], buffer_size: u16, result: Result<(), String>) -> bool {
    exists|written: Result<(), String>, read: Result<Vec<Vec<u8>>, String>|
        #[trigger] call_ensures(set_buffer, (macros, buffer_size), written) && (written is Ok
            && macros@.len() <= 255 ==> call_ensures(
            read_buffer,
            (buffer_size, macros@.len() as u8),
            read,
        )) && #[trigger] macro_write_outcome(macros@, written, read, result)
}

/// Whether `result` is what writing `keycode` to the target can give, when the keyboard
/// answered the write with `written` and, for an encoder, the read-back with `read`: a key
/// write's own answer; for an encoder, success exactly when the write succeeded and the
/// slot read back the keycode.
pub open spec fn target_write_outcome(
    target: EmojiAssignmentTarget,
    keycode: u16,
    written: Result<(), String>,
    read: Result<(u16, u16), String>,
    result: Result<(), String>,
) -> bool {
    match target {
        EmojiAssignmentTarget::Key { .. } => result == written,
        EmojiAssignmentTarget::Encoder { direction, .. } => match written {
            Err(e) => result == Err::<(), String>(e),
            Ok(()) => match read {
                Err(e) => result == Err::<(), String>(e),
                Ok((clockwise, counter_clockwise)) => if (if direction == 0 {
                    clockwise
                } else {
                    counter_clockwise
                }) == keycode {
                    result is Ok
                } else {
                    result matches Err(e) && is_text(
                        e,
                        "encoder readback did not match requested assignment",
                    )
                },
            },
        },
    }
}

/// Whether `result` is what writing `keycode` to the target can give, given the keyboard's
/// operations.
pub open spec fn target_write_result<
    K: Fn(u8, u8, u8, u16) -> Result<(), String>,
    E: Fn(u8, u8, u8, u16) -> Result<(), String>,
    G: Fn(u8, u8) -> Result<(u16, u16), String>,
>(
    set_keycode: K,
    set_encoder: E,
    get_encoder: G,
    target: EmojiAssignmentTarget,
    keycode: u16,
    result: Result<(), String>,
) -> bool {
    exists|written: Result<(), String>, read: Result<(u16, u16), String>|
        #[trigger] target_write_outcome(target, keycode, written, read, result) && match target {
            EmojiAssignmentTarget::Key { layer, row, col, .. } => call_ensures(
                set_keycode,
                (layer as u8, row, col, keycode),
                written,
            ),
            EmojiAssignmentTarget::Encoder { layer, encoder_idx, direction, .. } => call_ensures(
                set_encoder,
                (layer as u8, encoder_idx, direction, keycode),
                written,
            ) && (written is Ok ==> call_ensures(get_encoder, (layer as u8, encoder_idx), read)),
        }
}

/// Writes `macros` to the keyboard's macro buffer and reads it back: success only when the
/// buffer reads back exactly as written.
pub fn macro_buffer_matches<
    S: Fn(&[Vec<u8>], u16) -> Result<(), String>,
    R: Fn(u16, u8) -> Result<Vec<Vec<u8>>, String>,
>(set_buffer: &S, read_buffer: &R, macros: &[Vec<u8>], buffer_size: u16) -> (result: Result<(), String>)
    requires
        forall|m: &[Vec<u8>], size: u16| call_requires(*set_buffer, (m, size)),
        forall|size: u16, count: u8| call_requires(*read_buffer, (size, count)),
    ensures
        macro_write_result(*set_buffer, *read_buffer, macros, buffer_size, result),
{
    let written = set_buffer(macros, buffer_size);
    match written {
        Err(e) => {
            let ghost read = Err::<Vec<Vec<u8>>, String>(e);
            assert(macro_write_outcome(macros@, written, read, Err(e)));
            return Err(e);
        },
        Ok(()) => {},
    }
    if macros.len() > 255 {
        let e = String::from_str("too many macros");
        proof {
            let read = Err::<Vec<Vec<u8>>, String>(e);
            assert(macro_write_outcome(macros@, written, read, Err(e)));
        }
        return Err(e);
    }
    let count = macros.len() as u8;
    let read = read_buffer(buffer_size, count);
    let actual = match read {
        Err(e) => {
            assert(macro_write_outcome(macros@, written, read, Err(e)));
            return Err(e);
        },
        Ok(actual) => actual,
    };
    let same = same_macros(&actual, macros);
    if same {
        assert(macro_write_outcome(macros@, written, read, Ok(())));
        Ok(())
    } else {
        let e = String::from_str("macro buffer readback did not match requested assignment");
        assert(macro_write_outcome(macros@, written, read, Err(e)));
        Err(e)
    }
}

fn same_bytes(a: &Vec<u8>, b: &Vec<u8>) -> (same: bool)
    ensures
        same == (a@ == b@),
{
    if a.len() != b.len() {
        return false;
    }
    let mut i: usize = 0;
    while i < a.len()
        invariant
            a@.len() == b@.len(),
            i <= a@.len(),
            forall|j: int| 0 <= j < i ==> a@[j] == b@[j],
        decreases a@.len() - i,
    {
        if a[i] != b[i] {
            return false;
        }
        i = i + 1;
    }
    assert(a@ =~= b@);
    true
}

fn same_macros(actual: &Vec<Vec<u8>>, expected: &[Vec<u8>]) -> (same: bool)
    ensures
        same == (actual@.map_values(|m: Vec<u8>| m@) == expected@.map_values(|m: Vec<u8>| m@)),
{
    let ghost want = expected@.map_values(|m: Vec<u8>| m@);
    if actual.len() != expected.len() {
        assert(actual@.map_values(|m: Vec<u8>| m@).len() != want.len());
        return false;
    }
    let mut i: usize = 0;
    while i < actual.len()
        invariant
            actual@.len() == expected@.len(),
            want == expected@.map_values(|m: Vec<u8>| m@),
            i <= actual@.len(),
            forall|j: int| 0 <= j < i ==> actual@[j]@ == expected@[j]@,
        decreases actual@.len() - i,
    {
        if !same_bytes(&actual[i], &expected[i]) {
            assert(actual@.map_values(|m: Vec<u8>| m@)[i as int] != want[i as int]);
            return false;
        }
        i = i + 1;
    }
    assert(actual@.map_values(|m: Vec<u8>| m@) =~= want);
    true
}

/// Writes `keycode` to the target: a key directly; an encoder slot, then reads the slot
/// back, succeeding only when it holds the keycode.
pub fn write_target<
    K: Fn(u8, u8, u8, u16) -> Result<(), String>,
    E: Fn(u8, u8, u8, u16) -> Result<(), String>,
    G: Fn(u8, u8) -> Result<(u16, u16), String>,
>(set_keycode: &K, set_encoder: &E, get_encoder: &G, target: &EmojiAssignmentTarget, keycode: u16) -> (result: Result<(), String>)
    requires
        forall|a: u8, b: u8, c: u8, d: u16| call_requires(*set_keycode, (a, b, c, d)),
        forall|a: u8, b: u8, c: u8, d: u16| call_requires(*set_encoder, (a, b, c, d)),
        forall|a: u8, b: u8| call_requires(*get_encoder, (a, b)),
    ensures
        target_write_result(*set_keycode, *set_encoder, *get_encoder, *target, keycode, result),
{
    match target {
        EmojiAssignmentTarget::Key { layer, row, col, .. } => {
            #[verifier::truncate]
            let device_layer = *layer as u8;
            let written = set_keycode(device_layer, *row, *col, keycode);
            proof {
                let read = Err::<(u16, u16), String>(written->Err_0);
                assert(target_write_outcome(*target, keycode, written, read, written));
            }
            written
        },
        EmojiAssignmentTarget::Encoder { layer, encoder_idx, direction, .. } => {
            #[verifier::truncate]
            let device_layer = *layer as u8;
            let written = set_encoder(device_layer, *encoder_idx, *direction, keycode);
            if let Err(e) = written {
                proof {
                    let read = Err::<(u16, u16), String>(e);
                    assert(target_write_outcome(*target, keycode, written, read, Err(e)));
                }
                return Err(e);
            }
            let read = get_encoder(device_layer, *encoder_idx);
            let (clockwise, counter_clockwise) = match read {
                Err(e) => {
                    assert(target_write_outcome(*target, keycode, written, read, Err(e)));
                    return Err(e);
                },
                Ok(pair) => pair,
            };
            let actual = if *direction == 0 {
                clockwise
            } else {
                counter_clockwise
            };
            if actual != keycode {
                let e = String::from_str("encoder readback did not match requested assignment");
                assert(target_write_outcome(*target, keycode, written, read, Err(e)));
                return Err(e);
            }
            assert(target_write_outcome(*target, keycode, written, read, Ok(())));
            Ok(())
        },
    }
}


/// Whether a rollback's outcome is what restoring the target's old binding and the
/// previous macros can give, given the keyboard's operations.
pub open spec fn rollback_result<
    K: Fn(u8, u8, u8, u16) -> Result<(), String>,
    E: Fn(u8, u8, u8, u16) -> Result<(), String>,
    G: Fn(u8, u8) -> Result<(u16, u16), String>,
    S: Fn(&[Vec<u8>], u16) -> Result<(), String>,
    R: Fn(u16, u8) -> Result<Vec<Vec<u8>>, String>,
>(
    set_keycode: K,
    set_encoder: E,
    get_encoder: G,
    set_buffer: S,
    read_buffer: R,
    target: EmojiAssignmentTarget,
    macros: &[Vec<u8>],
    buffer_size: u16,
    outcome: RollbackOutcome,
) -> bool {
    &&& target_write_result(set_keycode, set_encoder, get_encoder, target, old_keycode_of(target), outcome.target)
    &&& macro_write_result(set_buffer, read_buffer, macros, buffer_size, outcome.macros)
}

/// Restores the target's old binding and the previous macros, and reports how each went.
pub fn rollback_assignment<
    K: Fn(u8, u8, u8, u16) -> Result<(), String>,
    E: Fn(u8, u8, u8, u16) -> Result<(), String>,
    G: Fn(u8, u8) -> Result<(u16, u16), String>,
    S: Fn(&[Vec<u8>], u16) -> Result<(), String>,
    R: Fn(u16, u8) -> Result<Vec<Vec<u8>>, String>,
>(
    set_keycode: &K,
    set_encoder: &E,
    get_encoder: &G,
    set_buffer: &S,
    read_buffer: &R,
    target: &EmojiAssignmentTarget,
    macros: &[Vec<u8>],
    buffer_size: u16,
) -> (outcome: RollbackOutcome)
    requires
        forall|a: u8, b: u8, c: u8, d: u16| call_requires(*set_keycode, (a, b, c, d)),
        forall|a: u8, b: u8, c: u8, d: u16| call_requires(*set_encoder, (a, b, c, d)),
        forall|a: u8, b: u8| call_requires(*get_encoder, (a, b)),
        forall|m: &[Vec<u8>], size: u16| call_requires(*set_buffer, (m, size)),
        forall|size: u16, count: u8| call_requires(*read_buffer, (size, count)),
    ensures
        rollback_result(
            *set_keycode,
            *set_encoder,
            *get_encoder,
            *set_buffer,
            *read_buffer,
            *target,
            macros,
            buffer_size,
            outcome,
        ),
{
    let target_result = write_target(set_keycode, set_encoder, get_encoder, target, crate::emoji_assignment::target_old_keycode(target));
    let macros_result = macro_buffer_matches(set_buffer, read_buffer, macros, buffer_size);
    RollbackOutcome { target: target_result, macros: macros_result }
}

/// Writes an emoji assignment: reads the macro buffer's size, writes the desired macros
/// (checked by reading them back), then the target's binding. When the macros or the
/// binding fail, both are rolled back to the previous macros and the old binding, and the
/// error carries the rollback's outcome. Success only when every step succeeded.
pub fn write_emoji_assignment<
    Z: Fn() -> Result<u16, String>,
    K: Fn(u8, u8, u8, u16) -> Result<(), String>,
    E: Fn(u8, u8, u8, u16) -> Result<(), String>,
    G: Fn(u8, u8) -> Result<(u16, u16), String>,
    S: Fn(&[Vec<u8>], u16) -> Result<(), String>,
    R: Fn(u16, u8) -> Result<Vec<Vec<u8>>, String>,
>(
    read_buffer_size: &Z,
    set_keycode: &K,
    set_encoder: &E,
    get_encoder: &G,
    set_buffer: &S,
    read_buffer: &R,
    target: &EmojiAssignmentTarget,
    previous_macros: &[Vec<u8>],
    desired_macros: &[Vec<u8>],
    keycode: u16,
) -> (result: Result<(), EmojiWriteError>)
    requires
        call_requires(*read_buffer_size, ()),
        forall|a: u8, b: u8, c: u8, d: u16| call_requires(*set_keycode, (a, b, c, d)),
        forall|a: u8, b: u8, c: u8, d: u16| call_requires(*set_encoder, (a, b, c, d)),
        forall|a: u8, b: u8| call_requires(*get_encoder, (a, b)),
        forall|m: &[Vec<u8>], size: u16| call_requires(*set_buffer, (m, size)),
        forall|size: u16, count: u8| call_requires(*read_buffer, (size, count)),
    ensures
        exists|size_read: Result<u16, String>|
            #[trigger] call_ensures(*read_buffer_size, (), size_read) && match size_read {
                Err(e) => result == Err::<(), EmojiWriteError>(EmojiWriteError::BufferSize(e)),
                Ok(size) => exists|macros_written: Result<(), String>|
                    #[trigger] macro_write_result(
                        *set_buffer,
                        *read_buffer,
                        desired_macros,
                        size,
                        macros_written,
                    ) && match macros_written {
                        Err(error) => result matches Err(
                            EmojiWriteError::MacroWrite { error: e, rollback },
                        ) && e == error && rollback_result(
                            *set_keycode,
                            *set_encoder,
                            *get_encoder,
                            *set_buffer,
                            *read_buffer,
                            *target,
                            previous_macros,
                            size,
                            rollback,
                        ),
                        Ok(()) => exists|target_written: Result<(), String>|
                            #[trigger] target_write_result(
                                *set_keycode,
                                *set_encoder,
                                *get_encoder,
                                *target,
                                keycode,
                                target_written,
                            ) && match target_written {
                                Err(error) => result matches Err(
                                    EmojiWriteError::TargetWrite { error: e, rollback },
                                ) && e == error && rollback_result(
                                    *set_keycode,
                                    *set_encoder,
                                    *get_encoder,
                                    *set_buffer,
                                    *read_buffer,
                                    *target,
                                    previous_macros,
                                    size,
                                    rollback,
                                ),
                                Ok(()) => result is Ok,
                            },
                    },
            },
{
    let size_read = read_buffer_size();
    let buffer_size = match size_read {
        Err(e) => return Err(EmojiWriteError::BufferSize(e)),
        Ok(size) => size,
    };
    let macros_written = macro_buffer_matches(set_buffer, read_buffer, desired_macros, buffer_size);
    if let Err(error) = macros_written {
        let rollback = rollback_assignment(
            set_keycode,
            set_encoder,
            get_encoder,
            set_buffer,
            read_buffer,
            target,
            previous_macros,
            buffer_size,
        );
        return Err(EmojiWriteError::MacroWrite { error, rollback });
    }
    let target_written = write_target(set_keycode, set_encoder, get_encoder, target, keycode);
    if let Err(error) = target_written {
        let rollback = rollback_assignment(
            set_keycode,
            set_encoder,
            get_encoder,
            set_buffer,
            read_buffer,
            target,
            previous_macros,
            buffer_size,
        );
        return Err(EmojiWriteError::TargetWrite { error, rollback });
    }
    Ok(())
}

} // verus!
