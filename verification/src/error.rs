//! The error taxonomy of the bridge, and the error for each native result code
//! and for each condition that the bridge itself gives rise to.

use vstd::prelude::*;

verus! {

/// The result code with which the native layer reports success.
pub const RESULT_OK: i32 = 1;

/// The result code with which the native layer reports a failure that it
/// gives no closer reason for.
pub const RESULT_FAIL: i32 = 2;

/// Every way in which a bridged operation can end without its result. An
/// event that belongs to no pending request is none of them: it is dropped
/// where it is seen, and no caller hears of it.
#[derive(Clone, Copy, Debug, PartialEq, Eq, Structural)]
pub enum BridgeError {
    /// The native call that starts an operation failed at once; no listener
    /// was ever registered for it.
    LaunchFailure,
    /// The native completion carried the given failure code.
    NativeFailure(i32),
    /// The deadline passed before a completion arrived; the operation was
    /// cancelled.
    Timeout,
    /// The handle or ticket that the operation needs was already released.
    AlreadyDisposed,
}

/// Whether `code` is one of the native layer's failure codes: those that
/// follow the success code.
pub open spec fn is_failure_code(code: i32) -> bool {
    code > RESULT_OK
}

/// The error that stands for a native result code: the code itself where it
/// is a failure code, the generic failure for every other value.
pub open spec fn translate_spec(code: i32) -> BridgeError {
    if is_failure_code(code) {
        BridgeError::NativeFailure(code)
    } else {
        BridgeError::NativeFailure(RESULT_FAIL)
    }
}

/// Translates a native result code into an error. Total: a value that is no
/// failure code, the success code included, gives the generic failure.
pub fn translate(code: i32) -> (err: BridgeError)
    ensures
        err == translate_spec(code),
{
    if code > RESULT_OK {
        BridgeError::NativeFailure(code)
    } else {
        BridgeError::NativeFailure(RESULT_FAIL)
    }
}

/// What can go wrong at a boundary of the bridge.
#[derive(Clone, Copy, Debug, PartialEq, Eq, Structural)]
pub enum Condition {
    /// A native completion reported the given result code.
    Completion(i32),
    /// The native call that starts an operation returned the given result
    /// code and started nothing.
    Launch(i32),
    /// The deadline of a request passed before its completion arrived.
    DeadlinePassed,
    /// The request was given up, or the handle or ticket that an operation
    /// needs was released.
    Disposed,
}

/// The error that stands for a condition. A completion is translated by its
/// code; a launch that failed is a launch failure whatever its code.
pub open spec fn error_of(condition: Condition) -> BridgeError {
    match condition {
        Condition::Completion(code) => translate_spec(code),
        Condition::Launch(_) => BridgeError::LaunchFailure,
        Condition::DeadlinePassed => BridgeError::Timeout,
        Condition::Disposed => BridgeError::AlreadyDisposed,
    }
}

/// Translates a condition into the error that the caller is given.
pub fn translate_condition(condition: Condition) -> (err: BridgeError)
    ensures
        err == error_of(condition),
{
    match condition {
        Condition::Completion(code) => translate(code),
        Condition::Launch(_) => BridgeError::LaunchFailure,
        Condition::DeadlinePassed => BridgeError::Timeout,
        Condition::Disposed => BridgeError::AlreadyDisposed,
    }
}

impl BridgeError {
    /// The words in which the host is told of the error.
    pub open spec fn reason_spec(self) -> Seq<char> {
        match self {
            BridgeError::LaunchFailure => "The native call could not start the operation."@,
            BridgeError::NativeFailure(_) => "The native layer reported a failure."@,
            BridgeError::Timeout => "Steam didn't validated the ticket in time."@,
            BridgeError::AlreadyDisposed => "The operation was given up before it completed."@,
        }
    }

    /// The words in which the host is told of the error.
    pub fn reason(&self) -> (text: String)
        ensures
            text@ == self.reason_spec(),
    {
        match self {
            BridgeError::LaunchFailure => "The native call could not start the operation.".to_owned(),
            BridgeError::NativeFailure(_) => "The native layer reported a failure.".to_owned(),
            BridgeError::Timeout => "Steam didn't validated the ticket in time.".to_owned(),
            BridgeError::AlreadyDisposed => "The operation was given up before it completed.".to_owned(),
        }
    }

    /// The failure code that the native layer gave, where the error stands
    /// for one.
    pub fn native_code(&self) -> (code: Option<i32>)
        ensures
            code == (match *self {
                BridgeError::NativeFailure(code) => Some(code),
                _ => None,
            }),
    {
        match self {
            BridgeError::NativeFailure(code) => Some(*code),
            _ => None,
        }
    }
}

/// Every result code has its error, and the error is always a native failure
/// whose code is a failure code: a failure code gives itself, every other
/// value the generic failure, and the code of the error gives the same error
/// again.
pub proof fn lemma_translate_total(code: i32)
    ensures
        translate_spec(code) matches BridgeError::NativeFailure(translated) && is_failure_code(
            translated,
        ) && translate_spec(translated) == translate_spec(code),
        is_failure_code(code) ==> translate_spec(code) == BridgeError::NativeFailure(code),
        !is_failure_code(code) ==> translate_spec(code) == BridgeError::NativeFailure(RESULT_FAIL),
{
}

} // verus!
