//! The completion convention: every invocation ends in one call of the
//! caller's completion callback, made here for a result that is at hand, or
//! handed to the ledger request builder as a continuation that makes it when
//! the builder reports.

use vstd::prelude::*;
use crate::code::ErrorCode;
use crate::operation::{Action, OperationResult};

verus! {

/// The caller's completion callback bound to the caller's correlation token.
/// Completing consumes it, so it completes at most once.
pub struct Continuation<F> {
    pub cmd_handle: i32,
    pub cb: F,
}

impl<F: FnOnce(i32, ErrorCode, String) -> ErrorCode> Continuation<F> {
    /// Binds the callback to the token.
    pub fn new(cmd_handle: i32, cb: F) -> (k: Self)
        ensures
            k.cmd_handle == cmd_handle,
            k.cb == cb,
    {
        Continuation { cmd_handle, cb }
    }

    /// Hands the callback what the builder reported: the token it was bound
    /// to, and the code and payload, both unchanged. Returns the status that
    /// the callback reports.
    pub fn complete(self, code: ErrorCode, payload: String) -> (status: ErrorCode)
        requires
            call_requires(self.cb, (self.cmd_handle, code, payload)),
        ensures
            call_ensures(self.cb, (self.cmd_handle, code, payload), status),
    {
        (self.cb)(self.cmd_handle, code, payload)
    }
}

/// Delivers a result that is at hand: calls the callback with the token, the
/// result's code and its payload, and returns the status that it reports.
pub fn deliver<F: FnOnce(i32, ErrorCode, String) -> ErrorCode>(
    cmd_handle: i32,
    result: OperationResult,
    cb: F,
) -> (status: ErrorCode)
    requires
        call_requires(cb, (cmd_handle, result.code, result.payload)),
    ensures
        call_ensures(cb, (cmd_handle, result.code, result.payload), status),
{
    cb(cmd_handle, result.code, result.payload)
}

/// What it means that `action` was carried out with status `status`: the
/// callback was called on the result and reported `status`, or the builder
/// was called on the fixed identity and sequence number with the callback as
/// its continuation, and reported `status` for the dispatch.
pub open spec fn performed<F, B>(
    action: Action,
    cmd_handle: i32,
    cb: F,
    builder: B,
    status: ErrorCode,
) -> bool where
    F: FnOnce(i32, ErrorCode, String) -> ErrorCode,
    B: FnOnce(String, i32, Continuation<F>) -> ErrorCode,
 {
    match action {
        Action::Complete(r) => call_ensures(cb, (cmd_handle, r.code, r.payload), status),
        Action::Delegate(c) => call_ensures(
            builder,
            (c.submitter_did, c.seq_no, (Continuation { cmd_handle, cb })),
            status,
        ),
    }
}

/// What must hold for `action` to be carried out: the callback accepts the
/// result, or the builder accepts the call.
pub open spec fn performable<F, B>(action: Action, cmd_handle: i32, cb: F, builder: B) -> bool where
    F: FnOnce(i32, ErrorCode, String) -> ErrorCode,
    B: FnOnce(String, i32, Continuation<F>) -> ErrorCode,
 {
    match action {
        Action::Complete(r) => call_requires(cb, (cmd_handle, r.code, r.payload)),
        Action::Delegate(c) => call_requires(
            builder,
            (c.submitter_did, c.seq_no, (Continuation { cmd_handle, cb })),
        ),
    }
}

/// Carries out an action. A result at hand goes to the callback at once, and
/// the status returned is the callback's. A delegated request goes to the
/// builder with the callback as its continuation, and the status returned is
/// the builder's for the dispatch, not what it reports later.
pub fn perform<F, B>(action: Action, cmd_handle: i32, cb: F, builder: B) -> (status: ErrorCode) where
    F: FnOnce(i32, ErrorCode, String) -> ErrorCode,
    B: FnOnce(String, i32, Continuation<F>) -> ErrorCode,

    requires
        performable(action, cmd_handle, cb, builder),
    ensures
        performed(action, cmd_handle, cb, builder, status),
{
    match action {
        Action::Complete(result) => deliver(cmd_handle, result, cb),
        Action::Delegate(call) => builder(
            call.submitter_did,
            call.seq_no,
            Continuation::new(cmd_handle, cb),
        ),
    }
}

} // verus!
