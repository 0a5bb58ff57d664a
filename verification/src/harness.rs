//! The test harness context: one injection queue per operation kind, and the
//! rule that an invocation consults its kind's queue before its own logic.

use vstd::prelude::*;
use crate::code::ErrorCode;
use crate::dispatch::{perform, performable, performed, Continuation};
use crate::operation::{
    handle, is_real_answer, Action, ActionView, OperationKind, OperationRequest, OperationResult,
};
use crate::queue::{
    queue_after_clear, queue_after_inject, queue_after_take, queue_head, MockQueue,
    PendingResponse, Reply,
};

verus! {

/// `act` is something that an invocation may answer to `req` while `pending`
/// is scripted for its kind: the oldest scripted response if there is one,
/// else an answer of the operation's own logic.
pub open spec fn is_mocked_answer(pending: Seq<Reply>, req: OperationRequest, act: ActionView) -> bool {
    match queue_head(pending) {
        Some(r) => act == ActionView::Complete(r),
        None => is_real_answer(req, act),
    }
}

/// Turns what was taken from the queue into the invocation's action: the
/// scripted response as it is, or, where nothing was pending, the operation's
/// own logic.
pub fn resolve(head: Option<PendingResponse>, req: &OperationRequest) -> (act: Action)
    ensures
        match head {
            Some(p) => act@ == ActionView::Complete(p@),
            None => is_real_answer(*req, act@),
        },
{
    match head {
        Some(p) => Action::Complete(OperationResult { code: p.code, payload: p.payload }),
        None => handle(req),
    }
}

/// The injection queues, one for each operation kind.
pub struct Harness {
    create_payment_address: MockQueue,
    add_request_fees: MockQueue,
    parse_response_with_fees: MockQueue,
    build_get_utxo_request: MockQueue,
    parse_get_utxo_response: MockQueue,
    build_payment_req: MockQueue,
    parse_payment_response: MockQueue,
    build_mint_req: MockQueue,
    build_set_txn_fees_req: MockQueue,
    build_get_txn_fees_req: MockQueue,
    parse_get_txn_fees_response: MockQueue,
}

impl Harness {
    closed spec fn queue_of(self, kind: OperationKind) -> MockQueue {
        match kind {
            OperationKind::CreatePaymentAddress => self.create_payment_address,
            OperationKind::AddRequestFees => self.add_request_fees,
            OperationKind::ParseResponseWithFees => self.parse_response_with_fees,
            OperationKind::BuildGetUtxoRequest => self.build_get_utxo_request,
            OperationKind::ParseGetUtxoResponse => self.parse_get_utxo_response,
            OperationKind::BuildPaymentReq => self.build_payment_req,
            OperationKind::ParsePaymentResponse => self.parse_payment_response,
            OperationKind::BuildMintReq => self.build_mint_req,
            OperationKind::BuildSetTxnFeesReq => self.build_set_txn_fees_req,
            OperationKind::BuildGetTxnFeesReq => self.build_get_txn_fees_req,
            OperationKind::ParseGetTxnFeesResponse => self.parse_get_txn_fees_response,
        }
    }

    /// The scripted responses pending for `kind`, oldest first.
    pub closed spec fn pending(self, kind: OperationKind) -> Seq<Reply> {
        self.queue_of(kind)@
    }

    /// Every queue but that of `kind` is as it was.
    pub open spec fn others_kept(self, before: Harness, kind: OperationKind) -> bool {
        forall|k: OperationKind| k != kind ==> #[trigger] self.pending(k) == before.pending(k)
    }

    /// A harness with nothing pending for any kind.
    pub fn new() -> (h: Harness)
        ensures
            forall|k: OperationKind| #[trigger] h.pending(k) == Seq::<Reply>::empty(),
    {
        Harness {
            create_payment_address: MockQueue::new(),
            add_request_fees: MockQueue::new(),
            parse_response_with_fees: MockQueue::new(),
            build_get_utxo_request: MockQueue::new(),
            parse_get_utxo_response: MockQueue::new(),
            build_payment_req: MockQueue::new(),
            parse_payment_response: MockQueue::new(),
            build_mint_req: MockQueue::new(),
            build_set_txn_fees_req: MockQueue::new(),
            build_get_txn_fees_req: MockQueue::new(),
            parse_get_txn_fees_response: MockQueue::new(),
        }
    }

    fn queue_mut(&mut self, kind: OperationKind) -> (q: &mut MockQueue)
        ensures
            *q == old(self).queue_of(kind),
            final(self).queue_of(kind) == *final(q),
            final(self).others_kept(*old(self), kind),
    {
        match kind {
            OperationKind::CreatePaymentAddress => &mut self.create_payment_address,
            OperationKind::AddRequestFees => &mut self.add_request_fees,
            OperationKind::ParseResponseWithFees => &mut self.parse_response_with_fees,
            OperationKind::BuildGetUtxoRequest => &mut self.build_get_utxo_request,
            OperationKind::ParseGetUtxoResponse => &mut self.parse_get_utxo_response,
            OperationKind::BuildPaymentReq => &mut self.build_payment_req,
            OperationKind::ParsePaymentResponse => &mut self.parse_payment_response,
            OperationKind::BuildMintReq => &mut self.build_mint_req,
            OperationKind::BuildSetTxnFeesReq => &mut self.build_set_txn_fees_req,
            OperationKind::BuildGetTxnFeesReq => &mut self.build_get_txn_fees_req,
            OperationKind::ParseGetTxnFeesResponse => &mut self.parse_get_txn_fees_response,
        }
    }

    /// Scripts one more response for `kind`, behind those already pending.
    pub fn inject_mock(&mut self, kind: OperationKind, code: ErrorCode, payload: &str)
        ensures
            final(self).pending(kind) == queue_after_inject(
                old(self).pending(kind),
                (Reply { code, payload: payload@ }),
            ),
            final(self).others_kept(*old(self), kind),
    {
        let q = self.queue_mut(kind);
        q.inject(code, payload);
    }

    /// Drops every response pending for `kind`.
    pub fn clear_mocks(&mut self, kind: OperationKind)
        ensures
            final(self).pending(kind) == queue_after_clear(old(self).pending(kind)),
            final(self).others_kept(*old(self), kind),
    {
        let q = self.queue_mut(kind);
        q.clear();
    }

    /// The number of responses pending for `kind`.
    pub fn pending_len(&self, kind: OperationKind) -> (n: usize)
        ensures
            n == self.pending(kind).len(),
    {
        match kind {
            OperationKind::CreatePaymentAddress => self.create_payment_address.len(),
            OperationKind::AddRequestFees => self.add_request_fees.len(),
            OperationKind::ParseResponseWithFees => self.parse_response_with_fees.len(),
            OperationKind::BuildGetUtxoRequest => self.build_get_utxo_request.len(),
            OperationKind::ParseGetUtxoResponse => self.parse_get_utxo_response.len(),
            OperationKind::BuildPaymentReq => self.build_payment_req.len(),
            OperationKind::ParsePaymentResponse => self.parse_payment_response.len(),
            OperationKind::BuildMintReq => self.build_mint_req.len(),
            OperationKind::BuildSetTxnFeesReq => self.build_set_txn_fees_req.len(),
            OperationKind::BuildGetTxnFeesReq => self.build_get_txn_fees_req.len(),
            OperationKind::ParseGetTxnFeesResponse => self.parse_get_txn_fees_response.len(),
        }
    }

    /// Decides one invocation: takes at most one scripted response, the
    /// oldest of the request's kind, and answers with it; only where none was
    /// pending does the operation's own logic run.
    pub fn next_action(&mut self, req: &OperationRequest) -> (act: Action)
        ensures
            final(self).pending(req.kind_of()) == queue_after_take(old(self).pending(req.kind_of())),
            final(self).others_kept(*old(self), req.kind_of()),
            is_mocked_answer(old(self).pending(req.kind_of()), *req, act@),
    {
        let q = self.queue_mut(req.kind());
        let head = q.dequeue_if_any();
        resolve(head, req)
    }

    /// One invocation from end to end: decides it as `next_action` does and
    /// carries the action out. A callback must be supplied. The status
    /// returned is the callback's where the result was at hand, and the
    /// builder's for the dispatch where the request was delegated.
    pub fn handle_mocked<F, B>(
        &mut self,
        cmd_handle: i32,
        req: &OperationRequest,
        cb: Option<F>,
        builder: B,
    ) -> (status: ErrorCode) where
        F: FnOnce(i32, ErrorCode, String) -> ErrorCode,
        B: FnOnce(String, i32, Continuation<F>) -> ErrorCode,

        requires
            cb is Some,
            forall|act: Action|
                is_mocked_answer(old(self).pending(req.kind_of()), *req, act@)
                    ==> #[trigger] performable(act, cmd_handle, cb->0, builder),
        ensures
            final(self).pending(req.kind_of()) == queue_after_take(old(self).pending(req.kind_of())),
            final(self).others_kept(*old(self), req.kind_of()),
            exists|act: Action|
                is_mocked_answer(old(self).pending(req.kind_of()), *req, act@) && #[trigger] performed(
                    act,
                    cmd_handle,
                    cb->0,
                    builder,
                    status,
                ),
    {
        let cb = cb.unwrap();
        let act = self.next_action(req);
        let ghost planned = act;
        let status = perform(act, cmd_handle, cb, builder);
        assert(performed(planned, cmd_handle, cb, builder, status));
        status
    }
}

} // verus!
