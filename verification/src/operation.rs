//! The operations of the payment method and what each answers when no
//! scripted response is pending: one of its arguments unchanged, a canned
//! text, or a request that the host's ledger builder is asked to build.

use vstd::prelude::*;
use crate::code::ErrorCode;
use crate::queue::Reply;
use crate::random::{filler_exists, get_rand_string, is_filler};

verus! {

/// The operation kinds. Each has an injection queue of its own.
#[derive(Clone, Copy, Debug, PartialEq, Eq, Structural)]
pub enum OperationKind {
    CreatePaymentAddress,
    AddRequestFees,
    ParseResponseWithFees,
    BuildGetUtxoRequest,
    ParseGetUtxoResponse,
    BuildPaymentReq,
    ParsePaymentResponse,
    BuildMintReq,
    BuildSetTxnFeesReq,
    BuildGetTxnFeesReq,
    ParseGetTxnFeesResponse,
}

/// The three shapes that an operation's own logic takes.
#[derive(Clone, Copy, Debug, PartialEq, Eq, Structural)]
pub enum Shape {
    /// Answers with one of its arguments, unchanged.
    Echo,
    /// Answers with a fixed text, varied at most by random filler.
    Canned,
    /// Hands the work to the host's ledger request builder.
    Delegate,
}

/// The arguments of one invocation. Nothing is validated: an argument is
/// echoed or ignored, whatever it holds.
#[derive(Debug)]
pub enum OperationRequest {
    CreatePaymentAddress { config: String, wallet_handle: i32 },
    AddRequestFees { wallet_handle: i32, req_json: String, inputs_json: String, outputs_json: String },
    ParseResponseWithFees { resp_json: String },
    BuildGetUtxoRequest { wallet_handle: i32, payment_address: String },
    ParseGetUtxoResponse { resp_json: String },
    BuildPaymentReq { wallet_handle: i32, inputs_json: String, outputs_json: String },
    ParsePaymentResponse { resp_json: String },
    BuildMintReq { wallet_handle: i32, outputs_json: String },
    BuildSetTxnFeesReq { wallet_handle: i32, fees_json: String },
    BuildGetTxnFeesReq { wallet_handle: i32 },
    ParseGetTxnFeesResponse { resp_json: String },
}

/// What an operation delivers through the completion callback.
#[derive(Debug)]
pub struct OperationResult {
    pub code: ErrorCode,
    pub payload: String,
}

impl View for OperationResult {
    type V = Reply;

    open spec fn view(&self) -> Reply {
        Reply { code: self.code, payload: self.payload@ }
    }
}

/// A call of the host's ledger request builder.
#[derive(Debug)]
pub struct BuilderCall {
    pub submitter_did: String,
    pub seq_no: i32,
}

/// What is to be done to finish an invocation.
#[derive(Debug)]
pub enum Action {
    /// Deliver this result through the callback now.
    Complete(OperationResult),
    /// Ask the builder, and let its continuation deliver what it reports.
    Delegate(BuilderCall),
}

/// An action, mathematically.
pub enum ActionView {
    Complete(Reply),
    Delegate { submitter_did: Seq<char>, seq_no: i32 },
}

impl View for Action {
    type V = ActionView;

    open spec fn view(&self) -> ActionView {
        match *self {
            Action::Complete(r) => ActionView::Complete(r@),
            Action::Delegate(c) => ActionView::Delegate {
                submitter_did: c.submitter_did@,
                seq_no: c.seq_no,
            },
        }
    }
}

/// The length of each piece of random filler.
pub const FILLER_LEN: usize = 15;

/// The transaction sequence number that every delegated request asks for.
pub const DELEGATE_SEQ_NO: i32 = 1;

/// The identity under which delegated requests are submitted.
pub open spec fn submitter_did() -> Seq<char> {
    "null_payment_plugin"@
}

/// The prefix of every synthetic payment address.
pub open spec fn address_prefix() -> Seq<char> {
    "pay:null:"@
}

/// The synthetic UTXO listing up to the first filler.
pub open spec fn utxo_head() -> Seq<char> {
    "[{\"input\":\"pov:null:1\", \"amount\":1, \"extra\":\""@
}

/// The synthetic UTXO listing between the two fillers.
pub open spec fn utxo_middle() -> Seq<char> {
    "\"}, {\"input\":\"pov:null:2\", \"amount\":2, \"extra\":\""@
}

/// The synthetic UTXO listing after the second filler.
pub open spec fn utxo_tail() -> Seq<char> {
    "\"}]"@
}

/// The synthetic UTXO listing: two outputs, each with a filler as its extra.
pub open spec fn utxo_listing(first: Seq<char>, second: Seq<char>) -> Seq<char> {
    utxo_head() + first + utxo_middle() + second + utxo_tail()
}

/// The fee table that the fee query is answered with.
pub open spec fn fees_literal() -> Seq<char> {
    "{\"txnType1\":1, \"txnType2\":2, \"txnType3\":3}"@
}

/// The shape of each operation kind.
pub open spec fn shape_of(kind: OperationKind) -> Shape {
    match kind {
        OperationKind::CreatePaymentAddress => Shape::Canned,
        OperationKind::AddRequestFees => Shape::Echo,
        OperationKind::ParseResponseWithFees => Shape::Echo,
        OperationKind::BuildGetUtxoRequest => Shape::Delegate,
        OperationKind::ParseGetUtxoResponse => Shape::Canned,
        OperationKind::BuildPaymentReq => Shape::Echo,
        OperationKind::ParsePaymentResponse => Shape::Echo,
        OperationKind::BuildMintReq => Shape::Delegate,
        OperationKind::BuildSetTxnFeesReq => Shape::Echo,
        OperationKind::BuildGetTxnFeesReq => Shape::Delegate,
        OperationKind::ParseGetTxnFeesResponse => Shape::Canned,
    }
}

/// The text of a canned operation, given the two pieces of filler. The
/// address uses the first, the UTXO listing both, the fee table none.
pub open spec fn canned_payload(kind: OperationKind, first: Seq<char>, second: Seq<char>) -> Seq<
    char,
> {
    match kind {
        OperationKind::CreatePaymentAddress => address_prefix() + first,
        OperationKind::ParseGetUtxoResponse => utxo_listing(first, second),
        _ => fees_literal(),
    }
}

impl OperationKind {
    /// Returns the shape of this kind.
    pub fn shape(&self) -> (s: Shape)
        ensures
            s == shape_of(*self),
    {
        match self {
            OperationKind::CreatePaymentAddress => Shape::Canned,
            OperationKind::AddRequestFees => Shape::Echo,
            OperationKind::ParseResponseWithFees => Shape::Echo,
            OperationKind::BuildGetUtxoRequest => Shape::Delegate,
            OperationKind::ParseGetUtxoResponse => Shape::Canned,
            OperationKind::BuildPaymentReq => Shape::Echo,
            OperationKind::ParsePaymentResponse => Shape::Echo,
            OperationKind::BuildMintReq => Shape::Delegate,
            OperationKind::BuildSetTxnFeesReq => Shape::Echo,
            OperationKind::BuildGetTxnFeesReq => Shape::Delegate,
            OperationKind::ParseGetTxnFeesResponse => Shape::Canned,
        }
    }
}

impl OperationRequest {
    /// The kind of operation that these arguments belong to.
    pub open spec fn kind_of(self) -> OperationKind {
        match self {
            OperationRequest::CreatePaymentAddress { .. } => OperationKind::CreatePaymentAddress,
            OperationRequest::AddRequestFees { .. } => OperationKind::AddRequestFees,
            OperationRequest::ParseResponseWithFees { .. } => OperationKind::ParseResponseWithFees,
            OperationRequest::BuildGetUtxoRequest { .. } => OperationKind::BuildGetUtxoRequest,
            OperationRequest::ParseGetUtxoResponse { .. } => OperationKind::ParseGetUtxoResponse,
            OperationRequest::BuildPaymentReq { .. } => OperationKind::BuildPaymentReq,
            OperationRequest::ParsePaymentResponse { .. } => OperationKind::ParsePaymentResponse,
            OperationRequest::BuildMintReq { .. } => OperationKind::BuildMintReq,
            OperationRequest::BuildSetTxnFeesReq { .. } => OperationKind::BuildSetTxnFeesReq,
            OperationRequest::BuildGetTxnFeesReq { .. } => OperationKind::BuildGetTxnFeesReq,
            OperationRequest::ParseGetTxnFeesResponse { .. } =>
                OperationKind::ParseGetTxnFeesResponse,
        }
    }

    /// The argument that an echo-shaped operation answers with: the request
    /// for fee attachment, the outputs for a payment, the fees for a fee
    /// update, the response for the two echoing parsers. Empty for the kinds
    /// that echo nothing.
    pub open spec fn designated(self) -> Seq<char> {
        match self {
            OperationRequest::AddRequestFees { req_json, .. } => req_json@,
            OperationRequest::ParseResponseWithFees { resp_json } => resp_json@,
            OperationRequest::BuildPaymentReq { outputs_json, .. } => outputs_json@,
            OperationRequest::ParsePaymentResponse { resp_json } => resp_json@,
            OperationRequest::BuildSetTxnFeesReq { fees_json, .. } => fees_json@,
            _ => Seq::empty(),
        }
    }

    /// Returns the kind of operation that these arguments belong to.
    pub fn kind(&self) -> (k: OperationKind)
        ensures
            k == self.kind_of(),
    {
        match self {
            OperationRequest::CreatePaymentAddress { .. } => OperationKind::CreatePaymentAddress,
            OperationRequest::AddRequestFees { .. } => OperationKind::AddRequestFees,
            OperationRequest::ParseResponseWithFees { .. } => OperationKind::ParseResponseWithFees,
            OperationRequest::BuildGetUtxoRequest { .. } => OperationKind::BuildGetUtxoRequest,
            OperationRequest::ParseGetUtxoResponse { .. } => OperationKind::ParseGetUtxoResponse,
            OperationRequest::BuildPaymentReq { .. } => OperationKind::BuildPaymentReq,
            OperationRequest::ParsePaymentResponse { .. } => OperationKind::ParsePaymentResponse,
            OperationRequest::BuildMintReq { .. } => OperationKind::BuildMintReq,
            OperationRequest::BuildSetTxnFeesReq { .. } => OperationKind::BuildSetTxnFeesReq,
            OperationRequest::BuildGetTxnFeesReq { .. } => OperationKind::BuildGetTxnFeesReq,
            OperationRequest::ParseGetTxnFeesResponse { .. } =>
                OperationKind::ParseGetTxnFeesResponse,
        }
    }
}

/// What an operation's own logic does with a request, given the two pieces
/// of filler that were drawn for it.
pub open spec fn real_action(req: OperationRequest, first: Seq<char>, second: Seq<char>) -> ActionView {
    match shape_of(req.kind_of()) {
        Shape::Echo => ActionView::Complete(
            Reply { code: ErrorCode::success_code(), payload: req.designated() },
        ),
        Shape::Canned => ActionView::Complete(
            Reply {
                code: ErrorCode::success_code(),
                payload: canned_payload(req.kind_of(), first, second),
            },
        ),
        Shape::Delegate => ActionView::Delegate {
            submitter_did: submitter_did(),
            seq_no: DELEGATE_SEQ_NO,
        },
    }
}

fn succeed(payload: String) -> (act: Action)
    ensures
        act@ == ActionView::Complete(
            Reply { code: ErrorCode::success_code(), payload: payload@ },
        ),
{
    Action::Complete(OperationResult { code: ErrorCode::success(), payload })
}

fn delegate() -> (act: Action)
    ensures
        act@ == (ActionView::Delegate { submitter_did: submitter_did(), seq_no: DELEGATE_SEQ_NO }),
{
    Action::Delegate(
        BuilderCall {
            submitter_did: String::from_str("null_payment_plugin"),
            seq_no: DELEGATE_SEQ_NO,
        },
    )
}

/// The operation's own logic, on filler that the caller drew: the answer is a
/// function of the request and the two pieces of filler.
pub fn handle_with(req: &OperationRequest, first: &str, second: &str) -> (act: Action)
    ensures
        act@ == real_action(*req, first@, second@),
{
    match req {
        OperationRequest::CreatePaymentAddress { .. } => {
            succeed(String::from_str("pay:null:").concat(first))
        },
        OperationRequest::AddRequestFees { req_json, .. } => succeed(req_json.clone()),
        OperationRequest::ParseResponseWithFees { resp_json } => succeed(resp_json.clone()),
        OperationRequest::BuildGetUtxoRequest { .. } => delegate(),
        OperationRequest::ParseGetUtxoResponse { .. } => {
            let mut text = String::from_str("[{\"input\":\"pov:null:1\", \"amount\":1, \"extra\":\"");
            text.append(first);
            text.append("\"}, {\"input\":\"pov:null:2\", \"amount\":2, \"extra\":\"");
            text.append(second);
            text.append("\"}]");
            succeed(text)
        },
        OperationRequest::BuildPaymentReq { outputs_json, .. } => succeed(outputs_json.clone()),
        OperationRequest::ParsePaymentResponse { resp_json } => succeed(resp_json.clone()),
        OperationRequest::BuildMintReq { .. } => delegate(),
        OperationRequest::BuildSetTxnFeesReq { fees_json, .. } => succeed(fees_json.clone()),
        OperationRequest::BuildGetTxnFeesReq { .. } => delegate(),
        OperationRequest::ParseGetTxnFeesResponse { .. } => {
            succeed(String::from_str("{\"txnType1\":1, \"txnType2\":2, \"txnType3\":3}"))
        },
    }
}

/// `act` is something that the operation's own logic may answer to `req`:
/// what some two pieces of filler give.
pub open spec fn is_real_answer(req: OperationRequest, act: ActionView) -> bool {
    exists|first: Seq<char>, second: Seq<char>|
        is_filler(first, FILLER_LEN as nat) && is_filler(second, FILLER_LEN as nat) && act
            == #[trigger] real_action(req, first, second)
}

/// The operation's own logic. It draws the filler that the kind uses, so the
/// answer is the one that some two pieces of filler give.
pub fn handle(req: &OperationRequest) -> (act: Action)
    ensures
        is_real_answer(*req, act@),
{
    let ghost zeros = Seq::new(FILLER_LEN as nat, |i: int| '0');
    proof {
        filler_exists(FILLER_LEN as nat);
    }
    match req.kind() {
        OperationKind::CreatePaymentAddress => {
            let first = get_rand_string(FILLER_LEN);
            let act = handle_with(req, first.as_str(), "");
            assert(act@ == real_action(*req, first@, zeros));
            act
        },
        OperationKind::ParseGetUtxoResponse => {
            let first = get_rand_string(FILLER_LEN);
            let second = get_rand_string(FILLER_LEN);
            let act = handle_with(req, first.as_str(), second.as_str());
            assert(act@ == real_action(*req, first@, second@));
            act
        },
        _ => {
            let act = handle_with(req, "", "");
            assert(act@ == real_action(*req, zeros, zeros));
            act
        },
    }
}

} // verus!
