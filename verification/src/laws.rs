//! What holds of the queues and the operations together, over any number of
//! injections and invocations.

use vstd::prelude::*;
use crate::code::ErrorCode;
use crate::harness::is_mocked_answer;
use crate::operation::{
    address_prefix, fees_literal, is_real_answer, real_action, shape_of, submitter_did,
    utxo_listing, ActionView, OperationKind, OperationRequest, Shape, DELEGATE_SEQ_NO, FILLER_LEN,
};
use crate::queue::{queue_after_clear, queue_after_inject, queue_after_take, queue_head, Reply};
use crate::random::{filler_exists, is_filler};

verus! {

/// The queue after the responses `rs` were injected one by one, first to
/// last.
pub open spec fn inject_all(q: Seq<Reply>, rs: Seq<Reply>) -> Seq<Reply>
    decreases rs.len(),
{
    if rs.len() == 0 {
        q
    } else {
        inject_all(queue_after_inject(q, rs[0]), rs.drop_first())
    }
}

/// The queue after `n` invocations consulted it, one after the other.
pub open spec fn take_n(q: Seq<Reply>, n: nat) -> Seq<Reply>
    decreases n,
{
    if n == 0 {
        q
    } else {
        take_n(queue_after_take(q), (n - 1) as nat)
    }
}

/// The scripted responses that those `n` invocations were answered with, in
/// the order of the invocations; an invocation that found nothing pending
/// adds nothing.
pub open spec fn taken(q: Seq<Reply>, n: nat) -> Seq<Reply>
    decreases n,
{
    if n == 0 {
        Seq::empty()
    } else {
        match queue_head(q) {
            Some(r) => seq![r] + taken(queue_after_take(q), (n - 1) as nat),
            None => taken(queue_after_take(q), (n - 1) as nat),
        }
    }
}

/// Injecting a list of responses appends it to the queue, in its order.
pub proof fn law_inject_all_appends(q: Seq<Reply>, rs: Seq<Reply>)
    ensures
        inject_all(q, rs) == q + rs,
    decreases rs.len(),
{
    if rs.len() == 0 {
        assert(q + rs =~= q);
    } else {
        law_inject_all_appends(queue_after_inject(q, rs[0]), rs.drop_first());
        assert(q.push(rs[0]) + rs.drop_first() =~= q + rs);
    }
}

/// `n` invocations remove the `n` oldest responses, or all of them where
/// fewer were pending, and they are answered with exactly those, oldest
/// first.
pub proof fn law_take_n_removes_oldest(q: Seq<Reply>, n: nat)
    ensures
        n <= q.len() ==> take_n(q, n) == q.subrange(n as int, q.len() as int),
        n <= q.len() ==> taken(q, n) == q.subrange(0, n as int),
        n > q.len() ==> take_n(q, n) == Seq::<Reply>::empty(),
        n > q.len() ==> taken(q, n) == q,
    decreases n,
{
    if n == 0 {
        assert(q.subrange(0, q.len() as int) =~= q);
        assert(q.subrange(0, 0) =~= Seq::<Reply>::empty());
    } else {
        let rest = queue_after_take(q);
        law_take_n_removes_oldest(rest, (n - 1) as nat);
        if q.len() > 0 {
            if n <= q.len() {
                assert(rest.subrange(n - 1, rest.len() as int) =~= q.subrange(
                    n as int,
                    q.len() as int,
                ));
                assert(seq![q[0]] + rest.subrange(0, n - 1) =~= q.subrange(0, n as int));
            } else {
                assert(seq![q[0]] + rest =~= q);
            }
        } else {
            assert(q =~= Seq::<Reply>::empty());
        }
    }
}

/// Scripted responses come back in the order of injection. After the
/// responses `rs` were injected into an empty queue, the invocation that
/// follows `i` earlier ones, for `i` below their number, is answered with
/// `rs[i]` and nothing else: the operation's own logic does not run for it.
pub proof fn law_scripted_answers_in_order(
    rs: Seq<Reply>,
    i: nat,
    req: OperationRequest,
    act: ActionView,
)
    requires
        i < rs.len(),
    ensures
        queue_head(take_n(inject_all(Seq::empty(), rs), i)) == Some(rs[i as int]),
        is_mocked_answer(take_n(inject_all(Seq::empty(), rs), i), req, act) <==> act
            == ActionView::Complete(rs[i as int]),
{
    let q = inject_all(Seq::empty(), rs);
    law_inject_all_appends(Seq::empty(), rs);
    assert(Seq::<Reply>::empty() + rs =~= rs);
    law_take_n_removes_oldest(q, i);
}

/// Every scripted response is delivered exactly once. As many invocations as
/// there were injections into an empty queue are answered with the injected
/// responses, each once and in order, and leave the queue empty, so that the
/// next invocation runs the operation's own logic.
pub proof fn law_each_injection_delivered_once(rs: Seq<Reply>, req: OperationRequest, act: ActionView)
    ensures
        taken(inject_all(Seq::empty(), rs), rs.len()) == rs,
        take_n(inject_all(Seq::empty(), rs), rs.len()) == Seq::<Reply>::empty(),
        is_mocked_answer(take_n(inject_all(Seq::empty(), rs), rs.len()), req, act)
            <==> is_real_answer(req, act),
{
    let q = inject_all(Seq::empty(), rs);
    law_inject_all_appends(Seq::empty(), rs);
    assert(Seq::<Reply>::empty() + rs =~= rs);
    law_take_n_removes_oldest(q, rs.len());
    assert(q.subrange(0, q.len() as int) =~= q);
    assert(q.subrange(q.len() as int, q.len() as int) =~= Seq::<Reply>::empty());
}

/// What each caller receives from the queue when callers reach it one at a
/// time in the order `order`: `order[i]` names the caller that comes after
/// `i` others. A caller that finds nothing pending receives `None`.
pub open spec fn deliveries(q: Seq<Reply>, order: Seq<int>) -> Map<int, Option<Reply>>
    decreases order.len(),
{
    if order.len() == 0 {
        Map::empty()
    } else {
        deliveries(queue_after_take(q), order.drop_first()).insert(order[0], queue_head(q))
    }
}

/// Callers that reach a queue one at a time, each once and no more of them
/// than responses are pending, receive the oldest responses in the order of
/// their arrival, and nobody else receives anything.
pub proof fn law_deliveries_follow_arrival(q: Seq<Reply>, order: Seq<int>)
    requires
        order.no_duplicates(),
        order.len() <= q.len(),
    ensures
        forall|c: int| deliveries(q, order).dom().contains(c) <==> order.contains(c),
        forall|i: int|
            0 <= i < order.len() ==> deliveries(q, order)[#[trigger] order[i]] == Some(q[i]),
    decreases order.len(),
{
    if order.len() > 0 {
        let rest_q = queue_after_take(q);
        let rest = order.drop_first();
        law_deliveries_follow_arrival(rest_q, rest);
        assert forall|c: int| deliveries(q, order).dom().contains(c) <==> order.contains(c) by {
            if order.contains(c) {
                let i = choose|i: int| 0 <= i < order.len() && order[i] == c;
                if i > 0 {
                    assert(rest[i - 1] == c);
                }
            }
            if rest.contains(c) {
                let j = choose|j: int| 0 <= j < rest.len() && rest[j] == c;
                assert(order[j + 1] == c);
            }
        }
        assert forall|i: int| 0 <= i < order.len() implies deliveries(q, order)[#[trigger] order[i]]
            == Some(q[i]) by {
            if i > 0 {
                assert(rest[i - 1] == order[i]);
                assert(order[i] != order[0]);
                assert(rest_q[i - 1] == q[i]);
            }
        }
    }
}

/// However the callers interleave, each scripted response reaches exactly one
/// of them. When as many callers as there were injections into an empty
/// queue reach it one at a time, in any order of arrival, the caller that
/// arrives after `i` others receives `rs[i]`; so no response is lost, none is
/// received twice, and only those callers receive one.
pub proof fn law_interleaving_delivers_each_once(rs: Seq<Reply>, order: Seq<int>)
    requires
        order.no_duplicates(),
        order.len() == rs.len(),
    ensures
        forall|c: int|
            deliveries(inject_all(Seq::empty(), rs), order).dom().contains(c) <==> order.contains(
                c,
            ),
        forall|i: int|
            0 <= i < order.len() ==> deliveries(inject_all(Seq::empty(), rs), order)[#[trigger] order[i]]
                == Some(rs[i]),
{
    law_inject_all_appends(Seq::empty(), rs);
    assert(Seq::<Reply>::empty() + rs =~= rs);
    law_deliveries_follow_arrival(rs, order);
}

/// After a reset, an invocation with no further injection runs the
/// operation's own logic, whatever was pending before.
pub proof fn law_clear_restores_real_logic(q: Seq<Reply>, req: OperationRequest, act: ActionView)
    ensures
        queue_head(queue_after_clear(q)) is None,
        is_mocked_answer(queue_after_clear(q), req, act) <==> is_real_answer(req, act),
{
}

/// An echo-shaped operation answers success with its designated argument,
/// character for character, whatever the argument holds.
pub proof fn law_echo_returns_designated(req: OperationRequest, act: ActionView)
    requires
        shape_of(req.kind_of()) == Shape::Echo,
    ensures
        is_real_answer(req, act) <==> act == ActionView::Complete(
            Reply { code: ErrorCode::success_code(), payload: req.designated() },
        ),
{
    if act == ActionView::Complete(
        Reply { code: ErrorCode::success_code(), payload: req.designated() },
    ) {
        filler_exists(FILLER_LEN as nat);
        let zeros = Seq::new(FILLER_LEN as nat, |i: int| '0');
        assert(act == real_action(req, zeros, zeros));
    }
}

/// The fee query answers success with the fixed fee table.
pub proof fn law_fee_query_is_fixed(req: OperationRequest, act: ActionView)
    requires
        req.kind_of() == OperationKind::ParseGetTxnFeesResponse,
    ensures
        is_real_answer(req, act) <==> act == ActionView::Complete(
            Reply { code: ErrorCode::success_code(), payload: fees_literal() },
        ),
{
    if act == ActionView::Complete(
        Reply { code: ErrorCode::success_code(), payload: fees_literal() },
    ) {
        filler_exists(FILLER_LEN as nat);
        let zeros = Seq::new(FILLER_LEN as nat, |i: int| '0');
        assert(act == real_action(req, zeros, zeros));
    }
}

/// Address creation answers success with the address prefix followed by
/// exactly fifteen characters of the filler alphabet, 24 characters in all.
pub proof fn law_address_shape(req: OperationRequest, act: ActionView)
    requires
        req.kind_of() == OperationKind::CreatePaymentAddress,
        is_real_answer(req, act),
    ensures
        act is Complete,
        act->Complete_0.code == ErrorCode::success_code(),
        act->Complete_0.payload.len() == 24,
        act->Complete_0.payload.subrange(0, 9) == address_prefix(),
        is_filler(act->Complete_0.payload.subrange(9, 24), FILLER_LEN as nat),
{
    reveal_strlit("pay:null:");
    let (first, second) = choose|first: Seq<char>, second: Seq<char>|
        is_filler(first, FILLER_LEN as nat) && is_filler(second, FILLER_LEN as nat) && act
            == #[trigger] real_action(req, first, second);
    let payload = address_prefix() + first;
    assert(payload.subrange(0, 9) =~= address_prefix());
    assert(payload.subrange(9, 24) =~= first);
}

/// The UTXO query answers success with the fixed listing of two outputs,
/// each carrying fifteen characters of the filler alphabet as its extra.
pub proof fn law_utxo_listing_shape(req: OperationRequest, act: ActionView)
    requires
        req.kind_of() == OperationKind::ParseGetUtxoResponse,
    ensures
        is_real_answer(req, act) <==> exists|first: Seq<char>, second: Seq<char>|
            is_filler(first, FILLER_LEN as nat) && is_filler(second, FILLER_LEN as nat) && act
                == ActionView::Complete(
                Reply {
                    code: ErrorCode::success_code(),
                    payload: #[trigger] utxo_listing(first, second),
                },
            ),
{
    if is_real_answer(req, act) {
        let (first, second) = choose|first: Seq<char>, second: Seq<char>|
            is_filler(first, FILLER_LEN as nat) && is_filler(second, FILLER_LEN as nat) && act
                == #[trigger] real_action(req, first, second);
        assert(act == ActionView::Complete(
            Reply { code: ErrorCode::success_code(), payload: utxo_listing(first, second) },
        ));
    } else {
        assert forall|first: Seq<char>, second: Seq<char>|
            is_filler(first, FILLER_LEN as nat) && is_filler(second, FILLER_LEN as nat) implies act
                != ActionView::Complete(
                Reply {
                    code: ErrorCode::success_code(),
                    payload: #[trigger] utxo_listing(first, second),
                },
            ) by {
            assert(real_action(req, first, second) == ActionView::Complete(
                Reply { code: ErrorCode::success_code(), payload: utxo_listing(first, second) },
            ));
        }
    }
}

/// A delegating operation asks the builder under the fixed identity for the
/// fixed sequence number, whatever its arguments hold.
pub proof fn law_delegate_call_is_fixed(req: OperationRequest, act: ActionView)
    requires
        shape_of(req.kind_of()) == Shape::Delegate,
    ensures
        is_real_answer(req, act) <==> act == (ActionView::Delegate {
            submitter_did: submitter_did(),
            seq_no: DELEGATE_SEQ_NO,
        }),
{
    if act == (ActionView::Delegate { submitter_did: submitter_did(), seq_no: DELEGATE_SEQ_NO }) {
        filler_exists(FILLER_LEN as nat);
        let zeros = Seq::new(FILLER_LEN as nat, |i: int| '0');
        assert(act == real_action(req, zeros, zeros));
    }
}

} // verus!
