//! The injection queue: an ordered list of scripted responses that the next
//! invocations of one operation kind hand out, oldest first.

use std::collections::VecDeque;
use vstd::prelude::*;
use crate::code::ErrorCode;

verus! {

/// What a response is, mathematically: a code and the payload's characters.
pub struct Reply {
    pub code: ErrorCode,
    pub payload: Seq<char>,
}

/// A scripted response waiting in a queue.
#[derive(Debug)]
pub struct PendingResponse {
    pub code: ErrorCode,
    pub payload: String,
}

impl View for PendingResponse {
    type V = Reply;

    open spec fn view(&self) -> Reply {
        Reply { code: self.code, payload: self.payload@ }
    }
}

/// The queue after one more response was injected at its tail.
pub open spec fn queue_after_inject(q: Seq<Reply>, r: Reply) -> Seq<Reply> {
    q.push(r)
}

/// The queue after a reset.
pub open spec fn queue_after_clear(q: Seq<Reply>) -> Seq<Reply> {
    Seq::empty()
}

/// The scripted response that the next invocation is answered with, if any.
pub open spec fn queue_head(q: Seq<Reply>) -> Option<Reply> {
    if q.len() > 0 {
        Some(q[0])
    } else {
        None
    }
}

/// The queue after one invocation consulted it.
pub open spec fn queue_after_take(q: Seq<Reply>) -> Seq<Reply> {
    if q.len() > 0 {
        q.subrange(1, q.len() as int)
    } else {
        q
    }
}

/// The scripted responses of one operation kind, oldest first.
pub struct MockQueue {
    pending: VecDeque<PendingResponse>,
}

impl View for MockQueue {
    type V = Seq<Reply>;

    closed spec fn view(&self) -> Seq<Reply> {
        self.pending@.map_values(|p: PendingResponse| p@)
    }
}

impl MockQueue {
    /// An empty queue.
    pub fn new() -> (q: MockQueue)
        ensures
            q@ == Seq::<Reply>::empty(),
    {
        let q = MockQueue { pending: VecDeque::new() };
        assert(q@ =~= Seq::<Reply>::empty());
        q
    }

    /// Appends a response at the tail. The payload is copied: the queue keeps
    /// nothing of the caller's buffer.
    pub fn inject(&mut self, code: ErrorCode, payload: &str)
        ensures
            final(self)@ == queue_after_inject(
                old(self)@,
                (Reply { code, payload: payload@ }),
            ),
    {
        let item = PendingResponse { code, payload: payload.to_owned() };
        self.pending.push_back(item);
        assert(self@ =~= old(self)@.push(Reply { code, payload: payload@ }));
    }

    /// Removes every pending response.
    pub fn clear(&mut self)
        ensures
            final(self)@ == queue_after_clear(old(self)@),
    {
        self.pending.clear();
        assert(self@ =~= Seq::<Reply>::empty());
    }

    /// Takes the oldest pending response, or nothing from an empty queue.
    pub fn dequeue_if_any(&mut self) -> (head: Option<PendingResponse>)
        ensures
            match head {
                Some(p) => queue_head(old(self)@) == Some(p@),
                None => queue_head(old(self)@) is None,
            },
            final(self)@ == queue_after_take(old(self)@),
    {
        let head = self.pending.pop_front();
        assert(self@ =~= queue_after_take(old(self)@));
        head
    }

    /// The number of pending responses.
    pub fn len(&self) -> (n: usize)
        ensures
            n == self@.len(),
    {
        self.pending.len()
    }

    /// Tells whether nothing is pending.
    pub fn is_empty(&self) -> (yes: bool)
        ensures
            yes == (self@.len() == 0),
    {
        self.pending.len() == 0
    }
}

} // verus!
