//! The dispatch queue: benchmark requests accepted by the webhook intake wait
//! here, in arrival order, for the single worker loop. The queue is bounded;
//! a full queue refuses the request so the caller can exert backpressure.

use vstd::prelude::*;

verus! {

/// One accepted webhook event: compare `commits[0]` (base) against
/// `commits[1]` (head) of `repo` for pull request `pr`. `check_id` is the
/// remote status check created at intake, if that creation succeeded.
#[derive(Debug, Clone, PartialEq, Eq)]
pub struct BenchmarkRequest {
    pub repo: String,
    pub commits: [String; 2],
    pub pr: u64,
    pub check_id: Option<u64>,
}

/// Bounded FIFO holding the requests the intake has accepted but the worker
/// has not yet taken.
pub struct EventQueue {
    items: Vec<BenchmarkRequest>,
    cap: usize,
}

impl EventQueue {
    /// The waiting requests, oldest first.
    pub closed spec fn contents(&self) -> Seq<BenchmarkRequest> {
        self.items@
    }

    /// The fixed bound the queue was created with.
    pub closed spec fn capacity(&self) -> int {
        self.cap as int
    }

    /// The queue never holds more than its bound.
    pub open spec fn wf(&self) -> bool {
        0 < self.capacity() && self.contents().len() <= self.capacity()
    }

    pub fn new(capacity: usize) -> (q: EventQueue)
        requires
            capacity >= 1,
        ensures
            q.wf(),
            q.capacity() == capacity,
            q.contents() == Seq::<BenchmarkRequest>::empty(),
    {
        EventQueue { items: Vec::new(), cap: capacity }
    }

    pub fn len(&self) -> (n: usize)
        ensures
            n == self.contents().len(),
    {
        self.items.len()
    }

    /// Append a request, unless the queue is full; a refused request is handed
    /// back unchanged so the caller can wait and retry.
    pub fn push(&mut self, req: BenchmarkRequest) -> (r: Result<(), BenchmarkRequest>)
        requires
            old(self).wf(),
        ensures
            final(self).wf(),
            final(self).capacity() == old(self).capacity(),
            old(self).contents().len() < old(self).capacity() ==> r is Ok
                && final(self).contents() == old(self).contents().push(req),
            old(self).contents().len() >= old(self).capacity() ==> r == Result::<
                (),
                BenchmarkRequest,
            >::Err(req) && final(self).contents() == old(self).contents(),
    {
        if self.items.len() < self.cap {
            self.items.push(req);
            Ok(())
        } else {
            Err(req)
        }
    }

    /// Take the oldest waiting request, if any.
    pub fn pop(&mut self) -> (r: Option<BenchmarkRequest>)
        requires
            old(self).wf(),
        ensures
            final(self).wf(),
            final(self).capacity() == old(self).capacity(),
            old(self).contents().len() == 0 ==> r is None
                && final(self).contents() == old(self).contents(),
            old(self).contents().len() > 0 ==> r == Some(old(self).contents()[0])
                && final(self).contents() == old(self).contents().drop_first(),
    {
        if self.items.len() == 0 {
            None
        } else {
            let first = self.items.remove(0);
            Some(first)
        }
    }
}

} // verus!
