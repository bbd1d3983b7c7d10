//! A model of the inbound request queue: unbounded, ordered,
//! multi-producer/single-consumer.
//!
//! The actor takes requests out strictly in arrival order and finishes one
//! before it receives the next, so of two requests sent to the same queue
//! the earlier one is processed first, whichever callers sent them. Replies
//! travel on per-request channels and carry no ordering of their own.

use vstd::prelude::*;
use crate::protocol::WebGPURequest;

verus! {

/// The pending requests, oldest first.
pub struct Inbox {
    queue: Vec<WebGPURequest>,
}

impl Inbox {
    /// The requests waiting to be received, in arrival order.
    pub closed spec fn pending(self) -> Seq<WebGPURequest> {
        self.queue@
    }

    /// An empty queue.
    pub fn new() -> (r: Inbox)
        ensures
            r.pending() == Seq::<WebGPURequest>::empty(),
    {
        Inbox { queue: Vec::new() }
    }

    /// Enqueue a request behind everything already waiting.
    pub fn send(&mut self, req: WebGPURequest)
        ensures
            final(self).pending() == old(self).pending().push(req),
    {
        self.queue.push(req);
    }

    /// Dequeue the oldest waiting request, if any: what was sent first is
    /// received first.
    pub fn recv(&mut self) -> (r: Option<WebGPURequest>)
        ensures
            match r {
                Some(req) => {
                    &&& old(self).pending().len() > 0
                    &&& req == old(self).pending()[0]
                    &&& final(self).pending() == old(self).pending().drop_first()
                },
                None => {
                    &&& old(self).pending().len() == 0
                    &&& final(self).pending() == old(self).pending()
                },
            },
    {
        if self.queue.len() == 0 {
            None
        } else {
            let req = self.queue.remove(0);
            proof {
                assert(self.queue@ =~= old(self).queue@.drop_first());
            }
            Some(req)
        }
    }
}

} // verus!
