//! A service that lives in the process and hands every submitted message back
//! to its own receive queue, first in, first out.

use std::collections::VecDeque;
use vstd::prelude::*;
use vstd::slice::slice_to_vec;
use crate::outcome::{CODE_BUFFER_TOO_SMALL, CODE_NO_MESSAGE, CODE_SUCCESS};
use crate::service::{Retrieval, Service};

verus! {

/// A message as the queue's model holds it: a type tag and the payload bytes.
pub struct Packet {
    /// The sender's type tag.
    pub msg_type: u32,
    /// The bytes that were sent.
    pub payload: Seq<u8>,
}

/// A waiting message as it is stored.
struct Queued {
    msg_type: u32,
    payload: Vec<u8>,
}

/// A coordinator service without a network: what is submitted waits in the
/// receive queue until it is retrieved.
pub struct Loopback {
    inbox: VecDeque<Queued>,
}

impl View for Loopback {
    type V = Seq<Packet>;

    /// The waiting messages, oldest first.
    closed spec fn view(&self) -> Seq<Packet> {
        Seq::new(
            self.inbox@.len(),
            |i: int| Packet { msg_type: self.inbox@[i].msg_type, payload: self.inbox@[i].payload@ },
        )
    }
}

impl Loopback {
    /// Every waiting payload has a length that the 32-bit interface can
    /// report.
    #[verifier::type_invariant]
    spec fn sizes_fit(&self) -> bool {
        forall|i: int| 0 <= i < self.inbox@.len() ==> (#[trigger] self.inbox@[i]).payload@.len() <= u32::MAX
    }

    /// A service with nothing waiting.
    pub fn new() -> (r: Loopback)
        ensures
            r@ == Seq::<Packet>::empty(),
    {
        Loopback { inbox: VecDeque::new() }
    }

    /// Moves the queue out and leaves an empty one, so that it can be changed
    /// and put back whole.
    fn take_inbox(&mut self) -> (inbox: VecDeque<Queued>)
        ensures
            inbox == old(self).inbox,
            forall|i: int| 0 <= i < inbox@.len() ==> (#[trigger] inbox@[i]).payload@.len() <= u32::MAX,
    {
        proof {
            use_type_invariant(&*self);
        }
        let mut taken: Loopback = Loopback::new();
        std::mem::swap(self, &mut taken);
        taken.inbox
    }

    /// The number of waiting messages.
    pub fn pending(&self) -> (n: usize)
        ensures
            n == self@.len(),
    {
        self.inbox.len()
    }
}

impl Service for Loopback {
    /// Every message is accepted and joins the queue at its end.
    open spec fn submit_spec(&self, msg_type: u32, payload: Seq<u8>, code: u32, after: &Self) -> bool {
        &&& code == CODE_SUCCESS
        &&& after@ == self@.push(Packet { msg_type, payload })
    }

    /// A message is reported exactly when the queue is not empty, with the
    /// size of the oldest one; with an empty queue the size is 0.
    open spec fn check_available_spec(&self, available: bool, size: u32) -> bool {
        if self@.len() == 0 {
            !available && size == 0
        } else {
            available && size == self@[0].payload.len()
        }
    }

    /// The oldest message leaves the queue and fills the front of the buffer
    /// if it fits into `capacity` bytes. If it does not fit, or none waits,
    /// queue and buffer stay as they are and no byte counts as written.
    open spec fn retrieve_spec(
        &self,
        capacity: u32,
        buf: Seq<u8>,
        reply: Retrieval,
        filled: Seq<u8>,
        after: &Self,
    ) -> bool {
        if self@.len() == 0 {
            &&& reply == (Retrieval { code: CODE_NO_MESSAGE, msg_type: 0, written: 0 })
            &&& filled == buf
            &&& after@ == self@
        } else if self@[0].payload.len() > capacity {
            &&& reply == (Retrieval { code: CODE_BUFFER_TOO_SMALL, msg_type: 0, written: 0 })
            &&& filled == buf
            &&& after@ == self@
        } else {
            &&& reply.code == CODE_SUCCESS
            &&& reply.msg_type == self@[0].msg_type
            &&& reply.written == self@[0].payload.len()
            &&& filled == self@[0].payload + buf.skip(self@[0].payload.len() as int)
            &&& after@ == self@.skip(1)
        }
    }

    fn submit(&mut self, msg_type: u32, data: &[u8], len: u32) -> (code: u32) {
        let payload: Vec<u8> = slice_to_vec(data);
        let mut inbox: VecDeque<Queued> = self.take_inbox();
        inbox.push_back(Queued { msg_type, payload });
        *self = Loopback { inbox };
        assert(self@ =~= old(self)@.push(Packet { msg_type, payload: data@ }));
        CODE_SUCCESS
    }

    fn check_available(&self) -> (r: (bool, u32)) {
        proof {
            use_type_invariant(self);
        }
        if self.inbox.len() == 0 {
            (false, 0)
        } else {
            (true, self.inbox[0].payload.len() as u32)
        }
    }

    fn retrieve(&mut self, buf: &mut [u8], capacity: u32) -> (reply: Retrieval) {
        proof {
            use_type_invariant(&*self);
        }
        if self.inbox.len() == 0 {
            return Retrieval { code: CODE_NO_MESSAGE, msg_type: 0, written: 0 };
        }
        let size: usize = self.inbox[0].payload.len();
        if size > capacity as usize {
            return Retrieval { code: CODE_BUFFER_TOO_SMALL, msg_type: 0, written: 0 };
        }
        let mut inbox: VecDeque<Queued> = self.take_inbox();
        let head: Queued = inbox.pop_front().unwrap();
        *self = Loopback { inbox };
        let mut i: usize = 0;
        while i < size
            invariant
                i <= size,
                size == head.payload@.len(),
                size <= buf@.len(),
                buf@.len() == old(buf)@.len(),
                forall|j: int| 0 <= j < i ==> buf@[j] == head.payload@[j],
                forall|j: int| i <= j < buf@.len() ==> buf@[j] == old(buf)@[j],
            decreases size - i,
        {
            buf[i] = head.payload[i];
            i += 1;
        }
        assert(buf@ =~= head.payload@ + old(buf)@.skip(size as int));
        assert(self@ =~= old(self)@.skip(1));
        Retrieval { code: CODE_SUCCESS, msg_type: head.msg_type, written: size as u32 }
    }
}

} // verus!
