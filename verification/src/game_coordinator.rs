//! The channel: send a message, ask whether one waits, retrieve it.

use vstd::prelude::*;
use crate::outcome::OperationResult;
use crate::service::{
    buffer_capacity, buffer_capacity_spec, payload_length, payload_length_spec, Retrieval, Service,
};

verus! {

/// Access to a game coordinator service.
///
/// The channel keeps no state of its own: every queue lives in the service. It
/// passes each outcome on as the service gave it, decoded and never collapsed.
pub struct GameCoordinator<S: Service> {
    gc: S,
}

impl<S: Service> GameCoordinator<S> {
    /// The service behind the channel.
    pub closed spec fn service(&self) -> S {
        self.gc
    }

    /// Whether sending `data` under `msg_type` on this channel may return `r`
    /// and leave the channel as `after`.
    ///
    /// A payload whose length needs more than 32 bits cannot be handed over
    /// whole: it is refused with `InvalidArgument` and the service is left
    /// alone. Every other payload goes to the service as it is, and `r` is the
    /// decoding of the code that the service answered.
    pub open spec fn sends(&self, msg_type: u32, data: Seq<u8>, r: OperationResult, after: &Self) -> bool {
        match payload_length_spec(data.len()) {
            None => {
                &&& r == OperationResult::InvalidArgument
                &&& after.service() == self.service()
            },
            Some(_) => {
                &&& r.is_canonical()
                &&& self.service().submit_spec(msg_type, data, r.code_spec(), &after.service())
            },
        }
    }

    /// Whether asking this channel for a waiting message may return `r`.
    ///
    /// `Some(size)` stands for the service reporting a message of that size,
    /// `None` for it reporting none, whatever size came with that.
    pub open spec fn reports(&self, r: Option<u32>) -> bool {
        match r {
            Some(size) => self.service().check_available_spec(true, size),
            None => exists|size: u32| self.service().check_available_spec(false, size),
        }
    }

    /// Whether retrieving into a buffer that holds `buf` may return `r`
    /// (outcome, bytes written, type tag), leave `filled` in the buffer and the
    /// channel as `after`.
    ///
    /// The service is told a capacity of `buffer_capacity_spec(buf.len())`
    /// bytes: the buffer's length, as far as 32 bits can say it. Outcome, byte
    /// count and tag are the service's own: the outcome decoded, the other two
    /// unchanged.
    pub open spec fn receives(
        &self,
        buf: Seq<u8>,
        r: (OperationResult, u32, u32),
        filled: Seq<u8>,
        after: &Self,
    ) -> bool {
        &&& r.0.is_canonical()
        &&& self.service().retrieve_spec(
            buffer_capacity_spec(buf.len()),
            buf,
            (Retrieval { code: r.0.code_spec(), msg_type: r.2, written: r.1 }),
            filled,
            &after.service(),
        )
    }

    /// Opens a channel to `gc`.
    pub fn new(gc: S) -> (r: Self)
        ensures
            r.service() == gc,
    {
        GameCoordinator { gc }
    }

    /// Closes the channel and gives the service back.
    pub fn into_service(self) -> (gc: S)
        ensures
            gc == self.service(),
    {
        self.gc
    }

    /// Send a message to the game coordinator. The result says whether the
    /// message was accepted, not whether it arrived. Either all of `data` is
    /// handed to the service or none of it.
    pub fn send_message(&mut self, msg_type: u32, data: &[u8]) -> (r: OperationResult)
        ensures
            old(self).sends(msg_type, data@, r, final(self)),
    {
        match payload_length(data.len()) {
            None => OperationResult::InvalidArgument,
            Some(len) => {
                let code: u32 = self.gc.submit(msg_type, data, len);
                OperationResult::from_code(code)
            },
        }
    }

    /// Check if a message is available and return its size.
    pub fn is_message_available(&self) -> (r: Option<u32>)
        ensures
            self.reports(r),
    {
        let answer: (bool, u32) = self.gc.check_available();
        if answer.0 {
            Some(answer.1)
        } else {
            assert(self.service().check_available_spec(false, answer.1));
            None
        }
    }

    /// Retrieve a message into the provided buffer. Returns the outcome, the
    /// number of bytes written and the message's type tag.
    pub fn retrieve_message(&mut self, buf: &mut [u8]) -> (r: (OperationResult, u32, u32))
        ensures
            old(self).receives(old(buf)@, r, final(buf)@, final(self)),
    {
        let capacity: u32 = buffer_capacity(buf.len());
        let reply: Retrieval = self.gc.retrieve(buf, capacity);
        (OperationResult::from_code(reply.code), reply.written, reply.msg_type)
    }
}

} // verus!
