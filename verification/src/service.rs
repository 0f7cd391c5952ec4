//! The three entry points of a coordinator service, as the channel calls them.

use vstd::prelude::*;

verus! {

/// What a service hands back from one call of `retrieve`.
#[derive(Clone, Copy, Debug, PartialEq, Eq, Structural)]
pub struct Retrieval {
    /// Raw outcome code.
    pub code: u32,
    /// Type tag of the message, as far as the service filled it in.
    pub msg_type: u32,
    /// Number of bytes that the service reports as written.
    pub written: u32,
}

/// The length that a service is told for a payload of `len` bytes: `len`
/// itself, or nothing where 32 bits cannot say it.
pub open spec fn payload_length_spec(len: nat) -> Option<u32> {
    if len > u32::MAX {
        None
    } else {
        Some(len as u32)
    }
}

/// Computes the length to tell for a payload of `len` bytes. `None` means that
/// the payload cannot be handed over whole.
pub fn payload_length(len: usize) -> (r: Option<u32>)
    ensures
        r == payload_length_spec(len as nat),
{
    if len > u32::MAX as usize {
        None
    } else {
        Some(len as u32)
    }
}

/// The capacity that a service is told for a buffer of `len` bytes: `len`
/// itself, or the largest 32-bit number where `len` is larger still.
pub open spec fn buffer_capacity_spec(len: nat) -> u32 {
    if len > u32::MAX {
        u32::MAX
    } else {
        len as u32
    }
}

/// Computes the capacity to tell for a buffer of `len` bytes. It never exceeds
/// `len`, so a service that keeps to it stays inside the buffer.
pub fn buffer_capacity(len: usize) -> (r: u32)
    ensures
        r == buffer_capacity_spec(len as nat),
        r <= len,
{
    if len > u32::MAX as usize {
        u32::MAX
    } else {
        len as u32
    }
}

/// A service that queues messages: the party on the other side of the channel.
///
/// An implementation says in the three spec functions which answers it may
/// give in which state, and its methods are held to that. The channel's
/// contracts are stated over these functions. Left as they are here, they
/// allow every answer: of such a service the contracts claim nothing.
///
/// The `requires` of `submit` and `retrieve` are what an implementation may
/// rely on: `len` is the length of the payload, and `capacity` never reaches
/// past the buffer.
pub trait Service: Sized {
    /// Whether the service, in state `self` and handed `payload` under
    /// `msg_type`, may answer `code` and go to state `after`.
    open spec fn submit_spec(&self, msg_type: u32, payload: Seq<u8>, code: u32, after: &Self) -> bool {
        true
    }

    /// Whether the service, in state `self`, may report `available` together
    /// with `size`.
    open spec fn check_available_spec(&self, available: bool, size: u32) -> bool {
        true
    }

    /// Whether the service, in state `self` and given a buffer holding `buf` of
    /// which it may use the first `capacity` bytes, may answer `reply`, leave
    /// `filled` in the buffer and go to state `after`.
    open spec fn retrieve_spec(
        &self,
        capacity: u32,
        buf: Seq<u8>,
        reply: Retrieval,
        filled: Seq<u8>,
        after: &Self,
    ) -> bool {
        true
    }

    /// Hands `data`, which is `len` bytes long, to the service under
    /// `msg_type`.
    fn submit(&mut self, msg_type: u32, data: &[u8], len: u32) -> (code: u32)
        requires
            len == data@.len(),
        ensures
            old(self).submit_spec(msg_type, data@, code, final(self)),
    ;

    /// Asks whether a message waits, and for its size.
    fn check_available(&self) -> (r: (bool, u32))
        ensures
            self.check_available_spec(r.0, r.1),
    ;

    /// Asks for the message at the head of the queue, to be written into the
    /// first `capacity` bytes of `buf`.
    fn retrieve(&mut self, buf: &mut [u8], capacity: u32) -> (reply: Retrieval)
        requires
            capacity <= old(buf)@.len(),
        ensures
            old(self).retrieve_spec(capacity, old(buf)@, reply, final(buf)@, final(self)),
    ;
}

} // verus!
