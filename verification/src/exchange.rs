//! What holds of a channel whose service is a `Loopback`: the messages come
//! back as they were sent, in the order in which they were sent.

use vstd::prelude::*;
use crate::game_coordinator::GameCoordinator;
use crate::loopback::{Loopback, Packet};
use crate::outcome::OperationResult;

verus! {

/// A payload that the 32-bit interface can carry is always accepted and
/// joins the queue whole, behind the messages that wait. A longer one is
/// refused with `InvalidArgument` and leaves the queue as it was: no part of
/// it is queued.
pub proof fn lemma_send_queues_last(
    before: GameCoordinator<Loopback>,
    msg_type: u32,
    data: Seq<u8>,
    sent: OperationResult,
    after: GameCoordinator<Loopback>,
)
    requires
        before.sends(msg_type, data, sent, &after),
    ensures
        sent == OperationResult::Success <==> data.len() <= u32::MAX,
        data.len() <= u32::MAX ==> after.service()@ == before.service()@.push(
            Packet { msg_type, payload: data },
        ),
        data.len() > u32::MAX ==> sent == OperationResult::InvalidArgument && after.service()@
            == before.service()@,
{
}

/// Sending the same message twice leaves it in the queue twice, the second
/// behind the first.
pub proof fn lemma_send_twice(
    before: GameCoordinator<Loopback>,
    msg_type: u32,
    data: Seq<u8>,
    first: OperationResult,
    between: GameCoordinator<Loopback>,
    second: OperationResult,
    after: GameCoordinator<Loopback>,
)
    requires
        data.len() <= u32::MAX,
        before.sends(msg_type, data, first, &between),
        between.sends(msg_type, data, second, &after),
    ensures
        first == OperationResult::Success,
        second == OperationResult::Success,
        after.service()@ == before.service()@.push(Packet { msg_type, payload: data }).push(
            Packet { msg_type, payload: data },
        ),
{
}

/// A message sent on a channel with nothing waiting, then retrieved into a
/// buffer that is large enough, comes back with the same bytes and the same
/// type tag. The rest of the buffer is untouched and the queue is empty again.
///
/// The payload is one that the 32-bit interface can carry; the buffer may be
/// of any length that holds it.
pub proof fn lemma_round_trip(
    idle: GameCoordinator<Loopback>,
    msg_type: u32,
    data: Seq<u8>,
    sent: OperationResult,
    queued: GameCoordinator<Loopback>,
    buf: Seq<u8>,
    got: (OperationResult, u32, u32),
    filled: Seq<u8>,
    drained: GameCoordinator<Loopback>,
)
    requires
        idle.service()@.len() == 0,
        data.len() <= u32::MAX,
        data.len() <= buf.len(),
        idle.sends(msg_type, data, sent, &queued),
        queued.receives(buf, got, filled, &drained),
    ensures
        sent == OperationResult::Success,
        got == (OperationResult::Success, data.len() as u32, msg_type),
        filled.len() == buf.len(),
        filled.take(data.len() as int) == data,
        filled.skip(data.len() as int) == buf.skip(data.len() as int),
        drained.service()@.len() == 0,
{
    lemma_send_queues_last(idle, msg_type, data, sent, queued);
    assert(queued.service()@[0].payload == data);
    assert(filled.take(data.len() as int) =~= data);
    assert(filled.skip(data.len() as int) =~= buf.skip(data.len() as int));
}

/// With nothing waiting, polling reports nothing.
pub proof fn lemma_poll_empty(idle: GameCoordinator<Loopback>, polled: Option<u32>)
    requires
        idle.service()@.len() == 0,
        idle.reports(polled),
    ensures
        polled is None,
{
}

/// Right after a successful send on a channel with nothing waiting, polling
/// reports the length of the payload that was sent.
pub proof fn lemma_poll_after_send(
    idle: GameCoordinator<Loopback>,
    msg_type: u32,
    data: Seq<u8>,
    sent: OperationResult,
    queued: GameCoordinator<Loopback>,
    polled: Option<u32>,
)
    requires
        idle.service()@.len() == 0,
        idle.sends(msg_type, data, sent, &queued),
        sent == OperationResult::Success,
        queued.reports(polled),
    ensures
        data.len() <= u32::MAX,
        polled == Some(data.len() as u32),
{
    lemma_send_queues_last(idle, msg_type, data, sent, queued);
}

/// Polling reports the size of the oldest waiting message, whatever else
/// waits behind it.
pub proof fn lemma_poll_reports_oldest(channel: GameCoordinator<Loopback>, polled: Option<u32>)
    requires
        channel.service()@.len() > 0,
        channel.reports(polled),
    ensures
        polled matches Some(size) && size == channel.service()@[0].payload.len(),
{
}

/// Whenever the buffer is at least as long as the oldest waiting message,
/// retrieval succeeds, however long the buffer is.
pub proof fn lemma_fitting_buffer_accepted(
    before: GameCoordinator<Loopback>,
    size: u32,
    buf: Seq<u8>,
    got: (OperationResult, u32, u32),
    filled: Seq<u8>,
    after: GameCoordinator<Loopback>,
)
    requires
        before.reports(Some(size)),
        buf.len() >= size,
        before.receives(buf, got, filled, &after),
    ensures
        got == (OperationResult::Success, size, before.service()@[0].msg_type),
        filled.len() == buf.len(),
        filled.take(size as int) == before.service()@[0].payload,
        filled.skip(size as int) == buf.skip(size as int),
        after.service()@ == before.service()@.skip(1),
{
    assert(filled.take(size as int) =~= before.service()@[0].payload);
    assert(filled.skip(size as int) =~= buf.skip(size as int));
}

/// Retrieving into a buffer smaller than the size that polling reported fails
/// with `BufferTooSmall`: no byte is written, the buffer is as it was, and the
/// message still waits.
pub proof fn lemma_small_buffer_rejected(
    before: GameCoordinator<Loopback>,
    size: u32,
    buf: Seq<u8>,
    got: (OperationResult, u32, u32),
    filled: Seq<u8>,
    after: GameCoordinator<Loopback>,
)
    requires
        before.reports(Some(size)),
        buf.len() < size,
        before.receives(buf, got, filled, &after),
    ensures
        got == (OperationResult::BufferTooSmall, 0u32, 0u32),
        filled == buf,
        after.service()@ == before.service()@,
{
}

/// Retrieving from a channel with nothing waiting fails with `NoMessage` and
/// changes neither buffer nor queue.
pub proof fn lemma_receive_empty(
    idle: GameCoordinator<Loopback>,
    buf: Seq<u8>,
    got: (OperationResult, u32, u32),
    filled: Seq<u8>,
    after: GameCoordinator<Loopback>,
)
    requires
        idle.service()@.len() == 0,
        idle.receives(buf, got, filled, &after),
    ensures
        got == (OperationResult::NoMessage, 0u32, 0u32),
        filled == buf,
        after.service()@.len() == 0,
{
}

/// Polling has one answer in each state, and it takes the channel by shared
/// reference: polled again with no retrieval in between, the channel reports
/// the same.
pub proof fn lemma_poll_idempotent(
    channel: GameCoordinator<Loopback>,
    first: Option<u32>,
    second: Option<u32>,
)
    requires
        channel.reports(first),
        channel.reports(second),
    ensures
        first == second,
{
}

/// After the oldest of several waiting messages has been retrieved, polling
/// reports the size of the one that was second; the retrieved one is gone.
pub proof fn lemma_drain(
    before: GameCoordinator<Loopback>,
    buf: Seq<u8>,
    got: (OperationResult, u32, u32),
    filled: Seq<u8>,
    after: GameCoordinator<Loopback>,
    polled: Option<u32>,
)
    requires
        before.service()@.len() >= 2,
        before.receives(buf, got, filled, &after),
        got.0 == OperationResult::Success,
        after.reports(polled),
    ensures
        got.1 == before.service()@[0].payload.len(),
        got.2 == before.service()@[0].msg_type,
        filled.take(got.1 as int) == before.service()@[0].payload,
        after.service()@ == before.service()@.skip(1),
        polled matches Some(size) && size == before.service()@[1].payload.len(),
{
    assert(filled.take(got.1 as int) =~= before.service()@[0].payload);
}

} // verus!
