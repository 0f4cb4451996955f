use vstd::prelude::*;
use crate::error::ProtocolError;
use crate::protocol::Message;
use crate::protocol::made;
use crate::protocol::valid;
use crate::protocol::A_CLSE;
use crate::protocol::A_OKAY;
use crate::protocol::A_OPEN;
use crate::protocol::A_WRTE;

verus! {

/// Lifecycle of one logical stream.
#[derive(Debug, Clone, Copy, PartialEq, Eq, Structural)]
pub enum StreamState {
    /// `OPEN` sent, no answer yet.
    Opening,
    /// The peer acknowledged the open.
    Open,
    /// Closed by either side, rejected, or lost with the connection.
    Closed,
}

/// One logical stream multiplexed over the connection.
pub struct Stream {
    pub local_id: u32,
    /// The peer's id for the stream; 0 until the open is acknowledged.
    pub remote_id: u32,
    pub state: StreamState,
    /// A `WRTE` was sent and its `OKAY` has not come yet.
    pub write_pending: bool,
    /// Payloads that arrived for this stream and were not read yet, oldest first.
    pub inbox: Vec<Vec<u8>>,
}

/// The table of a connection's streams. Local ids are handed out from 1
/// upwards and never reused: the stream with id `k` sits at index `k - 1`.
pub struct StreamRegistry {
    pub streams: Vec<Stream>,
    /// The transport failed; every later operation fails with
    /// `ConnectionLost`.
    pub lost: bool,
}

/// Whether a write may go out on stream `s` now: it must be open, and no
/// earlier write on it may be waiting for its `OKAY`.
pub open spec fn write_check(s: Stream) -> Result<(), ProtocolError> {
    if s.state != StreamState::Open {
        Err(ProtocolError::StreamClosed)
    } else if s.write_pending {
        Err(ProtocolError::WritePending)
    } else {
        Ok(())
    }
}

/// Stream `s` once a write has gone out on it.
pub open spec fn written(s: Stream) -> Stream {
    Stream { write_pending: true, ..s }
}

/// Stream `s` once an `OKAY` from peer stream `remote` arrived: an open
/// completes, otherwise the write in flight is acknowledged.
pub open spec fn acked(s: Stream, remote: u32) -> Stream {
    if s.state == StreamState::Opening {
        Stream { state: StreamState::Open, remote_id: remote, ..s }
    } else {
        Stream { write_pending: false, ..s }
    }
}

/// Stream `s` once closed by either side.
pub open spec fn closed(s: Stream) -> Stream {
    Stream { state: StreamState::Closed, write_pending: false, ..s }
}

/// Whether closing stream `s` from this side sends a `CLSE`.
pub open spec fn sends_clse(s: Stream) -> bool {
    s.state != StreamState::Closed
}

/// After one write on an open stream, a second is refused until the `OKAY`
/// for the first has arrived; after it, writing is allowed again.
pub proof fn lemma_one_write_in_flight(s: Stream, remote: u32)
    requires
        write_check(s) is Ok,
    ensures
        write_check(written(s)) == Err::<(), ProtocolError>(ProtocolError::WritePending),
        write_check(acked(written(s), remote)) is Ok,
{
}

/// Closing a stream a second time, or hearing the peer close it after this
/// side did, changes nothing and sends no further `CLSE`.
pub proof fn lemma_close_idempotent(s: Stream)
    ensures
        !sends_clse(closed(s)),
        closed(closed(s)) == closed(s),
{
}

/// Two streams opened one after the other get distinct, non-zero ids, and
/// both are in the table afterwards.
pub proof fn lemma_two_opens(r0: &StreamRegistry, r1: &StreamRegistry, r2: &StreamRegistry, a: u32, b: u32)
    requires
        r0.wf(),
        opened(r0, r1, a),
        opened(r1, r2, b),
    ensures
        a != 0,
        b != 0,
        a != b,
        slot(r2, a),
        slot(r2, b),
        r2.stream(a).local_id == a,
        r2.stream(b).local_id == b,
{
}

/// A frame addressed to stream `a` leaves every other stream as it was: in
/// particular its payload reaches no other stream's queue.
pub proof fn lemma_routing_isolated(before: &StreamRegistry, after: &StreamRegistry, msg_id: u32, b: u32)
    requires
        only_touched(before, after, msg_id),
        slot(before, b),
        b != msg_id,
    ensures
        slot(after, b),
        after.stream(b) == before.stream(b),
{
    assert(after.streams@[b - 1] == before.streams@[b - 1]);
}

/// `after` is `before` with stream `id` added as a fresh `Opening` stream.
pub open spec fn opened(before: &StreamRegistry, after: &StreamRegistry, id: u32) -> bool {
    &&& after.lost == before.lost
    &&& id == before.streams@.len() + 1
    &&& after.streams@.len() == before.streams@.len() + 1
    &&& after.streams@.drop_last() == before.streams@
    &&& after.streams@.last().local_id == id
    &&& after.streams@.last().remote_id == 0
    &&& after.streams@.last().state == StreamState::Opening
    &&& !after.streams@.last().write_pending
    &&& after.streams@.last().inbox@.len() == 0
}

/// `after` differs from `before` at most in the stream that `id` names.
pub open spec fn only_touched(before: &StreamRegistry, after: &StreamRegistry, id: u32) -> bool {
    &&& after.lost == before.lost
    &&& after.streams@.len() == before.streams@.len()
    &&& forall|k: int|
        0 <= k < before.streams@.len() && k != id - 1 ==> #[trigger] after.streams@[k]
            == before.streams@[k]
}

/// Streams at different places in a well-formed table have different ids,
/// and no id is zero.
pub proof fn lemma_ids_distinct(r: &StreamRegistry, i: int, j: int)
    requires
        r.wf(),
        0 <= i < r.streams@.len(),
        0 <= j < r.streams@.len(),
        i != j,
    ensures
        r.streams@[i].local_id != r.streams@[j].local_id,
        r.streams@[i].local_id != 0,
{
}

/// The frame that acknowledges data on a stream: `OKAY` with our id and the
/// peer's.
pub open spec fn ack_of(s: Stream) -> crate::protocol::FrameModel {
    made(A_OKAY, s.local_id, s.remote_id, seq![])
}

/// The index of the stream that `id` names, if any.
pub open spec fn slot(r: &StreamRegistry, id: u32) -> bool {
    1 <= id <= r.streams@.len()
}

impl StreamRegistry {
    /// Well-formed: ids follow the indices, a stream being opened has no peer
    /// id and no write in flight, and a closed one has no write in flight.
    pub open spec fn wf(&self) -> bool {
        &&& self.streams@.len() < u32::MAX
        &&& forall|i: int|
            0 <= i < self.streams@.len() ==> {
                let s = #[trigger] self.streams@[i];
                &&& s.local_id == i + 1
                &&& s.state != StreamState::Open ==> !s.write_pending
                &&& s.state == StreamState::Opening ==> s.remote_id == 0
            }
    }

    /// The stream that `id` names; meaningful where `slot(self, id)` holds.
    pub open spec fn stream(&self, id: u32) -> Stream {
        self.streams@[id - 1]
    }

    /// An empty table.
    pub fn new() -> (r: StreamRegistry)
        ensures
            r.wf(),
            r.streams@.len() == 0,
            !r.lost,
    {
        StreamRegistry { streams: Vec::new(), lost: false }
    }

    /// Allocates the next local id, records the stream as `Opening`, and
    /// returns the id with the `OPEN` frame that carries `service`. Fails with
    /// `ConnectionLost` once the transport has failed, `PayloadTooLarge` for a
    /// service name that no frame can carry, and `IdsExhausted` once every
    /// 32-bit id has been handed out; a failed call changes nothing.
    pub fn open(&mut self, service: Vec<u8>) -> (r: Result<(u32, Message), ProtocolError>)
        requires
            old(self).wf(),
        ensures
            final(self).wf(),
            r is Err ==> *final(self) == *old(self),
            old(self).lost ==> r == Err::<(u32, Message), ProtocolError>(
                ProtocolError::ConnectionLost,
            ),
            !old(self).lost && service@.len() > u32::MAX ==> r == Err::<(u32, Message), ProtocolError>(
                ProtocolError::PayloadTooLarge,
            ),
            !old(self).lost && service@.len() <= u32::MAX && old(self).streams@.len() + 1
                == u32::MAX ==> r == Err::<(u32, Message), ProtocolError>(
                ProtocolError::IdsExhausted,
            ),
            !old(self).lost && service@.len() <= u32::MAX && old(self).streams@.len() + 1
                < u32::MAX ==> r is Ok,
            r matches Ok((id, m)) ==> opened(old(self), final(self), id) && m@ == made(
                A_OPEN,
                id,
                0,
                service@,
            ),
    {
        if self.lost {
            return Err(ProtocolError::ConnectionLost);
        }
        if service.len() > u32::MAX as usize {
            return Err(ProtocolError::PayloadTooLarge);
        }
        if self.streams.len() + 1 >= u32::MAX as usize {
            return Err(ProtocolError::IdsExhausted);
        }
        let id = (self.streams.len() + 1) as u32;
        let entry = Stream {
            local_id: id,
            remote_id: 0,
            state: StreamState::Opening,
            write_pending: false,
            inbox: Vec::new(),
        };
        self.streams.push(entry);
        assert(self.streams@.drop_last() =~= old(self).streams@);
        Ok((id, Message::new(A_OPEN, id, 0, service)))
    }

    /// Routes one inbound frame to the stream its `arg1` names and applies it:
    /// `OKAY` completes an open or acknowledges the pending write, `WRTE`
    /// queues its payload and yields the `OKAY` to send back, `CLSE` closes
    /// the stream (failing with `OpenRejected` if it was still opening). No
    /// other stream is touched.
    pub fn on_frame(&mut self, msg: &Message) -> (r: Result<Option<Message>, ProtocolError>)
        requires
            old(self).wf(),
        ensures
            final(self).wf(),
            only_touched(old(self), final(self), msg.arg1),
            old(self).lost ==> r == Err::<Option<Message>, ProtocolError>(
                ProtocolError::ConnectionLost,
            ) && *final(self) == *old(self),
            !old(self).lost && !valid(msg@) ==> r == Err::<Option<Message>, ProtocolError>(
                ProtocolError::InvalidFrame,
            ) && *final(self) == *old(self),
            !old(self).lost && valid(msg@) && !slot(old(self), msg.arg1) ==> r == Err::<Option<Message>, ProtocolError>(
                ProtocolError::StreamClosed,
            ) && *final(self) == *old(self),
            !old(self).lost && valid(msg@) && slot(old(self), msg.arg1) && msg.cmd == A_OKAY ==> {
                &&& r == Ok::<Option<Message>, ProtocolError>(None)
                &&& final(self).stream(msg.arg1) == acked(old(self).stream(msg.arg1), msg.arg0)
            },
            !old(self).lost && valid(msg@) && slot(old(self), msg.arg1) && msg.cmd == A_WRTE ==> {
                if old(self).stream(msg.arg1).state == StreamState::Open {
                    &&& r matches Ok(Some(ack)) && ack@ == ack_of(old(self).stream(msg.arg1))
                    &&& final(self).stream(msg.arg1).inbox@.len() == old(self).stream(msg.arg1).inbox@.len() + 1
                    &&& final(self).stream(msg.arg1).inbox@.drop_last() == old(self).stream(msg.arg1).inbox@
                    &&& final(self).stream(msg.arg1).inbox@.last()@ == msg.payload@
                    &&& final(self).stream(msg.arg1).state == StreamState::Open
                    &&& final(self).stream(msg.arg1).remote_id == old(self).stream(msg.arg1).remote_id
                    &&& final(self).stream(msg.arg1).write_pending == old(self).stream(msg.arg1).write_pending
                } else {
                    &&& r == Err::<Option<Message>, ProtocolError>(ProtocolError::StreamClosed)
                    &&& *final(self) == *old(self)
                }
            },
            !old(self).lost && valid(msg@) && slot(old(self), msg.arg1) && msg.cmd == A_CLSE ==> {
                &&& final(self).stream(msg.arg1) == closed(old(self).stream(msg.arg1))
                &&& old(self).stream(msg.arg1).state == StreamState::Opening ==> r == Err::<
                    Option<Message>,
                    ProtocolError,
                >(ProtocolError::OpenRejected)
                &&& old(self).stream(msg.arg1).state != StreamState::Opening ==> r == Ok::<
                    Option<Message>,
                    ProtocolError,
                >(None)
            },
            !old(self).lost && valid(msg@) && slot(old(self), msg.arg1) && msg.cmd != A_OKAY && msg.cmd != A_WRTE
                && msg.cmd != A_CLSE ==> r == Err::<Option<Message>, ProtocolError>(
                ProtocolError::UnexpectedResponse,
            ) && *final(self) == *old(self),
    {
        if self.lost {
            return Err(ProtocolError::ConnectionLost);
        }
        if !Message::is_validate_message(msg) {
            return Err(ProtocolError::InvalidFrame);
        }
        let id = msg.arg1;
        if id == 0 || id as usize > self.streams.len() {
            return Err(ProtocolError::StreamClosed);
        }
        let idx = (id - 1) as usize;
        let state = self.streams[idx].state;
        if msg.cmd == A_OKAY {
            if state == StreamState::Opening {
                self.streams[idx].remote_id = msg.arg0;
                self.streams[idx].state = StreamState::Open;
            } else {
                self.streams[idx].write_pending = false;
            }
            Ok(None)
        } else if msg.cmd == A_WRTE {
            if state != StreamState::Open {
                return Err(ProtocolError::StreamClosed);
            }
            let data = vstd::slice::slice_to_vec(msg.payload.as_slice());
            self.streams[idx].inbox.push(data);
            let remote = self.streams[idx].remote_id;
            Ok(Some(Message::new(A_OKAY, id, remote, Vec::new())))
        } else if msg.cmd == A_CLSE {
            self.streams[idx].state = StreamState::Closed;
            self.streams[idx].write_pending = false;
            if state == StreamState::Opening {
                Err(ProtocolError::OpenRejected)
            } else {
                Ok(None)
            }
        } else {
            Err(ProtocolError::UnexpectedResponse)
        }
    }

    /// Sends `data` on stream `id`: yields the `WRTE` frame and marks a write
    /// as in flight. At most one write per stream may await its `OKAY`: while
    /// one does, this fails with `WritePending`. A stream that is not open
    /// fails with `StreamClosed`.
    pub fn write(&mut self, id: u32, data: Vec<u8>) -> (r: Result<Message, ProtocolError>)
        requires
            old(self).wf(),
        ensures
            final(self).wf(),
            only_touched(old(self), final(self), id),
            old(self).lost ==> r == Err::<Message, ProtocolError>(ProtocolError::ConnectionLost)
                && *final(self) == *old(self),
            !old(self).lost && !slot(old(self), id) ==> r == Err::<Message, ProtocolError>(ProtocolError::StreamClosed)
                && *final(self) == *old(self),
            !old(self).lost && slot(old(self), id) && write_check(old(self).stream(id)) is Err ==> r == Err::<
                Message,
                ProtocolError,
            >(write_check(old(self).stream(id))->Err_0) && *final(self) == *old(self),
            !old(self).lost && slot(old(self), id) && write_check(old(self).stream(id)) is Ok
                && data@.len() > u32::MAX ==> r == Err::<Message, ProtocolError>(
                ProtocolError::PayloadTooLarge,
            ) && *final(self) == *old(self),
            !old(self).lost && slot(old(self), id) && write_check(old(self).stream(id)) is Ok
                && data@.len() <= u32::MAX ==> {
                &&& r matches Ok(m) && m@ == made(A_WRTE, id, old(self).stream(id).remote_id, data@)
                &&& final(self).stream(id) == written(old(self).stream(id))
            },
    {
        if self.lost {
            return Err(ProtocolError::ConnectionLost);
        }
        if id == 0 || id as usize > self.streams.len() {
            return Err(ProtocolError::StreamClosed);
        }
        let idx = (id - 1) as usize;
        if self.streams[idx].state != StreamState::Open {
            return Err(ProtocolError::StreamClosed);
        }
        if self.streams[idx].write_pending {
            return Err(ProtocolError::WritePending);
        }
        if data.len() > u32::MAX as usize {
            return Err(ProtocolError::PayloadTooLarge);
        }
        self.streams[idx].write_pending = true;
        let remote = self.streams[idx].remote_id;
        Ok(Message::new(A_WRTE, id, remote, data))
    }

    /// Takes the oldest payload that arrived for stream `id`, if any.
    /// `None` with `is_closed(id)` is the end of the stream.
    pub fn read(&mut self, id: u32) -> (r: Option<Vec<u8>>)
        requires
            old(self).wf(),
        ensures
            final(self).wf(),
            only_touched(old(self), final(self), id),
            !slot(old(self), id) || old(self).stream(id).inbox@.len() == 0 ==> r is None
                && *final(self) == *old(self),
            slot(old(self), id) && old(self).stream(id).inbox@.len() > 0 ==> {
                &&& r matches Some(d) && d@ == old(self).stream(id).inbox@[0]@
                &&& final(self).stream(id).inbox@ == old(self).stream(id).inbox@.drop_first()
                &&& final(self).stream(id).state == old(self).stream(id).state
                &&& final(self).stream(id).local_id == old(self).stream(id).local_id
                &&& final(self).stream(id).remote_id == old(self).stream(id).remote_id
                &&& final(self).stream(id).write_pending == old(self).stream(id).write_pending
            },
    {
        if id == 0 || id as usize > self.streams.len() {
            return None;
        }
        let idx = (id - 1) as usize;
        if self.streams[idx].inbox.len() == 0 {
            return None;
        }
        let d = self.streams[idx].inbox.remove(0);
        assert(self.streams@[idx as int].inbox@ =~= old(self).streams@[idx as int].inbox@.drop_first());
        Some(d)
    }

    /// Whether stream `id` is closed, or was never opened.
    pub fn is_closed(&self, id: u32) -> (r: bool)
        ensures
            r == (!slot(self, id) || self.stream(id).state == StreamState::Closed),
    {
        id == 0 || id as usize > self.streams.len() || self.streams[(id - 1) as usize].state
            == StreamState::Closed
    }

    /// Closes stream `id` from this side: yields the one `CLSE` frame to send
    /// and marks the stream `Closed`. Closing a stream that is already closed,
    /// or was never opened, does nothing and yields no frame.
    pub fn close(&mut self, id: u32) -> (r: Option<Message>)
        requires
            old(self).wf(),
        ensures
            final(self).wf(),
            only_touched(old(self), final(self), id),
            !slot(old(self), id) || !sends_clse(old(self).stream(id)) ==> r is None && *final(self)
                == *old(self),
            slot(old(self), id) && sends_clse(old(self).stream(id)) ==> {
                &&& r matches Some(m) && m@ == made(A_CLSE, id, old(self).stream(id).remote_id, seq![])
                &&& final(self).stream(id) == closed(old(self).stream(id))
            },
    {
        if id == 0 || id as usize > self.streams.len() {
            return None;
        }
        let idx = (id - 1) as usize;
        if self.streams[idx].state == StreamState::Closed {
            return None;
        }
        self.streams[idx].state = StreamState::Closed;
        self.streams[idx].write_pending = false;
        let remote = self.streams[idx].remote_id;
        Some(Message::new(A_CLSE, id, remote, Vec::new()))
    }

    /// The transport failed: every stream becomes `Closed`, keeping what it
    /// had received, and later `open`, `write` and `on_frame` calls fail with
    /// `ConnectionLost`.
    pub fn connection_lost(&mut self)
        requires
            old(self).wf(),
        ensures
            final(self).wf(),
            final(self).lost,
            final(self).streams@.len() == old(self).streams@.len(),
            forall|k: int|
                0 <= k < old(self).streams@.len() ==> #[trigger] final(self).streams@[k] == closed(
                    old(self).streams@[k],
                ),
    {
        let mut i: usize = 0;
        while i < self.streams.len()
            invariant
                self.wf(),
                i <= self.streams@.len(),
                self.streams@.len() == old(self).streams@.len(),
                forall|k: int|
                    0 <= k < i ==> #[trigger] self.streams@[k] == closed(old(self).streams@[k]),
                forall|k: int| i <= k < self.streams@.len() ==> #[trigger] self.streams@[k] == old(self).streams@[k],
            decreases self.streams@.len() - i,
        {
            self.streams[i].state = StreamState::Closed;
            self.streams[i].write_pending = false;
            i = i + 1;
        }
        self.lost = true;
    }
}

} // verus!
