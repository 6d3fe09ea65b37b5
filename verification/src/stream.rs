//! The user-facing end of one virtual byte stream.
//!
//! A `MuxStream` owns the receive queue its payloads arrive on (a bounded
//! FIFO filled by the demultiplexor), a carry-over buffer for the tail of
//! the last dequeued chunk, and the write-side flags. An empty payload in
//! the queue marks end of stream; it is observed at most once, after which
//! every read reports end of stream.

use vstd::prelude::*;
use vstd::slice::{slice_subrange, slice_to_vec};
use crate::frame::{StreamFlag, StreamFrame};
use crate::{Error, MAX_PAYLOAD_SIZE};

verus! {

/// The bytes a receive queue will let the reader observe: the chunks in
/// order, cut off at the first empty (end-of-stream) payload.
pub open spec fn queue_bytes(q: Seq<Seq<u8>>) -> Seq<u8>
    decreases q.len(),
{
    if q.len() == 0 {
        Seq::empty()
    } else if q[0].len() == 0 {
        Seq::empty()
    } else {
        q[0] + queue_bytes(q.drop_first())
    }
}

/// Whether an end-of-stream marker sits in the queue.
pub open spec fn queue_has_eof(q: Seq<Seq<u8>>) -> bool {
    exists|i: int| 0 <= i < q.len() && q[i].len() == 0
}

/// Law: delivering one more payload extends the readable bytes by exactly
/// that payload (or by nothing, for the end-of-stream marker), as long as no
/// end-of-stream marker was queued before.
pub proof fn lemma_queue_bytes_push(q: Seq<Seq<u8>>, x: Seq<u8>)
    requires
        !queue_has_eof(q),
    ensures
        queue_bytes(q.push(x)) == if x.len() == 0 {
            queue_bytes(q)
        } else {
            queue_bytes(q) + x
        },
    decreases q.len(),
{
    if q.len() == 0 {
        if x.len() == 0 {
            assert(queue_bytes(q.push(x)) =~= queue_bytes(q));
        } else {
            let qx = q.push(x);
            assert(qx[0] == x);
            assert(qx.drop_first() =~= Seq::<Seq<u8>>::empty());
            assert(queue_bytes(qx.drop_first()) == Seq::<u8>::empty());
            assert(queue_bytes(qx) == x + queue_bytes(qx.drop_first()));
            assert(x + Seq::<u8>::empty() =~= Seq::<u8>::empty() + x);
        }
    } else {
        assert(!(0 <= 0 < q.len() && q[0].len() == 0));
        assert(forall|i: int|
            0 <= i < q.drop_first().len() ==> q.drop_first()[i] == q[i + 1]);
        assert(!queue_has_eof(q.drop_first()));
        lemma_queue_bytes_push(q.drop_first(), x);
        assert(q.push(x).drop_first() =~= q.drop_first().push(x));
        if x.len() == 0 {
        } else {
            assert(q[0] + (queue_bytes(q.drop_first()) + x) =~= (q[0] + queue_bytes(
                q.drop_first(),
            )) + x);
        }
    }
}

/// Law: payloads delivered in order on one port are read back as their
/// concatenation, in order.
pub proof fn lemma_delivery_in_order(q: Seq<Seq<u8>>, p1: Seq<u8>, p2: Seq<u8>)
    requires
        !queue_has_eof(q),
        p1.len() > 0,
        p2.len() > 0,
    ensures
        queue_bytes(q.push(p1).push(p2)) == queue_bytes(q) + p1 + p2,
{
    lemma_queue_bytes_push(q, p1);
    assert(forall|i: int|
        0 <= i < q.push(p1).len() ==> q.push(p1)[i].len() > 0);
    assert(!queue_has_eof(q.push(p1)));
    lemma_queue_bytes_push(q.push(p1), p2);
}

/// The bytes a run of `Psh` frames carries, in order.
pub open spec fn concat_payloads(frames: Seq<StreamFrame>) -> Seq<u8>
    decreases frames.len(),
{
    if frames.len() == 0 {
        Seq::empty()
    } else {
        frames[0].data@ + concat_payloads(frames.drop_first())
    }
}

/// The payload sequence of a run of frames.
pub open spec fn payloads_of(frames: Seq<StreamFrame>) -> Seq<Seq<u8>> {
    frames.map_values(|f: StreamFrame| f.data@)
}

proof fn lemma_concat_payloads_push(frames: Seq<StreamFrame>, f: StreamFrame)
    ensures
        concat_payloads(frames.push(f)) == concat_payloads(frames) + f.data@,
    decreases frames.len(),
{
    if frames.len() == 0 {
        let fs = frames.push(f);
        assert(fs[0] == f);
        assert(fs.drop_first() =~= Seq::<StreamFrame>::empty());
        assert(concat_payloads(fs.drop_first()) == Seq::<u8>::empty());
        assert(concat_payloads(fs) == f.data@ + concat_payloads(fs.drop_first()));
        assert(f.data@ + Seq::<u8>::empty() =~= Seq::<u8>::empty() + f.data@);
    } else {
        lemma_concat_payloads_push(frames.drop_first(), f);
        assert(frames.push(f).drop_first() =~= frames.drop_first().push(f));
        assert(frames[0].data@ + (concat_payloads(frames.drop_first()) + f.data@) =~= (
        frames[0].data@ + concat_payloads(frames.drop_first())) + f.data@);
    }
}

/// Law: a run of non-empty `Psh` frames, delivered in order to one receive
/// queue, lets the reader observe exactly the concatenation of their
/// payloads — a message of N bytes arrives as N bytes.
pub proof fn lemma_written_bytes_arrive(frames: Seq<StreamFrame>)
    requires
        forall|i: int| 0 <= i < frames.len() ==> frames[i].data@.len() > 0,
    ensures
        queue_bytes(payloads_of(frames)) == concat_payloads(frames),
    decreases frames.len(),
{
    if frames.len() == 0 {
    } else {
        lemma_written_bytes_arrive(frames.drop_first());
        assert(payloads_of(frames).drop_first() =~= payloads_of(frames.drop_first()));
        assert(payloads_of(frames)[0] == frames[0].data@);
    }
}

/// What one read of the stream yielded.
#[derive(Debug)]
pub enum ReadResult {
    /// At least one byte; never more than asked for.
    Data(Vec<u8>),
    /// End of stream: the peer finished or the port was closed.
    Eof,
    /// Nothing queued yet; the caller must wait for the demultiplexor to
    /// deliver more before reading again.
    WouldBlock,
}

/// One end of a virtual byte stream.
#[derive(Debug)]
pub struct MuxStream {
    /// Our virtual port.
    pub our_port: u16,
    /// The peer's virtual port.
    pub their_port: u16,
    /// Requested destination host (server side; empty on the client).
    pub dest_host: Vec<u8>,
    /// Requested destination port (server side; `0` on the client).
    pub dest_port: u16,
    /// Whether `Fin` has been sent; only `shutdown` should set it.
    pub fin_sent: bool,
    /// Whether the multiplexor removed this port; only `mark_removed`
    /// should set it.
    pub stream_removed: bool,
    /// Carry-over bytes from the last dequeued chunk.
    pub buf: Vec<u8>,
    /// The receive queue, oldest payload first; an empty payload marks end
    /// of stream.
    pub inbox: Vec<Vec<u8>>,
    /// Whether a read already observed end of stream.
    pub eof_seen: bool,
    /// Flow-control bound of the receive queue, in payloads.
    pub capacity: usize,
}

impl MuxStream {
    /// Whether `Fin` has been sent: monotone, and once set no further `Psh`
    /// or `Fin` frame is produced for this port.
    pub open spec fn spec_fin_sent(&self) -> bool {
        self.fin_sent
    }

    /// Whether the multiplexor removed this port; writes fail from then on.
    pub open spec fn spec_removed(&self) -> bool {
        self.stream_removed
    }

    /// Whether a read has already observed end of stream.
    pub open spec fn spec_eof_seen(&self) -> bool {
        self.eof_seen
    }

    /// Carry-over bytes from the last dequeued chunk.
    pub open spec fn spec_buf(&self) -> Seq<u8> {
        self.buf@
    }

    /// The receive queue's payloads, oldest first.
    pub open spec fn inboxes(&self) -> Seq<Seq<u8>> {
        self.inbox@.map_values(|v: Vec<u8>| v@)
    }

    /// How many payloads are queued.
    pub open spec fn inbox_len(&self) -> nat {
        self.inboxes().len()
    }

    /// The flow-control bound of the receive queue.
    pub open spec fn spec_capacity(&self) -> usize {
        self.capacity
    }

    /// The bytes the reader can still observe, in order.
    pub open spec fn pending(&self) -> Seq<u8> {
        self.spec_buf() + queue_bytes(self.inboxes())
    }

    /// Internal consistency: the capacity is positive, and once end of
    /// stream was observed no carry-over bytes remain.
    pub open spec fn wf(&self) -> bool {
        &&& self.spec_capacity() >= 1
        &&& (self.spec_eof_seen() ==> self.spec_buf().len() == 0)
    }

    /// A fresh stream endpoint: nothing queued, nothing sent, not removed.
    pub fn new(our_port: u16, their_port: u16, dest_host: Vec<u8>, dest_port: u16, capacity: usize)
        -> (r: MuxStream)
        requires
            capacity >= 1,
        ensures
            r.wf(),
            r.our_port == our_port,
            r.their_port == their_port,
            r.dest_host@ == dest_host@,
            r.dest_port == dest_port,
            !r.spec_fin_sent(),
            !r.spec_removed(),
            !r.spec_eof_seen(),
            r.inbox_len() == 0,
            r.pending() == Seq::<u8>::empty(),
            r.spec_capacity() == capacity,
    {
        let r = MuxStream {
            our_port,
            their_port,
            dest_host,
            dest_port,
            fin_sent: false,
            stream_removed: false,
            buf: Vec::new(),
            inbox: Vec::new(),
            eof_seen: false,
            capacity,
        };
        assert(r.inboxes() =~= Seq::<Seq<u8>>::empty());
        assert(r.pending() =~= Seq::<u8>::empty());
        r
    }

    /// Deliver one inbound payload (the demultiplexor's side of the queue).
    /// A full queue accepts nothing: the caller must suspend until the
    /// reader drains — this is the flow-control backpressure.
    pub fn push_frame(&mut self, data: Vec<u8>) -> (accepted: bool)
        requires
            old(self).wf(),
        ensures
            final(self).wf(),
            accepted == (old(self).inbox_len() < old(self).spec_capacity()),
            !accepted ==> *final(self) == *old(self),
            accepted ==> final(self).inboxes() == old(self).inboxes().push(data@),
            accepted && !queue_has_eof(old(self).inboxes()) && data@.len() > 0
                ==> final(self).pending() == old(self).pending() + data@,
            accepted && !queue_has_eof(old(self).inboxes()) && data@.len() == 0
                ==> final(self).pending() == old(self).pending(),
            final(self).our_port == old(self).our_port,
            final(self).their_port == old(self).their_port,
            final(self).spec_fin_sent() == old(self).spec_fin_sent(),
            final(self).spec_removed() == old(self).spec_removed(),
            final(self).spec_eof_seen() == old(self).spec_eof_seen(),
            final(self).spec_buf() == old(self).spec_buf(),
            final(self).spec_capacity() == old(self).spec_capacity(),
    {
        if self.inbox.len() >= self.capacity {
            return false;
        }
        proof {
            if !queue_has_eof(self.inboxes()) {
                lemma_queue_bytes_push(self.inboxes(), data@);
            }
        }
        let ghost old_inboxes = self.inboxes();
        self.inbox.push(data);
        assert(self.inboxes() =~= old_inboxes.push(data@));
        true
    }

    /// Read up to `max` bytes. Carry-over bytes are served first, then the
    /// next queued chunk; an empty queued payload is observed as end of
    /// stream at most once, after which every read returns `Eof`.
    pub fn read(&mut self, max: usize) -> (r: ReadResult)
        requires
            old(self).wf(),
            max >= 1,
        ensures
            final(self).wf(),
            final(self).our_port == old(self).our_port,
            final(self).their_port == old(self).their_port,
            final(self).spec_fin_sent() == old(self).spec_fin_sent(),
            final(self).spec_removed() == old(self).spec_removed(),
            final(self).spec_capacity() == old(self).spec_capacity(),
            old(self).spec_eof_seen() ==> r is Eof && *final(self) == *old(self),
            match r {
                ReadResult::Data(d) => {
                    &&& !old(self).spec_eof_seen()
                    &&& !final(self).spec_eof_seen()
                    &&& 1 <= d@.len() <= max
                    &&& d@ == old(self).pending().take(d@.len() as int)
                    &&& final(self).pending() == old(self).pending().skip(d@.len() as int)
                },
                ReadResult::Eof => {
                    &&& final(self).spec_eof_seen()
                    &&& (old(self).spec_eof_seen() || (old(self).spec_buf().len() == 0
                        && old(self).inbox_len() > 0 && old(self).inboxes()[0].len() == 0))
                },
                ReadResult::WouldBlock => {
                    &&& *final(self) == *old(self)
                    &&& !old(self).spec_eof_seen()
                    &&& old(self).spec_buf().len() == 0
                    &&& old(self).inbox_len() == 0
                },
            },
    {
        if self.eof_seen {
            return ReadResult::Eof;
        }
        if self.buf.len() == 0 {
            if self.inbox.len() == 0 {
                return ReadResult::WouldBlock;
            }
            let ghost old_inboxes = self.inboxes();
            let next = self.inbox.remove(0);
            assert(self.inboxes() =~= old_inboxes.drop_first());
            assert(next@ == old_inboxes[0]);
            if next.len() == 0 {
                self.eof_seen = true;
                assert(queue_bytes(old_inboxes) =~= Seq::<u8>::empty());
                self.inbox.clear();
                assert(self.inboxes() =~= Seq::<Seq<u8>>::empty());
                return ReadResult::Eof;
            }
            assert(queue_bytes(old_inboxes) == old_inboxes[0] + queue_bytes(
                old_inboxes.drop_first(),
            ));
            self.buf = next;
        } else {
            assert(self.pending() == old(self).pending());
        }
        let n = if self.buf.len() <= max {
            self.buf.len()
        } else {
            max
        };
        assert(1 <= n <= max);
        let ghost pend = self.spec_buf() + queue_bytes(self.inboxes());
        assert(pend == old(self).pending());
        let out = slice_to_vec(slice_subrange(self.buf.as_slice(), 0, n));
        let rest = slice_to_vec(slice_subrange(self.buf.as_slice(), n, self.buf.len()));
        assert(out@ =~= pend.take(n as int));
        assert(rest@ + queue_bytes(self.inboxes()) =~= pend.skip(n as int));
        self.buf = rest;
        ReadResult::Data(out)
    }

    /// Turn the caller's bytes into `Psh` frames for the peer, splitting at
    /// the transport's maximum payload size. Produces nothing and fails with
    /// `BrokenPipe` once the port was removed or `Fin` was sent.
    pub fn write(&self, data: &Vec<u8>) -> (r: Result<Vec<StreamFrame>, Error>)
        ensures
            match r {
                Ok(frames) => {
                    &&& !self.spec_removed()
                    &&& !self.spec_fin_sent()
                    &&& concat_payloads(frames@) == data@
                    &&& forall|i: int|
                        0 <= i < frames@.len() ==> {
                            &&& (#[trigger] frames@[i]).flag == StreamFlag::Psh
                            &&& frames@[i].sport == self.our_port
                            &&& frames@[i].dport == self.their_port
                            &&& 1 <= frames@[i].data@.len() <= MAX_PAYLOAD_SIZE
                        }
                },
                Err(e) => {
                    &&& e == Error::BrokenPipe
                    &&& (self.spec_removed() || self.spec_fin_sent())
                },
            },
    {
        if self.stream_removed || self.fin_sent {
            return Err(Error::BrokenPipe);
        }
        let mut frames: Vec<StreamFrame> = Vec::new();
        let mut i: usize = 0;
        while i < data.len()
            invariant
                i <= data@.len(),
                concat_payloads(frames@) == data@.take(i as int),
                forall|k: int|
                    0 <= k < frames@.len() ==> {
                        &&& (#[trigger] frames@[k]).flag == StreamFlag::Psh
                        &&& frames@[k].sport == self.our_port
                        &&& frames@[k].dport == self.their_port
                        &&& 1 <= frames@[k].data@.len() <= MAX_PAYLOAD_SIZE
                    },
            decreases data@.len() - i,
        {
            let end = if data.len() - i <= MAX_PAYLOAD_SIZE {
                data.len()
            } else {
                i + MAX_PAYLOAD_SIZE
            };
            let chunk = slice_to_vec(slice_subrange(data.as_slice(), i, end));
            let frame = StreamFrame::new_psh(self.our_port, self.their_port, chunk);
            proof {
                lemma_concat_payloads_push(frames@, frame);
            }
            frames.push(frame);
            assert(concat_payloads(frames@) =~= data@.take(end as int));
            i = end;
        }
        assert(data@.take(i as int) =~= data@);
        Ok(frames)
    }

    /// Close the write half: the first call yields a `Fin` frame to send and
    /// records it; later calls yield nothing (idempotent). A removed stream
    /// yields nothing either, but is still marked so no `Psh` follows.
    pub fn shutdown(&mut self) -> (r: Option<StreamFrame>)
        requires
            old(self).wf(),
        ensures
            final(self).wf(),
            final(self).spec_fin_sent(),
            (r is Some) == (!old(self).spec_fin_sent() && !old(self).spec_removed()),
            match r {
                Some(f) => {
                    &&& f.flag == StreamFlag::Fin
                    &&& f.sport == old(self).our_port
                    &&& f.dport == old(self).their_port
                    &&& f.data@ == Seq::<u8>::empty()
                },
                None => true,
            },
            final(self).our_port == old(self).our_port,
            final(self).their_port == old(self).their_port,
            final(self).spec_removed() == old(self).spec_removed(),
            final(self).spec_eof_seen() == old(self).spec_eof_seen(),
            final(self).pending() == old(self).pending(),
            final(self).inboxes() == old(self).inboxes(),
            final(self).spec_capacity() == old(self).spec_capacity(),
    {
        if self.fin_sent || self.stream_removed {
            self.fin_sent = true;
            return None;
        }
        self.fin_sent = true;
        Some(StreamFrame::new_fin(self.our_port, self.their_port))
    }

    /// The multiplexor removed this port: further writes must fail.
    pub fn mark_removed(&mut self)
        requires
            old(self).wf(),
        ensures
            final(self).wf(),
            final(self).spec_removed(),
            final(self).our_port == old(self).our_port,
            final(self).their_port == old(self).their_port,
            final(self).spec_fin_sent() == old(self).spec_fin_sent(),
            final(self).spec_eof_seen() == old(self).spec_eof_seen(),
            final(self).pending() == old(self).pending(),
            final(self).inboxes() == old(self).inboxes(),
            final(self).spec_capacity() == old(self).spec_capacity(),
    {
        self.stream_removed = true;
    }

    /// What the drop hook reports to the multiplexor: the core answers a
    /// missing `Fin` with a `Rst` and frees the port.
    pub fn drop_notice(&self) -> (r: (u16, u16, bool))
        ensures
            r.0 == self.our_port,
            r.1 == self.their_port,
            r.2 == self.spec_fin_sent(),
    {
        (self.our_port, self.their_port, self.fin_sent)
    }
}

} // verus!
