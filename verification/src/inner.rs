//! The multiplexor core: one state machine per tunnel endpoint.
//!
//! The core owns the port table and decides, for every event the
//! surrounding task observes (a drop notice, a transport message, a
//! keepalive tick), which actions follow: frames to send, payloads to
//! deliver to per-port receive queues, streams to hand to the accept
//! queue, and when to stop. The asynchronous shell performs the actions;
//! every decision is made here.

use vstd::prelude::*;
use crate::frame::{
    spec_decode, spec_parse_syn, spec_syn_payload, decode_frame, make_syn_payload,
    parse_syn_payload, DatagramFrame, Frame, FrameView, StreamFlag, StreamFrame,
};
use crate::port::{PortState, PortTable};
use crate::{Error, Role};

verus! {

/// A transport message, on plain values. `Binary` carries an encoded frame;
/// the rest are the transport's control messages.
#[derive(Debug)]
pub enum Msg {
    /// A binary message: one encoded frame.
    Binary(Vec<u8>),
    /// A transport-level ping with its payload.
    Ping(Vec<u8>),
    /// A transport-level pong with its payload.
    Pong(Vec<u8>),
    /// The peer closed the transport.
    Close,
    /// A text message, which this protocol never uses.
    Text(String),
}

/// Model of a transport message; the text content never matters.
pub enum MsgView {
    /// Model of a binary message.
    Binary(Seq<u8>),
    /// Model of a ping.
    Ping(Seq<u8>),
    /// Model of a pong.
    Pong(Seq<u8>),
    /// Model of a close.
    Close,
    /// Model of a text message.
    Text,
}

impl View for Msg {
    type V = MsgView;

    open spec fn view(&self) -> MsgView {
        match self {
            Msg::Binary(d) => MsgView::Binary(d@),
            Msg::Ping(d) => MsgView::Ping(d@),
            Msg::Pong(d) => MsgView::Pong(d@),
            Msg::Close => MsgView::Close,
            Msg::Text(_) => MsgView::Text,
        }
    }
}

/// What a new inbound stream is made of: the accept queue hands this to the
/// user, who builds the stream endpoint from it.
#[derive(Debug)]
pub struct StreamInit {
    /// Our freshly assigned virtual port.
    pub our_port: u16,
    /// The peer's virtual port.
    pub their_port: u16,
    /// Requested destination host (server side; empty on the client).
    pub dest_host: Vec<u8>,
    /// Requested destination port (server side; `0` on the client).
    pub dest_port: u16,
}

/// One effect the shell must perform for the core.
#[derive(Debug)]
pub enum Action {
    /// Encode this stream frame and send it on the transport.
    SendFrame(StreamFrame),
    /// Encode this datagram frame and send it on the transport.
    SendDatagram(DatagramFrame),
    /// Send a transport-level pong with this payload.
    SendPong(Vec<u8>),
    /// Send a transport-level ping with an empty payload.
    SendPing,
    /// Put this payload on the port's receive queue; an empty payload is
    /// the end-of-stream marker. Waiting for room is the backpressure.
    Deliver(u16, Vec<u8>),
    /// Set the removed flag of the stream that owns this port.
    SetRemoved(u16),
    /// Hand a new inbound stream to the accept queue.
    AcceptStream(StreamInit),
    /// Hand an inbound datagram to the datagram receiver.
    DeliverDatagram(DatagramFrame),
    /// Close the transport.
    CloseTransport,
}

/// Model of an action.
#[verifier::ext_equal]
pub enum ActionView {
    /// Model of a stream-frame send.
    SendFrame(FrameView),
    /// Model of a datagram send.
    SendDatagram(FrameView),
    /// Model of a pong.
    SendPong(Seq<u8>),
    /// Model of a ping.
    SendPing,
    /// Model of a payload delivery.
    Deliver(u16, Seq<u8>),
    /// Model of setting a removed flag.
    SetRemoved(u16),
    /// Model of handing out a new stream.
    AcceptStream { our_port: u16, their_port: u16, dest_host: Seq<u8>, dest_port: u16 },
    /// Model of handing out a datagram.
    DeliverDatagram(FrameView),
    /// Model of closing the transport.
    CloseTransport,
}

impl View for Action {
    type V = ActionView;

    open spec fn view(&self) -> ActionView {
        match self {
            Action::SendFrame(f) => ActionView::SendFrame(f@),
            Action::SendDatagram(f) => ActionView::SendDatagram(f@),
            Action::SendPong(d) => ActionView::SendPong(d@),
            Action::SendPing => ActionView::SendPing,
            Action::Deliver(p, d) => ActionView::Deliver(*p, d@),
            Action::SetRemoved(p) => ActionView::SetRemoved(*p),
            Action::AcceptStream(si) => ActionView::AcceptStream {
                our_port: si.our_port,
                their_port: si.their_port,
                dest_host: si.dest_host@,
                dest_port: si.dest_port,
            },
            Action::DeliverDatagram(f) => ActionView::DeliverDatagram(f@),
            Action::CloseTransport => ActionView::CloseTransport,
        }
    }
}

/// The models of a list of actions.
pub open spec fn spec_views(actions: Seq<Action>) -> Seq<ActionView> {
    actions.map_values(|a: Action| a@)
}

/// Model of a `Rst` frame send.
pub open spec fn rst_view(sport: u16, dport: u16) -> ActionView {
    ActionView::SendFrame(
        FrameView::Stream { sport, dport, flag: StreamFlag::Rst, data: Seq::empty() },
    )
}

/// Model of an `Ack` frame send.
pub open spec fn ack_view(sport: u16, dport: u16) -> ActionView {
    ActionView::SendFrame(
        FrameView::Stream { sport, dport, flag: StreamFlag::Ack, data: Seq::empty() },
    )
}

/// Model of an end-of-stream delivery.
pub open spec fn eof_view(port: u16) -> ActionView {
    ActionView::Deliver(port, Seq::empty())
}

/// One event the demultiplex task reacts to.
#[derive(Debug)]
pub enum Event {
    /// A stream was dropped: `(our_port, their_port, fin_sent)`. A zero
    /// `our_port` is the sentinel meaning the front-end itself was dropped.
    DropNotify(u16, u16, bool),
    /// A message arrived on the transport.
    Message(Msg),
    /// The keepalive interval ticked.
    Tick,
}

/// Model of an event.
pub enum EventView {
    /// Model of a drop notice.
    DropNotify(u16, u16, bool),
    /// Model of an inbound message.
    Message(MsgView),
    /// Model of a keepalive tick.
    Tick,
}

impl View for Event {
    type V = EventView;

    open spec fn view(&self) -> EventView {
        match self {
            Event::DropNotify(o, t, f) => EventView::DropNotify(*o, *t, *f),
            Event::Message(m) => EventView::Message(m@),
            Event::Tick => EventView::Tick,
        }
    }
}

/// The multiplexor core.
#[derive(Debug)]
pub struct MultiplexorInner {
    /// Which side of the tunnel this endpoint plays.
    pub role: Role,
    /// Milliseconds between keepalive pings; `None` disables keepalive.
    pub keepalive_interval: Option<u64>,
    /// The live virtual ports.
    pub ports: PortTable,
}

/// What closing a port does: a `Rst` goes out unless `Fin` was already
/// sent, and if the port was live its reader gets end of stream and its
/// writer is stopped.
pub open spec fn spec_close_actions(
    was_live: bool,
    our_port: u16,
    their_port: u16,
    fin_sent: bool,
) -> Seq<ActionView> {
    (if !fin_sent {
        seq![rst_view(our_port, their_port)]
    } else {
        Seq::<ActionView>::empty()
    }) + (if was_live {
        seq![eof_view(our_port), ActionView::SetRemoved(our_port)]
    } else {
        Seq::<ActionView>::empty()
    })
}

/// The port table after a port was freed: that port is gone, the rest is
/// untouched.
pub open spec fn spec_port_closed(pre: MultiplexorInner, post: MultiplexorInner, p: u16) -> bool {
    &&& post.ports.state_of(p) is None
    &&& forall|q: u16| q != p ==> post.ports.state_of(q) == pre.ports.state_of(q)
}

/// What accepting an inbound `Syn` does: a fresh port is allocated and
/// opened, the new stream goes to the accept queue, and an `Ack` answers.
pub open spec fn spec_syn_accept(
    pre: MultiplexorInner,
    post: MultiplexorInner,
    their_port: u16,
    dest: (Seq<u8>, u16),
    views: Seq<ActionView>,
) -> bool {
    &&& views.len() == 2
    &&& match views[0] {
        ActionView::AcceptStream { our_port, their_port: tp, dest_host, dest_port } => {
            &&& 1 <= our_port < 65535
            &&& !pre.ports.is_live(our_port)
            &&& tp == their_port
            &&& dest_host == dest.0
            &&& dest_port == dest.1
            &&& post.ports.state_of(our_port) == Some(PortState::Open)
            &&& (forall|q: u16|
                q != our_port ==> post.ports.state_of(q) == pre.ports.state_of(q))
            &&& views[1] == ack_view(our_port, their_port)
        },
        _ => false,
    }
}

/// What processing one stream frame does, by flag. `sport` and `dport` are
/// the peer's and our port as written in the frame.
pub open spec fn spec_stream_step(
    pre: MultiplexorInner,
    post: MultiplexorInner,
    sport: u16,
    dport: u16,
    flag: StreamFlag,
    data: Seq<u8>,
    r: Result<Seq<ActionView>, Error>,
) -> bool {
    match flag {
        StreamFlag::Syn => {
            if pre.role == Role::Client {
                r == Err::<Seq<ActionView>, Error>(Error::ClientReceivedSyn) && post == pre
            } else {
                match spec_parse_syn(data) {
                    None => r == Err::<Seq<ActionView>, Error>(Error::InvalidFrame) && post
                        == pre,
                    Some(dest) => match r {
                        Ok(views) => spec_syn_accept(pre, post, sport, dest, views),
                        Err(e) => {
                            &&& e == Error::NoAvailablePorts
                            &&& post == pre
                            &&& forall|q: u16| 1 <= q < 65535 ==> pre.ports.is_live(q)
                        },
                    },
                }
            }
        },
        StreamFlag::Ack => {
            if pre.role == Role::Server {
                r == Err::<Seq<ActionView>, Error>(Error::ServerReceivedAck) && post == pre
            } else if dport == 0 || dport == 65535 {
                // Not a port this endpoint can have allocated: ignore, so
                // the sentinel and the out-of-range slot stay free.
                r == Ok::<Seq<ActionView>, Error>(Seq::empty()) && post == pre
            } else {
                match r {
                    Ok(views) => {
                        &&& views == seq![
                            ActionView::AcceptStream {
                                our_port: dport,
                                their_port: sport,
                                dest_host: Seq::<u8>::empty(),
                                dest_port: 0,
                            },
                        ]
                        &&& post.ports.state_of(dport) == Some(PortState::Open)
                        &&& forall|q: u16|
                            q != dport ==> post.ports.state_of(q) == pre.ports.state_of(q)
                    },
                    Err(_) => false,
                }
            }
        },
        StreamFlag::Rst => {
            // Close without replying: a `Rst` must not answer a `Rst`.
            &&& r == Ok::<Seq<ActionView>, Error>(
                spec_close_actions(pre.ports.is_live(dport), dport, sport, true),
            )
            &&& spec_port_closed(pre, post, dport)
        },
        StreamFlag::Fin => {
            &&& post == pre
            &&& r == Ok::<Seq<ActionView>, Error>(
                if pre.ports.is_open(dport) {
                    seq![eof_view(dport)]
                } else {
                    Seq::<ActionView>::empty()
                },
            )
        },
        StreamFlag::Psh => {
            &&& post == pre
            &&& r == Ok::<Seq<ActionView>, Error>(
                if pre.ports.is_open(dport) {
                    seq![ActionView::Deliver(dport, data)]
                } else {
                    seq![rst_view(dport, sport)]
                },
            )
        },
    }
}

/// What processing one transport message does, by kind.
pub open spec fn spec_message_step(
    pre: MultiplexorInner,
    post: MultiplexorInner,
    m: MsgView,
    r: Result<(Seq<ActionView>, bool), Error>,
) -> bool {
    match m {
        MsgView::Binary(data) => match spec_decode(data) {
            None => r == Err::<(Seq<ActionView>, bool), Error>(Error::InvalidFrame) && post
                == pre,
            Some(fv) => match fv {
                FrameView::Datagram { .. } => {
                    &&& r == Ok::<(Seq<ActionView>, bool), Error>(
                        (seq![ActionView::DeliverDatagram(fv)], false),
                    )
                    &&& post == pre
                },
                FrameView::Stream { sport, dport, flag, data: fdata } => match r {
                    Ok((views, done)) => !done && spec_stream_step(
                        pre,
                        post,
                        sport,
                        dport,
                        flag,
                        fdata,
                        Ok(views),
                    ),
                    Err(e) => spec_stream_step(pre, post, sport, dport, flag, fdata, Err(e)),
                },
            },
        },
        MsgView::Ping(p) => {
            &&& r == Ok::<(Seq<ActionView>, bool), Error>((seq![ActionView::SendPong(p)], false))
            &&& post == pre
        },
        MsgView::Pong(_) => {
            &&& r == Ok::<(Seq<ActionView>, bool), Error>((Seq::empty(), false))
            &&& post == pre
        },
        MsgView::Close => {
            &&& r == Ok::<(Seq<ActionView>, bool), Error>((Seq::empty(), true))
            &&& post == pre
        },
        MsgView::Text => {
            &&& r == Err::<(Seq<ActionView>, bool), Error>(Error::TextMessage)
            &&& post == pre
        },
    }
}

/// What one turn of the demultiplex loop does, by event.
pub open spec fn spec_step(
    pre: MultiplexorInner,
    post: MultiplexorInner,
    ev: EventView,
    r: Result<(Seq<ActionView>, bool), Error>,
) -> bool {
    match ev {
        EventView::DropNotify(our_port, their_port, fin_sent) => {
            if our_port == 0 {
                // The front-end was dropped: stop, change nothing more.
                r == Ok::<(Seq<ActionView>, bool), Error>((Seq::empty(), true)) && post == pre
            } else {
                match r {
                    Ok((views, done)) => {
                        &&& !done
                        &&& views == spec_close_actions(
                            pre.ports.is_live(our_port),
                            our_port,
                            their_port,
                            fin_sent,
                        )
                        &&& spec_port_closed(pre, post, our_port)
                    },
                    Err(_) => false,
                }
            }
        },
        EventView::Message(m) => spec_message_step(pre, post, m, r),
        EventView::Tick => {
            &&& r == Ok::<(Seq<ActionView>, bool), Error>(
                (
                    if pre.keepalive_interval is Some {
                        seq![ActionView::SendPing]
                    } else {
                        Seq::<ActionView>::empty()
                    },
                    false,
                ),
            )
            &&& post == pre
        },
    }
}

impl MultiplexorInner {
    /// The core is consistent while its port table is.
    pub open spec fn wf(&self) -> bool {
        self.ports.wf()
    }

    /// A fresh core with no live ports.
    pub fn new(role: Role, keepalive_interval: Option<u64>) -> (r: MultiplexorInner)
        ensures
            r.wf(),
            r.role == role,
            r.keepalive_interval == keepalive_interval,
            forall|p: u16| !r.ports.is_live(p),
    {
        MultiplexorInner { role, keepalive_interval, ports: PortTable::new() }
    }

    /// Close a port: send `Rst` if `Fin` was not sent, deliver end of
    /// stream, stop the writer, and free the port for reuse.
    pub fn close_port(&mut self, our_port: u16, their_port: u16, fin_sent: bool) -> (actions: Vec<
        Action,
    >)
        requires
            old(self).wf(),
        ensures
            final(self).wf(),
            final(self).role == old(self).role,
            final(self).keepalive_interval == old(self).keepalive_interval,
            spec_views(actions@) == spec_close_actions(
                old(self).ports.is_live(our_port),
                our_port,
                their_port,
                fin_sent,
            ),
            spec_port_closed(*old(self), *final(self), our_port),
    {
        let mut actions: Vec<Action> = Vec::new();
        if !fin_sent {
            actions.push(Action::SendFrame(StreamFrame::new_rst(our_port, their_port)));
        }
        let was_live = self.ports.get(our_port).is_some();
        if was_live {
            actions.push(Action::Deliver(our_port, Vec::new()));
            actions.push(Action::SetRemoved(our_port));
        }
        self.ports.remove(our_port);
        assert(spec_views(actions@) =~~= spec_close_actions(
            old(self).ports.is_live(our_port),
            our_port,
            their_port,
            fin_sent,
        ));
        actions
    }

    /// Process one stream frame, by flag: `Syn` (server only) opens and
    /// acknowledges a stream, `Ack` (client only) completes a pending open,
    /// `Rst` closes the port silently, `Fin` delivers end of stream while
    /// the local write half stays usable, and `Psh` delivers its payload —
    /// or is answered with `Rst` when the port is not open.
    pub fn process_stream_frame(&mut self, frame: StreamFrame) -> (r: Result<Vec<Action>, Error>)
        requires
            old(self).wf(),
        ensures
            final(self).wf(),
            final(self).role == old(self).role,
            final(self).keepalive_interval == old(self).keepalive_interval,
            spec_stream_step(
                *old(self),
                *final(self),
                frame.sport,
                frame.dport,
                frame.flag,
                frame.data@,
                match r {
                    Ok(actions) => Ok(spec_views(actions@)),
                    Err(e) => Err(e),
                },
            ),
    {
        let StreamFrame { sport: their_port, dport: our_port, flag, data } = frame;
        match flag {
            StreamFlag::Syn => {
                if self.role == Role::Client {
                    return Err(Error::ClientReceivedSyn);
                }
                let (dest_host, dest_port) = match parse_syn_payload(&data) {
                    Ok(dest) => dest,
                    Err(e) => {
                        return Err(e);
                    },
                };
                let new_port = match self.ports.next_available_port() {
                    Ok(p) => p,
                    Err(e) => {
                        return Err(e);
                    },
                };
                self.ports.insert(new_port, PortState::Open);
                let mut actions: Vec<Action> = Vec::new();
                actions.push(
                    Action::AcceptStream(
                        StreamInit { our_port: new_port, their_port, dest_host, dest_port },
                    ),
                );
                actions.push(Action::SendFrame(StreamFrame::new_ack(new_port, their_port)));
                assert(spec_views(actions@)[1] =~~= ack_view(new_port, their_port));
                Ok(actions)
            },
            StreamFlag::Ack => {
                if self.role == Role::Server {
                    return Err(Error::ServerReceivedAck);
                }
                if our_port == 0 || our_port == 65535 {
                    let actions: Vec<Action> = Vec::new();
                    assert(spec_views(actions@) =~= Seq::<ActionView>::empty());
                    return Ok(actions);
                }
                self.ports.insert(our_port, PortState::Open);
                let mut actions: Vec<Action> = Vec::new();
                actions.push(
                    Action::AcceptStream(
                        StreamInit {
                            our_port,
                            their_port,
                            dest_host: Vec::new(),
                            dest_port: 0,
                        },
                    ),
                );
                assert(spec_views(actions@) =~~= seq![
                    ActionView::AcceptStream {
                        our_port,
                        their_port,
                        dest_host: Seq::<u8>::empty(),
                        dest_port: 0,
                    },
                ]);
                Ok(actions)
            },
            StreamFlag::Rst => {
                let actions = self.close_port(our_port, their_port, true);
                Ok(actions)
            },
            StreamFlag::Fin => {
                let mut actions: Vec<Action> = Vec::new();
                let deliver = match self.ports.get(our_port) {
                    Some(PortState::Open) => true,
                    _ => false,
                };
                if deliver {
                    actions.push(Action::Deliver(our_port, Vec::new()));
                    assert(spec_views(actions@) =~~= seq![eof_view(our_port)]);
                } else {
                    assert(spec_views(actions@) =~= Seq::<ActionView>::empty());
                }
                Ok(actions)
            },
            StreamFlag::Psh => {
                let mut actions: Vec<Action> = Vec::new();
                let deliver = match self.ports.get(our_port) {
                    Some(PortState::Open) => true,
                    _ => false,
                };
                if deliver {
                    let ghost d = data@;
                    actions.push(Action::Deliver(our_port, data));
                    assert(spec_views(actions@) =~~= seq![ActionView::Deliver(our_port, d)]);
                } else {
                    actions.push(Action::SendFrame(StreamFrame::new_rst(our_port, their_port)));
                    assert(spec_views(actions@) =~~= seq![rst_view(our_port, their_port)]);
                }
                Ok(actions)
            },
        }
    }

    /// Process one transport message: decode and dispatch a binary frame,
    /// answer `Ping` with `Pong`, ignore `Pong`, stop on `Close`, and
    /// reject `Text`. The boolean is true when the session is over.
    pub fn process_message(&mut self, msg: Msg) -> (r: Result<(Vec<Action>, bool), Error>)
        requires
            old(self).wf(),
        ensures
            final(self).wf(),
            final(self).role == old(self).role,
            final(self).keepalive_interval == old(self).keepalive_interval,
            spec_message_step(
                *old(self),
                *final(self),
                msg@,
                match r {
                    Ok(ab) => Ok((spec_views(ab.0@), ab.1)),
                    Err(e) => Err(e),
                },
            ),
    {
        match msg {
            Msg::Binary(data) => {
                let frame = match decode_frame(&data) {
                    Ok(f) => f,
                    Err(e) => {
                        return Err(e);
                    },
                };
                match frame {
                    Frame::Datagram(df) => {
                        let ghost fv = df@;
                        let mut actions: Vec<Action> = Vec::new();
                        actions.push(Action::DeliverDatagram(df));
                        assert(spec_views(actions@) =~~= seq![ActionView::DeliverDatagram(fv)]);
                        Ok((actions, false))
                    },
                    Frame::Stream(sf) => {
                        let actions = self.process_stream_frame(sf)?;
                        Ok((actions, false))
                    },
                }
            },
            Msg::Ping(data) => {
                let ghost p = data@;
                let mut actions: Vec<Action> = Vec::new();
                actions.push(Action::SendPong(data));
                assert(spec_views(actions@) =~~= seq![ActionView::SendPong(p)]);
                Ok((actions, false))
            },
            Msg::Pong(_) => {
                let actions: Vec<Action> = Vec::new();
                assert(spec_views(actions@) =~= Seq::<ActionView>::empty());
                Ok((actions, false))
            },
            Msg::Close => {
                let actions: Vec<Action> = Vec::new();
                assert(spec_views(actions@) =~= Seq::<ActionView>::empty());
                Ok((actions, true))
            },
            Msg::Text(_) => Err(Error::TextMessage),
        }
    }

    /// One turn of the demultiplex loop: react to a drop notice, an inbound
    /// message, or a keepalive tick. The boolean is true when the loop must
    /// stop and shut the multiplexor down.
    pub fn step(&mut self, event: Event) -> (r: Result<(Vec<Action>, bool), Error>)
        requires
            old(self).wf(),
        ensures
            final(self).wf(),
            final(self).role == old(self).role,
            final(self).keepalive_interval == old(self).keepalive_interval,
            spec_step(
                *old(self),
                *final(self),
                event@,
                match r {
                    Ok(ab) => Ok((spec_views(ab.0@), ab.1)),
                    Err(e) => Err(e),
                },
            ),
    {
        match event {
            Event::DropNotify(our_port, their_port, fin_sent) => {
                if our_port == 0 {
                    let actions: Vec<Action> = Vec::new();
                    assert(spec_views(actions@) =~= Seq::<ActionView>::empty());
                    Ok((actions, true))
                } else {
                    let actions = self.close_port(our_port, their_port, fin_sent);
                    Ok((actions, false))
                }
            },
            Event::Message(m) => self.process_message(m),
            Event::Tick => {
                let mut actions: Vec<Action> = Vec::new();
                if self.keepalive_interval.is_some() {
                    actions.push(Action::SendPing);
                    assert(spec_views(actions@) =~~= seq![ActionView::SendPing]);
                } else {
                    assert(spec_views(actions@) =~= Seq::<ActionView>::empty());
                }
                Ok((actions, false))
            },
        }
    }

    /// Open a new outbound stream (client role): allocate a local port,
    /// record it as pending, and produce the `Syn` frame to send. The
    /// stream itself arrives through the accept queue when the matching
    /// `Ack` comes back.
    pub fn client_new_stream_channel(&mut self, host: &Vec<u8>, port: u16) -> (r: Result<
        (u16, StreamFrame),
        Error,
    >)
        requires
            old(self).wf(),
            old(self).role == Role::Client,
        ensures
            final(self).wf(),
            final(self).role == old(self).role,
            final(self).keepalive_interval == old(self).keepalive_interval,
            match r {
                Ok(ps) => {
                    &&& host@.len() <= 255
                    &&& 1 <= ps.0 < 65535
                    &&& !old(self).ports.is_live(ps.0)
                    &&& final(self).ports.state_of(ps.0) == Some(PortState::Pending)
                    &&& (forall|q: u16|
                        q != ps.0 ==> final(self).ports.state_of(q) == old(
                            self,
                        ).ports.state_of(q))
                    &&& ps.1.flag == StreamFlag::Syn
                    &&& ps.1.sport == ps.0
                    &&& ps.1.dport == 0
                    &&& ps.1.data@ == spec_syn_payload(host@, port)
                },
                Err(e) => {
                    &&& *final(self) == *old(self)
                    &&& (e == Error::RHostTooLong && host@.len() > 255) || (e
                        == Error::NoAvailablePorts && host@.len() <= 255 && forall|q: u16|
                        1 <= q < 65535 ==> old(self).ports.is_live(q))
                },
            },
    {
        let payload = make_syn_payload(host, port)?;
        let our_port = match self.ports.next_available_port() {
            Ok(p) => p,
            Err(e) => {
                return Err(e);
            },
        };
        self.ports.insert(our_port, PortState::Pending);
        let syn = StreamFrame::new_syn(our_port, payload);
        Ok((our_port, syn))
    }

    /// Shut the multiplexor down: every live port's reader gets end of
    /// stream and its writer is stopped, the table empties, and the
    /// transport closes last.
    pub fn shutdown(&mut self) -> (actions: Vec<Action>)
        requires
            old(self).wf(),
        ensures
            final(self).wf(),
            final(self).role == old(self).role,
            final(self).keepalive_interval == old(self).keepalive_interval,
            forall|q: u16| !final(self).ports.is_live(q),
            spec_views(actions@).len() >= 1,
            spec_views(actions@)[spec_views(actions@).len() - 1] == ActionView::CloseTransport,
            forall|i: int|
                0 <= i < spec_views(actions@).len() - 1 ==> match #[trigger] spec_views(
                    actions@,
                )[i] {
                    ActionView::Deliver(q, d) => old(self).ports.is_live(q) && d
                        == Seq::<u8>::empty(),
                    ActionView::SetRemoved(q) => old(self).ports.is_live(q),
                    _ => false,
                },
            forall|q: u16|
                old(self).ports.is_live(q) ==> spec_views(actions@).contains(eof_view(q))
                    && spec_views(actions@).contains(ActionView::SetRemoved(q)),
    {
        let mut actions: Vec<Action> = Vec::new();
        let mut p: u32 = 0;
        while p < 65536
            invariant
                old(self).wf(),
                *self == *old(self),
                p <= 65536,
                forall|i: int|
                    0 <= i < spec_views(actions@).len() ==> match #[trigger] spec_views(
                        actions@,
                    )[i] {
                        ActionView::Deliver(q, d) => old(self).ports.is_live(q) && d
                            == Seq::<u8>::empty(),
                        ActionView::SetRemoved(q) => old(self).ports.is_live(q),
                        _ => false,
                    },
                forall|q: u16|
                    old(self).ports.is_live(q) && q < p ==> spec_views(actions@).contains(
                        eof_view(q),
                    ) && spec_views(actions@).contains(ActionView::SetRemoved(q)),
            decreases 65536 - p,
        {
            let q = p as u16;
            let ghost before = spec_views(actions@);
            if self.ports.get(q).is_some() {
                actions.push(Action::Deliver(q, Vec::new()));
                actions.push(Action::SetRemoved(q));
                assert(spec_views(actions@) =~~= before.push(eof_view(q)).push(
                    ActionView::SetRemoved(q),
                ));
            }
            proof {
                assert forall|q2: u16|
                    old(self).ports.is_live(q2) && q2 < p + 1 implies spec_views(
                    actions@,
                ).contains(eof_view(q2)) && spec_views(actions@).contains(
                    ActionView::SetRemoved(q2),
                ) by {
                    let views = spec_views(actions@);
                    if q2 < p {
                        let i = choose|i: int|
                            0 <= i < before.len() && before[i] == eof_view(q2);
                        assert(views[i] == eof_view(q2));
                        assert(views.contains(eof_view(q2)));
                        let j = choose|j: int|
                            0 <= j < before.len() && before[j] == ActionView::SetRemoved(q2);
                        assert(views[j] == ActionView::SetRemoved(q2));
                        assert(views.contains(ActionView::SetRemoved(q2)));
                    } else {
                        assert(views[before.len() as int] == eof_view(q2));
                        assert(views[before.len() as int + 1] == ActionView::SetRemoved(q2));
                        assert(views.contains(eof_view(q2)));
                        assert(views.contains(ActionView::SetRemoved(q2)));
                    }
                }
            }
            p = p + 1;
        }
        self.ports.clear();
        let ghost before_close = spec_views(actions@);
        actions.push(Action::CloseTransport);
        assert(spec_views(actions@) =~~= before_close.push(ActionView::CloseTransport));
        proof {
            assert forall|q2: u16|
                old(self).ports.is_live(q2) implies spec_views(actions@).contains(eof_view(q2))
                && spec_views(actions@).contains(ActionView::SetRemoved(q2)) by {
                let views = spec_views(actions@);
                let i = choose|i: int|
                    0 <= i < before_close.len() && before_close[i] == eof_view(q2);
                assert(views[i] == eof_view(q2));
                assert(views.contains(eof_view(q2)));
                let j = choose|j: int|
                    0 <= j < before_close.len() && before_close[j] == ActionView::SetRemoved(q2);
                assert(views[j] == ActionView::SetRemoved(q2));
                assert(views.contains(ActionView::SetRemoved(q2)));
            }
        }
        actions
    }
}

/// Wrap an outbound datagram for the transport. Fails with `RHostTooLong`
/// exactly when the host cannot be encoded.
pub fn send_datagram(frame: DatagramFrame) -> (r: Result<Action, Error>)
    ensures
        match r {
            Ok(a) => frame.host@.len() <= 255 && a@ == ActionView::SendDatagram(frame@),
            Err(e) => e == Error::RHostTooLong && frame.host@.len() > 255,
        },
{
    if frame.host.len() > 255 {
        return Err(Error::RHostTooLong);
    }
    Ok(Action::SendDatagram(frame))
}

/// Law: every stream handed to the accept queue sits on a nonzero port
/// that is live in the port table afterwards.
pub proof fn lemma_accepted_stream_port_live(
    pre: MultiplexorInner,
    post: MultiplexorInner,
    ev: EventView,
    views: Seq<ActionView>,
    done: bool,
)
    requires
        spec_step(pre, post, ev, Ok((views, done))),
    ensures
        forall|i: int|
            0 <= i < views.len() ==> match #[trigger] views[i] {
                ActionView::AcceptStream { our_port, .. } => our_port != 0
                    && post.ports.is_live(our_port),
                _ => true,
            },
{
}

/// Law: `Syn` is never emitted while processing events (only the client's
/// own stream-open request produces one), and `Ack` is emitted only by the
/// server.
pub proof fn lemma_control_frame_direction(
    pre: MultiplexorInner,
    post: MultiplexorInner,
    ev: EventView,
    views: Seq<ActionView>,
    done: bool,
)
    requires
        spec_step(pre, post, ev, Ok((views, done))),
    ensures
        forall|i: int|
            0 <= i < views.len() ==> match #[trigger] views[i] {
                ActionView::SendFrame(FrameView::Stream { flag, .. }) => flag != StreamFlag::Syn
                    && (flag == StreamFlag::Ack ==> pre.role == Role::Server),
                _ => true,
            },
{
}

/// Law: the inverted control frames are rejected — a client receiving
/// `Syn` fails with `ClientReceivedSyn`, a server receiving `Ack` fails
/// with `ServerReceivedAck`, and the state does not change.
pub proof fn lemma_inverted_control_rejected(
    pre: MultiplexorInner,
    post: MultiplexorInner,
    sport: u16,
    dport: u16,
    flag: StreamFlag,
    data: Seq<u8>,
    r: Result<Seq<ActionView>, Error>,
)
    requires
        spec_stream_step(pre, post, sport, dport, flag, data, r),
    ensures
        flag == StreamFlag::Syn && pre.role == Role::Client ==> r == Err::<
            Seq<ActionView>,
            Error,
        >(Error::ClientReceivedSyn) && post == pre,
        flag == StreamFlag::Ack && pre.role == Role::Server ==> r == Err::<
            Seq<ActionView>,
            Error,
        >(Error::ServerReceivedAck) && post == pre,
{
}

/// Law: processing the drop notice of a stream that had not sent `Fin`
/// emits a `Rst` with the stream's ports exactly once, first; a stream
/// that had sent `Fin` causes no frame at all.
pub proof fn lemma_drop_emits_rst_once(
    pre: MultiplexorInner,
    post: MultiplexorInner,
    our_port: u16,
    their_port: u16,
    fin_sent: bool,
    views: Seq<ActionView>,
    done: bool,
)
    requires
        our_port != 0,
        spec_step(pre, post, EventView::DropNotify(our_port, their_port, fin_sent), Ok(
            (views, done),
        )),
    ensures
        !fin_sent ==> views[0] == rst_view(our_port, their_port),
        !fin_sent ==> forall|i: int|
            1 <= i < views.len() ==> !(#[trigger] views[i] matches ActionView::SendFrame(_)),
        fin_sent ==> forall|i: int|
            0 <= i < views.len() ==> !(#[trigger] views[i] matches ActionView::SendFrame(_)),
{
    assert(views == spec_close_actions(
        pre.ports.is_live(our_port),
        our_port,
        their_port,
        fin_sent,
    ));
}

/// Law: a ping is emitted only on a keepalive tick, and only while a
/// keepalive interval is configured. With keepalive disabled, no step
/// ever emits a ping.
pub proof fn lemma_ping_only_on_tick(
    pre: MultiplexorInner,
    post: MultiplexorInner,
    ev: EventView,
    views: Seq<ActionView>,
    done: bool,
)
    requires
        spec_step(pre, post, ev, Ok((views, done))),
    ensures
        forall|i: int|
            0 <= i < views.len() && #[trigger] views[i] == ActionView::SendPing ==> ev
                == EventView::Tick && pre.keepalive_interval is Some,
{
}

} // verus!
