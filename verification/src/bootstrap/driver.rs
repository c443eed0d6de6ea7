//! The life of one connection.

use crate::channel::handler::{InboundHandler, OutboundHandler};
use crate::channel::message::{InboundEventView, Message, MessageView, OutboundEventView};
use crate::channel::pipeline::{Pipeline, PipelineView};
use crate::transport::{
    EcnCodepoint, Instant, SocketAddr, TaggedBytes, TaggedBytesMut, TransportContext,
};
use bytes::BytesMut;
use vstd::prelude::*;

verus! {

/// The longest a driver sleeps without asking the pipeline again: one day.
pub const MAX_DURATION_IN_SECS: u64 = 86400;

/// [`MAX_DURATION_IN_SECS`] in nanoseconds.
pub const MAX_DURATION_IN_NANOS: u64 = 86_400_000_000_000;

/// Where a connection is in its life.
#[derive(Debug, Clone, Copy, PartialEq, Eq, Hash, Structural)]
pub enum Phase {
    /// The pipeline has not been told that the transport is up.
    Idle,
    /// The connection is being served.
    Active,
    /// The pipeline has been told that the transport is down.  Nothing more
    /// happens.
    Inactive,
}

/// What the caller waited for and got.
pub enum Event<'a> {
    /// The stop signal.
    Close,
    /// The timer.
    Timeout,
    /// A read from the socket returned these bytes.  No bytes at all means
    /// that the peer has closed.  A datagram socket also says where the bytes
    /// came from and, if it was asked to, how they were marked.
    Read { bytes: &'a [u8], origin: Option<SocketAddr>, ecn: Option<EcnCodepoint> },
    /// A read from the socket failed.
    ReadFailed,
    /// A write to the socket failed.
    WriteFailed,
}

/// The mathematical content of an [`Event`].
pub enum EventView {
    Close,
    Timeout,
    Read { bytes: Seq<u8>, origin: Option<SocketAddr>, ecn: Option<EcnCodepoint> },
    ReadFailed,
    WriteFailed,
}

impl<'a> View for Event<'a> {
    type V = EventView;

    open spec fn view(&self) -> EventView {
        match self {
            Event::Close => EventView::Close,
            Event::Timeout => EventView::Timeout,
            Event::Read { bytes, origin, ecn } => EventView::Read {
                bytes: bytes@,
                origin: *origin,
                ecn: *ecn,
            },
            Event::ReadFailed => EventView::ReadFailed,
            Event::WriteFailed => EventView::WriteFailed,
        }
    }
}

/// Whether the caller goes on serving the connection.
#[derive(Debug, Clone, Copy, PartialEq, Eq, Hash, Structural)]
pub enum Control {
    Continue,
    Exit,
}

/// What the caller does before it waits.
#[derive(Debug, Clone, Copy, PartialEq, Eq, Hash, Structural)]
pub enum Wait {
    /// A deadline had already passed and the pipeline has been told.  Ask
    /// again, with the time as it is then.
    Again,
    /// Wait for the socket, the stop signal, or this many nanoseconds,
    /// whichever comes first.
    For(u64),
}

/// What the outbound channel holds for the caller.
pub enum Outbound {
    /// Bytes to send.
    Write(TaggedBytesMut),
    /// Nothing, for now.
    Idle,
    /// Nothing, ever: the channel was closed and is empty.  The pipeline has
    /// been told that the transport is down.
    Closed,
}

/// One connection: its pipeline and where it is in its life.
pub struct Driver<I, O> {
    pipeline: Pipeline<I, O>,
    transport: TransportContext,
    phase: Phase,
}

/// The mathematical content of a [`Driver`].
pub struct DriverView<I: InboundHandler, O: OutboundHandler> {
    pub pipeline: PipelineView<I, O>,
    pub transport: TransportContext,
    pub phase: Phase,
}

/// The connection as one read sees it: the peer is where the bytes came
/// from, if the socket said so, and the connection's own peer otherwise.
pub open spec fn seen_from(
    transport: TransportContext,
    origin: Option<SocketAddr>,
    ecn: Option<EcnCodepoint>,
) -> TransportContext {
    TransportContext {
        local_addr: transport.local_addr,
        peer_addr: if origin is Some {
            origin
        } else {
            transport.peer_addr
        },
        ecn,
    }
}

/// The message by which bytes read at `now` on `transport` enter a pipeline.
pub open spec fn inbound_message(
    now: Instant,
    transport: TransportContext,
    bytes: Seq<u8>,
) -> MessageView {
    MessageView::of_tagged(TaggedBytes { now, transport, message: bytes })
}

impl<I: InboundHandler, O: OutboundHandler> DriverView<I, O> {
    /// This connection at its end: the pipeline `p`, told that the transport
    /// is down.
    pub open spec fn ended(self, p: PipelineView<I, O>) -> DriverView<I, O> {
        DriverView {
            pipeline: p.after_inbound(InboundEventView::TransportInactive),
            phase: Phase::Inactive,
            ..self
        }
    }

    /// This connection after the caller reports `event` at `now`.
    ///
    /// Bytes are handed to the pipeline as a read and the connection goes on.
    /// A timer is handed on as a timeout and the connection goes on.  An empty
    /// read is handed on as the end of the stream and ends the connection.
    /// The stop signal and every failure end the connection.  However the
    /// connection ends, the pipeline is told that the transport is down.
    pub open spec fn after(self, now: Instant, event: EventView) -> DriverView<I, O> {
        match event {
            EventView::Read { bytes, origin, ecn } => if bytes.len() == 0 {
                self.ended(self.pipeline.after_inbound(InboundEventView::ReadEof))
            } else {
                DriverView {
                    pipeline: self.pipeline.after_inbound(
                        InboundEventView::Read(
                            inbound_message(now, seen_from(self.transport, origin, ecn), bytes),
                        ),
                    ),
                    ..self
                }
            },
            EventView::Timeout => DriverView {
                pipeline: self.pipeline.after_inbound(InboundEventView::ReadTimeout(now)),
                ..self
            },
            EventView::Close | EventView::ReadFailed | EventView::WriteFailed => self.ended(
                self.pipeline,
            ),
        }
    }

    /// The deadline the pipeline asks for when polled at `now`: each handler
    /// reached may replace the default of one day from `now`.
    pub open spec fn deadline(self, now: Instant) -> Instant {
        self.pipeline.inbound_flow(InboundEventView::PollTimeout, day_after(now)).timeout
    }

    /// The pipeline after it has been polled at `now`.
    pub open spec fn polled(self, now: Instant) -> PipelineView<I, O> {
        self.pipeline.absorb(
            self.pipeline.inbound_flow(InboundEventView::PollTimeout, day_after(now)),
        )
    }

    /// What the caller is told to do when it asks at `now`: ask again when the
    /// deadline has passed, else wait until the deadline, but no longer than a
    /// day.
    pub open spec fn wait(self, now: Instant) -> Wait {
        let deadline = self.deadline(now);
        if deadline.nanos <= now.nanos {
            Wait::Again
        } else if deadline.nanos - now.nanos <= MAX_DURATION_IN_NANOS {
            Wait::For((deadline.nanos - now.nanos) as u64)
        } else {
            Wait::For(MAX_DURATION_IN_NANOS)
        }
    }

    /// This connection after the caller has asked at `now` how long to wait:
    /// the pipeline has been polled, and told of the timeout when the deadline
    /// had passed.
    pub open spec fn after_poll(self, now: Instant) -> DriverView<I, O> {
        DriverView {
            pipeline: if self.deadline(now).nanos <= now.nanos {
                self.polled(now).after_inbound(InboundEventView::ReadTimeout(now))
            } else {
                self.polled(now)
            },
            ..self
        }
    }
}

/// One day after `now`, or the last instant there is.
pub open spec fn day_after(now: Instant) -> Instant {
    Instant {
        nanos: if now.nanos + MAX_DURATION_IN_NANOS <= u64::MAX {
            (now.nanos + MAX_DURATION_IN_NANOS) as u64
        } else {
            u64::MAX
        },
    }
}

impl<I: InboundHandler, O: OutboundHandler> View for Driver<I, O> {
    type V = DriverView<I, O>;

    closed spec fn view(&self) -> DriverView<I, O> {
        DriverView { pipeline: self.pipeline@, transport: self.transport, phase: self.phase }
    }
}

impl<I: InboundHandler, O: OutboundHandler> Driver<I, O> {
    /// The invariant of a driver: its pipeline is linked.
    pub closed spec fn wf(&self) -> bool {
        &&& self.pipeline.wf()
        &&& self.pipeline@.finalized
    }

    /// A driver for a connection described by `transport`, served by
    /// `pipeline`.
    pub fn new(pipeline: Pipeline<I, O>, transport: TransportContext) -> (d: Self)
        requires
            pipeline.wf(),
            pipeline@.finalized,
        ensures
            d.wf(),
            d@ == (DriverView { pipeline: pipeline@, transport, phase: Phase::Idle }),
    {
        Driver { pipeline, transport, phase: Phase::Idle }
    }

    /// Where the connection is in its life.
    pub fn phase(&self) -> (p: Phase)
        ensures
            p == self@.phase,
    {
        self.phase
    }

    /// Tells the pipeline that the transport is up.
    pub fn start(&mut self)
        requires
            old(self).wf(),
            old(self)@.phase == Phase::Idle,
        ensures
            final(self).wf(),
            final(self)@ == (DriverView {
                pipeline: old(self)@.pipeline.after_inbound(InboundEventView::TransportActive),
                phase: Phase::Active,
                ..old(self)@
            }),
    {
        self.pipeline.transport_active();
        self.phase = Phase::Active;
    }

    /// Decides how long to wait.  The pipeline is polled for its deadline,
    /// starting from one day after `now`.  A deadline that has passed is
    /// answered at once with a timeout; otherwise the caller waits until the
    /// deadline, but no longer than a day.
    pub fn poll(&mut self, now: Instant) -> (w: Wait)
        requires
            old(self).wf(),
            old(self)@.phase == Phase::Active,
        ensures
            final(self).wf(),
            w == old(self)@.wait(now),
            final(self)@ == old(self)@.after_poll(now),
    {
        let mut eto = now.saturating_add(MAX_DURATION_IN_NANOS);
        self.pipeline.poll_timeout(&mut eto);
        let delay = eto.saturating_duration_since(now);
        if delay == 0 {
            self.pipeline.handle_timeout(now);
            Wait::Again
        } else if delay <= MAX_DURATION_IN_NANOS {
            Wait::For(delay)
        } else {
            Wait::For(MAX_DURATION_IN_NANOS)
        }
    }

    /// Ends the connection: the pipeline is told that the transport is down.
    fn exit(&mut self)
        requires
            old(self).wf(),
        ensures
            final(self).wf(),
            final(self)@ == old(self)@.ended(old(self)@.pipeline),
    {
        self.pipeline.transport_inactive();
        self.phase = Phase::Inactive;
    }

    /// Takes in what the caller waited for and got at `now`, and says whether
    /// the connection goes on: see [`DriverView::after`].
    pub fn handle(&mut self, now: Instant, event: Event) -> (c: Control)
        requires
            old(self).wf(),
            old(self)@.phase == Phase::Active,
        ensures
            final(self).wf(),
            final(self)@ == old(self)@.after(now, event@),
            c == Control::Exit <==> final(self)@.phase == Phase::Inactive,
            c == Control::Continue <==> final(self)@.phase == Phase::Active,
    {
        match event {
            Event::Close | Event::ReadFailed | Event::WriteFailed => {
                self.exit();
                Control::Exit
            },
            Event::Timeout => {
                self.pipeline.handle_timeout(now);
                Control::Continue
            },
            Event::Read { bytes, origin, ecn } => {
                if bytes.len() == 0 {
                    self.pipeline.read_eof();
                    self.exit();
                    Control::Exit
                } else {
                    let peer_addr = match origin {
                        Some(_) => origin,
                        None => self.transport.peer_addr,
                    };
                    let transport = TransportContext {
                        local_addr: self.transport.local_addr,
                        peer_addr,
                        ecn,
                    };
                    let message = Message::from_tagged(
                        TaggedBytesMut { now, transport, message: BytesMut::from(bytes) },
                    );
                    self.pipeline.read(message);
                    Control::Continue
                }
            },
        }
    }

    /// Takes the next thing out of the outbound channel.  Bytes are for the
    /// caller to send.  A channel that is closed and empty ends the
    /// connection.
    pub fn poll_outbound(&mut self) -> (o: Outbound)
        requires
            old(self).wf(),
            old(self)@.phase == Phase::Active,
        ensures
            final(self).wf(),
            match o {
                Outbound::Write(t) => {
                    &&& old(self)@.pipeline.sent.len() > 0
                    &&& t@ == old(self)@.pipeline.sent[0]
                    &&& final(self)@ == (DriverView {
                        pipeline: PipelineView {
                            sent: old(self)@.pipeline.sent.drop_first(),
                            ..old(self)@.pipeline
                        },
                        ..old(self)@
                    })
                },
                Outbound::Idle => {
                    &&& old(self)@.pipeline.sent.len() == 0
                    &&& !old(self)@.pipeline.closed
                    &&& final(self)@ == old(self)@
                },
                Outbound::Closed => {
                    &&& old(self)@.pipeline.sent.len() == 0
                    &&& old(self)@.pipeline.closed
                    &&& final(self)@ == old(self)@.ended(old(self)@.pipeline)
                },
            },
    {
        match self.pipeline.poll_transmit() {
            Some(t) => Outbound::Write(t),
            None => {
                if self.pipeline.is_closed() {
                    self.exit();
                    Outbound::Closed
                } else {
                    Outbound::Idle
                }
            },
        }
    }

    /// Hands an outbound message to the last handler: see
    /// [`Pipeline::write`].
    pub fn write(&mut self, message: Message)
        requires
            old(self).wf(),
        ensures
            final(self).wf(),
            final(self)@ == (DriverView {
                pipeline: old(self)@.pipeline.after_outbound(OutboundEventView::Write(message@)),
                ..old(self)@
            }),
    {
        self.pipeline.write(message);
    }

    /// Asks the handlers, back to front, to close: see [`Pipeline::close`].
    pub fn close(&mut self)
        requires
            old(self).wf(),
        ensures
            final(self).wf(),
            final(self)@ == (DriverView {
                pipeline: old(self)@.pipeline.after_outbound(OutboundEventView::Close),
                ..old(self)@
            }),
    {
        self.pipeline.close();
    }

    /// Gives the pipeline back.
    pub fn into_pipeline(self) -> (p: Pipeline<I, O>)
        requires
            self.wf(),
        ensures
            p.wf(),
            p@ == self@.pipeline,
    {
        self.pipeline
    }
}

} // verus!
