//! A server: one driver per accepted connection, and their common end.

use crate::bootstrap::driver::{
    Control, Driver, DriverView, Event, EventView, Outbound, Phase, Wait,
};
use crate::channel::handler::{InboundHandler, OutboundHandler};
use crate::channel::message::{InboundEventView, Message, OutboundEventView};
use crate::channel::pipeline::{Pipeline, PipelineView};
use crate::transport::{EcnCodepoint, Instant, SocketAddr, TransportContext};
use vstd::prelude::*;

verus! {

/// One accepted connection.
pub struct Connection<I, O> {
    id: u64,
    driver: Driver<I, O>,
}

/// A Bootstrap that makes it easy to bootstrap a pipeline to use for TCP
/// servers.  It is given a factory that builds a linked pipeline for a
/// connection, and an address once the listener is bound.  Every accepted
/// connection gets a pipeline from the factory and a driver of its own.
pub struct BootstrapTcpServer<I, O, F> {
    pipeline_factory_fn: Option<F>,
    local_addr: Option<SocketAddr>,
    connections: Vec<Connection<I, O>>,
    next_id: u64,
}

/// The mathematical content of a [`BootstrapTcpServer`].
pub struct ServerView<I: InboundHandler, O: OutboundHandler, F> {
    /// The pipeline factory, once given.
    pub factory: Option<F>,
    /// The listener's address, while bound.
    pub local_addr: Option<SocketAddr>,
    /// The live connections, oldest first: the number each was given when it
    /// was accepted, and its driver.
    pub connections: Seq<(u64, DriverView<I, O>)>,
    /// The number the next connection will be given.
    pub next_id: u64,
}

/// What is asked of a pipeline factory: it can be called for every
/// connection, and what it returns is a linked pipeline.
pub open spec fn builds_pipelines<I: InboundHandler, O: OutboundHandler, F: Fn(
    TransportContext,
) -> Pipeline<I, O>>(f: F) -> bool {
    &&& forall|t: TransportContext| f.requires((t,))
    &&& forall|t: TransportContext, p: Pipeline<I, O>| #[trigger]
        f.ensures((t,), p) ==> p.wf() && p@.finalized
}

/// The context of a connection between the local address `local` and the
/// peer `peer`.
pub open spec fn accepted_on(local: SocketAddr, peer: SocketAddr) -> TransportContext {
    TransportContext { local_addr: local, peer_addr: Some(peer), ecn: None }
}

impl<I: InboundHandler, O: OutboundHandler, F> ServerView<I, O, F> {
    /// Where the live connection numbered `id` stands, if there is one.
    pub open spec fn position(self, id: u64) -> Option<int> {
        if exists|k: int| 0 <= k < self.connections.len() && self.connections[k].0 == id {
            Some(choose|k: int| 0 <= k < self.connections.len() && self.connections[k].0 == id)
        } else {
            None
        }
    }

    /// This server with the connection at `k` replaced by `d`, or removed
    /// when `d` has ended.
    pub open spec fn with_driver(self, k: int, d: DriverView<I, O>) -> Self {
        ServerView {
            connections: if d.phase == Phase::Inactive {
                self.connections.remove(k)
            } else {
                self.connections.update(k, (self.connections[k].0, d))
            },
            ..self
        }
    }
}

impl<I: InboundHandler, O: OutboundHandler, F: Fn(TransportContext) -> Pipeline<
    I,
    O,
>> View for BootstrapTcpServer<I, O, F> {
    type V = ServerView<I, O, F>;

    closed spec fn view(&self) -> ServerView<I, O, F> {
        ServerView {
            factory: self.pipeline_factory_fn,
            local_addr: self.local_addr,
            connections: self.connections@.map_values(|c: Connection<I, O>| (c.id, c.driver@)),
            next_id: self.next_id,
        }
    }
}

impl<I: InboundHandler, O: OutboundHandler, F: Fn(TransportContext) -> Pipeline<
    I,
    O,
>> BootstrapTcpServer<I, O, F> {
    /// The invariant of a server: every connection it holds is being served,
    /// the connections are numbered in the order they were accepted, and the
    /// factory, once given, builds linked pipelines.
    pub closed spec fn wf(&self) -> bool {
        &&& forall|k: int|
            0 <= k < self.connections@.len() ==> {
                &&& (#[trigger] self.connections@[k]).driver.wf()
                &&& self.connections@[k].driver@.phase == Phase::Active
                &&& self.connections@[k].id < self.next_id
            }
        &&& forall|j: int, k: int|
            0 <= j < k < self.connections@.len() ==> (#[trigger] self.connections@[j]).id < (
            #[trigger] self.connections@[k]).id
        &&& self.pipeline_factory_fn matches Some(f) ==> builds_pipelines(f)
    }

    /// Creates a new BootstrapTcpServer: no factory, not bound, no
    /// connections.
    pub fn new() -> (s: Self)
        ensures
            s.wf(),
            s@ == (ServerView::<I, O, F> {
                factory: None,
                local_addr: None,
                connections: Seq::empty(),
                next_id: 0,
            }),
    {
        let s = BootstrapTcpServer {
            pipeline_factory_fn: None,
            local_addr: None,
            connections: Vec::new(),
            next_id: 0,
        };
        assert(s@.connections =~= Seq::empty());
        s
    }

    /// Sets the factory that builds a pipeline for each accepted connection.
    /// A server takes one factory, once.
    pub fn pipeline(&mut self, pipeline_factory_fn: F)
        requires
            old(self).wf(),
            old(self)@.factory is None,
            builds_pipelines(pipeline_factory_fn),
        ensures
            final(self).wf(),
            final(self)@ == (ServerView { factory: Some(pipeline_factory_fn), ..old(self)@ }),
    {
        self.pipeline_factory_fn = Some(pipeline_factory_fn);
    }

    /// Records the address the listener was bound to, and returns it.  A
    /// server is bound only once it has a factory.
    pub fn bind(&mut self, local_addr: SocketAddr) -> (a: SocketAddr)
        requires
            old(self).wf(),
            old(self)@.factory is Some,
        ensures
            final(self).wf(),
            a == local_addr,
            final(self)@ == (ServerView { local_addr: Some(local_addr), ..old(self)@ }),
    {
        self.local_addr = Some(local_addr);
        local_addr
    }

    /// Whether a pipeline factory has been given.
    pub fn has_pipeline(&self) -> (b: bool)
        ensures
            b == self@.factory is Some,
    {
        self.pipeline_factory_fn.is_some()
    }

    /// The address the listener is bound to, while it is.
    pub fn local_addr(&self) -> (a: Option<SocketAddr>)
        ensures
            a == self@.local_addr,
    {
        self.local_addr
    }

    /// The number of connections accepted so far, which is the number the
    /// next one will be given.
    pub fn accepted(&self) -> (n: u64)
        ensures
            n == self@.next_id,
    {
        self.next_id
    }

    /// The number of live connections.
    pub fn connections(&self) -> (n: usize)
        ensures
            n == self@.connections.len(),
    {
        self.connections.len()
    }

    /// Finds the live connection numbered `id`.
    fn find(&self, id: u64) -> (r: Option<usize>)
        requires
            self.wf(),
        ensures
            match r {
                Some(k) => k < self.connections@.len() && self.connections@[k as int].id == id
                    && self@.position(id) == Some(k as int),
                None => self@.position(id) is None,
            },
    {
        let mut k: usize = 0;
        while k < self.connections.len()
            invariant
                self.wf(),
                k <= self.connections@.len(),
                forall|j: int| 0 <= j < k ==> self.connections@[j].id != id,
            decreases self.connections@.len() - k,
        {
            if self.connections[k].id == id {
                proof {
                    // No other connection has this number: they are numbered in order.
                    let v = self@;
                    assert(v.connections[k as int].0 == id);
                    let c = choose|c: int| 0 <= c < v.connections.len() && v.connections[c].0 == id;
                    if c < k {
                        assert(self.connections@[c].id < self.connections@[k as int].id);
                    } else if k < c {
                        assert(self.connections@[k as int].id < self.connections@[c].id);
                    }
                }
                return Some(k);
            }
            k = k + 1;
        }
        None
    }

    /// Takes in a connection that the listener accepted from `peer_addr`: the
    /// factory builds its pipeline, the pipeline is told that the transport is
    /// up, and the connection is given the next number, which is returned.
    pub fn accept(&mut self, peer_addr: SocketAddr) -> (id: u64)
        requires
            old(self).wf(),
            old(self)@.factory is Some,
            old(self)@.local_addr is Some,
            old(self)@.next_id < u64::MAX,
        ensures
            final(self).wf(),
            id == old(self)@.next_id,
            final(self)@.factory == old(self)@.factory,
            final(self)@.local_addr == old(self)@.local_addr,
            final(self)@.next_id == id + 1,
            final(self)@.connections.len() == old(self)@.connections.len() + 1,
            final(self)@.connections.drop_last() == old(self)@.connections,
            final(self)@.connections.last().0 == id,
            exists|p: Pipeline<I, O>|
                {
                    &&& (#[trigger] old(self)@.factory->0.ensures(
                        (accepted_on(old(self)@.local_addr->0, peer_addr),),
                        p,
                    ))
                    &&& final(self)@.connections.last().1 == (DriverView {
                        pipeline: p@.after_inbound(InboundEventView::TransportActive),
                        transport: accepted_on(old(self)@.local_addr->0, peer_addr),
                        phase: Phase::Active,
                    })
                },
    {
        let transport = TransportContext {
            local_addr: self.local_addr.unwrap(),
            peer_addr: Some(peer_addr),
            ecn: None,
        };
        let id = self.next_id;
        let pipeline = (self.pipeline_factory_fn.as_ref().unwrap())(transport);
        let mut driver = Driver::new(pipeline, transport);
        driver.start();
        self.connections.push(Connection { id, driver });
        self.next_id = id + 1;
        id
    }

    /// Asks the connection numbered `id` how long to wait: see
    /// [`Driver::poll`].  None when there is no such connection.
    pub fn poll(&mut self, id: u64, now: Instant) -> (w: Option<Wait>)
        requires
            old(self).wf(),
        ensures
            final(self).wf(),
            match old(self)@.position(id) {
                None => w is None && final(self)@ == old(self)@,
                Some(k) => {
                    let d = old(self)@.connections[k].1;
                    &&& w == Some(d.wait(now))
                    &&& final(self)@ == old(self)@.with_driver(k, d.after_poll(now))
                },
            },
    {
        match self.find(id) {
            None => None,
            Some(k) => {
                let w = self.connections[k].driver.poll(now);
                assert(self@.connections =~= old(self)@.connections.update(
                    k as int,
                    (id, self.connections@[k as int].driver@),
                ));
                Some(w)
            },
        }
    }

    /// Hands the connection numbered `id` what its caller waited for and got:
    /// see [`Driver::handle`].  A connection that ends is told that the
    /// transport is down and leaves the server, which then holds one
    /// connection fewer.  None when there is no such connection.
    pub fn handle(&mut self, id: u64, now: Instant, event: Event) -> (c: Option<Control>)
        requires
            old(self).wf(),
        ensures
            final(self).wf(),
            match old(self)@.position(id) {
                None => c is None && final(self)@ == old(self)@,
                Some(k) => {
                    let d = old(self)@.connections[k].1.after(now, event@);
                    &&& c == Some(
                        if d.phase == Phase::Inactive {
                            Control::Exit
                        } else {
                            Control::Continue
                        },
                    )
                    &&& final(self)@ == old(self)@.with_driver(k, d)
                },
            },
    {
        match self.find(id) {
            None => None,
            Some(k) => {
                let c = self.connections[k].driver.handle(now, event);
                match c {
                    Control::Exit => {
                        let _ = self.connections.remove(k);
                        assert(self@.connections =~= old(self)@.connections.remove(k as int));
                    },
                    Control::Continue => {
                        assert(self@.connections =~= old(self)@.connections.update(
                            k as int,
                            (id, self.connections@[k as int].driver@),
                        ));
                    },
                }
                Some(c)
            },
        }
    }

    /// Takes the next thing out of the outbound channel of the connection
    /// numbered `id`: see [`Driver::poll_outbound`].  A connection whose
    /// channel is closed and empty ends and leaves the server.  None when
    /// there is no such connection.
    pub fn poll_outbound(&mut self, id: u64) -> (o: Option<Outbound>)
        requires
            old(self).wf(),
        ensures
            final(self).wf(),
            match old(self)@.position(id) {
                None => o is None && final(self)@ == old(self)@,
                Some(k) => {
                    let d = old(self)@.connections[k].1;
                    &&& o is Some
                    &&& match o->0 {
                        Outbound::Write(t) => {
                            &&& d.pipeline.sent.len() > 0
                            &&& t@ == d.pipeline.sent[0]
                            &&& final(self)@ == old(self)@.with_driver(
                                k,
                                DriverView {
                                    pipeline: PipelineView {
                                        sent: d.pipeline.sent.drop_first(),
                                        ..d.pipeline
                                    },
                                    ..d
                                },
                            )
                        },
                        Outbound::Idle => {
                            &&& d.pipeline.sent.len() == 0
                            &&& !d.pipeline.closed
                            &&& final(self)@ == old(self)@
                        },
                        Outbound::Closed => {
                            &&& d.pipeline.sent.len() == 0
                            &&& d.pipeline.closed
                            &&& final(self)@ == old(self)@.with_driver(k, d.ended(d.pipeline))
                        },
                    }
                },
            },
    {
        match self.find(id) {
            None => None,
            Some(k) => {
                let o = self.connections[k].driver.poll_outbound();
                match &o {
                    Outbound::Closed => {
                        let _ = self.connections.remove(k);
                        assert(self@.connections =~= old(self)@.connections.remove(k as int));
                    },
                    Outbound::Write(_) => {
                        assert(self@.connections =~= old(self)@.connections.update(
                            k as int,
                            (id, self.connections@[k as int].driver@),
                        ));
                    },
                    Outbound::Idle => {
                        assert(self@.connections =~= old(self)@.connections);
                    },
                }
                Some(o)
            },
        }
    }

    /// Hands an outbound message to the last handler of the connection
    /// numbered `id`.  Returns whether there is such a connection.
    pub fn write(&mut self, id: u64, message: Message) -> (found: bool)
        requires
            old(self).wf(),
        ensures
            final(self).wf(),
            match old(self)@.position(id) {
                None => !found && final(self)@ == old(self)@,
                Some(k) => {
                    let d = old(self)@.connections[k].1;
                    &&& found
                    &&& final(self)@ == old(self)@.with_driver(
                        k,
                        DriverView {
                            pipeline: d.pipeline.after_outbound(
                                OutboundEventView::Write(message@),
                            ),
                            ..d
                        },
                    )
                },
            },
    {
        match self.find(id) {
            None => false,
            Some(k) => {
                self.connections[k].driver.write(message);
                assert(self@.connections =~= old(self)@.connections.update(
                    k as int,
                    (id, self.connections@[k as int].driver@),
                ));
                true
            },
        }
    }

    /// Gracefully stop the server.  Every live connection is told that the
    /// transport is down, oldest first, and leaves the server; the listener's
    /// address is forgotten.  When this returns no connection remains.  The
    /// drivers of the connections that were ended are returned, in order.
    pub fn stop(&mut self) -> (ended: Vec<Driver<I, O>>)
        requires
            old(self).wf(),
        ensures
            final(self).wf(),
            final(self)@ == (ServerView {
                local_addr: None,
                connections: Seq::empty(),
                ..old(self)@
            }),
            ended@.len() == old(self)@.connections.len(),
            forall|k: int|
                0 <= k < ended@.len() ==> (#[trigger] ended@[k])@ == old(self)@.connections[k].1.ended(
                    old(self)@.connections[k].1.pipeline,
                ),
    {
        let mut ended: Vec<Driver<I, O>> = Vec::new();
        let ghost before = old(self)@.connections;
        while self.connections.len() > 0
            invariant
                self.wf(),
                self.pipeline_factory_fn == old(self).pipeline_factory_fn,
                self.next_id == old(self).next_id,
                ended@.len() + self.connections@.len() == before.len(),
                forall|k: int|
                    0 <= k < self.connections@.len() ==> (#[trigger] self.connections@[k]).driver@
                        == before[ended@.len() + k].1,
                forall|k: int|
                    0 <= k < ended@.len() ==> (#[trigger] ended@[k])@ == before[k].1.ended(
                        before[k].1.pipeline,
                    ),
            decreases self.connections@.len(),
        {
            let Connection { id, driver } = self.connections.remove(0);
            let mut driver = driver;
            let _ = driver.handle(Instant::from_nanos(0), Event::Close);
            ended.push(driver);
        }
        self.local_addr = None;
        assert(self@.connections =~= Seq::empty());
        ended
    }
}

/// Close after end of stream.  When a read on a live connection returns no
/// bytes, the pipeline is told first that the stream has ended and then that
/// the transport is down, the connection's driver is done, and the server
/// holds one connection fewer.
pub proof fn lemma_peer_close_ends_connection<I: InboundHandler, O: OutboundHandler, F>(
    server: ServerView<I, O, F>,
    k: int,
    now: Instant,
    origin: Option<SocketAddr>,
    ecn: Option<EcnCodepoint>,
)
    requires
        0 <= k < server.connections.len(),
    ensures
        ({
            let d = server.connections[k].1;
            let end = EventView::Read { bytes: Seq::empty(), origin, ecn };
            &&& d.after(now, end).pipeline == d.pipeline.after_inbound(
                InboundEventView::ReadEof,
            ).after_inbound(InboundEventView::TransportInactive)
            &&& d.after(now, end).phase == Phase::Inactive
            &&& server.with_driver(k, d.after(now, end)).connections.len()
                == server.connections.len() - 1
        }),
{
}

} // verus!
