//! A datagram socket: a factory and the driver it starts.

use crate::bootstrap::bootstrap_tcp_server::builds_pipelines;
use crate::bootstrap::driver::{Driver, DriverView, Phase};
use crate::channel::handler::{InboundHandler, OutboundHandler};
use crate::channel::message::InboundEventView;
use crate::channel::pipeline::Pipeline;
use crate::transport::{SocketAddr, TransportContext};
use vstd::prelude::*;

verus! {

/// A Bootstrap that makes it easy to bootstrap a pipeline to use for UDP.
/// There is one socket and one pipeline for all peers: the connection has no
/// peer of its own, and every datagram carries the address it came from or
/// goes to.
pub struct BootstrapUdp<F> {
    pipeline_factory_fn: Option<F>,
}

/// The context of a datagram socket bound to `local`.
pub open spec fn bound_on(local: SocketAddr) -> TransportContext {
    TransportContext { local_addr: local, peer_addr: None, ecn: None }
}

impl<F> View for BootstrapUdp<F> {
    type V = Option<F>;

    /// The pipeline factory, once given.
    closed spec fn view(&self) -> Option<F> {
        self.pipeline_factory_fn
    }
}

impl<F> BootstrapUdp<F> {
    /// Creates a new BootstrapUdp, without a factory.
    pub fn new() -> (b: Self)
        ensures
            b@ is None,
    {
        BootstrapUdp { pipeline_factory_fn: None }
    }

    /// Whether a pipeline factory has been given.
    pub fn has_pipeline(&self) -> (b: bool)
        ensures
            b == self@ is Some,
    {
        self.pipeline_factory_fn.is_some()
    }

    /// Sets the factory that builds the pipeline.  A bootstrap takes one
    /// factory, once.
    pub fn pipeline(&mut self, pipeline_factory_fn: F)
        requires
            old(self)@ is None,
        ensures
            final(self)@ == Some(pipeline_factory_fn),
    {
        self.pipeline_factory_fn = Some(pipeline_factory_fn);
    }

    /// Takes in a socket bound to `local_addr`: the factory builds its
    /// pipeline, the pipeline is told that the transport is up, and the driver
    /// that serves the socket is returned.
    pub fn bind<I: InboundHandler, O: OutboundHandler>(&self, local_addr: SocketAddr) -> (driver:
        Driver<I, O>) where F: Fn(TransportContext) -> Pipeline<I, O>
        requires
            self@ is Some,
            builds_pipelines(self@->0),
        ensures
            driver.wf(),
            exists|p: Pipeline<I, O>|
                {
                    &&& (#[trigger] self@->0.ensures((bound_on(local_addr),), p))
                    &&& driver@ == (DriverView {
                        pipeline: p@.after_inbound(InboundEventView::TransportActive),
                        transport: bound_on(local_addr),
                        phase: Phase::Active,
                    })
                },
    {
        let transport = TransportContext { local_addr, peer_addr: None, ecn: None };
        let pipeline = (self.pipeline_factory_fn.as_ref().unwrap())(transport);
        let mut driver = Driver::new(pipeline, transport);
        driver.start();
        driver
    }
}

} // verus!
