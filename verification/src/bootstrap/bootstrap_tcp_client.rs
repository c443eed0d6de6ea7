//! A client: a factory and the drivers it starts.

use crate::bootstrap::bootstrap_tcp_server::{accepted_on, builds_pipelines};
use crate::bootstrap::driver::{Driver, DriverView, Phase};
use crate::channel::handler::{InboundHandler, OutboundHandler};
use crate::channel::message::InboundEventView;
use crate::channel::pipeline::Pipeline;
use crate::transport::{SocketAddr, TransportContext};
use vstd::prelude::*;

verus! {

/// A Bootstrap that makes it easy to bootstrap a pipeline to use for TCP
/// clients.  It is given a factory that builds a linked pipeline for a
/// connection; every connection made gets a pipeline from the factory and a
/// driver of its own, which is handed to the caller.
pub struct BootstrapTcpClient<F> {
    pipeline_factory_fn: Option<F>,
}

impl<F> View for BootstrapTcpClient<F> {
    type V = Option<F>;

    /// The pipeline factory, once given.
    closed spec fn view(&self) -> Option<F> {
        self.pipeline_factory_fn
    }
}

impl<F> BootstrapTcpClient<F> {
    /// Creates a new BootstrapTcpClient, without a factory.
    pub fn new() -> (c: Self)
        ensures
            c@ is None,
    {
        BootstrapTcpClient { pipeline_factory_fn: None }
    }

    /// Whether a pipeline factory has been given.
    pub fn has_pipeline(&self) -> (b: bool)
        ensures
            b == self@ is Some,
    {
        self.pipeline_factory_fn.is_some()
    }

    /// Sets the factory that builds a pipeline for each connection.  A client
    /// takes one factory, once.
    pub fn pipeline(&mut self, pipeline_factory_fn: F)
        requires
            old(self)@ is None,
        ensures
            final(self)@ == Some(pipeline_factory_fn),
    {
        self.pipeline_factory_fn = Some(pipeline_factory_fn);
    }

    /// Takes in a connection made from `local_addr` to `peer_addr`: the
    /// factory builds its pipeline, the pipeline is told that the transport is
    /// up, and the driver that serves the connection is returned.
    pub fn connect<I: InboundHandler, O: OutboundHandler>(
        &self,
        local_addr: SocketAddr,
        peer_addr: SocketAddr,
    ) -> (driver: Driver<I, O>) where F: Fn(TransportContext) -> Pipeline<I, O>
        requires
            self@ is Some,
            builds_pipelines(self@->0),
        ensures
            driver.wf(),
            exists|p: Pipeline<I, O>|
                {
                    &&& (#[trigger] self@->0.ensures((accepted_on(local_addr, peer_addr),), p))
                    &&& driver@ == (DriverView {
                        pipeline: p@.after_inbound(InboundEventView::TransportActive),
                        transport: accepted_on(local_addr, peer_addr),
                        phase: Phase::Active,
                    })
                },
    {
        let transport = TransportContext { local_addr, peer_addr: Some(peer_addr), ecn: None };
        let pipeline = (self.pipeline_factory_fn.as_ref().unwrap())(transport);
        let mut driver = Driver::new(pipeline, transport);
        driver.start();
        driver
    }
}

} // verus!
