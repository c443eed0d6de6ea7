//! Handlers, their contexts, and the pipeline that links them.

pub mod handler;
pub mod laws;
pub mod message;
pub mod pipeline;

pub use handler::{
    Handler, InboundHandler, InboundHandlerContext, OutboundHandler, OutboundHandlerContext,
};
pub use message::{Body, BodyKind, Emission, InboundEvent, Message, OutboundEvent};
pub use pipeline::Pipeline;
