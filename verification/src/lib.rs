//! An event-driven networking toolkit built around a pipeline of handlers.
//!
//! A connection is served by a [`channel::Pipeline`]: an ordered list of
//! handlers, each with an inbound half and an outbound half.  Inbound events
//! travel from the first handler to the last; outbound events travel back.
//! The library performs no input or output of its own.  A driver feeds it what
//! a socket produced and sends what the pipeline placed in its outbound
//! channel; [`bootstrap`] holds the decisions such a driver makes.  A
//! pipeline holds halves of one type: [`stack`] is that type for a pipeline
//! that mixes the handlers of the library with one of the application.

pub mod buf;
pub mod error;
pub mod transport;
pub mod channel;
pub mod codec;
pub mod bootstrap;
pub mod stack;
