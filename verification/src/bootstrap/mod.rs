//! What a driver decides.
//!
//! A driver owns a socket and a pipeline.  It waits for the socket, a timer
//! or a stop signal, tells the pipeline what happened, and sends what the
//! pipeline wrote.  The waiting and the sending are the caller's; the
//! decisions are here.

pub mod bootstrap_tcp_client;
pub mod bootstrap_tcp_server;
pub mod bootstrap_udp;
pub mod driver;

pub use bootstrap_tcp_client::BootstrapTcpClient;
pub use bootstrap_tcp_server::BootstrapTcpServer;
pub use bootstrap_udp::BootstrapUdp;
pub use driver::{Control, Driver, Event, Outbound, Phase, Wait, MAX_DURATION_IN_SECS};
