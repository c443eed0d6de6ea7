use bytes::BytesMut;
use retty::bootstrap::{
    BootstrapTcpClient, BootstrapTcpServer, BootstrapUdp, Control, Driver, Event, Outbound, Phase,
    Wait, MAX_DURATION_IN_SECS,
};
use retty::channel::{
    Body, BodyKind, Handler, InboundHandler, InboundHandlerContext, Message, OutboundHandler,
    OutboundHandlerContext, Pipeline,
};
use retty::error::Error;
use retty::transport::{EcnCodepoint, Instant, IpAddr, SocketAddr, TransportContext};
use std::cell::RefCell;
use std::rc::Rc;

type Log = Rc<RefCell<Vec<String>>>;

const DAY: u64 = 86_400_000_000_000;

/// Notes what it is handed, echoes what it reads, and pulls a polled deadline
/// in to its own, if it has one.
struct Watcher {
    name: String,
    log: Log,
    deadline: Option<u64>,
    /// Replace the deadline even when that moves it later.
    force: bool,
}

struct Quiet;

struct App {
    name: String,
    log: Log,
    deadline: Option<u64>,
    force: bool,
}

impl Watcher {
    fn note(&self, what: String) {
        self.log.borrow_mut().push(format!("{}:{}", self.name, what));
    }
}

impl InboundHandler for Watcher {
    type State = ();

    fn accepts(&self, kind: BodyKind) -> bool {
        kind == BodyKind::Bytes
    }
    fn transport_active(&mut self, ctx: &mut InboundHandlerContext) {
        self.note("active".to_string());
        ctx.fire_transport_active();
    }
    fn transport_inactive(&mut self, ctx: &mut InboundHandlerContext) {
        self.note("inactive".to_string());
        ctx.fire_transport_inactive();
    }
    fn read(&mut self, ctx: &mut InboundHandlerContext, message: Message) {
        let text = match &message.body {
            Body::Bytes(b) => String::from_utf8_lossy(&b[..]).to_string(),
            Body::Text(s) => s.clone(),
        };
        let from = match message.transport.peer_addr {
            Some(a) => format!("{}", a.port),
            None => "nobody".to_string(),
        };
        self.note(format!("read {} from {} at {} ecn {:?}", text, from, message.now.nanos, message.transport.ecn));
        ctx.fire_write(message);
    }
    fn read_exception(&mut self, ctx: &mut InboundHandlerContext, error: Error) {
        ctx.fire_read_exception(error);
    }
    fn read_eof(&mut self, ctx: &mut InboundHandlerContext) {
        self.note("eof".to_string());
        ctx.fire_read_eof();
    }
    fn read_timeout(&mut self, ctx: &mut InboundHandlerContext, timeout: Instant) {
        self.note(format!("timeout {}", timeout.nanos));
        self.deadline = None;
        ctx.fire_read_timeout(timeout);
    }
    fn poll_timeout(&mut self, ctx: &mut InboundHandlerContext, timeout: &mut Instant) {
        if let Some(deadline) = self.deadline {
            if self.force || deadline < timeout.nanos {
                *timeout = Instant::from_nanos(deadline);
            }
        }
        ctx.fire_poll_timeout();
    }
}

impl OutboundHandler for Quiet {
    type State = ();

    fn accepts(&self, _kind: BodyKind) -> bool {
        true
    }
    fn write(&mut self, ctx: &mut OutboundHandlerContext, message: Message) {
        ctx.fire_write(message);
    }
    fn write_exception(&mut self, ctx: &mut OutboundHandlerContext, error: Error) {
        ctx.fire_write_exception(error);
    }
    fn close(&mut self, ctx: &mut OutboundHandlerContext) {
        ctx.fire_close();
    }
}

impl Handler for App {
    type In = Watcher;
    type Out = Quiet;

    fn id(&self) -> String {
        self.name.clone()
    }

    fn split(self) -> (Watcher, Quiet) {
        (Watcher { name: self.name, log: self.log, deadline: self.deadline, force: self.force }, Quiet)
    }
}

fn addr(port: u16) -> SocketAddr {
    SocketAddr { ip: IpAddr::V4(0x0a00_0001), port }
}

fn connection() -> TransportContext {
    TransportContext { local_addr: addr(23), peer_addr: Some(addr(4000)), ecn: None }
}

fn pipeline(name: &str, log: &Log, deadline: Option<u64>, transport: TransportContext) -> Pipeline<Watcher, Quiet> {
    let mut pipeline = Pipeline::new(transport);
    pipeline.add_back(App { name: name.to_string(), log: log.clone(), deadline, force: false });
    pipeline.finalize();
    pipeline
}

fn started(log: &Log, deadline: Option<u64>) -> Driver<Watcher, Quiet> {
    let mut driver = Driver::new(pipeline("app", log, deadline, connection()), connection());
    assert_eq!(driver.phase(), Phase::Idle);
    driver.start();
    assert_eq!(driver.phase(), Phase::Active);
    driver
}

fn bytes_read(bytes: &[u8]) -> Event<'_> {
    Event::Read { bytes, origin: None, ecn: None }
}

fn entries(log: &Log) -> Vec<String> {
    log.borrow().clone()
}

#[test]
fn the_longest_wait_is_one_day() {
    assert_eq!(MAX_DURATION_IN_SECS, 86400);
    let log = Log::default();
    let mut driver = started(&log, None);
    assert_eq!(driver.poll(Instant::from_nanos(1_000)), Wait::For(DAY));
    assert_eq!(driver.poll(Instant::from_nanos(u64::MAX - 5)), Wait::For(5));
}

#[test]
fn a_deadline_later_than_a_day_is_cut_to_a_day() {
    let log = Log::default();
    let mut pipeline = Pipeline::new(connection());
    pipeline.add_back(App { name: "app".to_string(), log: log.clone(), deadline: Some(3 * DAY), force: true });
    pipeline.finalize();
    let mut driver = Driver::new(pipeline, connection());
    driver.start();
    assert_eq!(driver.poll(Instant::from_nanos(10)), Wait::For(DAY));
    assert_eq!(driver.poll(Instant::from_nanos(3 * DAY - 1)), Wait::For(1));
    assert_eq!(driver.poll(Instant::from_nanos(3 * DAY)), Wait::Again);
    assert_eq!(entries(&log).last().unwrap(), "app:timeout 259200000000000");
}

#[test]
fn a_handler_pulls_the_deadline_in() {
    let log = Log::default();
    let now = 1_000_000_000;
    let mut driver = started(&log, Some(now + 50_000_000));
    assert_eq!(driver.poll(Instant::from_nanos(now)), Wait::For(50_000_000));
    assert_eq!(driver.handle(Instant::from_nanos(now + 50_000_123), Event::Timeout), Control::Continue);
    assert_eq!(entries(&log), vec!["app:active".to_string(), "app:timeout 1050000123".to_string()]);
    assert_eq!(driver.poll(Instant::from_nanos(now + 50_000_123)), Wait::For(DAY));
}

#[test]
fn a_deadline_that_has_passed_is_answered_at_once() {
    let log = Log::default();
    let mut driver = started(&log, Some(500));
    assert_eq!(driver.poll(Instant::from_nanos(500)), Wait::Again);
    assert_eq!(entries(&log), vec!["app:active".to_string(), "app:timeout 500".to_string()]);
    assert_eq!(driver.phase(), Phase::Active);
    assert_eq!(driver.poll(Instant::from_nanos(501)), Wait::For(DAY));
}

#[test]
fn bytes_read_enter_the_pipeline_tagged() {
    let log = Log::default();
    let mut driver = started(&log, None);
    assert_eq!(driver.handle(Instant::from_nanos(7), bytes_read(b"ping")), Control::Continue);
    let datagram = Event::Read { bytes: b"pong", origin: Some(addr(1000)), ecn: Some(EcnCodepoint::Ect0) };
    assert_eq!(driver.handle(Instant::from_nanos(8), datagram), Control::Continue);
    assert_eq!(
        entries(&log),
        vec![
            "app:active".to_string(),
            "app:read ping from 4000 at 7 ecn None".to_string(),
            "app:read pong from 1000 at 8 ecn Some(Ect0)".to_string(),
        ]
    );
    match driver.poll_outbound() {
        Outbound::Write(t) => {
            assert_eq!(&t.message[..], b"ping");
            assert_eq!(t.transport, connection());
        }
        _ => panic!("the echo of the first read was expected"),
    }
    match driver.poll_outbound() {
        Outbound::Write(t) => {
            assert_eq!(&t.message[..], b"pong");
            assert_eq!(t.transport.peer_addr, Some(addr(1000)));
            assert_eq!(t.transport.local_addr, addr(23));
        }
        _ => panic!("the echo of the second read was expected"),
    }
    assert!(matches!(driver.poll_outbound(), Outbound::Idle));
    assert_eq!(driver.phase(), Phase::Active);
}

#[test]
fn an_empty_read_ends_the_connection() {
    let log = Log::default();
    let mut driver = started(&log, None);
    assert_eq!(driver.handle(Instant::from_nanos(1), bytes_read(b"")), Control::Exit);
    assert_eq!(driver.phase(), Phase::Inactive);
    assert_eq!(
        entries(&log),
        vec!["app:active".to_string(), "app:eof".to_string(), "app:inactive".to_string()]
    );
}

#[test]
fn the_stop_signal_and_failures_end_the_connection() {
    for which in 0..3 {
        let log = Log::default();
        let mut driver = started(&log, None);
        let event = match which {
            0 => Event::Close,
            1 => Event::ReadFailed,
            _ => Event::WriteFailed,
        };
        assert_eq!(driver.handle(Instant::from_nanos(1), event), Control::Exit);
        assert_eq!(driver.phase(), Phase::Inactive);
        assert_eq!(entries(&log), vec!["app:active".to_string(), "app:inactive".to_string()]);
    }
}

#[test]
fn a_closed_outbound_channel_ends_the_connection_once_it_is_empty() {
    let log = Log::default();
    let mut driver = started(&log, None);
    driver.write(Message::bytes(Instant::from_nanos(0), connection(), BytesMut::from(&b"last"[..])));
    driver.close();
    assert!(matches!(driver.poll_outbound(), Outbound::Write(t) if &t.message[..] == b"last"));
    assert_eq!(driver.phase(), Phase::Active);
    assert!(matches!(driver.poll_outbound(), Outbound::Closed));
    assert_eq!(driver.phase(), Phase::Inactive);
    assert_eq!(entries(&log), vec!["app:active".to_string(), "app:inactive".to_string()]);
    let pipeline = driver.into_pipeline();
    assert!(pipeline.is_closed());
}

fn server(log: &Log) -> BootstrapTcpServer<Watcher, Quiet, impl Fn(TransportContext) -> Pipeline<Watcher, Quiet>> {
    let log = log.clone();
    let mut server = BootstrapTcpServer::new();
    server.pipeline(move |transport: TransportContext| {
        let name = match transport.peer_addr {
            Some(a) => format!("c{}", a.port),
            None => "c".to_string(),
        };
        pipeline(&name, &log, None, transport)
    });
    assert_eq!(server.bind(addr(23)), addr(23));
    server
}

#[test]
fn a_server_numbers_its_connections() {
    let log = Log::default();
    let mut server = server(&log);
    assert_eq!(server.connections(), 0);
    assert_eq!(server.accept(addr(1)), 0);
    assert_eq!(server.accept(addr(2)), 1);
    assert_eq!(server.accept(addr(3)), 2);
    assert_eq!(server.connections(), 3);
    assert_eq!(
        entries(&log),
        vec!["c1:active".to_string(), "c2:active".to_string(), "c3:active".to_string()]
    );
    assert_eq!(server.poll(1, Instant::from_nanos(0)), Some(Wait::For(DAY)));
    assert_eq!(server.poll(9, Instant::from_nanos(0)), None);
    assert_eq!(server.handle(9, Instant::from_nanos(0), Event::Timeout), None);
    assert!(server.poll_outbound(9).is_none());
    assert!(!server.write(9, Message::text(Instant::from_nanos(0), connection(), "x".to_string())));
}

#[test]
fn a_server_routes_events_to_the_connection_named() {
    let log = Log::default();
    let mut server = server(&log);
    server.accept(addr(1));
    server.accept(addr(2));
    assert_eq!(server.handle(1, Instant::from_nanos(5), bytes_read(b"hi")), Some(Control::Continue));
    assert_eq!(entries(&log).last().unwrap(), "c2:read hi from 2 at 5 ecn None");
    assert!(matches!(server.poll_outbound(0), Some(Outbound::Idle)));
    assert!(matches!(server.poll_outbound(1), Some(Outbound::Write(t)) if &t.message[..] == b"hi"));
    assert!(matches!(server.poll_outbound(1), Some(Outbound::Idle)));
    assert!(server.write(0, Message::bytes(Instant::from_nanos(0), connection(), BytesMut::from(&b"yo"[..]))));
    assert!(matches!(server.poll_outbound(0), Some(Outbound::Write(t)) if &t.message[..] == b"yo"));
}

#[test]
fn a_peer_that_closes_leaves_one_connection_fewer() {
    let log = Log::default();
    let mut server = server(&log);
    server.accept(addr(1));
    server.accept(addr(2));
    server.accept(addr(3));
    log.borrow_mut().clear();
    assert_eq!(server.handle(1, Instant::from_nanos(5), bytes_read(b"")), Some(Control::Exit));
    assert_eq!(entries(&log), vec!["c2:eof".to_string(), "c2:inactive".to_string()]);
    assert_eq!(server.connections(), 2);
    assert_eq!(server.handle(1, Instant::from_nanos(6), Event::Timeout), None);
    assert_eq!(server.handle(2, Instant::from_nanos(6), Event::Timeout), Some(Control::Continue));
    assert_eq!(server.accept(addr(4)), 3);
}

#[test]
fn stop_ends_every_connection() {
    let log = Log::default();
    let mut server = server(&log);
    for port in 1..=10 {
        server.accept(addr(port));
    }
    assert_eq!(server.connections(), 10);
    log.borrow_mut().clear();
    let ended = server.stop();
    assert_eq!(server.connections(), 0);
    assert_eq!(ended.len(), 10);
    assert!(ended.iter().all(|d| d.phase() == Phase::Inactive));
    let expected: Vec<String> = (1..=10).map(|port| format!("c{}:inactive", port)).collect();
    assert_eq!(entries(&log), expected);
    assert_eq!(server.handle(0, Instant::from_nanos(0), Event::Timeout), None);
    assert!(server.stop().is_empty());
}

#[test]
fn a_client_starts_a_driver_for_each_connection() {
    let log = Log::default();
    let mut client = BootstrapTcpClient::new();
    assert!(!client.has_pipeline());
    let shared = log.clone();
    client.pipeline(move |transport: TransportContext| pipeline("client", &shared, None, transport));
    assert!(client.has_pipeline());
    let mut driver: Driver<Watcher, Quiet> = client.connect(addr(5000), addr(23));
    assert_eq!(driver.phase(), Phase::Active);
    assert_eq!(entries(&log), vec!["client:active".to_string()]);
    assert_eq!(driver.handle(Instant::from_nanos(4), bytes_read(b"yo")), Control::Continue);
    assert_eq!(entries(&log).last().unwrap(), "client:read yo from 23 at 4 ecn None");
    match driver.poll_outbound() {
        Outbound::Write(t) => {
            assert_eq!(t.transport.local_addr, addr(5000));
            assert_eq!(t.transport.peer_addr, Some(addr(23)));
        }
        _ => panic!("the echo was expected"),
    }
    let other: Driver<Watcher, Quiet> = client.connect(addr(5001), addr(23));
    assert_eq!(other.phase(), Phase::Active);
    assert_eq!(driver.handle(Instant::from_nanos(5), Event::Close), Control::Exit);
    assert_eq!(other.phase(), Phase::Active);
}

#[test]
fn a_datagram_socket_has_no_peer_of_its_own() {
    let log = Log::default();
    let mut bootstrap = BootstrapUdp::new();
    assert!(!bootstrap.has_pipeline());
    let shared = log.clone();
    bootstrap.pipeline(move |transport: TransportContext| pipeline("udp", &shared, None, transport));
    assert!(bootstrap.has_pipeline());
    let mut driver: Driver<Watcher, Quiet> = bootstrap.bind(addr(9000));
    assert_eq!(driver.phase(), Phase::Active);
    assert_eq!(entries(&log), vec!["udp:active".to_string()]);
    let first = Event::Read { bytes: b"ping", origin: Some(addr(1000)), ecn: None };
    assert_eq!(driver.handle(Instant::from_nanos(1), first), Control::Continue);
    assert_eq!(driver.handle(Instant::from_nanos(2), bytes_read(b"who")), Control::Continue);
    assert_eq!(
        entries(&log),
        vec![
            "udp:active".to_string(),
            "udp:read ping from 1000 at 1 ecn None".to_string(),
            "udp:read who from nobody at 2 ecn None".to_string(),
        ]
    );
    match driver.poll_outbound() {
        Outbound::Write(t) => {
            assert_eq!(t.transport.local_addr, addr(9000));
            assert_eq!(t.transport.peer_addr, Some(addr(1000)));
        }
        _ => panic!("the echo was expected"),
    }
}
