use bytes::BytesMut;
use retty::channel::{
    Body, BodyKind, Handler, InboundHandler, InboundHandlerContext, Message, OutboundHandler,
    OutboundHandlerContext, Pipeline,
};
use retty::codec::byte_to_message_decoder::{
    ByteToMessageCodec, LineBasedFrameDecoder, TerminatorType,
};
use retty::codec::string_codec::StringCodec;
use retty::error::{Error, ErrorKind};
use retty::stack::{InboundStage, OutboundStage, Stage};
use retty::transport::async_transport_tcp::AsyncTransportTcp;
use retty::transport::async_transport_udp::AsyncTransportUdp;
use retty::transport::{Instant, IpAddr, SocketAddr, TaggedBytesMut, TransportContext};
use std::cell::RefCell;
use std::rc::Rc;

type Log = Rc<RefCell<Vec<String>>>;

#[derive(Clone, Copy, PartialEq)]
enum Mode {
    /// Pass everything on.
    Forward,
    /// Keep what is read; answer "bye" with a farewell and a close.
    Telnet,
    /// Write back what is read.
    Echo,
    /// Keep what is read and fire nothing.
    Keep,
}

fn show(body: &Body) -> String {
    match body {
        Body::Bytes(b) => format!("bytes:{}", String::from_utf8_lossy(&b[..])),
        Body::Text(s) => format!("text:{}", s),
    }
}

struct ProbeIn {
    name: String,
    log: Log,
    kind: Option<BodyKind>,
    mode: Mode,
}

struct ProbeOut {
    name: String,
    log: Log,
    kind: Option<BodyKind>,
}

struct Probe {
    name: String,
    log: Log,
    kind: Option<BodyKind>,
    mode: Mode,
}

impl ProbeIn {
    fn note(&self, what: String) {
        self.log.borrow_mut().push(format!("{}<{}", self.name, what));
    }
}

impl ProbeOut {
    fn note(&self, what: String) {
        self.log.borrow_mut().push(format!("{}>{}", self.name, what));
    }
}

impl InboundHandler for ProbeIn {
    type State = ();

    fn accepts(&self, kind: BodyKind) -> bool {
        match self.kind {
            Some(k) => k == kind,
            None => true,
        }
    }
    fn transport_active(&mut self, ctx: &mut InboundHandlerContext) {
        self.note("active".to_string());
        ctx.fire_transport_active();
    }
    fn transport_inactive(&mut self, ctx: &mut InboundHandlerContext) {
        self.note("inactive".to_string());
        ctx.fire_transport_inactive();
    }
    fn read(&mut self, ctx: &mut InboundHandlerContext, message: Message) {
        self.note(format!("read {}", show(&message.body)));
        match self.mode {
            Mode::Forward => ctx.fire_read(message),
            Mode::Keep => {}
            Mode::Echo => ctx.fire_write(message),
            Mode::Telnet => {
                let Message { now, transport, body } = message;
                if let Body::Text(text) = body {
                    if text == "bye" {
                        ctx.fire_write(Message::text(
                            now,
                            transport,
                            "Have a fabulous day!\r\n".to_string(),
                        ));
                        ctx.fire_close();
                    }
                }
            }
        }
    }
    fn read_exception(&mut self, ctx: &mut InboundHandlerContext, error: Error) {
        self.note(format!("exception {:?} {}", error.kind(), error.message()));
        ctx.fire_read_exception(error);
    }
    fn read_eof(&mut self, ctx: &mut InboundHandlerContext) {
        self.note("eof".to_string());
        ctx.fire_read_eof();
    }
    fn read_timeout(&mut self, ctx: &mut InboundHandlerContext, timeout: Instant) {
        self.note(format!("timeout {}", timeout.nanos));
        ctx.fire_read_timeout(timeout);
    }
    fn poll_timeout(&mut self, ctx: &mut InboundHandlerContext, timeout: &mut Instant) {
        self.note(format!("poll {}", timeout.nanos));
        ctx.fire_poll_timeout();
    }
}

impl OutboundHandler for ProbeOut {
    type State = ();

    fn accepts(&self, kind: BodyKind) -> bool {
        match self.kind {
            Some(k) => k == kind,
            None => true,
        }
    }
    fn write(&mut self, ctx: &mut OutboundHandlerContext, message: Message) {
        self.note(format!("write {}", show(&message.body)));
        ctx.fire_write(message);
    }
    fn write_exception(&mut self, ctx: &mut OutboundHandlerContext, error: Error) {
        self.note(format!("exception {:?} {}", error.kind(), error.message()));
        ctx.fire_write_exception(error);
    }
    fn close(&mut self, ctx: &mut OutboundHandlerContext) {
        self.note("close".to_string());
        ctx.fire_close();
    }
}

impl Handler for Probe {
    type In = ProbeIn;
    type Out = ProbeOut;

    fn id(&self) -> String {
        self.name.clone()
    }

    fn split(self) -> (ProbeIn, ProbeOut) {
        (
            ProbeIn { name: self.name.clone(), log: self.log.clone(), kind: self.kind, mode: self.mode },
            ProbeOut { name: self.name, log: self.log, kind: self.kind },
        )
    }
}

type Stack = Stage<LineBasedFrameDecoder, Probe>;
type In = InboundStage<LineBasedFrameDecoder, ProbeIn>;
type Out = OutboundStage<ProbeOut>;

fn probe(name: &str, log: &Log, kind: Option<BodyKind>, mode: Mode) -> Stack {
    Stack::User(Probe { name: name.to_string(), log: log.clone(), kind, mode })
}

fn addr(last: u32, port: u16) -> SocketAddr {
    SocketAddr { ip: IpAddr::V4(0x0a00_0000 + last), port }
}

fn connection() -> TransportContext {
    TransportContext { local_addr: addr(1, 23), peer_addr: Some(addr(2, 40000)), ecn: None }
}

fn line_codec(max_length: usize) -> Stack {
    Stack::Codec(ByteToMessageCodec::new(LineBasedFrameDecoder::new(
        max_length,
        true,
        TerminatorType::BOTH,
    )))
}

fn telnet_server(log: &Log, max_length: usize) -> Pipeline<In, Out> {
    let mut pipeline = Pipeline::new(connection());
    pipeline.add_back(Stack::Tcp(AsyncTransportTcp::new()));
    pipeline.add_back(line_codec(max_length));
    pipeline.add_back(Stack::Text(StringCodec::new()));
    pipeline.add_back(probe("app", log, Some(BodyKind::Text), Mode::Telnet));
    pipeline.finalize();
    pipeline
}

fn inbound(bytes: &[u8]) -> Message {
    Message::from_tagged(TaggedBytesMut {
        now: Instant::from_nanos(1),
        transport: connection(),
        message: BytesMut::from(bytes),
    })
}

fn entries(log: &Log) -> Vec<String> {
    log.borrow().clone()
}

fn forwarders(log: &Log, n: usize) -> Pipeline<In, Out> {
    let mut pipeline = Pipeline::new(connection());
    for i in 0..n {
        pipeline.add_back(probe(&format!("h{}", i), log, None, Mode::Forward));
    }
    pipeline.finalize();
    pipeline
}

#[test]
fn telnet_echo_says_goodbye_and_closes() {
    let log = Log::default();
    let mut pipeline = telnet_server(&log, 8192);
    pipeline.transport_active();
    pipeline.read(inbound(b"hello\r\nbye\r\n"));
    assert_eq!(
        entries(&log),
        vec!["app<active".to_string(), "app<read text:hello".to_string(), "app<read text:bye".to_string()]
    );
    let out = pipeline.poll_transmit().expect("one line written");
    assert_eq!(&out.message[..], b"Have a fabulous day!\r\n");
    assert_eq!(out.transport, connection());
    assert!(pipeline.poll_transmit().is_none());
    assert!(pipeline.is_closed());
}

#[test]
fn oversize_line_raises_frame_too_long_and_discards_the_buffer() {
    let log = Log::default();
    let mut pipeline = telnet_server(&log, 16);
    pipeline.transport_active();
    pipeline.read(inbound(b"01234567890123456789"));
    assert_eq!(
        entries(&log),
        vec!["app<active".to_string(), "app<exception FrameTooLong frame too long".to_string()]
    );
    pipeline.read(inbound(b"ok\n"));
    assert_eq!(entries(&log).last().unwrap(), "app<read text:ok");
    assert!(pipeline.poll_transmit().is_none());
    assert!(!pipeline.is_closed());
}

#[test]
fn chat_client_writes_bytes_and_reads_text() {
    let log = Log::default();
    let mut pipeline = Pipeline::new(connection());
    pipeline.add_back(Stack::Tcp(AsyncTransportTcp::new()));
    pipeline.add_back(line_codec(8192));
    pipeline.add_back(Stack::Text(StringCodec::new()));
    pipeline.add_back(probe("chat", &log, Some(BodyKind::Text), Mode::Keep));
    pipeline.finalize();
    pipeline.transport_active();
    pipeline.write(Message::text(Instant::from_nanos(5), connection(), "hi\r\n".to_string()));
    let out = pipeline.poll_transmit().expect("the line is in the outbound channel");
    assert_eq!(&out.message[..], b"hi\r\n");
    assert_eq!(out.now, Instant::from_nanos(5));
    assert!(pipeline.poll_transmit().is_none());
    pipeline.read(inbound(b"yo\n"));
    assert_eq!(entries(&log).last().unwrap(), "chat<read text:yo");
}

#[test]
fn udp_echo_answers_the_sender() {
    let log = Log::default();
    let server = TransportContext { local_addr: addr(1, 9000), peer_addr: None, ecn: None };
    let mut pipeline = Pipeline::new(server);
    pipeline.add_back(Stack::Udp(AsyncTransportUdp::new()));
    pipeline.add_back(probe("echo", &log, Some(BodyKind::Bytes), Mode::Echo));
    pipeline.finalize();
    pipeline.transport_active();
    let from = TransportContext { local_addr: addr(1, 9000), peer_addr: Some(addr(7, 1000)), ecn: None };
    pipeline.read(Message::from_tagged(TaggedBytesMut {
        now: Instant::from_nanos(3),
        transport: from,
        message: BytesMut::from(&b"ping"[..]),
    }));
    assert_eq!(entries(&log), vec!["echo<active".to_string(), "echo<read bytes:ping".to_string()]);
    let out = pipeline.poll_transmit().expect("one datagram");
    assert_eq!(&out.message[..], b"ping");
    assert_eq!(out.transport.peer_addr, Some(addr(7, 1000)));
    assert!(pipeline.poll_transmit().is_none());
}

#[test]
fn reads_are_served_one_after_the_other() {
    let log = Log::default();
    let mut pipeline = forwarders(&log, 3);
    pipeline.read(inbound(b"m1"));
    pipeline.read(inbound(b"m2"));
    assert_eq!(
        entries(&log),
        vec![
            "h0<read bytes:m1".to_string(),
            "h1<read bytes:m1".to_string(),
            "h2<read bytes:m1".to_string(),
            "h0<read bytes:m2".to_string(),
            "h1<read bytes:m2".to_string(),
            "h2<read bytes:m2".to_string(),
        ]
    );
}

#[test]
fn a_forwarded_read_visits_every_handler_once() {
    let log = Log::default();
    let mut pipeline = forwarders(&log, 5);
    pipeline.read(inbound(b"m"));
    let seen = entries(&log);
    assert_eq!(seen.len(), 5);
    for i in 0..5 {
        assert_eq!(seen[i], format!("h{}<read bytes:m", i));
    }
    assert!(pipeline.poll_transmit().is_none());
}

#[test]
fn a_write_from_an_inbound_handler_starts_at_the_link_in_front() {
    let log = Log::default();
    let mut pipeline = Pipeline::new(connection());
    pipeline.add_back(probe("h0", &log, None, Mode::Forward));
    pipeline.add_back(probe("h1", &log, None, Mode::Forward));
    pipeline.add_back(probe("h2", &log, None, Mode::Echo));
    pipeline.add_back(probe("h3", &log, None, Mode::Forward));
    pipeline.finalize();
    pipeline.read(inbound(b"m"));
    assert_eq!(
        entries(&log),
        vec![
            "h0<read bytes:m".to_string(),
            "h1<read bytes:m".to_string(),
            "h2<read bytes:m".to_string(),
            "h1>write bytes:m".to_string(),
            "h0>write bytes:m".to_string(),
        ]
    );
    let out = pipeline.poll_transmit().expect("the echo reached the channel");
    assert_eq!(&out.message[..], b"m");
}

#[test]
fn a_write_from_the_pipeline_starts_at_the_last_handler() {
    let log = Log::default();
    let mut pipeline = forwarders(&log, 3);
    pipeline.write(Message::bytes(Instant::from_nanos(0), connection(), BytesMut::from(&b"w"[..])));
    assert_eq!(
        entries(&log),
        vec![
            "h2>write bytes:w".to_string(),
            "h1>write bytes:w".to_string(),
            "h0>write bytes:w".to_string()
        ]
    );
    assert_eq!(&pipeline.poll_transmit().unwrap().message[..], b"w");
}

#[test]
fn add_front_puts_a_handler_before_the_others() {
    let log = Log::default();
    let mut pipeline = Pipeline::new(connection());
    pipeline.add_back(probe("second", &log, None, Mode::Forward));
    pipeline.add_front(probe("first", &log, None, Mode::Forward));
    pipeline.add_back(probe("third", &log, None, Mode::Forward));
    assert_eq!(pipeline.len(), 3);
    assert!(!pipeline.is_finalized());
    pipeline.finalize();
    assert!(pipeline.is_finalized());
    pipeline.read_eof();
    assert_eq!(
        entries(&log),
        vec!["first<eof".to_string(), "second<eof".to_string(), "third<eof".to_string()]
    );
}

#[test]
fn udp_write_without_peer_is_refused_and_the_pipeline_goes_on() {
    let log = Log::default();
    let local = TransportContext { local_addr: addr(1, 9000), peer_addr: None, ecn: None };
    let mut pipeline = Pipeline::new(local);
    pipeline.add_back(probe("head", &log, None, Mode::Forward));
    pipeline.add_back(Stack::Udp(AsyncTransportUdp::new()));
    pipeline.finalize();
    pipeline.write(Message::bytes(Instant::from_nanos(0), local, BytesMut::from(&b"lost"[..])));
    assert_eq!(
        entries(&log),
        vec!["head>exception NotConnected Transport endpoint is not connected".to_string()]
    );
    assert!(pipeline.poll_transmit().is_none());
    assert!(!pipeline.is_closed());
    let to = TransportContext { peer_addr: Some(addr(9, 9)), ..local };
    pipeline.write(Message::bytes(Instant::from_nanos(0), to, BytesMut::from(&b"kept"[..])));
    assert_eq!(&pipeline.poll_transmit().unwrap().message[..], b"kept");
}

#[test]
fn a_message_of_the_wrong_kind_becomes_a_read_exception_at_the_next_link() {
    let log = Log::default();
    let mut pipeline = Pipeline::new(connection());
    pipeline.add_back(probe("bytes-only", &log, Some(BodyKind::Bytes), Mode::Forward));
    pipeline.add_back(probe("after", &log, None, Mode::Forward));
    pipeline.finalize();
    pipeline.read(Message::text(Instant::from_nanos(0), connection(), "oops".to_string()));
    assert_eq!(
        entries(&log),
        vec!["after<exception Other message.downcast_mut error for bytes-only".to_string()]
    );
}

#[test]
fn a_message_of_the_wrong_kind_becomes_a_write_exception_at_the_link_in_front() {
    let log = Log::default();
    let mut pipeline = Pipeline::new(connection());
    pipeline.add_back(probe("front", &log, None, Mode::Forward));
    pipeline.add_back(probe("text-only", &log, Some(BodyKind::Text), Mode::Forward));
    pipeline.finalize();
    pipeline.write(Message::bytes(Instant::from_nanos(0), connection(), BytesMut::from(&b"x"[..])));
    assert_eq!(
        entries(&log),
        vec!["front>exception Other message.downcast_mut error for text-only".to_string()]
    );
    assert!(pipeline.poll_transmit().is_none());
}

#[test]
fn text_that_reaches_the_head_is_dropped() {
    let log = Log::default();
    let mut pipeline = forwarders(&log, 1);
    pipeline.write(Message::text(Instant::from_nanos(0), connection(), "t".to_string()));
    assert_eq!(entries(&log), vec!["h0>write text:t".to_string()]);
    assert!(pipeline.poll_transmit().is_none());
}

#[test]
fn close_is_idempotent_and_later_writes_are_dropped() {
    let log = Log::default();
    let mut pipeline = Pipeline::new(connection());
    pipeline.add_back(Stack::Tcp(AsyncTransportTcp::new()));
    pipeline.finalize();
    pipeline.write(Message::bytes(Instant::from_nanos(0), connection(), BytesMut::from(&b"a"[..])));
    pipeline.close();
    pipeline.close();
    assert!(pipeline.is_closed());
    pipeline.write(Message::bytes(Instant::from_nanos(0), connection(), BytesMut::from(&b"b"[..])));
    assert_eq!(&pipeline.poll_transmit().unwrap().message[..], b"a");
    assert!(pipeline.poll_transmit().is_none());
    assert!(entries(&log).is_empty());
}

#[test]
fn the_outbound_channel_is_first_in_first_out() {
    let log = Log::default();
    let mut pipeline = forwarders(&log, 2);
    for word in [&b"one"[..], &b"two"[..], &b"three"[..]] {
        pipeline.write(Message::bytes(Instant::from_nanos(0), connection(), BytesMut::from(word)));
    }
    assert_eq!(&pipeline.poll_transmit().unwrap().message[..], b"one");
    assert_eq!(&pipeline.poll_transmit().unwrap().message[..], b"two");
    assert_eq!(&pipeline.poll_transmit().unwrap().message[..], b"three");
    assert!(pipeline.poll_transmit().is_none());
}

#[test]
fn an_empty_pipeline_drops_reads_and_takes_writes() {
    let mut pipeline: Pipeline<In, Out> = Pipeline::new(connection());
    pipeline.finalize();
    assert_eq!(pipeline.len(), 0);
    pipeline.transport_active();
    pipeline.read(inbound(b"nobody"));
    pipeline.write(Message::bytes(Instant::from_nanos(0), connection(), BytesMut::from(&b"w"[..])));
    assert_eq!(&pipeline.poll_transmit().unwrap().message[..], b"w");
    pipeline.close();
    assert!(pipeline.is_closed());
}

#[test]
fn every_lifecycle_event_travels_front_to_back() {
    let log = Log::default();
    let mut pipeline = forwarders(&log, 2);
    pipeline.transport_active();
    pipeline.read_exception(Error::new(ErrorKind::Other, "reset".to_string()));
    pipeline.handle_timeout(Instant::from_nanos(42));
    let mut deadline = Instant::from_nanos(99);
    pipeline.poll_timeout(&mut deadline);
    pipeline.transport_inactive();
    assert_eq!(deadline, Instant::from_nanos(99));
    assert_eq!(
        entries(&log),
        vec![
            "h0<active".to_string(),
            "h1<active".to_string(),
            "h0<exception Other reset".to_string(),
            "h1<exception Other reset".to_string(),
            "h0<timeout 42".to_string(),
            "h1<timeout 42".to_string(),
            "h0<poll 99".to_string(),
            "h1<poll 99".to_string(),
            "h0<inactive".to_string(),
            "h1<inactive".to_string(),
        ]
    );
}

#[test]
fn the_codec_decodes_nothing_before_the_transport_is_up() {
    let log = Log::default();
    let mut pipeline = telnet_server(&log, 8192);
    pipeline.read(inbound(b"early\n"));
    assert!(entries(&log).is_empty());
    pipeline.transport_active();
    pipeline.read(inbound(b"late\n"));
    pipeline.transport_inactive();
    pipeline.read(inbound(b"gone\n"));
    assert_eq!(
        entries(&log),
        vec!["app<active".to_string(), "app<read text:late".to_string(), "app<inactive".to_string()]
    );
}

#[test]
fn invalid_utf8_becomes_a_read_exception() {
    let log = Log::default();
    let mut pipeline = telnet_server(&log, 8192);
    pipeline.transport_active();
    pipeline.read(inbound(&[0x66, 0xff, 0x6f, b'\n', 0xc3, 0xa9, b'\n']));
    assert_eq!(
        entries(&log),
        vec![
            "app<active".to_string(),
            "app<exception InvalidData invalid utf-8 sequence".to_string(),
            "app<read text:\u{e9}".to_string(),
        ]
    );
}

#[test]
fn text_is_written_as_its_utf8_bytes() {
    let log = Log::default();
    let mut pipeline = telnet_server(&log, 8192);
    pipeline.write(Message::text(Instant::from_nanos(0), connection(), "caf\u{e9}".to_string()));
    assert_eq!(&pipeline.poll_transmit().unwrap().message[..], &[b'c', b'a', b'f', 0xc3, 0xa9][..]);
}

#[test]
fn adjacent_terminators_give_empty_frames() {
    let log = Log::default();
    let mut pipeline = telnet_server(&log, 8192);
    pipeline.transport_active();
    pipeline.read(inbound(b"a\n\n\r\nb\n"));
    assert_eq!(
        entries(&log),
        vec![
            "app<active".to_string(),
            "app<read text:a".to_string(),
            "app<read text:".to_string(),
            "app<read text:".to_string(),
            "app<read text:b".to_string(),
        ]
    );
}

fn framed(log: &Log, max_length: usize) -> Pipeline<In, Out> {
    let mut pipeline = Pipeline::new(connection());
    pipeline.add_back(line_codec(max_length));
    pipeline.add_back(probe("app", log, Some(BodyKind::Bytes), Mode::Keep));
    pipeline.finalize();
    pipeline.transport_active();
    log.borrow_mut().clear();
    pipeline
}

#[test]
fn a_line_cut_in_two_reads_is_one_frame() {
    let log = Log::default();
    let mut pipeline = framed(&log, 8192);
    pipeline.read(inbound(b"a"));
    assert!(entries(&log).is_empty());
    pipeline.read(inbound(b"\n"));
    assert_eq!(entries(&log), vec!["app<read bytes:a".to_string()]);
}

#[test]
fn bytes_up_to_the_maximum_are_kept_for_the_next_read() {
    let log = Log::default();
    let mut pipeline = framed(&log, 16);
    pipeline.read(inbound(b"aaaaaaaaaaaaaaaa"));
    assert!(entries(&log).is_empty());
    pipeline.read(inbound(b"\n"));
    assert_eq!(entries(&log), vec!["app<read bytes:aaaaaaaaaaaaaaaa".to_string()]);
}

#[test]
fn bytes_kept_count_toward_the_maximum() {
    let log = Log::default();
    let mut pipeline = framed(&log, 16);
    pipeline.read(inbound(b"0123456789"));
    pipeline.read(inbound(b"0123456"));
    assert_eq!(entries(&log), vec!["app<exception FrameTooLong frame too long".to_string()]);
    pipeline.read(inbound(b"x\n"));
    assert_eq!(entries(&log).last().unwrap(), "app<read bytes:x");
    assert_eq!(entries(&log).len(), 2);
}

#[test]
fn a_terminator_cut_in_two_reads_is_one_terminator() {
    let log = Log::default();
    let mut pipeline = framed(&log, 64);
    pipeline.read(inbound(b"one\r"));
    pipeline.read(inbound(b"\ntwo\r\nthr"));
    pipeline.read(inbound(b"ee"));
    pipeline.read(inbound(b"\n"));
    assert_eq!(
        entries(&log),
        vec![
            "app<read bytes:one".to_string(),
            "app<read bytes:two".to_string(),
            "app<read bytes:three".to_string(),
        ]
    );
}

#[test]
fn frames_do_not_depend_on_where_the_stream_is_cut() {
    let stream = b"alpha\r\nbeta\n\ngamma\r\r\ndelta\nrest";
    let expected = vec![
        "app<read bytes:alpha".to_string(),
        "app<read bytes:beta".to_string(),
        "app<read bytes:".to_string(),
        "app<read bytes:gamma\r".to_string(),
        "app<read bytes:delta".to_string(),
    ];
    for size in 1..=stream.len() {
        let log = Log::default();
        let mut pipeline = framed(&log, 64);
        for chunk in stream.chunks(size) {
            pipeline.read(inbound(chunk));
        }
        assert_eq!(entries(&log), expected);
    }
}

#[test]
fn bytes_read_while_the_transport_is_down_are_not_kept() {
    let log = Log::default();
    let mut pipeline = framed(&log, 64);
    pipeline.read(inbound(b"ab"));
    pipeline.transport_inactive();
    pipeline.read(inbound(b"lost"));
    pipeline.transport_active();
    pipeline.read(inbound(b"c\n"));
    assert_eq!(
        entries(&log),
        vec!["app<inactive".to_string(), "app<active".to_string(), "app<read bytes:abc".to_string()]
    );
}
