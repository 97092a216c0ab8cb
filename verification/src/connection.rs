//! The session: one bound peer at most, and the rules that admit it.
//!
//! A `Connection` decides; it performs no input or output. Its driver makes
//! each accept, read and write that the connection asks for and hands the
//! outcome back.

use stopwatch::Stopwatch;
use vstd::prelude::*;
use vstd::string::*;
use vstd::utf8::*;

use crate::frame::decode;
use crate::frame::encode;
use crate::frame::frame_of;
use crate::frame::lemma_round_trip;
use crate::frame::text_of;
use crate::frame::zero_free;
use crate::report::describe;
use crate::report::sent_report;

pub mod peer;

pub use self::peer::Peer;
pub use self::peer::PeerView;

verus! {

/// The longest a bounded wait for a peer goes on polling, in milliseconds.
pub const AWAIT_BOUND_MS: i64 = 100;

/// What `receive_message` returns where no peer is bound.
pub const EMPTY: &'static str = "Empty";

/// What `receive_message` returns where the peer has sent nothing yet.
pub const BLOCKED: &'static str = "Blocked";

/// What `receive_message` returns where the peer is gone.
pub const DISCONNECTED: &'static str = "Disconnected";

/// The message that tells the peer that its message has arrived.
pub const RECEIVED_NOTICE: &'static str = "Message Received.";

/// What one non-blocking read of a whole frame from the peer's stream gave.
pub enum ReadOutcome {
    /// All the bytes of a frame.
    Frame(Vec<u8>),
    /// No data was there to read; nothing is wrong.
    WouldBlock,
    /// Any other failure: the remote end closed or reset the stream.
    Failed,
}

/// What the driver does next while a session waits for a peer.
#[derive(Clone, Copy, Debug, PartialEq, Eq, Structural)]
pub enum AwaitStep {
    /// A peer was admitted; the wait is over.
    Bound,
    /// Nothing was pending: try one more accept and report its outcome.
    Poll,
    /// Nothing was pending and the time is up; the wait is over.
    TimedOut,
}

/// The view of a peer that may be there.
pub open spec fn peer_view<S>(peer: Option<Peer<S>>) -> Option<PeerView<S>> {
    match peer {
        Some(p) => Some(p@),
        None => None,
    }
}

/// What a bounded wait does next, `elapsed_ms` after it began, once the last
/// accept has or has not brought a peer: a peer ends the wait, however late;
/// without one the wait polls again until `AWAIT_BOUND_MS` have passed.
pub open spec fn await_verdict(elapsed_ms: i64, came: bool) -> AwaitStep {
    if came {
        AwaitStep::Bound
    } else if elapsed_ms < AWAIT_BOUND_MS {
        AwaitStep::Poll
    } else {
        AwaitStep::TimedOut
    }
}

/// What a send hands to the driver.
pub struct Outgoing {
    /// What the caller is told: which bytes went out, or `EMPTY`.
    pub report: String,
    /// The frame to write in full to the peer's stream; `None` where no peer
    /// is bound and nothing is to be written. A write that fails is fatal.
    pub frame: Option<Vec<u8>>,
    /// A clock started when the frame was ready, to time the peer's answer.
    pub sent_time: Stopwatch,
}

/// The state of a session's one place for a peer.
#[derive(Clone, Copy, Debug, PartialEq, Eq, Structural)]
pub enum Occupancy {
    /// The session dialled out: its peer is bound for good.
    NotApplicable,
    /// The session listens and no peer is bound.
    Empty,
    /// The session listens and a peer is bound.
    Occupied,
}

/// The occupancy that a `taken` flag stands for.
pub open spec fn occupancy_of(taken: Option<bool>) -> Occupancy {
    match taken {
        None => Occupancy::NotApplicable,
        Some(false) => Occupancy::Empty,
        Some(true) => Occupancy::Occupied,
    }
}

/// What a connection is, as contracts speak of it.
pub struct ConnectionView<S> {
    /// The exact length of every frame sent and received.
    pub frame_size: nat,
    /// Whether the place for a peer is open, filled, or not in question.
    pub occupancy: Occupancy,
    /// The bound peer, if any.
    pub peer: Option<PeerView<S>>,
}

impl<S> ConnectionView<S> {
    /// A peer is bound exactly where the occupancy says so: a listening
    /// session has one when it is occupied, a dialling session always.
    pub open spec fn wf(self) -> bool {
        self.peer is Some <==> self.occupancy != Occupancy::Empty
    }

    /// The session with `peer` admitted.
    pub open spec fn bind(self, peer: PeerView<S>) -> ConnectionView<S> {
        ConnectionView { occupancy: Occupancy::Occupied, peer: Some(peer), ..self }
    }

    /// The session after its peer is gone.
    pub open spec fn vacate(self) -> ConnectionView<S> {
        ConnectionView { occupancy: Occupancy::Empty, peer: None, ..self }
    }

    /// The session after the outcome of one accept while it waits for a peer.
    pub open spec fn after_accept(self, accepted: Option<PeerView<S>>) -> ConnectionView<S> {
        match accepted {
            Some(c) => self.bind(c),
            None => self,
        }
    }

    /// The session after one receive, and the text that the receive gives.
    /// Without a peer nothing was read and `outcome` does not count. There is
    /// no text where a frame came whose payload is not well-formed UTF-8.
    pub open spec fn receive(self, outcome: ReadOutcome) -> (ConnectionView<S>, Option<Seq<char>>) {
        if self.peer is None {
            (self, Some(EMPTY@))
        } else {
            match outcome {
                ReadOutcome::Frame(frame) => (self, text_of(frame@)),
                ReadOutcome::WouldBlock => (self, Some(BLOCKED@)),
                ReadOutcome::Failed => (self.vacate(), Some(DISCONNECTED@)),
            }
        }
    }

    /// The frame that a send of `msg` puts on the wire: none without a peer.
    pub open spec fn outgoing(self, msg: Seq<char>) -> Option<Seq<u8>> {
        if self.peer is Some {
            Some(frame_of(encode_utf8(msg), self.frame_size))
        } else {
            None
        }
    }

    /// What a send of `msg` tells the caller: the report of the frame, or
    /// `EMPTY` without a peer.
    pub open spec fn send_report(self, msg: Seq<char>) -> Seq<char> {
        match self.outgoing(msg) {
            Some(frame) => sent_report(frame),
            None => EMPTY@,
        }
    }

    /// A second value for the same session, its peer reached through
    /// `stream`. There is none where a handle is given and no peer is bound,
    /// or a peer is bound and no handle is given.
    pub open spec fn twin(self, stream: Option<S>) -> Option<ConnectionView<S>> {
        match (self.peer, stream) {
            (Some(p), Some(s)) => Some(
                ConnectionView { peer: Some(PeerView { handle: s, identity: p.identity }), ..self },
            ),
            (None, None) => Some(self),
            _ => None,
        }
    }

    /// Whether a further inbound connection is to be accepted and dropped.
    pub open spec fn turns_away(self) -> bool {
        self.occupancy == Occupancy::Occupied
    }

    /// The session after `n` receives in a row that found nothing to read.
    pub open spec fn after_blocked(self, n: nat) -> ConnectionView<S>
        decreases n,
    {
        if n == 0 {
            self
        } else {
            self.receive(ReadOutcome::WouldBlock).0.after_blocked((n - 1) as nat)
        }
    }
}

/// A session over one stream of type `S`.
pub struct Connection<S> {
    msg_size: usize,
    taken: Option<bool>,
    peer: Option<Peer<S>>,
}

impl<S> View for Connection<S> {
    type V = ConnectionView<S>;

    closed spec fn view(&self) -> ConnectionView<S> {
        ConnectionView {
            frame_size: self.msg_size as nat,
            occupancy: occupancy_of(self.taken),
            peer: peer_view(self.peer),
        }
    }
}

impl<S> Connection<S> {
    /// The bound peer, if any.
    pub fn get_peer(&self) -> (peer: Option<&Peer<S>>)
        ensures
            match peer {
                Some(p) => self@.peer == Some(p@),
                None => self@.peer is None,
            },
    {
        self.peer.as_ref()
    }

    /// The length of every frame of this session.
    pub fn msg_size(&self) -> (size: usize)
        ensures
            size == self@.frame_size,
    {
        self.msg_size
    }

    /// The flag of this session: `None` where it dialled out, else whether a
    /// peer is bound.
    pub fn taken(&self) -> (taken: Option<bool>)
        ensures
            occupancy_of(taken) == self@.occupancy,
    {
        self.taken
    }

    /// The occupancy of this session.
    pub fn occupancy(&self) -> (occupancy: Occupancy)
        ensures
            occupancy == self@.occupancy,
    {
        match self.taken {
            None => Occupancy::NotApplicable,
            Some(false) => Occupancy::Empty,
            Some(true) => Occupancy::Occupied,
        }
    }

    /// A session with the given frame length and flag, and no peer. It is
    /// well-formed only as a listening session with its place open.
    pub fn new_connection(msg_size: usize, taken: Option<bool>) -> (con: Connection<S>)
        ensures
            con@ == (ConnectionView::<S> {
                frame_size: msg_size as nat,
                occupancy: occupancy_of(taken),
                peer: None,
            }),
            con@.wf() <==> taken == Some(false),
    {
        Connection { msg_size, taken, peer: None }
    }

    /// A listening session that waits for its peer.
    pub fn new_server_connection(msg_size: usize) -> (con: Connection<S>)
        ensures
            con@ == (ConnectionView::<S> {
                frame_size: msg_size as nat,
                occupancy: Occupancy::Empty,
                peer: None,
            }),
            con@.wf(),
    {
        Connection { msg_size, taken: Some(false), peer: None }
    }

    /// A session that dialled out over `stream`; its peer is shown as
    /// "Server".
    pub fn new_client_connection(msg_size: usize, stream: S) -> (con: Connection<S>)
        ensures
            con@ == (ConnectionView::<S> {
                frame_size: msg_size as nat,
                occupancy: Occupancy::NotApplicable,
                peer: Some(PeerView { handle: stream, identity: "Server"@ }),
            }),
            con@.wf(),
    {
        Connection {
            msg_size,
            taken: None,
            peer: Some(Peer::new(stream, String::from_str("Server"))),
        }
    }

    /// One step of the wait without bound. `accepted` is the outcome of the
    /// accept made last, `None` before the first. A peer that came is bound
    /// and the wait is over; else the driver is to accept once more.
    pub fn await_client(&mut self, accepted: Option<Peer<S>>) -> (step: AwaitStep)
        ensures
            final(self)@ == old(self)@.after_accept(peer_view(accepted)),
            step == if accepted is Some {
                AwaitStep::Bound
            } else {
                AwaitStep::Poll
            },
    {
        match accepted {
            Some(c) => {
                self.peer = Some(c);
                self.taken = Some(true);
                AwaitStep::Bound
            },
            None => AwaitStep::Poll,
        }
    }

    /// One step of the bounded wait, for a reading of `elapsed_ms` on the
    /// clock that was started with the wait. `accepted` is the outcome of the
    /// accept made last, `None` before the first. A peer that came is bound,
    /// however late. With none, the driver is to accept once more while less
    /// than `AWAIT_BOUND_MS` have passed; after that the wait ends with the
    /// session as it was.
    pub fn await_step(&mut self, elapsed_ms: i64, accepted: Option<Peer<S>>) -> (step: AwaitStep)
        ensures
            final(self)@ == old(self)@.after_accept(peer_view(accepted)),
            step == await_verdict(elapsed_ms, accepted is Some),
    {
        match accepted {
            Some(c) => {
                self.peer = Some(c);
                self.taken = Some(true);
                AwaitStep::Bound
            },
            None => {
                if elapsed_ms < AWAIT_BOUND_MS {
                    AwaitStep::Poll
                } else {
                    AwaitStep::TimedOut
                }
            },
        }
    }

    /// Whether the session listens with its place open, so that the driver is
    /// to wait for a client now.
    pub fn awaits_client(&self) -> (yes: bool)
        ensures
            yes == (self@.occupancy == Occupancy::Empty),
    {
        match self.taken {
            Some(t) => !t,
            None => false,
        }
    }

    /// Whether the driver is to make one accept on the listener now and hand
    /// its outcome to `reject_other_clients`: only an occupied session turns
    /// suitors away.
    pub fn must_reject(&self) -> (yes: bool)
        ensures
            yes == self@.turns_away(),
    {
        match self.taken {
            Some(t) => t,
            None => false,
        }
    }

    /// Refuses a further client. `suitor` is the outcome of the accept that
    /// `must_reject` asked for, `None` where it asked for none or nothing was
    /// pending. Returns whether the session is occupied and, where it is, the
    /// suitor: the caller drops it, which closes that connection. The session
    /// and its peer stay as they are.
    pub fn reject_other_clients(&self, suitor: Option<Peer<S>>) -> (verdict: (
        bool,
        Option<Peer<S>>,
    ))
        ensures
            verdict.0 == self@.turns_away(),
            verdict.1 == if self@.turns_away() {
                suitor
            } else {
                None
            },
    {
        match self.taken {
            Some(t) => {
                if t {
                    (true, suitor)
                } else {
                    (false, None)
                }
            },
            None => (false, None),
        }
    }

    /// The read that `receive_message` is to be told the outcome of: the
    /// stream to read from and the number of bytes of one frame. Without a
    /// peer there is nothing to read.
    pub fn read_request(&self) -> (request: Option<(&S, usize)>)
        ensures
            match self@.peer {
                Some(p) => request matches Some((stream, size)) && *stream == p.handle && size
                    == self@.frame_size,
                None => request is None,
            },
    {
        match &self.peer {
            Some(p) => Some((p.stream(), self.msg_size)),
            None => None,
        }
    }

    /// Takes in what the peer sent. `outcome` is that of the read which
    /// `read_request` asked for; without a bound peer it does not count. The
    /// text of a frame is returned as it is, `BLOCKED` where nothing has come
    /// yet, and `DISCONNECTED` where the read failed: the peer is then dropped
    /// and the place for it is open again. Without a peer the answer is
    /// `EMPTY`.
    ///
    /// A frame whose payload is not well-formed UTF-8 is not taken here: see
    /// `try_receive_message`.
    pub fn receive_message(&mut self, outcome: ReadOutcome) -> (text: String)
        requires
            old(self)@.receive(outcome).1 is Some,
        ensures
            final(self)@ == old(self)@.receive(outcome).0,
            Some(text@) == old(self)@.receive(outcome).1,
    {
        if self.peer.is_none() {
            return String::from_str(EMPTY);
        }
        match outcome {
            ReadOutcome::Frame(frame) => {
                let text = decode(frame.as_slice());
                text.unwrap()
            },
            ReadOutcome::WouldBlock => String::from_str(BLOCKED),
            ReadOutcome::Failed => {
                self.taken = Some(false);
                self.peer = None;
                String::from_str(DISCONNECTED)
            },
        }
    }

    /// As `receive_message`, for any frame: where the payload of the frame
    /// that came is not well-formed UTF-8 there is no text, and the session
    /// stays as it was.
    pub fn try_receive_message(&mut self, outcome: ReadOutcome) -> (text: Option<String>)
        ensures
            final(self)@ == old(self)@.receive(outcome).0,
            match text {
                Some(t) => Some(t@) == old(self)@.receive(outcome).1,
                None => old(self)@.receive(outcome).1 is None,
            },
    {
        let readable = match &outcome {
            ReadOutcome::Frame(frame) => self.peer.is_none() || decode(frame.as_slice()).is_some(),
            _ => true,
        };
        if readable {
            Some(self.receive_message(outcome))
        } else {
            None
        }
    }

    /// Prepares `msg` for the peer: its frame of exactly `msg_size` bytes, cut
    /// or zero-padded, with the report of it and a clock started just before
    /// the frame is handed out. Without a peer there is no frame and the
    /// report is `EMPTY`. The session stays as it is.
    pub fn send_message(&self, msg: String) -> (out: Outgoing)
        ensures
            match out.frame {
                Some(frame) => self@.outgoing(msg@) == Some(frame@),
                None => self@.outgoing(msg@) is None,
            },
            out.report@ == self@.send_report(msg@),
    {
        match &self.peer {
            Some(_) => {
                let frame = encode(msg.as_str(), self.msg_size);
                let report = describe(frame.as_slice());
                let sent_time = Stopwatch::start_new();
                Outgoing { report, frame: Some(frame), sent_time }
            },
            None => Outgoing {
                report: String::from_str(EMPTY),
                frame: None,
                sent_time: Stopwatch::start_new(),
            },
        }
    }

    /// Prepares the notice that tells the peer that its message has arrived.
    pub fn notify_message_received(&self) -> (out: Outgoing)
        ensures
            match out.frame {
                Some(frame) => self@.outgoing(RECEIVED_NOTICE@) == Some(frame@),
                None => self@.outgoing(RECEIVED_NOTICE@) is None,
            },
            out.report@ == self@.send_report(RECEIVED_NOTICE@),
    {
        self.send_message(String::from_str(RECEIVED_NOTICE))
    }

    /// A second value for the same session. `stream` is a second handle to the
    /// peer's connection where a peer is bound, which the driver has obtained
    /// from the operating system, and `None` where none is bound. Frame
    /// length, occupancy and the peer's name are those of `self`.
    pub fn duplicate(&self, stream: Option<S>) -> (twin: Option<Connection<S>>)
        ensures
            match twin {
                Some(c) => self@.twin(stream) == Some(c@),
                None => self@.twin(stream) is None,
            },
    {
        match (&self.peer, stream) {
            (Some(p), Some(s)) => Some(
                Connection { msg_size: self.msg_size, taken: self.taken, peer: Some(p.duplicate(s)) },
            ),
            (None, None) => Some(Connection { msg_size: self.msg_size, taken: self.taken, peer: None }),
            _ => None,
        }
    }

    /// The clock for a bounded wait that begins now.
    pub fn start_wait() -> (clock: Stopwatch) {
        Stopwatch::start_new()
    }

    /// One step of the bounded wait that began when `clock` was started: reads
    /// the clock and decides as `await_step` does for that reading. Whatever
    /// the clock reads, a peer that came is bound, and without one the session
    /// stays as it was.
    pub fn await_client_timeout(&mut self, clock: &Stopwatch, accepted: Option<Peer<S>>) -> (step:
        AwaitStep)
        ensures
            final(self)@ == old(self)@.after_accept(peer_view(accepted)),
            step == AwaitStep::Bound <==> accepted is Some,
    {
        let elapsed_ms = clock.elapsed_ms();
        self.await_step(elapsed_ms, accepted)
    }
}

impl<S> ConnectionView<S> {
    /// Every step keeps a well-formed session well-formed: an accept, with or
    /// without a peer, a receive with any outcome, and a duplication.
    pub proof fn lemma_steps_keep_wf(
        self,
        accepted: Option<PeerView<S>>,
        outcome: ReadOutcome,
        stream: Option<S>,
    )
        requires
            self.wf(),
        ensures
            self.after_accept(accepted).wf(),
            self.receive(outcome).0.wf(),
            self.twin(stream) matches Some(t) ==> t.wf(),
    {
    }

    /// An accept that brought a peer leaves the session occupied by that
    /// peer and well-formed, whatever it was before.
    pub proof fn lemma_bind_occupies(self, peer: PeerView<S>)
        ensures
            self.bind(peer).wf(),
            self.bind(peer).occupancy == Occupancy::Occupied,
            self.bind(peer).peer == Some(peer),
            self.bind(peer).frame_size == self.frame_size,
    {
    }

    /// Without a bound peer a send prepares no frame and a receive takes in
    /// nothing: both answer `EMPTY`, whatever the message and whatever the
    /// driver reports, and the session stays as it is.
    pub proof fn lemma_empty_peer_guard(self, msg: Seq<char>, outcome: ReadOutcome)
        requires
            self.peer is None,
        ensures
            self.outgoing(msg) is None,
            self.send_report(msg) == EMPTY@,
            self.receive(outcome) == (self, Some(EMPTY@)),
    {
    }

    /// While the peer sends nothing, each receive answers `BLOCKED` and the
    /// session is the same after any number of them.
    pub proof fn lemma_blocked_is_stable(self, n: nat)
        requires
            self.peer is Some,
        ensures
            self.receive(ReadOutcome::WouldBlock) == (self, Some(BLOCKED@)),
            self.after_blocked(n) == self,
        decreases n,
    {
        if n > 0 {
            self.lemma_blocked_is_stable((n - 1) as nat);
        }
    }

    /// What one end sends the other end receives: where two sessions agree
    /// on the frame length and each has its peer, a message whose UTF-8 form
    /// is shorter than a frame and holds no zero byte comes out of the
    /// receiver as it went into the sender, and the receiver stays as it is.
    pub proof fn lemma_message_arrives(
        self,
        receiver: ConnectionView<S>,
        msg: Seq<char>,
        frame: Vec<u8>,
    )
        requires
            self.peer is Some,
            receiver.peer is Some,
            receiver.frame_size == self.frame_size,
            encode_utf8(msg).len() < self.frame_size,
            zero_free(encode_utf8(msg)),
            self.outgoing(msg) == Some(frame@),
        ensures
            receiver.receive(ReadOutcome::Frame(frame)) == (receiver, Some(msg)),
    {
        lemma_round_trip(msg, self.frame_size);
    }

    /// Once the read from the peer fails, the receive answers `DISCONNECTED`
    /// and leaves the session without a peer, its place empty; every send
    /// and receive after that answers `EMPTY` and changes nothing.
    pub proof fn lemma_disconnect(self, msg: Seq<char>, outcome: ReadOutcome)
        requires
            self.peer is Some,
        ensures
            self.receive(ReadOutcome::Failed) == (self.vacate(), Some(DISCONNECTED@)),
            self.vacate().occupancy == Occupancy::Empty,
            self.vacate().peer is None,
            self.vacate().frame_size == self.frame_size,
            self.vacate().wf(),
            self.vacate().outgoing(msg) is None,
            self.vacate().send_report(msg) == EMPTY@,
            self.vacate().receive(outcome) == (self.vacate(), Some(EMPTY@)),
    {
    }
}

/// What a listening program prints where its arguments are not an address
/// and a port.
pub const SERVER_USAGE: &'static str = "Error: Usage ./r2wc-server [addr] [port]";

/// What a dialling program prints where its arguments are not a host and a
/// port.
pub const CLIENT_USAGE: &'static str = "Error: Usage ./r2wc-client [host] [port]";

/// A host and a port as one socket address: `host:port`.
pub open spec fn endpoint(host: Seq<char>, port: Seq<char>) -> Seq<char> {
    host + seq![':'] + port
}

/// Joins a host and a port into a socket address.
fn join_endpoint(host: &String, port: &String) -> (addr: String)
    ensures
        addr@ == endpoint(host@, port@),
{
    let mut addr = host.clone();
    proof {
        reveal_strlit(":");
    }
    addr.append(":");
    addr.append(port.as_str());
    assert(addr@ =~= endpoint(host@, port@));
    addr
}

/// The address to listen on, from the arguments of a listening program, its
/// own name first. With any other number of arguments than an address and a
/// port the answer is the usage line to print before giving up.
pub fn set_port(args: &Vec<String>) -> (addr: Result<String, String>)
    ensures
        match addr {
            Ok(a) => args.len() == 3 && a@ == endpoint(args[1]@, args[2]@),
            Err(usage) => args.len() != 3 && usage@ == SERVER_USAGE@,
        },
{
    if args.len() != 3 {
        return Err(String::from_str(SERVER_USAGE));
    }
    Ok(join_endpoint(&args[1], &args[2]))
}

/// The address to dial, from the arguments of a dialling program, its own
/// name first. With any other number of arguments than a host and a port the
/// answer is the usage line to print before giving up.
pub fn set_server_port(args: &Vec<String>) -> (addr: Result<String, String>)
    ensures
        match addr {
            Ok(a) => args.len() == 3 && a@ == endpoint(args[1]@, args[2]@),
            Err(usage) => args.len() != 3 && usage@ == CLIENT_USAGE@,
        },
{
    if args.len() != 3 {
        return Err(String::from_str(CLIENT_USAGE));
    }
    Ok(join_endpoint(&args[1], &args[2]))
}

} // verus!
