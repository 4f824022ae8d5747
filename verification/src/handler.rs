//! The per-connection protocol handler.
//!
//! One handler owns one client connection's lifecycle. Each inbound frame is
//! classified and handled in arrival order: a ping is answered with a pong
//! carrying the same payload, text and unrecognized frames are ignored, a
//! binary frame is decompressed and its decoded bytes are appended to the
//! connection's destination, and a close (or a transport failure, which the
//! caller reports as a close) ends the connection. A frame that fails to
//! decode is skipped and the connection stays open: a malformed chunk must
//! not cost the remainder of the stream.
//!
//! The handler is a state machine. The spec function [`step`] gives the whole
//! transition relation — next handler state and the action the caller must
//! perform — and [`Connection::handle_frame`] refines it. The caller runs the
//! transport: it builds a [`Frame`] from each inbound message, performs the
//! returned [`Action`] (send the pong, write and flush the decoded bytes,
//! release the destination handle), and reports write or flush failures only
//! by logging them, so they never end the connection either.

use vstd::prelude::*;

use crate::decoder::{decode, lz4_decoded};
use crate::sink::{sink_contents, sink_flush, sink_write, SinkDest, SinkDestView, SinkState};

verus! {

/// One logical unit received from the transport, alive for one handling step.
pub enum Frame {
    /// A ping control frame with its payload.
    Ping(Vec<u8>),
    /// A text frame; its content is ignored.
    Text(String),
    /// A data frame carrying one LZ4-compressed chunk.
    Binary(Vec<u8>),
    /// The client closed the connection, or the transport failed.
    Close,
    /// An unrecognized frame.
    Other,
}

/// Mathematical view of a frame: payloads as sequences.
pub enum FrameView {
    Ping(Seq<u8>),
    Text(Seq<char>),
    Binary(Seq<u8>),
    Close,
    Other,
}

impl View for Frame {
    type V = FrameView;

    open spec fn view(&self) -> FrameView {
        match self {
            Frame::Ping(p) => FrameView::Ping(p@),
            Frame::Text(t) => FrameView::Text(t@),
            Frame::Binary(p) => FrameView::Binary(p@),
            Frame::Close => FrameView::Close,
            Frame::Other => FrameView::Other,
        }
    }
}

/// What the caller must do with the connection's transport and destination
/// after one handling step.
pub enum Action {
    /// Reply with exactly one pong carrying the given payload.
    Pong(Vec<u8>),
    /// Append the given decoded bytes to the connection's destination, then
    /// flush it; a failure of either is logged and the connection continues.
    Write(Vec<u8>),
    /// Nothing to do (the frame was ignored or its decode failed).
    Ignore,
    /// Release the destination handle and stop reading frames.
    Shutdown,
}

/// Mathematical view of an action.
pub enum ActionView {
    Pong(Seq<u8>),
    Write(Seq<u8>),
    Ignore,
    Shutdown,
}

impl View for Action {
    type V = ActionView;

    open spec fn view(&self) -> ActionView {
        match self {
            Action::Pong(p) => ActionView::Pong(p@),
            Action::Write(d) => ActionView::Write(d@),
            Action::Ignore => ActionView::Ignore,
            Action::Shutdown => ActionView::Shutdown,
        }
    }
}

/// Lifecycle of a connection: open and handling frames, closing while its
/// destination handle is released, closed for good.
#[derive(Clone, Copy, PartialEq, Eq, Structural)]
pub enum ConnState {
    Open,
    Closing,
    Closed,
}

/// One upgraded streaming session: its lifecycle state and the destination
/// chosen for it when it was accepted.
pub struct Connection {
    state: ConnState,
    dest: SinkDest,
}

/// Mathematical view of a connection.
pub struct ConnectionView {
    pub state: ConnState,
    pub dest: SinkDestView,
}

impl View for Connection {
    type V = ConnectionView;

    closed spec fn view(&self) -> ConnectionView {
        ConnectionView { state: self.state, dest: self.dest@ }
    }
}

/// The handler's transition relation: for an open connection and one inbound
/// frame, the connection afterwards and the action the caller must perform.
///
/// A ping is answered and changes nothing else; text and unrecognized frames
/// are ignored; a binary frame whose payload decodes is delivered and one
/// whose payload does not is skipped, the connection staying open either way;
/// a close moves the connection to `Closing` and releases its destination.
/// The destination never changes: a connection's sink choice is fixed for its
/// whole lifetime.
pub open spec fn step(c: ConnectionView, f: FrameView) -> (ConnectionView, ActionView) {
    match f {
        FrameView::Ping(p) => (c, ActionView::Pong(p)),
        FrameView::Text(_) => (c, ActionView::Ignore),
        FrameView::Binary(p) => match lz4_decoded(p) {
            Some(d) => (c, ActionView::Write(d)),
            None => (c, ActionView::Ignore),
        },
        FrameView::Close => (
            ConnectionView { state: ConnState::Closing, dest: c.dest },
            ActionView::Shutdown,
        ),
        FrameView::Other => (c, ActionView::Ignore),
    }
}

/// What one action does to a destination: a write appends the decoded bytes
/// and is followed by a flush; every other action leaves the destination
/// alone.
pub open spec fn deliver(s: SinkState, a: ActionView) -> SinkState {
    match a {
        ActionView::Write(d) => sink_flush(sink_write(s, d)),
        _ => s,
    }
}

impl Connection {
    /// Accepts a connection bound to the given destination: it starts open,
    /// and keeps that destination for its whole lifetime.
    pub fn new(dest: SinkDest) -> (c: Connection)
        ensures
            c@.state is Open,
            c@.dest == dest@,
    {
        Connection { state: ConnState::Open, dest }
    }

    /// Whether the connection is still open and accepting frames.
    pub fn is_open(&self) -> (b: bool)
        ensures
            b == (self@.state is Open),
    {
        matches!(self.state, ConnState::Open)
    }

    /// Whether the connection has closed for good.
    pub fn is_closed(&self) -> (b: bool)
        ensures
            b == (self@.state is Closed),
    {
        matches!(self.state, ConnState::Closed)
    }

    /// The destination this connection writes to.
    pub fn dest(&self) -> (d: &SinkDest)
        ensures
            d@ == self@.dest,
    {
        &self.dest
    }

    /// Handles one inbound frame on an open connection, exactly as [`step`]
    /// says: the returned action is what the caller must perform, and the
    /// connection afterwards is the stepped one.
    pub fn handle_frame(&mut self, frame: Frame) -> (a: Action)
        requires
            old(self)@.state is Open,
        ensures
            (final(self)@, a@) == step(old(self)@, frame@),
    {
        match frame {
            Frame::Ping(p) => Action::Pong(p),
            Frame::Text(_) => Action::Ignore,
            Frame::Binary(p) => match decode(&p) {
                Ok(d) => Action::Write(d),
                Err(_) => Action::Ignore,
            },
            Frame::Close => {
                self.state = ConnState::Closing;
                Action::Shutdown
            },
            Frame::Other => Action::Ignore,
        }
    }

    /// Records that performing a write action failed (disk full, broken
    /// pipe): the failure is surfaced by the caller's log alone. It changes
    /// nothing — the frame's effect is skipped and the connection keeps
    /// processing subsequent frames, so a transiently unwritable chunk never
    /// costs the remainder of the stream.
    pub fn write_failed(&mut self)
        ensures
            final(self)@ == old(self)@,
    {
    }

    /// Records that the caller has released the destination handle of a
    /// closing connection; the connection is then closed for good.
    pub fn released(&mut self)
        requires
            old(self)@.state is Closing,
        ensures
            final(self)@.state is Closed,
            final(self)@.dest == old(self)@.dest,
    {
        self.state = ConnState::Closed;
    }
}

/// A connection's destination is fixed when it is accepted: no frame moves it
/// elsewhere.
pub proof fn lemma_dest_fixed(c: ConnectionView, f: FrameView)
    ensures
        step(c, f).0.dest == c.dest,
{
}

/// Ordering: two binary frames handled in order on one open connection leave
/// the destination holding the first frame's decoded bytes immediately
/// followed by the second's, after everything it already held — no reordering
/// and no interleaving within one connection. The connection stays open.
pub proof fn lemma_binary_ordering(c: ConnectionView, s: SinkState, p1: Seq<u8>, p2: Seq<u8>)
    requires
        c.state is Open,
        lz4_decoded(p1) is Some,
        lz4_decoded(p2) is Some,
    ensures
        ({
            let (c1, a1) = step(c, FrameView::Binary(p1));
            let (c2, a2) = step(c1, FrameView::Binary(p2));
            &&& c2 == c
            &&& sink_contents(deliver(deliver(s, a1), a2)) == sink_contents(s) + lz4_decoded(
                p1,
            )->0 + lz4_decoded(p2)->0
        }),
{
    let (c1, a1) = step(c, FrameView::Binary(p1));
    let (c2, a2) = step(c1, FrameView::Binary(p2));
    assert(sink_contents(deliver(deliver(s, a1), a2)) =~= sink_contents(s) + lz4_decoded(p1)->0
        + lz4_decoded(p2)->0);
}

/// Decode-failure isolation: a corrupted binary frame followed by a valid one
/// leaves only the valid frame's decoded bytes in the destination — the bad
/// frame writes nothing, changes nothing, and the connection stays open.
pub proof fn lemma_decode_failure_isolation(
    c: ConnectionView,
    s: SinkState,
    bad: Seq<u8>,
    good: Seq<u8>,
)
    requires
        c.state is Open,
        lz4_decoded(bad) is None,
        lz4_decoded(good) is Some,
    ensures
        ({
            let (c1, a1) = step(c, FrameView::Binary(bad));
            let (c2, a2) = step(c1, FrameView::Binary(good));
            &&& a1 == ActionView::Ignore
            &&& c1 == c
            &&& c2.state is Open
            &&& sink_contents(deliver(deliver(s, a1), a2)) == sink_contents(s) + lz4_decoded(
                good,
            )->0
        }),
{
    let (c1, a1) = step(c, FrameView::Binary(bad));
    let (c2, a2) = step(c1, FrameView::Binary(good));
    assert(sink_contents(deliver(deliver(s, a1), a2)) =~= sink_contents(s) + lz4_decoded(good)->0);
}

/// Append isolation: two open connections bound to the same file destination,
/// each delivering one decodable chunk, leave the destination holding both
/// decoded chunks in full — each contiguous, neither truncated nor
/// byte-interleaved — in whichever order the two write calls land.
pub proof fn lemma_append_isolation(
    c1: ConnectionView,
    c2: ConnectionView,
    s: SinkState,
    p1: Seq<u8>,
    p2: Seq<u8>,
)
    requires
        c1.state is Open,
        c2.state is Open,
        c1.dest == c2.dest,
        c1.dest is AppendFile,
        lz4_decoded(p1) is Some,
        lz4_decoded(p2) is Some,
    ensures
        ({
            let a1 = step(c1, FrameView::Binary(p1)).1;
            let a2 = step(c2, FrameView::Binary(p2)).1;
            &&& sink_contents(deliver(deliver(s, a1), a2)) == sink_contents(s) + lz4_decoded(
                p1,
            )->0 + lz4_decoded(p2)->0
            &&& sink_contents(deliver(deliver(s, a2), a1)) == sink_contents(s) + lz4_decoded(
                p2,
            )->0 + lz4_decoded(p1)->0
        }),
{
    let a1 = step(c1, FrameView::Binary(p1)).1;
    let a2 = step(c2, FrameView::Binary(p2)).1;
    assert(sink_contents(deliver(deliver(s, a1), a2)) =~= sink_contents(s) + lz4_decoded(p1)->0
        + lz4_decoded(p2)->0);
    assert(sink_contents(deliver(deliver(s, a2), a1)) =~= sink_contents(s) + lz4_decoded(p2)->0
        + lz4_decoded(p1)->0);
}

/// Control frames: a ping elicits exactly one pong carrying the same payload,
/// changes no connection state, and writes nothing to the destination.
pub proof fn lemma_ping_pong(c: ConnectionView, s: SinkState, p: Seq<u8>)
    requires
        c.state is Open,
    ensures
        step(c, FrameView::Ping(p)) == (c, ActionView::Pong(p)),
        sink_contents(deliver(s, ActionView::Pong(p))) == sink_contents(s),
{
}

/// Control frames: a close ends the connection — it moves to `Closing`, the
/// caller is told to release the destination handle, and nothing is written.
/// No further frame is handled afterwards, since [`Connection::handle_frame`]
/// only accepts an open connection.
pub proof fn lemma_close_releases(c: ConnectionView, s: SinkState)
    requires
        c.state is Open,
    ensures
        ({
            let (c1, a) = step(c, FrameView::Close);
            &&& a == ActionView::Shutdown
            &&& c1.state is Closing
            &&& c1.dest == c.dest
            &&& sink_contents(deliver(s, a)) == sink_contents(s)
        }),
{
}

impl Default for Connection {
    /// A connection bound to standard output, the default destination.
    fn default() -> (c: Connection)
        ensures
            c@.state is Open,
            c@.dest is StandardOutput,
    {
        Connection { state: ConnState::Open, dest: SinkDest::StandardOutput }
    }
}

} // verus!
