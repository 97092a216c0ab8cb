//! The remote end of a session.

use vstd::prelude::*;

verus! {

/// What a peer is, as contracts speak of it.
pub struct PeerView<S> {
    /// The handle of the stream that reaches the remote end.
    pub handle: S,
    /// The name the remote end is shown under.
    pub identity: Seq<char>,
}

/// The remote endpoint: the handle of the one open stream that reaches it,
/// and the name it is shown under.
///
/// `S` is the driver's stream type. A peer owns its handle and never opens,
/// copies or closes one itself.
pub struct Peer<S> {
    stream: S,
    who: String,
}

impl<S> View for Peer<S> {
    type V = PeerView<S>;

    closed spec fn view(&self) -> PeerView<S> {
        PeerView { handle: self.stream, identity: self.who@ }
    }
}

impl<S> Peer<S> {
    /// Turns the outcome of one non-blocking accept into a peer: the stream
    /// that was pending, named by its remote address, or nothing where no
    /// connection was pending.
    pub fn get_client(accepted: Option<(S, String)>) -> (peer: Option<Peer<S>>)
        ensures
            match accepted {
                Some((stream, addr)) => peer matches Some(p) && p@ == (PeerView {
                    handle: stream,
                    identity: addr@,
                }),
                None => peer is None,
            },
    {
        match accepted {
            Some((stream, addr)) => Some(Peer { stream, who: addr }),
            None => None,
        }
    }

    /// Wraps a stream that is already connected.
    pub fn new(stream: S, who: String) -> (peer: Peer<S>)
        ensures
            peer@ == (PeerView { handle: stream, identity: who@ }),
    {
        Peer { stream, who }
    }

    /// The stream to talk to the peer through.
    pub fn stream(&self) -> (stream: &S)
        ensures
            *stream == self@.handle,
    {
        &self.stream
    }

    /// Who the peer is.
    pub fn who(&self) -> (who: &String)
        ensures
            who@ == self@.identity,
    {
        &self.who
    }

    /// A second peer value for the same connection. `stream` is a second
    /// handle to the connection behind `self`, which the driver has obtained
    /// from the operating system; both values then reach the same remote end,
    /// and the connection stays open until both are gone.
    pub fn duplicate(&self, stream: S) -> (twin: Peer<S>)
        ensures
            twin@ == (PeerView { handle: stream, identity: self@.identity }),
    {
        Peer { stream, who: self.who.clone() }
    }
}

} // verus!
