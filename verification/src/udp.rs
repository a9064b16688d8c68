//! UDP rendezvous: since a datagram socket keeps no connection, each flow
//! remembers who last spoke on a side and sends the other side's datagrams
//! there. The caller receives and sends; these types decide where to.
//!
//! `A` is the caller's address type; the flow only stores and returns it.

use vstd::prelude::*;

verus! {

/// Size of the receive buffer of each direction: the largest UDP payload.
pub const BUFFER_SIZE: usize = 65535;

/// One of the two sockets of a flow.
#[derive(Clone, Copy, Debug, PartialEq, Eq, Structural)]
pub enum Side {
    First,
    Second,
}

impl Side {
    pub open spec fn spec_opposite(self) -> Side {
        match self {
            Side::First => Side::Second,
            Side::Second => Side::First,
        }
    }

    /// The other side.
    pub fn opposite(self) -> (other: Side)
        ensures
            other == self.spec_opposite(),
    {
        match self {
            Side::First => Side::Second,
            Side::Second => Side::First,
        }
    }
}

/// What becomes of a received datagram.
#[derive(Debug, PartialEq, Eq)]
pub enum Delivery<A> {
    /// Send it from the unconnected socket `via` to `dest`.
    SendTo { via: Side, dest: A },
    /// Send it on the connected socket `via`.
    Send { via: Side },
    /// Throw it away: it is the handshake, which only makes its sender known.
    Handshake,
    /// Drop it: the side it is meant for has no known peer yet.
    Drop,
}

/// Sending to the latched peer of `via`, or dropping where none is latched.
pub open spec fn toward<A>(via: Side, peer: Option<A>) -> Delivery<A> {
    match peer {
        Some(dest) => Delivery::SendTo { via, dest },
        None => Delivery::Drop,
    }
}

/// A flow between two unconnected sockets, with one latch per side.
#[derive(Debug, PartialEq, Eq)]
pub struct LocalPair<A> {
    pub last_peer_1: Option<A>,
    pub last_peer_2: Option<A>,
}

impl<A> LocalPair<A> {
    /// The flow before any datagram.
    pub open spec fn empty() -> Self {
        LocalPair { last_peer_1: None, last_peer_2: None }
    }

    /// The flow after a datagram from `from` on `side`: that side's latch
    /// holds `from`.
    pub open spec fn latched(self, side: Side, from: A) -> Self {
        match side {
            Side::First => LocalPair { last_peer_1: Some(from), last_peer_2: self.last_peer_2 },
            Side::Second => LocalPair { last_peer_1: self.last_peer_1, last_peer_2: Some(from) },
        }
    }

    /// What becomes of a datagram received on `side`. The first datagram of
    /// the first side is the handshake. Every other one goes to the latched
    /// peer of the other side.
    pub open spec fn delivery(self, side: Side) -> Delivery<A> {
        match side {
            Side::First => if self.last_peer_1 is None {
                Delivery::Handshake
            } else {
                toward(Side::Second, self.last_peer_2)
            },
            Side::Second => toward(Side::First, self.last_peer_1),
        }
    }

    /// The flow after a sequence of datagrams, each given by its side and
    /// source.
    pub open spec fn after(trace: Seq<(Side, A)>) -> Self
        decreases trace.len(),
    {
        if trace.len() == 0 {
            Self::empty()
        } else {
            Self::after(trace.drop_last()).latched(trace.last().0, trace.last().1)
        }
    }

    /// The source of the most recent datagram of `side` in a sequence.
    pub open spec fn latest(trace: Seq<(Side, A)>, side: Side) -> Option<A>
        decreases trace.len(),
    {
        if trace.len() == 0 {
            None
        } else if trace.last().0 == side {
            Some(trace.last().1)
        } else {
            Self::latest(trace.drop_last(), side)
        }
    }

    /// After any sequence of datagrams each latch holds the source of the
    /// most recent datagram of its side, and nothing where there was none.
    pub proof fn lemma_latches_hold_latest(trace: Seq<(Side, A)>)
        ensures
            Self::after(trace).last_peer_1 == Self::latest(trace, Side::First),
            Self::after(trace).last_peer_2 == Self::latest(trace, Side::Second),
        decreases trace.len(),
    {
        if trace.len() > 0 {
            Self::lemma_latches_hold_latest(trace.drop_last());
        }
    }

    /// A datagram that arrives on the second side is dropped as long as the
    /// first side has delivered none, the handshake; afterwards it is sent
    /// from the first socket to the most recent source of the first side.
    pub proof fn lemma_second_side_follows_handshake(trace: Seq<(Side, A)>)
        ensures
            Self::after(trace).delivery(Side::Second) == match Self::latest(trace, Side::First) {
                Some(dest) => Delivery::SendTo { via: Side::First, dest },
                None => Delivery::Drop,
            },
    {
        Self::lemma_latches_hold_latest(trace);
    }

    /// The first datagram of the first side is taken as the handshake; each
    /// later one is sent from the second socket to the most recent source of
    /// the second side, and dropped while that side has delivered none.
    pub proof fn lemma_first_side_opens_with_handshake(trace: Seq<(Side, A)>)
        ensures
            Self::after(trace).delivery(Side::First) == if Self::latest(trace, Side::First)
                is None {
                Delivery::Handshake
            } else {
                toward(Side::Second, Self::latest(trace, Side::Second))
            },
    {
        Self::lemma_latches_hold_latest(trace);
    }
}

impl<A: Copy> LocalPair<A> {
    /// A flow that knows no peer.
    pub fn new() -> (flow: Self)
        ensures
            flow == Self::empty(),
    {
        LocalPair { last_peer_1: None, last_peer_2: None }
    }

    /// Takes a datagram received on `side` from `from`: latches the source
    /// and says where the payload goes.
    pub fn receive(&mut self, side: Side, from: A) -> (delivery: Delivery<A>)
        ensures
            *final(self) == old(self).latched(side, from),
            delivery == old(self).delivery(side),
    {
        match side {
            Side::First => {
                let opening = self.last_peer_1.is_none();
                self.last_peer_1 = Some(from);
                if opening {
                    Delivery::Handshake
                } else {
                    match self.last_peer_2 {
                        Some(dest) => Delivery::SendTo { via: Side::Second, dest },
                        None => Delivery::Drop,
                    }
                }
            },
            Side::Second => {
                self.last_peer_2 = Some(from);
                match self.last_peer_1 {
                    Some(dest) => Delivery::SendTo { via: Side::First, dest },
                    None => Delivery::Drop,
                }
            },
        }
    }
}

/// A flow between an unconnected socket, the first side, and a connected one,
/// the second: only the first side needs a latch.
#[derive(Debug, PartialEq, Eq)]
pub struct LocalRemote<A> {
    pub last_client: Option<A>,
}

impl<A: Copy> LocalRemote<A> {
    /// A flow that knows no client.
    pub fn new() -> (flow: Self)
        ensures
            flow.last_client is None,
    {
        LocalRemote { last_client: None }
    }

    /// Takes a datagram from a client: latches its source; the payload goes
    /// out on the connected socket.
    pub fn from_local(&mut self, from: A) -> (delivery: Delivery<A>)
        ensures
            final(self).last_client == Some(from),
            delivery == (Delivery::<A>::Send { via: Side::Second }),
    {
        self.last_client = Some(from);
        Delivery::Send { via: Side::Second }
    }

    /// Takes a datagram from the remote: the payload goes to the latched
    /// client, or is dropped while there is none.
    pub fn from_remote(&self) -> (delivery: Delivery<A>)
        ensures
            delivery == toward(Side::First, self.last_client),
    {
        match self.last_client {
            Some(dest) => Delivery::SendTo { via: Side::First, dest },
            None => Delivery::Drop,
        }
    }
}

/// The packet that opens a flow between two connected sockets: four zero
/// bytes, by which the remote learns this end's address.
pub fn handshake_packet() -> (packet: [u8; 4])
    ensures
        packet@ == seq![0u8, 0u8, 0u8, 0u8],
{
    let packet = [0u8, 0u8, 0u8, 0u8];
    packet
}

/// The socket on which the opening packet of a flow between two connected
/// sockets is sent.
pub fn handshake_side() -> (side: Side)
    ensures
        side == Side::Second,
{
    Side::Second
}

/// Where a datagram received on `side` of a flow between two connected
/// sockets goes: out on the other socket.
pub fn between_remotes<A>(side: Side) -> (delivery: Delivery<A>)
    ensures
        delivery == (Delivery::<A>::Send { via: side.spec_opposite() }),
{
    Delivery::Send { via: side.opposite() }
}

} // verus!
