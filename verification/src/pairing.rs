//! Positional pairing: the connections accepted on two listeners are coupled
//! one of each, the n-th of the first with the n-th of the second, whatever
//! they carry.
//!
//! `C` is the caller's connection type; the pairing only holds and returns it.

use crate::udp::Side;
use vstd::prelude::*;

verus! {

/// The connection that waits for its counterpart, if any. A side that has a
/// connection waiting accepts no other until the pair is formed.
pub struct Pairing<C> {
    pub waiting_1: Option<C>,
    pub waiting_2: Option<C>,
}

impl<C> Pairing<C> {
    /// The pairing with no connection waiting.
    pub open spec fn empty() -> Self {
        Pairing { waiting_1: None, waiting_2: None }
    }

    /// Whether the next connection of `side` can be taken: none of that side
    /// is waiting.
    pub open spec fn admits(self, side: Side) -> bool {
        match side {
            Side::First => self.waiting_1 is None,
            Side::Second => self.waiting_2 is None,
        }
    }

    /// The pair that a connection accepted on `side` completes, the
    /// connection of the first side in front.
    pub open spec fn completes(self, side: Side, conn: C) -> Option<(C, C)> {
        match side {
            Side::First => match self.waiting_2 {
                Some(other) => Some((conn, other)),
                None => None,
            },
            Side::Second => match self.waiting_1 {
                Some(other) => Some((other, conn)),
                None => None,
            },
        }
    }

    /// The pairing after a connection was accepted on `side`: it waits,
    /// unless its counterpart was waiting, which then has left with it.
    pub open spec fn with(self, side: Side, conn: C) -> Self {
        match side {
            Side::First => if self.waiting_2 is Some {
                Pairing { waiting_1: self.waiting_1, waiting_2: None }
            } else {
                Pairing { waiting_1: Some(conn), waiting_2: self.waiting_2 }
            },
            Side::Second => if self.waiting_1 is Some {
                Pairing { waiting_1: None, waiting_2: self.waiting_2 }
            } else {
                Pairing { waiting_1: self.waiting_1, waiting_2: Some(conn) }
            },
        }
    }

    /// The pairing after a sequence of accepted connections, each given by
    /// its side.
    pub open spec fn after(accepted: Seq<(Side, C)>) -> Self
        decreases accepted.len(),
    {
        if accepted.len() == 0 {
            Self::empty()
        } else {
            Self::after(accepted.drop_last()).with(accepted.last().0, accepted.last().1)
        }
    }

    /// Whether each connection of a sequence was accepted on a side that had
    /// none waiting.
    pub open spec fn in_turn(accepted: Seq<(Side, C)>) -> bool
        decreases accepted.len(),
    {
        accepted.len() == 0 || (Self::in_turn(accepted.drop_last()) && Self::after(
            accepted.drop_last(),
        ).admits(accepted.last().0))
    }

    /// The pairs that a sequence of accepted connections has formed, in the
    /// order in which they were completed.
    pub open spec fn pairs(accepted: Seq<(Side, C)>) -> Seq<(C, C)>
        decreases accepted.len(),
    {
        if accepted.len() == 0 {
            Seq::empty()
        } else {
            let before = Self::pairs(accepted.drop_last());
            match Self::after(accepted.drop_last()).completes(
                accepted.last().0,
                accepted.last().1,
            ) {
                Some(pair) => before.push(pair),
                None => before,
            }
        }
    }

    /// The connections of one side in a sequence, in the order of arrival.
    pub open spec fn arrivals(accepted: Seq<(Side, C)>, side: Side) -> Seq<C>
        decreases accepted.len(),
    {
        if accepted.len() == 0 {
            Seq::empty()
        } else if accepted.last().0 == side {
            Self::arrivals(accepted.drop_last(), side).push(accepted.last().1)
        } else {
            Self::arrivals(accepted.drop_last(), side)
        }
    }

    /// Pairing is positional: the n-th pair is made of the n-th connection of
    /// the first side and the n-th of the second, and every connection but
    /// one that still waits has been paired. Neither side runs more than one
    /// connection ahead of the other.
    pub proof fn lemma_pairing_is_positional(accepted: Seq<(Side, C)>)
        requires
            Self::in_turn(accepted),
        ensures
            ({
                let firsts = Self::arrivals(accepted, Side::First);
                let seconds = Self::arrivals(accepted, Side::Second);
                let pairs = Self::pairs(accepted);
                let now = Self::after(accepted);
                &&& forall|k: int|
                    0 <= k < pairs.len() ==> k < firsts.len() && k < seconds.len() && #[trigger] pairs[k]
                        == (firsts[k], seconds[k])
                &&& pairs.len() == if firsts.len() <= seconds.len() {
                    firsts.len()
                } else {
                    seconds.len()
                }
                &&& firsts.len() <= pairs.len() + 1
                &&& seconds.len() <= pairs.len() + 1
                &&& now.waiting_1 == if firsts.len() > pairs.len() {
                    Some(firsts.last())
                } else {
                    None
                }
                &&& now.waiting_2 == if seconds.len() > pairs.len() {
                    Some(seconds.last())
                } else {
                    None
                }
            }),
        decreases accepted.len(),
    {
        if accepted.len() > 0 {
            Self::lemma_pairing_is_positional(accepted.drop_last());
        }
    }
}

impl<C> Pairing<C> {
    /// A pairing with no connection waiting.
    pub fn new() -> (pairing: Self)
        ensures
            pairing == Self::empty(),
    {
        Pairing { waiting_1: None, waiting_2: None }
    }

    /// Whether the next connection of `side` is to be accepted now.
    pub fn wants(&self, side: Side) -> (wanted: bool)
        ensures
            wanted == self.admits(side),
    {
        match side {
            Side::First => self.waiting_1.is_none(),
            Side::Second => self.waiting_2.is_none(),
        }
    }

    /// Takes a connection accepted on `side`. Where its counterpart waits,
    /// the pair leaves, the connection of the first side in front; else the
    /// connection waits.
    pub fn accepted(&mut self, side: Side, conn: C) -> (pair: Option<(C, C)>)
        requires
            old(self).admits(side),
        ensures
            *final(self) == old(self).with(side, conn),
            pair == old(self).completes(side, conn),
    {
        match side {
            Side::First => {
                match self.waiting_2.take() {
                    Some(other) => Some((conn, other)),
                    None => {
                        self.waiting_1 = Some(conn);
                        None
                    },
                }
            },
            Side::Second => {
                match self.waiting_1.take() {
                    Some(other) => Some((other, conn)),
                    None => {
                        self.waiting_2 = Some(conn);
                        None
                    },
                }
            },
        }
    }
}

} // verus!
