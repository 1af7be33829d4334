//! Counter of outstanding asynchronous operations.
//!
//! `BusyLot` counts how many worker operations are currently in flight; each
//! operation holds a `Ticket` for its lifetime and gives it back when the
//! operation is fully resolved, whether it succeeded or failed. The counter
//! equals the number of live tickets and can never go negative.

use vstd::prelude::*;

verus! {

/// Counter of active jobs. `park` takes a space and hands out a ticket;
/// `release` gives one back. `is_busy` is true while any ticket is out.
pub struct BusyLot {
    count: usize,
}

/// Token for one unit of outstanding work, obtained from `BusyLot::park`.
/// It is move-only: each ticket can be released at most once.
pub struct Ticket {
    /// How many tickets were out the instant this one was issued; carried
    /// only as a ghost record.
    issue: Ghost<nat>,
}

impl BusyLot {
    /// Number of tickets currently out.
    pub closed spec fn counted(&self) -> nat {
        self.count as nat
    }

    /// A fresh lot with no outstanding work.
    pub fn new() -> (lot: BusyLot)
        ensures
            lot.counted() == 0,
    {
        BusyLot { count: 0 }
    }

    /// Takes a parking space and returns a ticket for it.
    pub fn park(&mut self) -> (t: Ticket)
        requires
            old(self).counted() < usize::MAX,
        ensures
            final(self).counted() == old(self).counted() + 1,
    {
        self.count = self.count + 1;
        Ticket { issue: Ghost(self.count as nat) }
    }

    /// Gives a ticket back; the space it held is free again.
    pub fn release(&mut self, t: Ticket)
        requires
            old(self).counted() > 0,
        ensures
            final(self).counted() == old(self).counted() - 1,
    {
        self.count = self.count - 1;
    }

    /// The number of tickets currently out.
    pub fn count(&self) -> (n: usize)
        ensures
            n == self.counted(),
    {
        self.count
    }

    /// `true` if at least one ticket is still parked.
    pub fn is_busy(&self) -> (busy: bool)
        ensures
            busy == (self.counted() != 0),
    {
        self.count != 0
    }
}

/// One event in the life of a lot: a ticket taken, or a ticket given back.
pub enum LotEvent {
    Park,
    Release,
}

/// The counter value after a sequence of events, starting from a fresh lot.
pub open spec fn lot_count(evs: Seq<LotEvent>) -> int
    decreases evs.len(),
{
    if evs.len() == 0 {
        0
    } else {
        lot_count(evs.drop_last()) + match evs.last() {
            LotEvent::Park => 1int,
            LotEvent::Release => -1int,
        }
    }
}

/// How many events of the sequence take a ticket.
pub open spec fn parks(evs: Seq<LotEvent>) -> int
    decreases evs.len(),
{
    if evs.len() == 0 {
        0
    } else {
        parks(evs.drop_last()) + if evs.last() is Park {
            1int
        } else {
            0int
        }
    }
}

/// How many events of the sequence give a ticket back.
pub open spec fn releases(evs: Seq<LotEvent>) -> int
    decreases evs.len(),
{
    if evs.len() == 0 {
        0
    } else {
        releases(evs.drop_last()) + if evs.last() is Release {
            1int
        } else {
            0int
        }
    }
}

/// The counter is exactly the balance of tickets taken against tickets
/// given back.
pub proof fn lemma_lot_balance(evs: Seq<LotEvent>)
    ensures
        lot_count(evs) == parks(evs) - releases(evs),
    decreases evs.len(),
{
    if evs.len() > 0 {
        lemma_lot_balance(evs.drop_last());
    }
}

/// Ticket conservation: over any sequence of events in which every ticket
/// taken is also given back — however dispatches and completions interleave,
/// and whether the operations succeeded or failed — the lot ends not busy.
pub proof fn lemma_ticket_conservation(evs: Seq<LotEvent>)
    requires
        parks(evs) == releases(evs),
    ensures
        lot_count(evs) == 0,
{
    lemma_lot_balance(evs);
}

/// The counter never goes negative: as long as no prefix of the history gives
/// back more tickets than were taken, every intermediate count is at least 0.
pub proof fn lemma_lot_never_negative(evs: Seq<LotEvent>)
    requires
        releases(evs) <= parks(evs),
    ensures
        lot_count(evs) >= 0,
{
    lemma_lot_balance(evs);
}

} // verus!
