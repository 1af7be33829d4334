//! The channel pair between the loop and its workers.
//!
//! Two unidirectional, unbounded queues: one carries messages into the loop,
//! the other carries commands out to the workers. Each is ordered — what one
//! producer sends back-to-back is received in send order — and received
//! non-blockingly: a receive on an empty queue returns nothing rather than
//! wait, so the loop can never deadlock against work it itself fanned out.

use vstd::prelude::*;

use std::collections::VecDeque;

use crate::engine::{Cmd, Msg};

verus! {

/// The two queues of one session: messages toward the loop, commands toward
/// the workers.
pub struct Queues {
    pub msg_q: VecDeque<Msg>,
    pub cmd_q: VecDeque<Cmd>,
}

impl Queues {
    /// A fresh, empty channel pair.
    pub fn new() -> (q: Queues)
        ensures
            q.msg_q@ == Seq::<Msg>::empty(),
            q.cmd_q@ == Seq::<Cmd>::empty(),
    {
        Queues { msg_q: VecDeque::new(), cmd_q: VecDeque::new() }
    }

    /// Sends a message toward the loop: it joins the end of the queue.
    pub fn send_msg(&mut self, m: Msg)
        ensures
            final(self).msg_q@ == old(self).msg_q@.push(m),
            final(self).cmd_q == old(self).cmd_q,
    {
        self.msg_q.push_back(m);
    }

    /// Receives the oldest pending message, or nothing if the queue is
    /// empty; it never blocks.
    pub fn recv_msg(&mut self) -> (m: Option<Msg>)
        ensures
            final(self).cmd_q == old(self).cmd_q,
            match m {
                Some(x) => {
                    &&& old(self).msg_q@.len() > 0
                    &&& x == old(self).msg_q@[0]
                    &&& final(self).msg_q@ == old(self).msg_q@.subrange(
                        1,
                        old(self).msg_q@.len() as int,
                    )
                },
                None => {
                    &&& old(self).msg_q@.len() == 0
                    &&& final(self).msg_q@ == old(self).msg_q@
                },
            },
    {
        self.msg_q.pop_front()
    }

    /// Sends a command toward the workers: it joins the end of the queue.
    pub fn send_cmd(&mut self, c: Cmd)
        ensures
            final(self).cmd_q@ == old(self).cmd_q@.push(c),
            final(self).msg_q == old(self).msg_q,
    {
        self.cmd_q.push_back(c);
    }

    /// Receives the oldest pending command, or nothing if the queue is
    /// empty; it never blocks.
    pub fn recv_cmd(&mut self) -> (c: Option<Cmd>)
        ensures
            final(self).msg_q == old(self).msg_q,
            match c {
                Some(x) => {
                    &&& old(self).cmd_q@.len() > 0
                    &&& x == old(self).cmd_q@[0]
                    &&& final(self).cmd_q@ == old(self).cmd_q@.subrange(
                        1,
                        old(self).cmd_q@.len() as int,
                    )
                },
                None => {
                    &&& old(self).cmd_q@.len() == 0
                    &&& final(self).cmd_q@ == old(self).cmd_q@
                },
            },
    {
        self.cmd_q.pop_front()
    }
}

/// The first `n` elements a receiver drains from a queue holding `q`, oldest
/// first, as `recv_cmd` hands them out.
pub open spec fn pops<T>(q: Seq<T>, n: nat) -> Seq<T>
    decreases n,
{
    if n == 0 || q.len() == 0 {
        Seq::empty()
    } else {
        seq![q.first()] + pops(q.drop_first(), (n - 1) as nat)
    }
}

/// Receiving runs through the queue in index order: `n` receives yield
/// exactly the first `n` elements, in the order they were sent.
pub proof fn lemma_pops_in_order<T>(q: Seq<T>, n: nat)
    requires
        n <= q.len(),
    ensures
        pops(q, n) == q.take(n as int),
    decreases n,
{
    if n == 0 {
        assert(pops(q, n) =~= q.take(0));
    } else {
        lemma_pops_in_order(q.drop_first(), (n - 1) as nat);
        assert(pops(q, n) =~= q.take(n as int));
    }
}

/// FIFO per producer: two commands sent back-to-back stand behind all
/// earlier traffic, in send order — so a receiver that drains the queue
/// observes the first strictly before the second.
pub proof fn lemma_fifo_per_producer(q: Seq<Cmd>, c1: Cmd, c2: Cmd)
    ensures
        ({
            let q2 = q.push(c1).push(c2);
            &&& q2.len() == q.len() + 2
            &&& q2[q.len() as int] == c1
            &&& q2[q.len() as int + 1] == c2
            &&& forall|k: int| 0 <= k < q.len() ==> q2[k] == q[k]
            &&& pops(q2, q2.len())[q.len() as int] == c1
            &&& pops(q2, q2.len())[q.len() as int + 1] == c2
        }),
{
    let q2 = q.push(c1).push(c2);
    lemma_pops_in_order(q2, q2.len());
    assert(pops(q2, q2.len()) =~= q2);
}

} // verus!
