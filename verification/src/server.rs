//! The polling server's connection bookkeeping. The server owns an ordered
//! collection of server-side endpoints, one per accepted connection; the
//! order carries no meaning beyond stable iteration while pruning. Each loop
//! iteration accepts at most one new connection, services every endpoint
//! once, removes the endpoints whose peer signaled close, and then asks a
//! caller-supplied policy what to do next. The listening socket and all byte
//! movement live in the embedding application; this module owns the
//! decisions.

use core::time::Duration;

use vstd::prelude::*;

use crate::client::RecvBuffer;
use crate::client::SocketStatus;
use crate::frame::spec_decode_len;

verus! {

/// The scheduling signal a caller-supplied policy returns once per loop
/// iteration: sleep for a duration, yield the thread, restart the loop at
/// once, or leave the loop.
#[derive(Debug)]
pub enum PostServing {
    Wait(Duration),
    Yield,
    Continue,
    Stop,
}

/// The connections that remain after one pruning pass: those whose closed
/// flag is not set, in their original order.
pub open spec fn keep_open(conns: Seq<RecvBuffer>, closed: Seq<bool>) -> Seq<RecvBuffer>
    recommends
        conns.len() == closed.len(),
    decreases conns.len(),
{
    if conns.len() == 0 {
        Seq::empty()
    } else if closed[0] {
        keep_open(conns.drop_first(), closed.drop_first())
    } else {
        seq![conns[0]] + keep_open(conns.drop_first(), closed.drop_first())
    }
}

/// How many connections of a pruning pass signaled close.
pub open spec fn count_closed(closed: Seq<bool>) -> nat
    decreases closed.len(),
{
    if closed.len() == 0 {
        0
    } else {
        (if closed[0] {
            1nat
        } else {
            0nat
        }) + count_closed(closed.drop_first())
    }
}

/// Pruning is selective in number as well: of N connections of which M
/// signal close in one iteration, exactly N - M survive.
pub proof fn lemma_keep_open_count(conns: Seq<RecvBuffer>, closed: Seq<bool>)
    requires
        conns.len() == closed.len(),
    ensures
        keep_open(conns, closed).len() + count_closed(closed) == conns.len(),
    decreases conns.len(),
{
    if conns.len() > 0 {
        lemma_keep_open_count(conns.drop_first(), closed.drop_first());
    }
}

/// The polling server's state, less the sockets: one receive buffer per
/// accepted connection, in acceptance order.
pub struct ServerCore {
    pub conns: Vec<RecvBuffer>,
}

impl ServerCore {
    /// Every connection's receive buffer satisfies its invariant.
    pub open spec fn wf(self) -> bool {
        forall|i: int| 0 <= i < self.conns@.len() ==> (#[trigger] self.conns@[i]).wf()
    }

    /// A fresh server with no connections.
    pub fn new() -> (s: ServerCore)
        ensures
            s.wf(),
            s.conns@.len() == 0,
    {
        ServerCore { conns: Vec::new() }
    }

    /// Registers one accepted connection: a fresh endpoint joins the end of
    /// the collection, with no frame pending.
    pub fn add_connection(&mut self)
        requires
            old(self).wf(),
        ensures
            final(self).wf(),
            final(self).conns@.len() == old(self).conns@.len() + 1,
            final(self).conns@.subrange(0, old(self).conns@.len() as int) == old(self).conns@,
            !final(self).conns@.last().is_pending(),
    {
        self.conns.push(RecvBuffer::new());
        proof {
            assert(self.conns@.subrange(0, old(self).conns@.len() as int) =~= old(self).conns@);
        }
    }

    /// Whether any connection is currently open.
    pub fn has_connections(&self) -> (b: bool)
        ensures
            b <==> self.conns@.len() > 0,
    {
        self.conns.len() > 0
    }

    /// How many connections are currently open.
    pub fn num_connections(&self) -> (n: usize)
        ensures
            n == self.conns@.len(),
    {
        self.conns.len()
    }

    /// Removes the connection at one index, keeping every other connection in
    /// order.
    pub fn remove_connection(&mut self, i: usize)
        requires
            old(self).wf(),
            i < old(self).conns@.len(),
        ensures
            final(self).wf(),
            final(self).conns@ == old(self).conns@.remove(i as int),
    {
        self.conns.remove(i);
    }

    /// Consumes the length prefix of the next frame on connection `i`; see
    /// `RecvBuffer::start_frame`.
    pub fn start_frame_at(&mut self, i: usize, header: &Vec<u8>) -> (st: SocketStatus)
        requires
            old(self).wf(),
            i < old(self).conns@.len(),
            !old(self).conns@[i as int].is_pending(),
            header@.len() == 8,
            spec_decode_len(header@) <= usize::MAX,
        ensures
            final(self).wf(),
            final(self).conns@.len() == old(self).conns@.len(),
            forall|j: int|
                0 <= j < old(self).conns@.len() && j != i ==> final(self).conns@[j] == old(
                    self,
                ).conns@[j],
            spec_decode_len(header@) == 0 ==> st == SocketStatus::Closed && final(self).conns@[i as int]
                == old(self).conns@[i as int],
            spec_decode_len(header@) != 0 ==> {
                &&& st == SocketStatus::Alive
                &&& final(self).conns@[i as int].is_pending()
                &&& final(self).conns@[i as int].pending_size() == spec_decode_len(header@)
                &&& final(self).conns@[i as int].received() == Seq::<u8>::empty()
            },
    {
        let conn = &mut self.conns[i];
        conn.start_frame(header)
    }

    /// How many payload bytes connection `i` still needs for its pending
    /// frame.
    pub fn remaining_at(&self, i: usize) -> (n: usize)
        requires
            self.wf(),
            i < self.conns@.len(),
            self.conns@[i as int].is_pending(),
        ensures
            n == self.conns@[i as int].pending_size() - self.conns@[i as int].received().len(),
    {
        self.conns[i].remaining()
    }

    /// Accumulates one batch of payload bytes on connection `i`; see
    /// `RecvBuffer::accept_chunk`.
    pub fn accept_chunk_at(&mut self, i: usize, chunk: &Vec<u8>) -> (complete: bool)
        requires
            old(self).wf(),
            i < old(self).conns@.len(),
            old(self).conns@[i as int].is_pending(),
            chunk@.len() <= old(self).conns@[i as int].pending_size() - old(self).conns@[
                i as int
            ].received().len(),
        ensures
            final(self).wf(),
            final(self).conns@.len() == old(self).conns@.len(),
            forall|j: int|
                0 <= j < old(self).conns@.len() && j != i ==> final(self).conns@[j] == old(
                    self,
                ).conns@[j],
            final(self).conns@[i as int].is_pending(),
            final(self).conns@[i as int].pending_size() == old(self).conns@[i as int].pending_size(),
            final(self).conns@[i as int].received() == old(self).conns@[i as int].received()
                + chunk@,
            complete <==> final(self).conns@[i as int].received().len() == final(self).conns@[
                i as int
            ].pending_size(),
    {
        let conn = &mut self.conns[i];
        conn.accept_chunk(chunk)
    }

    /// Takes the completed payload off connection `i`; see
    /// `RecvBuffer::take_payload`.
    pub fn take_payload_at(&mut self, i: usize) -> (payload: Vec<u8>)
        requires
            old(self).wf(),
            i < old(self).conns@.len(),
            old(self).conns@[i as int].is_pending(),
            old(self).conns@[i as int].received().len() == old(self).conns@[
                i as int
            ].pending_size(),
        ensures
            final(self).wf(),
            final(self).conns@.len() == old(self).conns@.len(),
            forall|j: int|
                0 <= j < old(self).conns@.len() && j != i ==> final(self).conns@[j] == old(
                    self,
                ).conns@[j],
            !final(self).conns@[i as int].is_pending(),
            payload@ == old(self).conns@[i as int].received(),
    {
        let conn = &mut self.conns[i];
        conn.take_payload()
    }

    /// Prunes the connections whose peer signaled close during this
    /// iteration, walking in reverse index order exactly as the serving loop
    /// does, so that removal never disturbs the indices still to be visited.
    /// Removal is selective: of the connections present, exactly those whose
    /// closed flag is set leave, and every other connection survives in
    /// order.
    pub fn sweep(&mut self, closed: &Vec<bool>)
        requires
            old(self).wf(),
            closed@.len() == old(self).conns@.len(),
        ensures
            final(self).wf(),
            final(self).conns@ == keep_open(old(self).conns@, closed@),
    {
        let mut idx = self.conns.len();
        while idx > 0
            invariant
                old(self).wf(),
                self.wf(),
                closed@.len() == old(self).conns@.len(),
                idx <= old(self).conns@.len(),
                idx <= self.conns@.len(),
                self.conns@.subrange(0, idx as int) == old(self).conns@.subrange(0, idx as int),
                self.conns@.skip(idx as int) == keep_open(
                    old(self).conns@.skip(idx as int),
                    closed@.skip(idx as int),
                ),
            decreases idx,
        {
            idx = idx - 1;
            proof {
                lemma_keep_open_step(old(self).conns@, closed@, idx as int);
                assert(self.conns@.subrange(0, idx as int + 1)[idx as int] == self.conns@[
                    idx as int
                ]);
                assert(old(self).conns@.subrange(0, idx as int + 1)[idx as int] == old(
                    self,
                ).conns@[idx as int]);
                assert(self.conns@[idx as int] == old(self).conns@[idx as int]);
            }
            if closed[idx] {
                let ghost before = self.conns@;
                self.conns.remove(idx);
                proof {
                    assert(self.conns@.subrange(0, idx as int) =~= old(self).conns@.subrange(
                        0,
                        idx as int,
                    ));
                    assert(self.conns@.skip(idx as int) =~= before.skip(idx as int + 1));
                }
            } else {
                proof {
                    assert(self.conns@.skip(idx as int) =~= seq![old(self).conns@[idx as int]]
                        + self.conns@.skip(idx as int + 1));
                    assert(self.conns@.subrange(0, idx as int) =~= old(self).conns@.subrange(
                        0,
                        idx as int,
                    ));
                }
            }
        }
        proof {
            assert(self.conns@.skip(0) =~= self.conns@);
            assert(old(self).conns@.skip(0) =~= old(self).conns@);
            assert(closed@.skip(0) =~= closed@);
        }
    }
}

/// Unrolls one step of `keep_open` at position `idx`: the survivors of the
/// suffix starting at `idx` are the connection at `idx` (if it stays)
/// followed by the survivors of the suffix starting after it.
proof fn lemma_keep_open_step(conns: Seq<RecvBuffer>, closed: Seq<bool>, idx: int)
    requires
        conns.len() == closed.len(),
        0 <= idx < conns.len(),
    ensures
        closed[idx] ==> keep_open(conns.skip(idx), closed.skip(idx)) == keep_open(
            conns.skip(idx + 1),
            closed.skip(idx + 1),
        ),
        !closed[idx] ==> keep_open(conns.skip(idx), closed.skip(idx)) == seq![conns[idx]]
            + keep_open(conns.skip(idx + 1), closed.skip(idx + 1)),
{
    assert(conns.skip(idx).drop_first() =~= conns.skip(idx + 1));
    assert(closed.skip(idx).drop_first() =~= closed.skip(idx + 1));
    assert(conns.skip(idx)[0] == conns[idx]);
    assert(closed.skip(idx)[0] == closed[idx]);
}

} // verus!
