//! The receive side of a duplex endpoint. An endpoint owns one reusable
//! receive buffer and consumes a frame incrementally: first the 8-byte length
//! prefix, then however many chunks of payload the peer's stream yields
//! across polling iterations. Only once the whole payload has arrived is it
//! taken out and handed to the embedding code, which deserializes it and
//! invokes the handler. The byte-moving reads themselves happen in the
//! embedding application; this state machine decides what each batch of
//! bytes means.

use vstd::prelude::*;

use crate::frame::spec_decode_len;
use crate::frame::decode_len;

verus! {

/// What one polling pass over an endpoint concluded: the connection is still
/// alive (possibly with a frame in mid-flight), or the peer signaled close
/// with a zero-length frame.
#[derive(Clone, Copy, Debug, PartialEq, Eq, Structural)]
pub enum SocketStatus {
    Alive,
    Closed,
}

/// The reusable receive buffer of one endpoint. While a frame is pending,
/// `data` has been sized to the announced payload length and `offset` counts
/// how many of those bytes have arrived so far; between frames `size` is
/// `None`.
pub struct RecvBuffer {
    pub data: Vec<u8>,
    pub offset: usize,
    pub size: Option<usize>,
}

impl RecvBuffer {
    /// The buffer's internal invariant: while a frame is pending the buffer
    /// is sized to the announced length and the fill position never passes
    /// it.
    pub open spec fn wf(self) -> bool {
        match self.size {
            Some(s) => self.offset <= s && self.data@.len() == s,
            None => true,
        }
    }

    /// Whether a frame is currently in mid-flight.
    pub open spec fn is_pending(self) -> bool {
        self.size is Some
    }

    /// The announced payload length of the pending frame.
    pub open spec fn pending_size(self) -> int
        recommends
            self.is_pending(),
    {
        self.size->Some_0 as int
    }

    /// The payload bytes that have arrived so far for the pending frame.
    pub open spec fn received(self) -> Seq<u8>
        recommends
            self.is_pending(),
    {
        self.data@.subrange(0, self.offset as int)
    }

    /// A fresh buffer with no frame pending.
    pub fn new() -> (b: RecvBuffer)
        ensures
            b.wf(),
            !b.is_pending(),
    {
        RecvBuffer { data: Vec::new(), offset: 0, size: None }
    }

    /// Consumes a frame's 8-byte length prefix. A zero length is the peer's
    /// close signal: the endpoint is reported `Closed` and the buffer is left
    /// untouched, so no payload is ever taken (and no handler ever runs) for
    /// a close frame. Any other length starts a pending frame of exactly that
    /// many bytes.
    pub fn start_frame(&mut self, header: &Vec<u8>) -> (st: SocketStatus)
        requires
            old(self).wf(),
            !old(self).is_pending(),
            header@.len() == 8,
            spec_decode_len(header@) <= usize::MAX,
        ensures
            final(self).wf(),
            spec_decode_len(header@) == 0 ==> st == SocketStatus::Closed && *final(self) == *old(
                self,
            ),
            spec_decode_len(header@) != 0 ==> {
                &&& st == SocketStatus::Alive
                &&& final(self).is_pending()
                &&& final(self).pending_size() == spec_decode_len(header@)
                &&& final(self).received() == Seq::<u8>::empty()
            },
    {
        let n = decode_len(header);
        if n == 0 {
            SocketStatus::Closed
        } else {
            let size = n as usize;
            self.offset = 0;
            self.size = Some(size);
            self.data.resize(size, 0);
            proof {
                assert(self.received() =~= Seq::<u8>::empty());
            }
            SocketStatus::Alive
        }
    }

    /// How many payload bytes of the pending frame are still missing. The
    /// embedding application reads at most this many bytes at a time.
    pub fn remaining(&self) -> (n: usize)
        requires
            self.wf(),
            self.is_pending(),
        ensures
            n == self.pending_size() - self.received().len(),
    {
        match self.size {
            Some(s) => s - self.offset,
            None => 0,
        }
    }

    /// Accumulates one batch of payload bytes for the pending frame. The
    /// bytes received so far grow by exactly this chunk, in order; the frame
    /// is complete once the fill position reaches the announced length.
    pub fn accept_chunk(&mut self, chunk: &Vec<u8>) -> (complete: bool)
        requires
            old(self).wf(),
            old(self).is_pending(),
            chunk@.len() <= old(self).pending_size() - old(self).received().len(),
        ensures
            final(self).wf(),
            final(self).is_pending(),
            final(self).pending_size() == old(self).pending_size(),
            final(self).received() == old(self).received() + chunk@,
            complete <==> final(self).received().len() == final(self).pending_size(),
    {
        let mut i: usize = 0;
        while i < chunk.len()
            invariant
                old(self).wf(),
                old(self).is_pending(),
                self.wf(),
                self.size == old(self).size,
                self.is_pending(),
                i <= chunk@.len(),
                self.offset == old(self).offset + i,
                chunk@.len() <= old(self).pending_size() - old(self).received().len(),
                self.received() == old(self).received() + chunk@.subrange(0, i as int),
            decreases chunk@.len() - i,
        {
            let pos = self.offset;
            let ghost prev_received = self.received();
            self.data[pos] = chunk[i];
            self.offset = pos + 1;
            proof {
                assert(self.received() =~= prev_received.push(chunk@[i as int]));
                assert(old(self).received() + chunk@.subrange(0, i as int + 1) =~= (old(
                    self,
                ).received() + chunk@.subrange(0, i as int)).push(chunk@[i as int]));
            }
            i = i + 1;
        }
        proof {
            assert(chunk@.subrange(0, chunk@.len() as int) =~= chunk@);
        }
        match self.size {
            Some(s) => self.offset == s,
            None => false,
        }
    }

    /// Takes the completed payload out of the buffer and resets it, ready for
    /// the next frame. The payload is exactly the bytes accumulated by the
    /// preceding chunks; because the buffer is reset, each frame's payload
    /// can be taken (and its handler run) only once.
    pub fn take_payload(&mut self) -> (payload: Vec<u8>)
        requires
            old(self).wf(),
            old(self).is_pending(),
            old(self).received().len() == old(self).pending_size(),
        ensures
            final(self).wf(),
            !final(self).is_pending(),
            payload@ == old(self).received(),
    {
        let mut payload: Vec<u8> = Vec::new();
        core::mem::swap(&mut payload, &mut self.data);
        self.offset = 0;
        self.size = None;
        proof {
            assert(payload@.subrange(0, payload@.len() as int) =~= payload@);
        }
        payload
    }
}

} // verus!
