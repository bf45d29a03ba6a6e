//! The bounded buffer window between the network source and the decoder.
//!
//! A fixed-capacity byte window caps the memory a stream of any length can
//! occupy: `feed` accepts only what fits (backpressure — the producer is
//! expected to suspend and retry what was not accepted), and `consume` hands
//! the earliest buffered bytes to the decoder. A prefetch threshold, sized
//! from the stream's bitrate and a target cushion of seconds, gates the
//! start of playback so short network jitter does not stall audio.

use vstd::prelude::*;

verus! {

/// The fixed capacity of a buffer window, in bytes: 512 KiB.
pub const BUFFER_CAPACITY_BYTES: usize = 524288;

/// How many seconds of audio the prefetch gate holds back before playback.
pub const PREFETCH_TARGET_SECONDS: u64 = 2;

/// The conservative bitrate (bits per second) assumed when a stream
/// advertises none.
pub const DEFAULT_BITRATE_BITS_PER_SEC: u32 = 128000;

/// How many bytes must be buffered before playback may start:
/// `bitrate / 8` bytes of audio per second, for the target number of
/// seconds.
pub open spec fn spec_prefetch_bytes(bitrate: u32) -> int {
    bitrate as int / 8 * PREFETCH_TARGET_SECONDS
}

/// The bitrate a session runs with: what the stream advertised, or the
/// conservative default when it advertised none.
pub open spec fn spec_resolve_bitrate(advertised: Option<u32>) -> u32 {
    match advertised {
        Some(b) => b,
        None => DEFAULT_BITRATE_BITS_PER_SEC,
    }
}

/// Computes the prefetch threshold for a bitrate.
pub fn prefetch_bytes(bitrate: u32) -> (n: u64)
    ensures
        n == spec_prefetch_bytes(bitrate),
{
    bitrate as u64 / 8 * PREFETCH_TARGET_SECONDS
}

/// Resolves an advertised bitrate to the one the session runs with.
pub fn resolve_bitrate(advertised: Option<u32>) -> (b: u32)
    ensures
        b == spec_resolve_bitrate(advertised),
{
    match advertised {
        Some(b) => b,
        None => DEFAULT_BITRATE_BITS_PER_SEC,
    }
}

/// A fixed-capacity window of buffered-but-undecoded bytes.
pub struct BufferWindow {
    data: Vec<u8>,
    capacity: usize,
}

impl BufferWindow {
    /// The buffered bytes, earliest first, for specifications.
    pub closed spec fn contents(self) -> Seq<u8> {
        self.data@
    }

    /// The fixed capacity, for specifications.
    pub closed spec fn spec_capacity(self) -> usize {
        self.capacity
    }

    /// Bounded memory: the window never holds more than its capacity.
    pub open spec fn wf(self) -> bool {
        1 <= self.spec_capacity() && self.contents().len() <= self.spec_capacity()
    }

    /// An empty window of the given capacity.
    pub fn new(capacity: usize) -> (w: BufferWindow)
        requires
            1 <= capacity,
        ensures
            w.wf(),
            w.spec_capacity() == capacity,
            w.contents() == Seq::<u8>::empty(),
    {
        BufferWindow { data: Vec::new(), capacity }
    }

    /// How many bytes are buffered.
    pub fn len(&self) -> (n: usize)
        ensures
            n == self.contents().len(),
    {
        self.data.len()
    }

    /// The fixed capacity.
    pub fn capacity(&self) -> (n: usize)
        ensures
            n == self.spec_capacity(),
    {
        self.capacity
    }

    /// How many more bytes the window can take.
    pub fn free_space(&self) -> (n: usize)
        requires
            self.wf(),
        ensures
            n == self.spec_capacity() - self.contents().len(),
    {
        self.capacity - self.data.len()
    }

    /// Whether the prefetch gate is satisfied: at least `threshold` bytes
    /// are buffered.
    pub fn prefetch_met(&self, threshold: u64) -> (b: bool)
        ensures
            b == (self.contents().len() >= threshold),
    {
        self.data.len() as u64 >= threshold
    }

    /// Stores the longest prefix of `chunk` that fits and reports how much
    /// was accepted; a full window accepts nothing, so the producer must
    /// hold the rest back until the decoder drains the window.
    pub fn feed(&mut self, chunk: &[u8]) -> (accepted: usize)
        requires
            old(self).wf(),
        ensures
            final(self).wf(),
            final(self).spec_capacity() == old(self).spec_capacity(),
            accepted == if chunk@.len() <= old(self).spec_capacity() - old(self).contents().len() {
                chunk@.len() as int
            } else {
                old(self).spec_capacity() - old(self).contents().len()
            },
            final(self).contents() == old(self).contents() + chunk@.take(accepted as int),
            final(self).contents().len() <= final(self).spec_capacity(),
    {
        let room: usize = self.capacity - self.data.len();
        let take: usize = if chunk.len() <= room {
            chunk.len()
        } else {
            room
        };
        let mut i: usize = 0;
        while i < take
            invariant
                i <= take,
                take <= chunk@.len(),
                self.capacity == old(self).spec_capacity(),
                old(self).contents().len() + take <= self.capacity,
                self.data@ == old(self).contents() + chunk@.take(i as int),
            decreases take - i,
        {
            self.data.push(chunk[i]);
            proof {
                assert(self.data@ =~= old(self).contents() + chunk@.take(i + 1 as int));
            }
            i = i + 1;
        }
        take
    }

    /// Hands the earliest `n` buffered bytes to the decoder and drops them
    /// from the window.
    pub fn consume(&mut self, n: usize) -> (taken: Vec<u8>)
        requires
            old(self).wf(),
            n <= old(self).contents().len(),
        ensures
            final(self).wf(),
            final(self).spec_capacity() == old(self).spec_capacity(),
            taken@ == old(self).contents().take(n as int),
            final(self).contents() == old(self).contents().skip(n as int),
    {
        let mut taken = self.data.split_off(n);
        core::mem::swap(&mut self.data, &mut taken);
        proof {
            assert(taken@ =~= old(self).contents().take(n as int));
            assert(self.data@ =~= old(self).contents().skip(n as int));
        }
        taken
    }
}

/// Bounded memory, as a law: however long a stream runs, a well-formed
/// window holds no more bytes than its fixed capacity.
pub proof fn lemma_bounded_memory(w: BufferWindow)
    requires
        w.wf(),
    ensures
        w.contents().len() <= w.spec_capacity(),
{
}

} // verus!
