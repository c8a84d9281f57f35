//! The transmit descriptor ring.
//!
//! `send` is the zero-copy frame-construction point: the caller-supplied
//! filler writes the frame straight into the descriptor's buffer, after
//! which the descriptor is handed to the hardware and the engine nudged
//! with an unconditional demand poll.

use crate::dma::DmaEngine;
use crate::ring::advance_cursor;
use crate::ring::next_index;
use crate::ring::Ownership;
use crate::MTU;
use vstd::prelude::*;

verus! {

/// Why `send` did not queue a frame.
#[derive(Clone, Copy, PartialEq, Eq, Structural, Debug)]
pub enum TxError {
    /// The descriptor under the cursor is still hardware-owned: the ring
    /// is at capacity.  Retry later or drop the frame.
    WouldBlock,
    /// The requested length exceeds the entry's fixed buffer capacity.  A
    /// caller error; no descriptor was touched and the filler never ran.
    TooLarge,
}

/// The hardware-visible control block of one transmit entry.
#[derive(Clone, Copy, PartialEq, Eq, Structural, Debug)]
pub struct TxDescriptor {
    /// The single-bit handoff marker between software and the engine.
    pub own: Ownership,
    /// The queued frame starts in this buffer.
    pub first_segment: bool,
    /// The queued frame ends in this buffer.
    pub last_segment: bool,
    /// The hardware finished transmitting this buffer and handed it back.
    pub completed: bool,
    /// Length of the frame to transmit.
    pub frame_len: usize,
}

impl TxDescriptor {
    /// A cleared, software-owned descriptor, ready to be filled.
    pub open spec fn spec_idle() -> TxDescriptor {
        TxDescriptor {
            own: Ownership::Software,
            first_segment: false,
            last_segment: false,
            completed: false,
            frame_len: 0,
        }
    }

    /// Build a cleared, software-owned descriptor.
    pub fn idle() -> (r: TxDescriptor)
        ensures
            r == TxDescriptor::spec_idle(),
    {
        TxDescriptor {
            own: Ownership::Software,
            first_segment: false,
            last_segment: false,
            completed: false,
            frame_len: 0,
        }
    }
}

/// One ring entry: a descriptor paired with its fixed-size packet buffer.
pub struct TxRingEntry {
    /// The hardware-visible control block.
    pub desc: TxDescriptor,
    /// The paired packet buffer; its length is the entry's fixed capacity.
    pub buffer: Vec<u8>,
}

impl TxRingEntry {
    /// A fresh entry with a buffer sized to the maximum transmission unit.
    pub fn new() -> (r: TxRingEntry)
        ensures
            r.desc == TxDescriptor::spec_idle(),
            r.buffer@.len() == MTU,
    {
        TxRingEntry { desc: TxDescriptor::idle(), buffer: vec![0u8; MTU] }
    }
}

/// The transmit ring: entries in circular order plus the software cursor.
pub struct TxRing {
    /// The descriptor/buffer pairs, in the circular order the hardware
    /// scans them.
    pub entries: Vec<TxRingEntry>,
    /// Index of the next entry to fill; never skips and never moves
    /// backward.
    pub cursor: usize,
}

impl TxRing {
    /// Well-formedness: at least one entry, the cursor in range, and every
    /// programmed frame length within its buffer.
    pub open spec fn wf(self) -> bool {
        &&& 1 <= self.entries@.len()
        &&& (self.cursor as int) < self.entries@.len()
        &&& forall|i: int|
            0 <= i < self.entries@.len() ==> (#[trigger] self.entries@[i]).desc.frame_len
                <= self.entries@[i].buffer@.len()
    }

    /// Build a ring over caller-supplied entries: every descriptor is
    /// cleared and marked software-owned, ready to be filled; the buffers
    /// are kept as supplied.
    pub fn new(entries: Vec<TxRingEntry>) -> (r: TxRing)
        requires
            entries@.len() >= 1,
        ensures
            r.wf(),
            r.cursor == 0,
            r.entries@.len() == entries@.len(),
            forall|i: int|
                0 <= i < entries@.len() ==> (#[trigger] r.entries@[i]).desc
                    == TxDescriptor::spec_idle() && r.entries@[i].buffer@ == entries@[i].buffer@,
    {
        let mut entries = entries;
        let ghost orig = entries@;
        let n = entries.len();
        let mut i: usize = 0;
        while i < n
            invariant
                n == entries@.len(),
                orig.len() == n,
                i <= n,
                forall|j: int|
                    0 <= j < i ==> (#[trigger] entries@[j]).desc == TxDescriptor::spec_idle(),
                forall|j: int| 0 <= j < n ==> (#[trigger] entries@[j]).buffer@ == orig[j].buffer@,
            decreases n - i,
        {
            entries[i].desc = TxDescriptor::idle();
            i += 1;
        }
        TxRing { entries, cursor: 0 }
    }

    /// Program the ring's base address into the hardware and set the
    /// transmit enable bit.  Must be called exactly once, after
    /// construction, before any send.
    pub fn start(&self, eth_dma: &mut DmaEngine)
        requires
            self.wf(),
            !old(eth_dma).tx_started,
        ensures
            *final(eth_dma) == (DmaEngine {
                tx_started: true,
                tx_running: true,
                tx_scan: 0,
                ..*old(eth_dma)
            }),
    {
        eth_dma.tx_started = true;
        eth_dma.tx_running = true;
        eth_dma.tx_scan = 0;
    }

    /// Read the engine's running state from the status bits; mutates
    /// nothing.
    pub fn is_running(&self, eth_dma: &DmaEngine) -> (r: bool)
        ensures
            r == eth_dma.tx_running,
    {
        eth_dma.tx_running
    }

    /// Nudge a stalled engine to re-scan the ring for newly available
    /// descriptors.  Idempotent.
    pub fn demand_poll(&self, eth_dma: &mut DmaEngine)
        ensures
            *final(eth_dma) == (DmaEngine { tx_running: true, ..*old(eth_dma) }),
    {
        eth_dma.tx_running = true;
    }

    /// Queue one frame of `length` bytes, built in place by `filler`.
    ///
    /// The entry under the cursor is inspected first: hardware-owned means
    /// the ring is saturated, `WouldBlock`, and nothing is touched.  A
    /// `length` over the entry's fixed capacity is a caller error,
    /// `TooLarge`, and the filler never runs.  Otherwise the filler gets
    /// the entry's buffer, its result is captured, the descriptor is
    /// programmed (length, first/last segment) and handed to the hardware,
    /// and the cursor advances.  Every call ends with an unconditional,
    /// idempotent demand poll so the engine promptly notices a newly
    /// available descriptor.
    ///
    /// The filler must hand the buffer back at its full capacity: it
    /// writes the frame into the first `length` bytes, it does not resize.
    pub fn send<R, F: FnOnce(Vec<u8>) -> (Vec<u8>, R)>(
        &mut self,
        length: usize,
        filler: F,
        eth_dma: &mut DmaEngine,
    ) -> (result: Result<R, TxError>)
        requires
            old(self).wf(),
            forall|b: Vec<u8>| call_requires(filler, (b,)),
            forall|b: Vec<u8>, out: (Vec<u8>, R)|
                #[trigger] call_ensures(filler, (b,), out) ==> out.0@.len() == b@.len(),
        ensures
            final(self).wf(),
            final(self).entries@.len() == old(self).entries@.len(),
            *final(eth_dma) == (DmaEngine { tx_running: true, ..*old(eth_dma) }),
            ({
                let c = old(self).cursor as int;
                let e = old(self).entries@[c];
                if e.desc.own == Ownership::Hardware {
                    &&& result == Err::<R, TxError>(TxError::WouldBlock)
                    &&& *final(self) == *old(self)
                } else if length > e.buffer@.len() {
                    &&& result == Err::<R, TxError>(TxError::TooLarge)
                    &&& *final(self) == *old(self)
                } else {
                    &&& result matches Ok(r) && call_ensures(
                        filler,
                        (e.buffer,),
                        (final(self).entries@[c].buffer, r),
                    )
                    &&& final(self).entries@[c].buffer@.len() == e.buffer@.len()
                    &&& final(self).entries@[c].desc == (TxDescriptor {
                        own: Ownership::Hardware,
                        first_segment: true,
                        last_segment: true,
                        completed: false,
                        frame_len: length,
                    })
                    &&& forall|j: int|
                        0 <= j < old(self).entries@.len() && j != c ==> final(self).entries@[j]
                            == old(self).entries@[j]
                    &&& final(self).cursor as nat == next_index(
                        old(self).cursor as nat,
                        old(self).entries@.len(),
                    )
                }
            }),
    {
        let c = self.cursor;
        let n = self.entries.len();
        if self.entries[c].desc.own == Ownership::Hardware {
            eth_dma.tx_running = true;
            return Err(TxError::WouldBlock);
        }
        if length > self.entries[c].buffer.len() {
            eth_dma.tx_running = true;
            return Err(TxError::TooLarge);
        }
        let mut buf: Vec<u8> = Vec::new();
        core::mem::swap(&mut self.entries[c].buffer, &mut buf);
        let (filled, r) = filler(buf);
        self.entries[c].buffer = filled;
        self.entries[c].desc = TxDescriptor {
            own: Ownership::Hardware,
            first_segment: true,
            last_segment: true,
            completed: false,
            frame_len: length,
        };
        self.cursor = advance_cursor(c, n);
        eth_dma.tx_running = true;
        Ok(r)
    }
}

} // verus!
