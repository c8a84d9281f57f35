//! The receive descriptor ring: a fixed-capacity circular buffer of
//! hardware-visible descriptors, each owning one fixed-size packet buffer.
//!
//! Software inspects the entry under its cursor; the hardware deposits
//! frames and flips descriptors to `Software` ownership as it goes.  A
//! successful receive hands out an `RxPacket` view; releasing the view
//! arms the descriptor again, advances the cursor, and nudges a stalled
//! engine with a demand poll.

use crate::dma::DmaEngine;
use crate::dma::RunningState;
use crate::ring::advance_cursor;
use crate::ring::next_index;
use crate::ring::Ownership;
use crate::MTU;
use vstd::prelude::*;

verus! {

/// Why `recv_next` did not hand out a frame.
#[derive(Clone, Copy, PartialEq, Eq, Structural, Debug)]
pub enum RxError {
    /// No frame is ready: the descriptor under the cursor is still
    /// hardware-owned.  An expected, frequent outcome of polling, not a
    /// fault.
    WouldBlock,
    /// The frame did not fit a single buffer: the hardware cleared the
    /// first- or last-segment flag.  The descriptor was recycled and the
    /// frame discarded.
    Truncated,
    /// The hardware flagged the frame corrupt (CRC, collision or overflow
    /// during reception).  The descriptor was recycled and the frame
    /// discarded.
    Crc,
}

/// The hardware-visible control block of one receive entry.
#[derive(Clone, Copy, PartialEq, Eq, Structural, Debug)]
pub struct RxDescriptor {
    /// The single-bit handoff marker between software and the engine.
    pub own: Ownership,
    /// The deposited frame starts in this buffer.
    pub first_segment: bool,
    /// The deposited frame ends in this buffer.
    pub last_segment: bool,
    /// The hardware flagged the deposited frame as faulty.
    pub error: bool,
    /// Length of the deposited frame, reported by the hardware.
    pub frame_len: usize,
}

impl RxDescriptor {
    /// A cleared, hardware-owned descriptor, armed for the engine to fill.
    pub open spec fn spec_armed() -> RxDescriptor {
        RxDescriptor {
            own: Ownership::Hardware,
            first_segment: false,
            last_segment: false,
            error: false,
            frame_len: 0,
        }
    }

    /// Build a cleared, hardware-owned descriptor.
    pub fn armed() -> (r: RxDescriptor)
        ensures
            r == RxDescriptor::spec_armed(),
    {
        RxDescriptor {
            own: Ownership::Hardware,
            first_segment: false,
            last_segment: false,
            error: false,
            frame_len: 0,
        }
    }
}

/// Law: in a freshly constructed receive ring — every descriptor cleared
/// and hardware-owned, as `RxRing::new` leaves it, whatever the ring's
/// size — the descriptor under the cursor is hardware-owned, so a receive
/// before the hardware ever deposits a frame can only yield `WouldBlock`.
pub proof fn lemma_fresh_ring_not_ready(r: RxRing)
    requires
        r.wf(),
        forall|i: int|
            0 <= i < r.entries@.len() ==> (#[trigger] r.entries@[i]).desc
                == RxDescriptor::spec_armed(),
    ensures
        r.entries@[r.cursor as int].desc.own == Ownership::Hardware,
{
}

/// One ring entry: a descriptor paired with its fixed-size packet buffer.
pub struct RxRingEntry {
    /// The hardware-visible control block.
    pub desc: RxDescriptor,
    /// The paired packet buffer; its length is the entry's fixed capacity.
    pub buffer: Vec<u8>,
}

impl RxRingEntry {
    /// A fresh entry with a buffer sized to the maximum transmission unit.
    pub fn new() -> (r: RxRingEntry)
        ensures
            r.desc == RxDescriptor::spec_armed(),
            r.buffer@.len() == MTU,
    {
        RxRingEntry { desc: RxDescriptor::armed(), buffer: vec![0u8; MTU] }
    }
}

/// A transient view over one received frame, trimmed to the reported
/// length.  It refers to the ring entry under the cursor and must be given
/// back with `RxRing::release` before the next receive.
#[derive(Clone, Copy, PartialEq, Eq, Structural, Debug)]
pub struct RxPacket {
    /// Index of the ring entry the view refers to.
    pub entry: usize,
    /// The hardware-reported frame length; the view covers the buffer's
    /// first `length` bytes.
    pub length: usize,
}

/// The receive ring: entries in circular order plus the software cursor.
pub struct RxRing {
    /// The descriptor/buffer pairs, in the circular order the hardware
    /// scans them.
    pub entries: Vec<RxRingEntry>,
    /// Index of the oldest not-yet-processed entry; never skips and never
    /// moves backward.
    pub cursor: usize,
    /// A packet view is outstanding: the descriptor under the cursor stays
    /// software-owned until the view is released.
    pub outstanding: bool,
}

impl RxRing {
    /// Well-formedness: at least one entry, the cursor in range, every
    /// reported frame length within its buffer, and an outstanding view
    /// only over a software-owned descriptor.
    pub open spec fn wf(self) -> bool {
        &&& 1 <= self.entries@.len()
        &&& (self.cursor as int) < self.entries@.len()
        &&& forall|i: int|
            0 <= i < self.entries@.len() ==> (#[trigger] self.entries@[i]).desc.frame_len
                <= self.entries@[i].buffer@.len()
        &&& self.outstanding ==> self.entries@[self.cursor as int].desc.own == Ownership::Software
    }

    /// Build a ring over caller-supplied entries: every descriptor is
    /// cleared and immediately marked hardware-owned, ready to accept
    /// frames; the buffers are kept as supplied.
    pub fn new(entries: Vec<RxRingEntry>) -> (r: RxRing)
        requires
            entries@.len() >= 1,
        ensures
            r.wf(),
            r.cursor == 0,
            !r.outstanding,
            r.entries@.len() == entries@.len(),
            forall|i: int|
                0 <= i < entries@.len() ==> (#[trigger] r.entries@[i]).desc
                    == RxDescriptor::spec_armed() && r.entries@[i].buffer@ == entries@[i].buffer@,
    {
        let mut entries = entries;
        let ghost orig = entries@;
        let n = entries.len();
        let mut i: usize = 0;
        while i < n
            invariant
                n == entries@.len(),
                orig.len() == n,
                i <= n,
                forall|j: int|
                    0 <= j < i ==> (#[trigger] entries@[j]).desc == RxDescriptor::spec_armed(),
                forall|j: int| 0 <= j < n ==> (#[trigger] entries@[j]).buffer@ == orig[j].buffer@,
            decreases n - i,
        {
            entries[i].desc = RxDescriptor::armed();
            i += 1;
        }
        RxRing { entries, cursor: 0, outstanding: false }
    }

    /// Program the ring's base address into the hardware and set the
    /// receive enable bit.  Must be called exactly once, after
    /// construction, before any receive.
    pub fn start(&self, eth_dma: &mut DmaEngine)
        requires
            self.wf(),
            !old(eth_dma).rx_started,
        ensures
            *final(eth_dma) == (DmaEngine {
                rx_started: true,
                rx_running: true,
                rx_scan: 0,
                ..*old(eth_dma)
            }),
    {
        eth_dma.rx_started = true;
        eth_dma.rx_running = true;
        eth_dma.rx_scan = 0;
    }

    /// Read the engine's running state from the status bits; mutates
    /// nothing.
    pub fn running_state(&self, eth_dma: &DmaEngine) -> (r: RunningState)
        ensures
            r == if eth_dma.rx_running {
                RunningState::Running
            } else {
                RunningState::Stopped
            },
    {
        if eth_dma.rx_running {
            RunningState::Running
        } else {
            RunningState::Stopped
        }
    }

    /// Receive the next frame, if one is ready.
    ///
    /// The entry under the cursor is inspected.  Hardware-owned: no frame
    /// is ready, `WouldBlock`.  Software-owned but flagged faulty by the
    /// hardware: the descriptor is recycled immediately (re-armed, cursor
    /// advanced, engine nudged) and the specific error is returned — the
    /// faulty buffer is never exposed.  Otherwise an `RxPacket` view over
    /// the frame is handed out and the descriptor stays software-owned
    /// until the view is released.
    pub fn recv_next(&mut self, eth_dma: &mut DmaEngine) -> (result: Result<RxPacket, RxError>)
        requires
            old(self).wf(),
            !old(self).outstanding,
        ensures
            final(self).wf(),
            final(self).entries@.len() == old(self).entries@.len(),
            final(eth_dma).tx_running == old(eth_dma).tx_running,
            final(eth_dma).rx_started == old(eth_dma).rx_started,
            final(eth_dma).tx_started == old(eth_dma).tx_started,
            final(eth_dma).rx_scan == old(eth_dma).rx_scan,
            final(eth_dma).tx_scan == old(eth_dma).tx_scan,
            final(eth_dma).rx_interrupt_pending == old(eth_dma).rx_interrupt_pending,
            final(eth_dma).tx_interrupt_pending == old(eth_dma).tx_interrupt_pending,
            ({
                let c = old(self).cursor as int;
                let d = old(self).entries@[c].desc;
                if d.own == Ownership::Hardware {
                    &&& result == Err::<RxPacket, RxError>(RxError::WouldBlock)
                    &&& *final(self) == *old(self)
                    &&& final(eth_dma).rx_running == old(eth_dma).rx_running
                } else if d.error || !(d.first_segment && d.last_segment) {
                    &&& result == Err::<RxPacket, RxError>(
                        if d.error {
                            RxError::Crc
                        } else {
                            RxError::Truncated
                        },
                    )
                    &&& final(self).entries@ == old(self).entries@.update(
                        c,
                        (RxRingEntry {
                            desc: RxDescriptor::spec_armed(),
                            buffer: old(self).entries@[c].buffer,
                        }),
                    )
                    &&& final(self).cursor as nat == next_index(
                        old(self).cursor as nat,
                        old(self).entries@.len(),
                    )
                    &&& !final(self).outstanding
                    &&& final(eth_dma).rx_running
                } else {
                    &&& result == Ok::<RxPacket, RxError>(
                        (RxPacket { entry: old(self).cursor, length: d.frame_len }),
                    )
                    &&& final(self).entries@ == old(self).entries@
                    &&& final(self).cursor == old(self).cursor
                    &&& final(self).outstanding
                    &&& final(eth_dma).rx_running == old(eth_dma).rx_running
                }
            }),
    {
        let c = self.cursor;
        let n = self.entries.len();
        let d = self.entries[c].desc;
        if d.own == Ownership::Hardware {
            return Err(RxError::WouldBlock);
        }
        if d.error || !(d.first_segment && d.last_segment) {
            // Hardware-flagged fault: recycle the descriptor at once so the
            // ring is never left wedged by a bad frame.
            self.entries[c].desc = RxDescriptor::armed();
            self.cursor = advance_cursor(c, n);
            if !eth_dma.rx_running {
                // The engine stalled on this very descriptor: demand-poll
                // so it resumes scanning.
                eth_dma.rx_running = true;
            }
            if d.error {
                return Err(RxError::Crc);
            }
            return Err(RxError::Truncated);
        }
        self.outstanding = true;
        Ok(RxPacket { entry: c, length: d.frame_len })
    }

    /// Give a packet view back: clear the status bits, return the
    /// descriptor to hardware ownership, advance the cursor by one, and
    /// demand-poll the engine if it had stalled on this descriptor.
    pub fn release(&mut self, packet: RxPacket, eth_dma: &mut DmaEngine)
        requires
            old(self).wf(),
            old(self).outstanding,
            packet.entry == old(self).cursor,
        ensures
            final(self).wf(),
            !final(self).outstanding,
            final(self).entries@ == old(self).entries@.update(
                old(self).cursor as int,
                (RxRingEntry {
                    desc: RxDescriptor::spec_armed(),
                    buffer: old(self).entries@[old(self).cursor as int].buffer,
                }),
            ),
            final(self).cursor as nat == next_index(
                old(self).cursor as nat,
                old(self).entries@.len(),
            ),
            *final(eth_dma) == (DmaEngine { rx_running: true, ..*old(eth_dma) }),
    {
        let c = self.cursor;
        let n = self.entries.len();
        self.entries[c].desc = RxDescriptor::armed();
        self.cursor = advance_cursor(c, n);
        self.outstanding = false;
        if !eth_dma.rx_running {
            eth_dma.rx_running = true;
        }
    }

    /// Read one byte of the frame an outstanding view covers.
    pub fn frame_byte(&self, packet: &RxPacket, i: usize) -> (r: u8)
        requires
            self.wf(),
            self.outstanding,
            packet.entry == self.cursor,
            packet.length <= self.entries@[packet.entry as int].buffer@.len(),
            i < packet.length,
        ensures
            r == self.entries@[packet.entry as int].buffer@[i as int],
    {
        self.entries[packet.entry].buffer[i]
    }

    /// Copy the frame an outstanding view covers: exactly the buffer's
    /// first `length` bytes, as the hardware reported them.
    pub fn frame_to_vec(&self, packet: &RxPacket) -> (r: Vec<u8>)
        requires
            self.wf(),
            self.outstanding,
            packet.entry == self.cursor,
            packet.length <= self.entries@[packet.entry as int].buffer@.len(),
        ensures
            r@ == self.entries@[packet.entry as int].buffer@.subrange(0, packet.length as int),
    {
        let mut out: Vec<u8> = Vec::new();
        let mut i: usize = 0;
        while i < packet.length
            invariant
                self.wf(),
                self.outstanding,
                packet.entry == self.cursor,
                packet.length <= self.entries@[packet.entry as int].buffer@.len(),
                i <= packet.length,
                out@ == self.entries@[packet.entry as int].buffer@.subrange(0, i as int),
            decreases packet.length - i,
        {
            out.push(self.entries[packet.entry].buffer[i]);
            proof {
                assert(out@ =~= self.entries@[packet.entry as int].buffer@.subrange(
                    0,
                    i + 1 as int,
                ));
            }
            i += 1;
        }
        out
    }
}

} // verus!
