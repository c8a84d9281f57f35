//! A simulated peripheral: the hardware's side of the descriptor-ring
//! handoff protocol, and a management-bus register pair backed by an
//! in-memory PHY device.
//!
//! The rings and the PHY driver only act on capability objects, so these
//! simulations can stand in for the chip: a loopback test drains the
//! transmit ring with `sim_tx_collect` and deposits the frames with
//! `sim_rx_deliver`, exactly as the DMA engine would, and `SimMii`
//! completes bus transactions instantly against a register bank.

use crate::dma::DmaEngine;
use crate::phy_dp83848::PHY_REG_BMCR_AUTO_NEGOTIATION;
use crate::phy_dp83848::PHY_REG_BMCR_RESET;
use crate::phy_dp83848::PHY_REG_BMSR_AUTONEG_COMPLETE;
use crate::ring::advance_cursor;
use crate::ring::next_index;
use crate::ring::Ownership;
use crate::rx::RxDescriptor;
use crate::rx::RxRing;
use crate::smi::MiiRegisters;
use crate::smi::MII_BUSY;
use crate::smi::MII_WRITE;
use crate::tx::TxDescriptor;
use crate::tx::TxRing;
use crate::tx::TxRingEntry;
use vstd::prelude::*;

verus! {

/// The receive engine's step: deposit one frame into the ring, as the
/// hardware would.
///
/// If the engine is suspended, nothing happens.  If the descriptor at the
/// engine's scan position is still software-owned, the engine suspends on
/// it.  Otherwise the frame is written into the entry's buffer (the tail
/// padded with zeroes), the status bits and reported length are set, the
/// descriptor is handed to software, the scan position advances and a
/// receive interrupt cause is raised.
pub fn sim_rx_deliver(
    ring: &mut RxRing,
    eth_dma: &mut DmaEngine,
    frame: &Vec<u8>,
    first_segment: bool,
    last_segment: bool,
    error: bool,
) -> (accepted: bool)
    requires
        old(ring).wf(),
        old(eth_dma).rx_started,
        (old(eth_dma).rx_scan as int) < old(ring).entries@.len(),
        frame@.len() <= old(ring).entries@[old(eth_dma).rx_scan as int].buffer@.len(),
    ensures
        final(ring).wf(),
        final(ring).entries@.len() == old(ring).entries@.len(),
        final(ring).cursor == old(ring).cursor,
        final(ring).outstanding == old(ring).outstanding,
        ({
            let s = old(eth_dma).rx_scan as int;
            if !old(eth_dma).rx_running {
                &&& !accepted
                &&& *final(ring) == *old(ring)
                &&& *final(eth_dma) == *old(eth_dma)
            } else if old(ring).entries@[s].desc.own == Ownership::Software {
                &&& !accepted
                &&& *final(ring) == *old(ring)
                &&& *final(eth_dma) == (DmaEngine { rx_running: false, ..*old(eth_dma) })
            } else {
                &&& accepted
                &&& final(ring).entries@[s].desc == (RxDescriptor {
                    own: Ownership::Software,
                    first_segment,
                    last_segment,
                    error,
                    frame_len: frame@.len() as usize,
                })
                &&& final(ring).entries@[s].buffer@.len() == old(ring).entries@[s].buffer@.len()
                &&& final(ring).entries@[s].buffer@.subrange(0, frame@.len() as int) == frame@
                &&& forall|i: int|
                    frame@.len() <= i < final(ring).entries@[s].buffer@.len()
                        ==> final(ring).entries@[s].buffer@[i] == 0u8
                &&& forall|j: int|
                    0 <= j < old(ring).entries@.len() && j != s ==> final(ring).entries@[j]
                        == old(ring).entries@[j]
                &&& final(eth_dma).rx_scan as nat == next_index(
                    old(eth_dma).rx_scan as nat,
                    old(ring).entries@.len(),
                )
                &&& *final(eth_dma) == (DmaEngine {
                    rx_scan: final(eth_dma).rx_scan,
                    rx_interrupt_pending: true,
                    ..*old(eth_dma)
                })
            }
        }),
{
    if !eth_dma.rx_running {
        return false;
    }
    let s = eth_dma.rx_scan;
    let n = ring.entries.len();
    if ring.entries[s].desc.own == Ownership::Software {
        eth_dma.rx_running = false;
        return false;
    }
    let cap = ring.entries[s].buffer.len();
    let mut buf: Vec<u8> = Vec::new();
    let mut i: usize = 0;
    while i < frame.len()
        invariant
            i <= frame@.len(),
            buf@ == frame@.subrange(0, i as int),
        decreases frame@.len() - i,
    {
        buf.push(frame[i]);
        proof {
            assert(buf@ =~= frame@.subrange(0, i + 1 as int));
        }
        i += 1;
    }
    proof {
        assert(buf@ =~= frame@);
    }
    while buf.len() < cap
        invariant
            frame@.len() <= buf@.len() <= cap,
            buf@.subrange(0, frame@.len() as int) == frame@,
            forall|k: int| frame@.len() <= k < buf@.len() ==> buf@[k] == 0u8,
        decreases cap - buf@.len(),
    {
        let ghost prev = buf@;
        buf.push(0u8);
        proof {
            assert(buf@.subrange(0, frame@.len() as int) =~= prev.subrange(
                0,
                frame@.len() as int,
            ));
        }
    }
    ring.entries[s].buffer = buf;
    ring.entries[s].desc = RxDescriptor {
        own: Ownership::Software,
        first_segment,
        last_segment,
        error,
        frame_len: frame.len(),
    };
    eth_dma.rx_scan = advance_cursor(s, n);
    eth_dma.rx_interrupt_pending = true;
    true
}

/// The transmit engine's step: drain one queued frame from the ring, as
/// the hardware would.
///
/// If the engine is suspended, nothing happens.  If the descriptor at the
/// engine's scan position is still software-owned, the engine suspends on
/// it.  Otherwise the programmed frame bytes are taken off the wire side,
/// the descriptor is marked completed and handed back to software, the
/// scan position advances and a transmit interrupt cause is raised.
pub fn sim_tx_collect(ring: &mut TxRing, eth_dma: &mut DmaEngine) -> (r: Option<Vec<u8>>)
    requires
        old(ring).wf(),
        old(eth_dma).tx_started,
        (old(eth_dma).tx_scan as int) < old(ring).entries@.len(),
    ensures
        final(ring).wf(),
        final(ring).entries@.len() == old(ring).entries@.len(),
        final(ring).cursor == old(ring).cursor,
        ({
            let s = old(eth_dma).tx_scan as int;
            let e = old(ring).entries@[s];
            if !old(eth_dma).tx_running {
                &&& r is None
                &&& *final(ring) == *old(ring)
                &&& *final(eth_dma) == *old(eth_dma)
            } else if e.desc.own == Ownership::Software {
                &&& r is None
                &&& *final(ring) == *old(ring)
                &&& *final(eth_dma) == (DmaEngine { tx_running: false, ..*old(eth_dma) })
            } else {
                &&& r matches Some(bytes) && bytes@ == e.buffer@.subrange(
                    0,
                    e.desc.frame_len as int,
                )
                &&& final(ring).entries@ == old(ring).entries@.update(
                    s,
                    (TxRingEntry {
                        desc: (TxDescriptor {
                            own: Ownership::Software,
                            completed: true,
                            ..e.desc
                        }),
                        buffer: e.buffer,
                    }),
                )
                &&& final(eth_dma).tx_scan as nat == next_index(
                    old(eth_dma).tx_scan as nat,
                    old(ring).entries@.len(),
                )
                &&& *final(eth_dma) == (DmaEngine {
                    tx_scan: final(eth_dma).tx_scan,
                    tx_interrupt_pending: true,
                    ..*old(eth_dma)
                })
            }
        }),
{
    if !eth_dma.tx_running {
        return None;
    }
    let s = eth_dma.tx_scan;
    let n = ring.entries.len();
    if ring.entries[s].desc.own == Ownership::Software {
        eth_dma.tx_running = false;
        return None;
    }
    let frame_len = ring.entries[s].desc.frame_len;
    let mut bytes: Vec<u8> = Vec::new();
    let mut i: usize = 0;
    while i < frame_len
        invariant
            old(ring).wf(),
            *ring == *old(ring),
            s == old(eth_dma).tx_scan,
            (s as int) < ring.entries@.len(),
            frame_len == ring.entries@[s as int].desc.frame_len,
            frame_len <= ring.entries@[s as int].buffer@.len(),
            i <= frame_len,
            bytes@ == ring.entries@[s as int].buffer@.subrange(0, i as int),
        decreases frame_len - i,
    {
        bytes.push(ring.entries[s].buffer[i]);
        proof {
            assert(bytes@ =~= ring.entries@[s as int].buffer@.subrange(0, i + 1 as int));
        }
        i += 1;
    }
    let d = ring.entries[s].desc;
    ring.entries[s].desc = TxDescriptor {
        own: Ownership::Software,
        first_segment: d.first_segment,
        last_segment: d.last_segment,
        completed: true,
        frame_len: d.frame_len,
    };
    eth_dma.tx_scan = advance_cursor(s, n);
    eth_dma.tx_interrupt_pending = true;
    Some(bytes)
}

/// Law: a frame that goes out through the transmit ring and is looped back
/// into a receive buffer is seen by the receiver exactly as the filler
/// wrote it, trimmed to the reported length — `filled` is the transmit
/// buffer the filler produced, `collected` what the engine took off it,
/// and `rx_stored` the receive buffer the loopback deposited it into.
pub proof fn lemma_loopback_view(
    filled: Seq<u8>,
    length: int,
    collected: Seq<u8>,
    rx_stored: Seq<u8>,
)
    requires
        0 <= length <= filled.len(),
        collected == filled.subrange(0, length),
        length <= rx_stored.len(),
        rx_stored.subrange(0, collected.len() as int) == collected,
    ensures
        rx_stored.subrange(0, length) == filled.subrange(0, length),
{
    assert(collected.len() == length);
}

/// A simulated management-interface register pair in front of a bank of
/// 32 PHY device registers.  Transactions complete instantly: a write
/// with the busy bit set is executed against the bank and the busy bit is
/// cleared at once.  The device behind it answers like an instantaneous
/// transceiver: the reset control bit self-clears on write, and enabling
/// auto-negotiation sets the completion bit in the status register.
pub struct SimMii {
    /// The management-interface address register.
    pub ar: u32,
    /// The management-interface data register.
    pub dr: u32,
    /// The device's register bank, indexed by register address.
    pub regs: Vec<u16>,
}

impl SimMii {
    /// A pair over a device bank of 32 zeroed registers.
    pub fn new() -> (r: SimMii)
        ensures
            r.regs@.len() == 32,
            r.ar == 0,
            r.dr == 0,
    {
        SimMii { ar: 0, dr: 0, regs: vec![0u16; 32] }
    }

    /// Program one device register directly, as a test harness does to
    /// stage the device's state.
    pub fn set_reg(&mut self, reg: u8, value: u16)
        requires
            reg < 32,
            old(self).regs@.len() == 32,
        ensures
            final(self).regs@ == old(self).regs@.update(reg as int, value),
            final(self).ar == old(self).ar,
            final(self).dr == old(self).dr,
    {
        self.regs[reg as usize] = value;
    }

    /// Read one device register directly.
    pub fn reg(&self, reg: u8) -> (r: u16)
        requires
            reg < 32,
            self.regs@.len() == 32,
        ensures
            r == self.regs@[reg as int],
    {
        self.regs[reg as usize]
    }
}

impl MiiRegisters for SimMii {
    fn read_ar(&self) -> u32 {
        self.ar
    }

    fn write_ar(&mut self, v: u32) {
        if v & MII_BUSY != 0 && self.regs.len() == 32 {
            let reg = ((v >> 6) % 32) as usize;
            if v & MII_WRITE != 0 {
                let mut value = (self.dr % 0x10000) as u16;
                if reg == 0 {
                    if value & PHY_REG_BMCR_RESET != 0 {
                        // the device completes its reset instantly: the
                        // self-clearing control bit is never seen set
                        value = value & (0xffffu16 - PHY_REG_BMCR_RESET);
                    }
                    if value & PHY_REG_BMCR_AUTO_NEGOTIATION != 0 {
                        // auto-negotiation concludes instantly
                        let bmsr = self.regs[1];
                        self.regs[1] = bmsr | PHY_REG_BMSR_AUTONEG_COMPLETE;
                    }
                }
                self.regs[reg] = value;
            } else {
                self.dr = self.regs[reg] as u32;
            }
            self.ar = v & (0xffff_ffffu32 - MII_BUSY);
        } else {
            self.ar = v;
        }
    }

    fn read_dr(&self) -> u32 {
        self.dr
    }

    fn write_dr(&mut self, v: u32) {
        self.dr = v;
    }
}

} // verus!
