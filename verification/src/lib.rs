//! Driver core for an on-chip Ethernet MAC/DMA peripheral.
//!
//! The crate covers the descriptor-ring engines that hand packet buffers
//! back and forth between software and the DMA hardware (receive and
//! transmit), and the PHY control plane that drives link auto-negotiation
//! over the two-wire station-management bus.
//!
//! Hardware registers are reached only through explicit capability objects
//! (`DmaEngine` for the DMA control/status surface, `MiiRegisters` for the
//! management-bus register pair), so the engine logic is independent of any
//! particular chip and a simulated peripheral can stand in for the real one.

use vstd::prelude::*;

mod dma;
mod phy_dp83848;
mod ring;
mod rx;
mod sim;
mod smi;
mod tx;

pub use dma::{eth_interrupt_handler, DmaEngine, RunningState};
pub use phy_dp83848::{
    lemma_linked_equivalent, lemma_no_link_equivalent, phy_status_equivalent, spec_autoneg_done,
    spec_is_full_duplex, spec_link_detected, spec_remote_fault, spec_speed, Phy, PhyStatus,
    PHY_ADDR, PHY_REG_BMCR, PHY_REG_BMCR_AUTO_NEGOTIATION, PHY_REG_BMCR_RESET, PHY_REG_BMSR,
    PHY_REG_BMSR_100_FULL, PHY_REG_BMSR_100_HALF, PHY_REG_BMSR_10_FULL, PHY_REG_BMSR_10_HALF,
    PHY_REG_BMSR_AUTONEG_COMPLETE, PHY_REG_BMSR_LINK_STATUS, PHY_REG_BMSR_REMOTE_FAULT,
};
pub use sim::{lemma_loopback_view, sim_rx_deliver, sim_tx_collect, SimMii};
pub use smi::{
    read_command, spec_read_command, spec_write_command, write_command, MiiRegisters, Smi,
    MII_BUSY, MII_WRITE,
};
pub use ring::{advanced, lemma_ring_traversal, next_index, Ownership};
pub use rx::{lemma_fresh_ring_not_ready, RxDescriptor, RxError, RxPacket, RxRing, RxRingEntry};
pub use tx::{TxDescriptor, TxError, TxRing, TxRingEntry};

verus! {

/// Largest frame a ring buffer must admit: a VLAN-tagged frame of 1522 bytes.
pub const MTU: usize = 1522;

} // verus!
