//! Model of the DMA engine's control/status surface.
//!
//! The ring engines never touch hardware registers directly: they act on a
//! `DmaEngine` capability object that stands for the per-direction enable
//! bits, the Running/Suspended status bits, the poll-demand triggers, the
//! engine's own scan positions and the interrupt-cause bits.  On a real
//! chip the facade maps these operations onto the memory-mapped register
//! block; in tests a simulated hardware layer drives the same object.

use vstd::prelude::*;

verus! {

/// Whether a DMA engine is actively scanning its ring or has stalled on a
/// software-owned descriptor.  Derived from status bits, never stored by
/// the rings.
#[derive(Clone, Copy, PartialEq, Eq, Structural, Debug)]
pub enum RunningState {
    /// The engine is suspended or was never started.
    Stopped,
    /// The engine is scanning its ring.
    Running,
}

impl RunningState {
    /// True exactly when the engine is scanning its ring.
    pub fn is_running(&self) -> (r: bool)
        ensures
            r == (*self == RunningState::Running),
    {
        match self {
            RunningState::Running => true,
            RunningState::Stopped => false,
        }
    }
}

/// The DMA control/status surface seen by the rings: enable bits, run
/// state, scan positions and interrupt-cause bits for both directions.
pub struct DmaEngine {
    /// The receive engine is scanning (true) or suspended/stopped (false).
    pub rx_running: bool,
    /// The transmit engine is scanning (true) or suspended/stopped (false).
    pub tx_running: bool,
    /// The receive ring's base address has been programmed and the receive
    /// enable bit set.
    pub rx_started: bool,
    /// The transmit ring's base address has been programmed and the
    /// transmit enable bit set.
    pub tx_started: bool,
    /// The receive engine's own scan position in its ring; never
    /// communicated to software, which infers it from ownership flags.
    pub rx_scan: usize,
    /// The transmit engine's own scan position in its ring.
    pub tx_scan: usize,
    /// A receive-complete interrupt cause is pending.
    pub rx_interrupt_pending: bool,
    /// A transmit-complete interrupt cause is pending.
    pub tx_interrupt_pending: bool,
}

impl DmaEngine {
    /// A powered-up engine with nothing started and no cause pending.
    pub fn new() -> (r: DmaEngine)
        ensures
            r == (DmaEngine {
                rx_running: false,
                tx_running: false,
                rx_started: false,
                tx_started: false,
                rx_scan: 0,
                tx_scan: 0,
                rx_interrupt_pending: false,
                tx_interrupt_pending: false,
            }),
    {
        DmaEngine {
            rx_running: false,
            tx_running: false,
            rx_started: false,
            tx_started: false,
            rx_scan: 0,
            tx_scan: 0,
            rx_interrupt_pending: false,
            tx_interrupt_pending: false,
        }
    }
}

/// Clear the interrupt-cause bits in the DMA status register.
///
/// Call this from the interrupt handler; it touches no ring or descriptor
/// state, precisely so that it is safe to run at any time relative to the
/// polling code.
pub fn eth_interrupt_handler(eth_dma: &mut DmaEngine)
    ensures
        *final(eth_dma) == (DmaEngine {
            rx_interrupt_pending: false,
            tx_interrupt_pending: false,
            ..*old(eth_dma)
        }),
{
    eth_dma.rx_interrupt_pending = false;
    eth_dma.tx_interrupt_pending = false;
}

} // verus!
