//! PHY control plane for a DP83848-style 10/100 transceiver: reset, link
//! auto-negotiation and link-status snapshots, driven over the
//! station-management bus.
//!
//! Reset and auto-negotiation are asynchronous hardware processes with no
//! interrupt here, so both poll to completion; a non-responding device
//! makes them spin forever, by design.  Callers that need non-blocking
//! behaviour poll `status` themselves.

use crate::smi::MiiRegisters;
use crate::smi::Smi;
use vstd::prelude::*;

verus! {

/// Bus address of the PHY device.
pub const PHY_ADDR: u8 = 1;

/// Basic mode control register.
pub const PHY_REG_BMCR: u8 = 0x00;

/// Basic mode status register.
pub const PHY_REG_BMSR: u8 = 0x01;

/// Control bit: reset the device; self-clearing upon completed reset.
pub const PHY_REG_BMCR_RESET: u16 = 1u16 << 15;

/// Control bit: enable auto-negotiation, disabling manual speed and duplex
/// selection.
pub const PHY_REG_BMCR_AUTO_NEGOTIATION: u16 = 1u16 << 12;

/// Status bit: the device can do 100BASE-TX full duplex (link resolved so).
pub const PHY_REG_BMSR_100_FULL: u16 = 1u16 << 14;

/// Status bit: the device can do 100BASE-TX half duplex.
pub const PHY_REG_BMSR_100_HALF: u16 = 1u16 << 13;

/// Status bit: the device can do 10BASE-T full duplex.
pub const PHY_REG_BMSR_10_FULL: u16 = 1u16 << 12;

/// Status bit: the device can do 10BASE-T half duplex.
pub const PHY_REG_BMSR_10_HALF: u16 = 1u16 << 11;

/// Status bit: auto-negotiation has completed.
pub const PHY_REG_BMSR_AUTONEG_COMPLETE: u16 = 1u16 << 5;

/// Status bit: the link partner signalled a remote fault.
pub const PHY_REG_BMSR_REMOTE_FAULT: u16 = 1u16 << 4;

/// Status bit: a valid link is established.
pub const PHY_REG_BMSR_LINK_STATUS: u16 = 1u16 << 2;

/// The status word shows a valid link.
pub open spec fn spec_link_detected(bmsr: u16) -> bool {
    bmsr & PHY_REG_BMSR_LINK_STATUS == PHY_REG_BMSR_LINK_STATUS
}

/// The status word shows completed auto-negotiation.
pub open spec fn spec_autoneg_done(bmsr: u16) -> bool {
    bmsr & PHY_REG_BMSR_AUTONEG_COMPLETE == PHY_REG_BMSR_AUTONEG_COMPLETE
}

/// The status word shows a remote fault.
pub open spec fn spec_remote_fault(bmsr: u16) -> bool {
    bmsr & PHY_REG_BMSR_REMOTE_FAULT == PHY_REG_BMSR_REMOTE_FAULT
}

/// The duplex the link resolved to: `None` without a link, otherwise
/// whether the mode is full duplex.
pub open spec fn spec_is_full_duplex(bmsr: u16) -> Option<bool> {
    if !spec_link_detected(bmsr) {
        None
    } else {
        Some(
            bmsr & PHY_REG_BMSR_100_FULL == PHY_REG_BMSR_100_FULL || bmsr & PHY_REG_BMSR_10_FULL
                == PHY_REG_BMSR_10_FULL,
        )
    }
}

/// The speed the link resolved to, in megabits per second: 0 without a
/// link or with no rate resolved, otherwise 100 or 10.
pub open spec fn spec_speed(bmsr: u16) -> u32 {
    if !spec_link_detected(bmsr) {
        0
    } else if bmsr & PHY_REG_BMSR_100_FULL == PHY_REG_BMSR_100_FULL || bmsr & PHY_REG_BMSR_100_HALF
        == PHY_REG_BMSR_100_HALF {
        100
    } else if bmsr & PHY_REG_BMSR_10_FULL == PHY_REG_BMSR_10_FULL || bmsr & PHY_REG_BMSR_10_HALF
        == PHY_REG_BMSR_10_HALF {
        10
    } else {
        0
    }
}

/// The "link changed" test consumers use to detect events: two snapshots
/// are equivalent when both show no link, or when both show a link with
/// identical duplex and speed.  Remote fault and the raw register bits are
/// deliberately excluded — this is coarser than bit-exact equality.
pub open spec fn phy_status_equivalent(a: PhyStatus, b: PhyStatus) -> bool {
    ||| (!spec_link_detected(a.bmsr) && !spec_link_detected(b.bmsr))
    ||| (spec_link_detected(a.bmsr) == spec_link_detected(b.bmsr) && spec_is_full_duplex(a.bmsr)
        == spec_is_full_duplex(b.bmsr) && spec_speed(a.bmsr) == spec_speed(b.bmsr))
}

/// An immutable snapshot of the PHY's status register at the moment of the
/// call.
#[derive(Clone, Copy, Debug)]
pub struct PhyStatus {
    /// Raw value of the basic mode status register.
    pub bmsr: u16,
}

impl PhyStatus {
    /// Has link?
    pub fn link_detected(&self) -> (r: bool)
        ensures
            r == spec_link_detected(self.bmsr),
    {
        self.bmsr & PHY_REG_BMSR_LINK_STATUS == PHY_REG_BMSR_LINK_STATUS
    }

    /// Has auto-negotiated?
    pub fn autoneg_done(&self) -> (r: bool)
        ensures
            r == spec_autoneg_done(self.bmsr),
    {
        self.bmsr & PHY_REG_BMSR_AUTONEG_COMPLETE == PHY_REG_BMSR_AUTONEG_COMPLETE
    }

    /// Full duplex rather than half?  Resolved only if a link is present.
    pub fn is_full_duplex(&self) -> (r: Option<bool>)
        ensures
            r == spec_is_full_duplex(self.bmsr),
    {
        if self.bmsr & PHY_REG_BMSR_LINK_STATUS != PHY_REG_BMSR_LINK_STATUS {
            return None;
        }
        if self.bmsr & PHY_REG_BMSR_100_FULL == PHY_REG_BMSR_100_FULL || self.bmsr
            & PHY_REG_BMSR_10_FULL == PHY_REG_BMSR_10_FULL {
            return Some(true);
        }
        Some(false)
    }

    /// 10, 100, or 0 megabits per second.
    pub fn speed(&self) -> (r: u32)
        ensures
            r == spec_speed(self.bmsr),
    {
        if self.bmsr & PHY_REG_BMSR_LINK_STATUS != PHY_REG_BMSR_LINK_STATUS {
            return 0;
        }
        if self.bmsr & PHY_REG_BMSR_100_FULL == PHY_REG_BMSR_100_FULL || self.bmsr
            & PHY_REG_BMSR_100_HALF == PHY_REG_BMSR_100_HALF {
            return 100;
        }
        if self.bmsr & PHY_REG_BMSR_10_FULL == PHY_REG_BMSR_10_FULL || self.bmsr
            & PHY_REG_BMSR_10_HALF == PHY_REG_BMSR_10_HALF {
            return 10;
        }
        0
    }

    /// Did the link partner signal a fault?
    pub fn remote_fault(&self) -> (r: bool)
        ensures
            r == spec_remote_fault(self.bmsr),
    {
        self.bmsr & PHY_REG_BMSR_REMOTE_FAULT == PHY_REG_BMSR_REMOTE_FAULT
    }
}

/// Compare on base of link detected, full-duplex, and speed attributes;
/// remote fault and the raw bits do not count.
impl PartialEq for PhyStatus {
    fn eq(&self, other: &PhyStatus) -> (r: bool) {
        let self_link = self.link_detected();
        let other_link = other.link_detected();
        if !self_link && !other_link {
            return true;
        }
        let duplex_eq = match (self.is_full_duplex(), other.is_full_duplex()) {
            (None, None) => true,
            (Some(a), Some(b)) => a == b,
            _ => false,
        };
        self_link == other_link && duplex_eq && self.speed() == other.speed()
    }
}

impl vstd::std_specs::cmp::PartialEqSpecImpl for PhyStatus {
    open spec fn obeys_eq_spec() -> bool {
        true
    }

    open spec fn eq_spec(&self, other: &PhyStatus) -> bool {
        phy_status_equivalent(*self, *other)
    }
}

/// Law: two snapshots that both show no link are equivalent, whatever
/// their other bits say.
pub proof fn lemma_no_link_equivalent(a: PhyStatus, b: PhyStatus)
    requires
        !spec_link_detected(a.bmsr),
        !spec_link_detected(b.bmsr),
    ensures
        phy_status_equivalent(a, b),
{
}

/// Law: two snapshots that both show a link with the same duplex and the
/// same speed are equivalent, whatever their other bits — the remote-fault
/// bit in particular is excluded from the comparison.
pub proof fn lemma_linked_equivalent(a: PhyStatus, b: PhyStatus)
    requires
        spec_link_detected(a.bmsr),
        spec_link_detected(b.bmsr),
        spec_is_full_duplex(a.bmsr) == spec_is_full_duplex(b.bmsr),
        spec_speed(a.bmsr) == spec_speed(b.bmsr),
    ensures
        phy_status_equivalent(a, b),
{
}

/// Driver for one PHY device behind a station-management bus port.
pub struct Phy<P: MiiRegisters> {
    /// The bus transport.
    pub smi: Smi<P>,
    /// The device's bus address.
    pub phy: u8,
}

impl<P: MiiRegisters> Phy<P> {
    /// Well-formedness: the device address fits the 5-bit address field.
    pub open spec fn wf(self) -> bool {
        self.phy < 32
    }

    /// Take the bus port, the device's bus address, and the maximum
    /// number of polls per blocking operation.
    pub fn new(port: P, phy: u8, poll_budget: usize) -> (r: Phy<P>)
        requires
            phy < 32,
        ensures
            r.wf(),
            r.phy == phy,
    {
        Phy { smi: Smi::new(port, poll_budget), phy }
    }

    /// Read the current status register into a snapshot, or `None` if the
    /// bus did not complete the transaction within the poll budget.  One
    /// bus transaction; what it reads is whatever the device reports at
    /// that moment.  You may keep the snapshot to compare with a later
    /// one.
    pub fn status(&mut self) -> (r: Option<PhyStatus>)
        requires
            old(self).wf(),
        ensures
            final(self).phy == old(self).phy,
    {
        match self.smi.read(self.phy, PHY_REG_BMSR) {
            Some(bmsr) => Some(PhyStatus { bmsr }),
            None => None,
        }
    }

    /// Reset the device: set the reset control bit, then poll the control
    /// register until the device self-clears it.  Returns whether the
    /// completed reset was observed within the poll budget; a
    /// non-responding device exhausts the budget.
    pub fn reset(&mut self) -> (done: bool)
        requires
            old(self).wf(),
        ensures
            final(self).phy == old(self).phy,
    {
        if !self.smi.set_bits(self.phy, PHY_REG_BMCR, PHY_REG_BMCR_RESET) {
            return false;
        }
        let budget = self.smi.poll_budget;
        let mut polls: usize = 0;
        while polls < budget
            invariant
                self.phy == old(self).phy,
                self.phy < 32,
            decreases budget - polls,
        {
            match self.smi.read(self.phy, PHY_REG_BMCR) {
                Some(bmcr) => {
                    if bmcr & PHY_REG_BMCR_RESET == 0 {
                        return true;
                    }
                },
                None => {
                    return false;
                },
            }
            polls += 1;
        }
        false
    }

    /// Enable 10/100 half/full-duplex auto-negotiation, then poll the
    /// status register until the completion bit is observed.  Returns
    /// whether completed auto-negotiation was observed within the poll
    /// budget; a non-responding device or absent link partner exhausts
    /// the budget.
    pub fn set_autoneg(&mut self) -> (done: bool)
        requires
            old(self).wf(),
        ensures
            final(self).phy == old(self).phy,
    {
        if !self.smi.set_bits(self.phy, PHY_REG_BMCR, PHY_REG_BMCR_AUTO_NEGOTIATION) {
            return false;
        }
        let budget = self.smi.poll_budget;
        let mut polls: usize = 0;
        while polls < budget
            invariant
                self.phy == old(self).phy,
                self.phy < 32,
            decreases budget - polls,
        {
            match self.smi.read(self.phy, PHY_REG_BMSR) {
                Some(bmsr) => {
                    if bmsr & PHY_REG_BMSR_AUTONEG_COMPLETE == PHY_REG_BMSR_AUTONEG_COMPLETE {
                        return true;
                    }
                },
                None => {
                    return false;
                },
            }
            polls += 1;
        }
        false
    }
}

} // verus!
