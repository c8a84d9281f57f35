//! The station-management bus transport: single-register read/write
//! transactions to a remote PHY device, issued through the MAC's
//! management-interface address/data register pair.
//!
//! Each transaction programs the device address, register address and
//! direction into the address register with the busy bit set, then polls
//! the busy bit until the hardware clears it.  The bus itself offers no
//! completion interrupt and no fault signal, so a transaction on a wedged
//! bus would otherwise spin forever; the transport therefore takes a
//! poll-budget at construction — the maximum number of busy-bit reads per
//! transaction — and reports a transaction that never completed as `None`
//! or `false` instead of hanging.  The calls are not reentrant: never
//! issue two transactions on one bus at the same time.

use vstd::prelude::*;

verus! {

/// Busy flag of the management-interface address register: set to trigger
/// a transaction, cleared by the hardware on completion.
pub const MII_BUSY: u32 = 0x0000_0001;

/// Direction flag of the management-interface address register: set for a
/// register write, clear for a read.
pub const MII_WRITE: u32 = 0x0000_0002;

/// Address-register word that triggers a read of register `reg` of device
/// `phy`: device address in bits 15..11, register address in bits 10..6,
/// busy bit set.
pub open spec fn spec_read_command(phy: u8, reg: u8) -> u32 {
    ((phy as u32) << 11) | ((reg as u32) << 6) | MII_BUSY
}

/// Address-register word that triggers a write of register `reg` of device
/// `phy`: as the read word, with the write direction flag set.
pub open spec fn spec_write_command(phy: u8, reg: u8) -> u32 {
    ((phy as u32) << 11) | ((reg as u32) << 6) | MII_WRITE | MII_BUSY
}

/// Compose the address-register word for a read transaction.
pub fn read_command(phy: u8, reg: u8) -> (r: u32)
    requires
        phy < 32,
        reg < 32,
    ensures
        r == spec_read_command(phy, reg),
{
    ((phy as u32) << 11) | ((reg as u32) << 6) | MII_BUSY
}

/// Compose the address-register word for a write transaction.
pub fn write_command(phy: u8, reg: u8) -> (r: u32)
    requires
        phy < 32,
        reg < 32,
    ensures
        r == spec_write_command(phy, reg),
{
    ((phy as u32) << 11) | ((reg as u32) << 6) | MII_WRITE | MII_BUSY
}

/// Capability object for the MAC's management-interface register pair: the
/// address register (device/register address, direction, busy bit) and the
/// data register.  On a real chip these are the two memory-mapped MAC
/// registers; in tests a simulated pair stands in.  Hardware may change
/// the registers between calls, so nothing is promised about the values
/// read.
pub trait MiiRegisters {
    /// Read the management-interface address register.
    fn read_ar(&self) -> u32;

    /// Write the management-interface address register; a value with the
    /// busy bit set triggers a transaction.
    fn write_ar(&mut self, v: u32);

    /// Read the management-interface data register.
    fn read_dr(&self) -> u32;

    /// Write the management-interface data register.
    fn write_dr(&mut self, v: u32);
}

/// The bus transport over one management-interface register pair.
pub struct Smi<P: MiiRegisters> {
    /// The register pair the transactions go through.
    pub port: P,
    /// Maximum number of busy-bit polls per transaction before the
    /// transaction is reported as not completed.
    pub poll_budget: usize,
}

impl<P: MiiRegisters> Smi<P> {
    /// Take the register pair and the per-transaction poll budget.
    pub fn new(port: P, poll_budget: usize) -> (r: Smi<P>)
        ensures
            r.poll_budget == poll_budget,
    {
        Smi { port, poll_budget }
    }

    /// Poll until the hardware clears the busy bit, at most `poll_budget`
    /// reads.  Returns whether the transaction completed within the
    /// budget.
    fn wait_ready(&self) -> bool {
        let mut polls: usize = 0;
        while polls < self.poll_budget
            decreases self.poll_budget - polls,
        {
            let ar = self.port.read_ar();
            if ar & MII_BUSY == 0 {
                return true;
            }
            polls += 1;
        }
        false
    }

    /// One read transaction: the 16-bit value of register `reg` of device
    /// `phy`, or `None` if the bus did not signal completion within the
    /// poll budget.
    pub fn read(&mut self, phy: u8, reg: u8) -> (r: Option<u16>)
        requires
            phy < 32,
            reg < 32,
        ensures
            final(self).poll_budget == old(self).poll_budget,
    {
        self.port.write_ar(read_command(phy, reg));
        if self.wait_ready() {
            Some((self.port.read_dr() & 0xffff) as u16)
        } else {
            None
        }
    }

    /// One write transaction: program the 16-bit `value` into register
    /// `reg` of device `phy`.  Returns whether the bus signalled
    /// completion within the poll budget.
    pub fn write(&mut self, phy: u8, reg: u8, value: u16) -> (completed: bool)
        requires
            phy < 32,
            reg < 32,
        ensures
            final(self).poll_budget == old(self).poll_budget,
    {
        self.port.write_dr(value as u32);
        self.port.write_ar(write_command(phy, reg));
        self.wait_ready()
    }

    /// Read-modify-write: set the bits of `mask` in register `reg` of
    /// device `phy`.  Two transactions; returns whether both completed
    /// within their poll budgets.
    pub fn set_bits(&mut self, phy: u8, reg: u8, mask: u16) -> (completed: bool)
        requires
            phy < 32,
            reg < 32,
        ensures
            final(self).poll_budget == old(self).poll_budget,
    {
        match self.read(phy, reg) {
            Some(value) => self.write(phy, reg, value | mask),
            None => false,
        }
    }
}

} // verus!
