//! Register-file model of the HDMI-CEC peripheral.
//!
//! [`Regs`] stands for exclusive access to the peripheral's six
//! memory-mapped registers at a fixed base address: control at offset 0x00,
//! configuration at 0x04, transmit data at 0x08, receive data at 0x0C
//! (unused by this outbound-only core), interrupt status at 0x10 and
//! interrupt enable at 0x14.  Each write applies the register's defined-bits
//! mask before the word is stored, exactly as the hardware binding masks
//! before its volatile store.
//!
//! The model replaces the two things only live hardware can do.  Writes are
//! recorded: the transmit-data log keeps every byte in the order written,
//! and the interrupt-clear log keeps every write-1-to-clear word.  Reads of
//! the interrupt-status register are served from a script of events fixed at
//! construction: while no event is latched, reading the status pulls the
//! next scripted event, which stays latched until cleared, just as a
//! hardware flag stays latched until acknowledged.

use vstd::prelude::*;

use crate::cfgr::Cfgr;
use crate::cr::Cr;
use crate::irq;

verus! {

/// Register file of one CEC peripheral instance.
///
/// The holder of a value of this type is the sole writer of the peripheral
/// it models; no two instances may stand for the same base address.
#[derive(Debug)]
pub struct Regs {
    base: u32,
    cr: u32,
    cfgr: u32,
    txdr_writes: Vec<u8>,
    isr: u32,
    ier: u32,
    isr_pending: Vec<u32>,
    isr_cleared: Vec<u32>,
}

impl Regs {
    /// The base address this register file stands for.
    pub closed spec fn base_addr(self) -> u32 {
        self.base
    }

    /// The control word the peripheral holds.
    pub closed spec fn cr_word(self) -> u32 {
        self.cr
    }

    /// The configuration word the peripheral holds.
    pub closed spec fn cfgr_word(self) -> u32 {
        self.cfgr
    }

    /// Every byte written to the transmit-data register, in order.
    pub closed spec fn tx_log(self) -> Seq<u8> {
        self.txdr_writes@
    }

    /// The interrupt-status word currently latched.
    pub closed spec fn isr_word(self) -> u32 {
        self.isr
    }

    /// The interrupt-enable word the peripheral holds.
    pub closed spec fn ier_word(self) -> u32 {
        self.ier
    }

    /// The scripted interrupt-status events not yet observed, in the order
    /// the hardware will report them.
    pub closed spec fn pending(self) -> Seq<u32> {
        self.isr_pending@
    }

    /// Every word written to the interrupt-status register (write-1-to-
    /// clear acknowledgements), in order, after masking.
    pub closed spec fn clears(self) -> Seq<u32> {
        self.isr_cleared@
    }

    /// Every scripted event is a nonempty set of defined interrupt flags:
    /// the hardware only ever latches bits 0..=12, and the status register
    /// is only seen once at least one flag is raised.
    pub open spec fn wf(self) -> bool {
        forall|i: int|
            0 <= i < self.pending().len() ==> ((#[trigger] self.pending()[i]) & irq::ALL
                == self.pending()[i] && self.pending()[i] != 0u32)
    }

    /// A register file for the peripheral at `base`, as left by a
    /// peripheral reset: every register word zero, nothing yet written, and
    /// the interrupt-status events of `events` still to come.
    pub fn new(base: u32, events: Vec<u32>) -> (r: Regs)
        requires
            forall|i: int|
                0 <= i < events@.len() ==> ((#[trigger] events@[i]) & irq::ALL == events@[i]
                    && events@[i] != 0u32),
        ensures
            r.wf(),
            r.base_addr() == base,
            r.cr_word() == 0u32,
            r.cfgr_word() == 0u32,
            r.isr_word() == 0u32,
            r.ier_word() == 0u32,
            r.tx_log() == Seq::<u8>::empty(),
            r.pending() == events@,
            r.clears() == Seq::<u32>::empty(),
    {
        Regs {
            base,
            cr: 0,
            cfgr: 0,
            txdr_writes: Vec::new(),
            isr: 0,
            ier: 0,
            isr_pending: events,
            isr_cleared: Vec::new(),
        }
    }

    /// Read the control register.
    pub fn cr(&self) -> (r: Cr)
        ensures
            r@ == self.cr_word(),
    {
        Cr::from_bits(self.cr)
    }

    /// Write the control register; only the three defined bits are stored.
    pub fn set_cr(&mut self, cr: Cr)
        ensures
            final(self).cr_word() == cr@ & 0b111u32,
            final(self).base_addr() == old(self).base_addr(),
            final(self).cfgr_word() == old(self).cfgr_word(),
            final(self).tx_log() == old(self).tx_log(),
            final(self).isr_word() == old(self).isr_word(),
            final(self).ier_word() == old(self).ier_word(),
            final(self).pending() == old(self).pending(),
            final(self).clears() == old(self).clears(),
    {
        self.cr = cr.bits() & 0b111u32;
    }

    /// Read the configuration register.
    pub fn cfgr(&self) -> (r: Cfgr)
        ensures
            r@ == self.cfgr_word(),
    {
        Cfgr::from_bits(self.cfgr)
    }

    /// Write the configuration register; only the defined bits (bit 31,
    /// bits 16..=30 and bits 0..=8) are stored.
    pub fn set_cfgr(&mut self, cfgr: Cfgr)
        ensures
            final(self).cfgr_word() == cfgr@ & 0xFFFF_01FFu32,
            final(self).base_addr() == old(self).base_addr(),
            final(self).cr_word() == old(self).cr_word(),
            final(self).tx_log() == old(self).tx_log(),
            final(self).isr_word() == old(self).isr_word(),
            final(self).ier_word() == old(self).ier_word(),
            final(self).pending() == old(self).pending(),
            final(self).clears() == old(self).clears(),
    {
        self.cfgr = cfgr.bits() & 0xFFFF_01FFu32;
    }

    /// Write the transmit-data register.  The byte joins the write log; the
    /// upper 24 bits of the stored word are implicitly zero.
    pub fn set_txdr(&mut self, data: u8)
        ensures
            final(self).tx_log() == old(self).tx_log().push(data),
            final(self).base_addr() == old(self).base_addr(),
            final(self).cr_word() == old(self).cr_word(),
            final(self).cfgr_word() == old(self).cfgr_word(),
            final(self).isr_word() == old(self).isr_word(),
            final(self).ier_word() == old(self).ier_word(),
            final(self).pending() == old(self).pending(),
            final(self).clears() == old(self).clears(),
    {
        self.txdr_writes.push(data);
    }

    /// Read the interrupt-status register.
    ///
    /// While a status word is latched, reading returns it and changes
    /// nothing.  While none is latched, reading latches the next scripted
    /// event and returns it; with the script exhausted the register reads
    /// zero, which is the state a busy-poll spins on.
    pub fn isr(&mut self) -> (r: u32)
        ensures
            old(self).isr_word() != 0u32 ==> r == old(self).isr_word() && *final(self)
                == *old(self),
            old(self).isr_word() == 0u32 && old(self).pending().len() > 0
                ==> r == old(self).pending()[0] && final(self).isr_word() == r
                && final(self).pending() == old(self).pending().skip(1),
            old(self).isr_word() == 0u32 && old(self).pending().len() == 0 ==> r == 0u32
                && *final(self) == *old(self),
            final(self).base_addr() == old(self).base_addr(),
            final(self).cr_word() == old(self).cr_word(),
            final(self).cfgr_word() == old(self).cfgr_word(),
            final(self).tx_log() == old(self).tx_log(),
            final(self).ier_word() == old(self).ier_word(),
            final(self).clears() == old(self).clears(),
            old(self).wf() ==> final(self).wf(),
    {
        if self.isr == 0 && self.isr_pending.len() > 0 {
            let next = self.isr_pending.remove(0);
            self.isr = next;
            proof {
                assert(self.pending() =~= old(self).pending().skip(1));
            }
        }
        self.isr
    }

    /// Write the interrupt-status register: write-1-to-clear.  Each defined
    /// bit written as `1` clears that latched flag; undefined bits are
    /// masked away.  The masked word joins the clear log.
    pub fn set_isr(&mut self, isr: u32)
        ensures
            final(self).isr_word() == old(self).isr_word() & ((isr & irq::ALL) ^ 0xFFFF_FFFFu32),
            final(self).clears() == old(self).clears().push(isr & irq::ALL),
            final(self).base_addr() == old(self).base_addr(),
            final(self).cr_word() == old(self).cr_word(),
            final(self).cfgr_word() == old(self).cfgr_word(),
            final(self).tx_log() == old(self).tx_log(),
            final(self).ier_word() == old(self).ier_word(),
            final(self).pending() == old(self).pending(),
            old(self).wf() ==> final(self).wf(),
    {
        let masked = isr & irq::ALL;
        self.isr = self.isr & (masked ^ 0xFFFF_FFFFu32);
        self.isr_cleared.push(masked);
    }

    /// Read the interrupt-enable register.
    pub fn ier(&self) -> (r: u32)
        ensures
            r == self.ier_word(),
    {
        self.ier
    }

    /// Write the interrupt-enable register; only the thirteen defined bits
    /// are stored.
    pub fn set_ier(&mut self, ier: u32)
        ensures
            final(self).ier_word() == ier & irq::ALL,
            final(self).base_addr() == old(self).base_addr(),
            final(self).cr_word() == old(self).cr_word(),
            final(self).cfgr_word() == old(self).cfgr_word(),
            final(self).tx_log() == old(self).tx_log(),
            final(self).isr_word() == old(self).isr_word(),
            final(self).pending() == old(self).pending(),
            final(self).clears() == old(self).clears(),
    {
        self.ier = ier & irq::ALL;
    }

    /// The log of transmit-data writes, for inspection.
    pub fn tx_writes(&self) -> (r: &Vec<u8>)
        ensures
            r@ == self.tx_log(),
    {
        &self.txdr_writes
    }

    /// The scripted interrupt-status events not yet observed, for
    /// inspection.
    pub fn pending_events(&self) -> (r: &Vec<u32>)
        ensures
            r@ == self.pending(),
    {
        &self.isr_pending
    }

    /// The log of write-1-to-clear acknowledgements, for inspection.
    pub fn isr_clears(&self) -> (r: &Vec<u32>)
        ensures
            r@ == self.clears(),
    {
        &self.isr_cleared
    }
}

} // verus!
