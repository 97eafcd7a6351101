//! The HDMI-CEC driver: construction and the outbound message protocol.

use vstd::prelude::*;

use crate::addr::LogiAddr;
use crate::cfgr::Cfgr;
use crate::cr::Cr;
use crate::irq;
use crate::regs::Regs;

verus! {

/// The header byte of a CEC message: the 4-bit source address in the high
/// nibble, the 4-bit destination address in the low nibble.
pub open spec fn header_byte(src: LogiAddr, dst: LogiAddr) -> u8 {
    (src.as_byte() << 4u8) | dst.as_byte()
}

/// HDMI-CEC driver.
///
/// Owns the register file of one peripheral instance.  Construction runs
/// the enable sequence once; afterwards the two outbound operations may be
/// invoked repeatedly.  There is no teardown: the peripheral stays enabled.
#[derive(Debug)]
pub struct Cec {
    regs: Regs,
}

impl Cec {
    /// The register file owned by the driver.
    pub closed spec fn spec_regs(self) -> Regs {
        self.regs
    }

    /// The driver between operations: the register file is well formed and
    /// no observed interrupt status is left unacknowledged.
    pub open spec fn inv(self) -> bool {
        self.spec_regs().wf() && self.spec_regs().isr_word() == 0u32
    }

    /// What one `send_byte` run does, as a relation between the driver
    /// before (`pre`) and after (`post`), the addresses and payload given,
    /// and the reported result `r`.
    ///
    /// The header byte always joins the transmit log first.  If the first
    /// observed status requests the next byte, the payload follows it, both
    /// observed statuses are acknowledged, and the run succeeds exactly
    /// when the second status reports end-of-transmission, failing with
    /// that status otherwise.  If the first observed status does not
    /// request the next byte, the payload is never written and the run
    /// fails with that first status.
    pub open spec fn send_byte_spec(
        pre: Cec,
        post: Cec,
        src: LogiAddr,
        dst: LogiAddr,
        data: u8,
        r: Result<(), u32>,
    ) -> bool {
        let e0 = pre.spec_regs().pending()[0];
        let e1 = pre.spec_regs().pending()[1];
        &&& post.spec_regs().base_addr() == pre.spec_regs().base_addr()
        &&& post.spec_regs().cfgr_word() == pre.spec_regs().cfgr_word()
        &&& post.spec_regs().ier_word() == pre.spec_regs().ier_word()
        &&& if e0 & irq::TXBR == irq::TXBR {
            &&& post.spec_regs().tx_log() == pre.spec_regs().tx_log().push(
                header_byte(src, dst),
            ).push(data)
            &&& post.spec_regs().pending() == pre.spec_regs().pending().skip(2)
            &&& post.spec_regs().clears() == pre.spec_regs().clears().push(e0).push(e1)
            &&& post.spec_regs().cr_word() == 5u32
            &&& r == if e1 & irq::TXEND == irq::TXEND {
                Result::<(), u32>::Ok(())
            } else {
                Result::<(), u32>::Err(e1)
            }
        } else {
            &&& post.spec_regs().tx_log() == pre.spec_regs().tx_log().push(header_byte(src, dst))
            &&& post.spec_regs().pending() == pre.spec_regs().pending().skip(1)
            &&& post.spec_regs().clears() == pre.spec_regs().clears().push(e0)
            &&& post.spec_regs().cr_word() == 3u32
            &&& r == Result::<(), u32>::Err(e0)
        }
    }

    /// The register file, for inspection.
    pub fn regs(&self) -> (r: &Regs)
        ensures
            *r == self.spec_regs(),
    {
        &self.regs
    }

    /// Create a new HDMI-CEC driver over `regs`.
    ///
    /// The caller guarantees, outside this type: the peripheral's source
    /// clock is running, its pin is configured, the peripheral was reset,
    /// and no other register-access handle to the same base address is
    /// alive.
    ///
    /// The sequence: disable the peripheral, configure it (listen mode on,
    /// own-address filter answering for logical address 0x8, error-bit
    /// generation on long-bit-period and bit-rising errors, reception
    /// stopped on bit-rising errors), read the configuration back to see
    /// that the filter took hold, enable every interrupt source, and
    /// finally enable the peripheral.  In this model the read-back check is
    /// proved to pass; a hardware binding must perform the same comparison
    /// at run time and treat a mismatch as fatal, since it means the
    /// peripheral's source clock is not functional.
    pub fn new(regs: Regs) -> (c: Cec)
        requires
            regs.wf(),
            regs.isr_word() == 0u32,
        ensures
            c.inv(),
            c.spec_regs().cr_word() == 1u32,
            c.spec_regs().cfgr_word() == 0x8008_0070u32,
            c.spec_regs().ier_word() == 0x1FFFu32,
            c.spec_regs().base_addr() == regs.base_addr(),
            c.spec_regs().tx_log() == regs.tx_log(),
            c.spec_regs().pending() == regs.pending(),
            c.spec_regs().clears() == regs.clears(),
    {
        let mut regs = regs;
        regs.set_cr(Cr::default());
        let cfgr = Cfgr::default().set_lstn(true).set_oar(0x8).set_lbpegen(true).set_bregen(
            true,
        ).set_brestp(true);
        proof {
            assert(0u32 | 0x8000_0000u32 == 0x8000_0000u32) by (bit_vector);
            assert((0x8000_0000u32 & 0x8000_FFFFu32) | (((0x8u16 as u32) & 0x7FFFu32) << 16u32)
                == 0x8008_0000u32) by (bit_vector);
            assert(0x8008_0000u32 | 0x40u32 == 0x8008_0040u32) by (bit_vector);
            assert(0x8008_0040u32 | 0x20u32 == 0x8008_0060u32) by (bit_vector);
            assert(0x8008_0060u32 | 0x10u32 == 0x8008_0070u32) by (bit_vector);
        }
        regs.set_cfgr(cfgr);
        proof {
            assert(0x8008_0070u32 & 0xFFFF_01FFu32 == 0x8008_0070u32) by (bit_vector);
        }
        let filter = regs.cfgr().oar();
        proof {
            assert(((0x8008_0070u32 >> 16u32) & 0x7FFFu32) as u16 == 0x8u16) by (bit_vector);
        }
        assert(filter == 0x8u16);
        regs.set_ier(irq::ALL);
        regs.set_cr(Cr::enabled());
        proof {
            assert(0u32 & 0b111u32 == 0u32) by (bit_vector);
            assert(1u32 & 0b111u32 == 1u32) by (bit_vector);
            assert(0x1FFFu32 & 0x1FFFu32 == 0x1FFFu32) by (bit_vector);
            irq::lemma_all_flags();
        }
        Cec { regs }
    }

    /// Busy-poll the interrupt-status register until it is nonzero, then
    /// acknowledge every latched bit seen by writing the observed word
    /// back, and return that word.
    ///
    /// On hardware this loop spins for as long as the bus stays silent;
    /// the model requires a scripted event to be left, which is the
    /// assumption that the hardware eventually reports one.
    fn poll_isr(&mut self) -> (r: u32)
        requires
            old(self).inv(),
            old(self).spec_regs().pending().len() > 0,
        ensures
            final(self).inv(),
            r == old(self).spec_regs().pending()[0],
            r != 0u32,
            r & irq::ALL == r,
            final(self).spec_regs().pending() == old(self).spec_regs().pending().skip(1),
            final(self).spec_regs().clears() == old(self).spec_regs().clears().push(r),
            final(self).spec_regs().base_addr() == old(self).spec_regs().base_addr(),
            final(self).spec_regs().cr_word() == old(self).spec_regs().cr_word(),
            final(self).spec_regs().cfgr_word() == old(self).spec_regs().cfgr_word(),
            final(self).spec_regs().tx_log() == old(self).spec_regs().tx_log(),
            final(self).spec_regs().ier_word() == old(self).spec_regs().ier_word(),
    {
        loop
            invariant
                *self == *old(self),
                old(self).inv(),
                old(self).spec_regs().pending().len() > 0,
            decreases 0int,
        {
            let isr = self.regs.isr();
            if isr != 0 {
                self.regs.set_isr(isr);
                proof {
                    let e = old(self).spec_regs().pending()[0];
                    assert(e & irq::ALL == e && e != 0u32);
                    irq::lemma_all_flags();
                    assert(e & 0x1FFFu32 == e ==> e & ((e & 0x1FFFu32) ^ 0xFFFF_FFFFu32) == 0u32)
                        by (bit_vector);
                }
                return isr;
            }
        }
    }

    /// Transmit one two-byte CEC message: the header byte for `src` and
    /// `dst`, then the payload byte `data`.
    ///
    /// The header is written to the transmit-data register and a
    /// start-of-message is requested.  The first interrupt status is then
    /// awaited and acknowledged: if it requests the next byte, the payload
    /// is written, an end-of-message is requested, and the second status
    /// decides the result; any other first status fails at once, without
    /// the payload ever being written.  A failure carries the raw status
    /// word observed, to be read against the flags in [`crate::irq`].
    ///
    /// The model requires the event script to cover the run: one event,
    /// and a second one when the first requests the next byte.
    pub fn send_byte(&mut self, src: LogiAddr, dst: LogiAddr, data: u8) -> (r: Result<(), u32>)
        requires
            old(self).inv(),
            old(self).spec_regs().pending().len() >= 1,
            old(self).spec_regs().pending()[0] & irq::TXBR == irq::TXBR ==> old(
                self,
            ).spec_regs().pending().len() >= 2,
        ensures
            final(self).inv(),
            Cec::send_byte_spec(*old(self), *final(self), src, dst, data, r),
    {
        self.regs.set_txdr((src.to_byte() << 4u8) | dst.to_byte());
        self.regs.set_cr(Cr::enabled_txsom());
        proof {
            assert(3u32 & 0b111u32 == 3u32) by (bit_vector);
        }
        let isr = self.poll_isr();
        if isr & irq::TXBR == irq::TXBR {
            self.regs.set_txdr(data);
            self.regs.set_cr(Cr::enabled_txeom());
            proof {
                assert(5u32 & 0b111u32 == 5u32) by (bit_vector);
                assert(old(self).spec_regs().pending().skip(1).skip(1) =~= old(
                    self,
                ).spec_regs().pending().skip(2));
            }
            let isr = self.poll_isr();
            if isr & irq::TXEND == irq::TXEND {
                Result::Ok(())
            } else {
                Result::Err(isr)
            }
        } else {
            Result::Err(isr)
        }
    }

    /// Ask the devices addressed to enter standby: transmit the CEC
    /// standby opcode (0x36) from `src` to `dst`.
    ///
    /// This is one run of the shared transmit primitive with the payload
    /// fixed; success and failure are reported exactly as by
    /// [`Cec::send_byte`].
    pub fn set_standby(&mut self, src: LogiAddr, dst: LogiAddr) -> (r: Result<(), u32>)
        requires
            old(self).inv(),
            old(self).spec_regs().pending().len() >= 1,
            old(self).spec_regs().pending()[0] & irq::TXBR == irq::TXBR ==> old(
                self,
            ).spec_regs().pending().len() >= 2,
        ensures
            final(self).inv(),
            Cec::send_byte_spec(*old(self), *final(self), src, dst, 0x36u8, r),
    {
        self.send_byte(src, dst, 0x36)
    }

    /// Ask the display to power on: transmit the CEC image-view-on opcode
    /// (0x04) from `src` to `dst`.
    ///
    /// This is one run of the shared transmit primitive with the payload
    /// fixed; success and failure are reported exactly as by
    /// [`Cec::send_byte`].
    pub fn set_image_view_on(&mut self, src: LogiAddr, dst: LogiAddr) -> (r: Result<(), u32>)
        requires
            old(self).inv(),
            old(self).spec_regs().pending().len() >= 1,
            old(self).spec_regs().pending()[0] & irq::TXBR == irq::TXBR ==> old(
                self,
            ).spec_regs().pending().len() >= 2,
        ensures
            final(self).inv(),
            Cec::send_byte_spec(*old(self), *final(self), src, dst, 0x04u8, r),
    {
        self.send_byte(src, dst, 0x04)
    }
}

} // verus!
