//! Control register view.

use vstd::prelude::*;

verus! {

/// Control register.
///
/// A value type over the raw 32-bit control word.  Bit 0 is the peripheral
/// enable, bit 1 the transmission start-of-message request and bit 2 the
/// transmission end-of-message request; all higher bits are reserved and are
/// never asserted by this driver.
#[derive(Debug, Copy, Clone, Eq, PartialEq, Structural)]
pub struct Cr {
    val: u32,
}

impl View for Cr {
    type V = u32;

    closed spec fn view(&self) -> u32 {
        self.val
    }
}

impl Cr {
    /// The control word `w` with the enable bit (bit 0) forced to `en` and
    /// every other bit kept.
    pub open spec fn with_en(w: u32, en: bool) -> u32 {
        if en {
            w | 1u32
        } else {
            w & 0xFFFF_FFFEu32
        }
    }

    /// The control word `w` with the start-of-message bit (bit 1) asserted.
    pub open spec fn with_txsom(w: u32) -> u32 {
        w | 2u32
    }

    /// The control word `w` with the end-of-message bit (bit 2) asserted.
    pub open spec fn with_txeom(w: u32) -> u32 {
        w | 4u32
    }

    /// Whether the enable bit of the control word `w` is set.
    pub open spec fn en_bit(w: u32) -> bool {
        w & 1u32 == 1u32
    }

    /// Whether the start-of-message bit of the control word `w` is set.
    pub open spec fn txsom_bit(w: u32) -> bool {
        w & 2u32 == 2u32
    }

    /// Whether the end-of-message bit of the control word `w` is set.
    pub open spec fn txeom_bit(w: u32) -> bool {
        w & 4u32 == 4u32
    }

    /// The raw control word.
    pub fn bits(&self) -> (r: u32)
        ensures
            r == self@,
    {
        self.val
    }

    /// A control value holding the raw word `val`.
    pub fn from_bits(val: u32) -> (r: Cr)
        ensures
            r@ == val,
    {
        Cr { val }
    }

    /// Returns `true` if the CEC peripheral is enabled.
    pub fn en(&self) -> (r: bool)
        ensures
            r == Cr::en_bit(self@),
    {
        self.val & 1u32 == 1u32
    }

    /// Set the CEC peripheral enable.
    #[must_use]
    pub fn set_en(self, en: bool) -> (r: Cr)
        ensures
            r@ == Cr::with_en(self@, en),
    {
        if en {
            Cr { val: self.val | 1u32 }
        } else {
            Cr { val: self.val & 0xFFFF_FFFEu32 }
        }
    }

    /// Returns `true` if a transmission start-of-message is requested.
    pub fn txsom(&self) -> (r: bool)
        ensures
            r == Cr::txsom_bit(self@),
    {
        self.val & 2u32 == 2u32
    }

    /// Request a transmission start-of-message.
    ///
    /// The bit is self-clearing on the hardware side: it is a write-only
    /// trigger, so there is no way to take it back here.
    #[must_use]
    pub fn set_txsom(self) -> (r: Cr)
        ensures
            r@ == Cr::with_txsom(self@),
    {
        Cr { val: self.val | 2u32 }
    }

    /// Returns `true` if a transmission end-of-message is requested.
    pub fn txeom(&self) -> (r: bool)
        ensures
            r == Cr::txeom_bit(self@),
    {
        self.val & 4u32 == 4u32
    }

    /// Request a transmission end-of-message.
    #[must_use]
    pub fn set_txeom(self) -> (r: Cr)
        ensures
            r@ == Cr::with_txeom(self@),
    {
        Cr { val: self.val | 4u32 }
    }

    /// The control value with only the enable bit set.
    pub fn enabled() -> (r: Cr)
        ensures
            r@ == 1u32,
    {
        let r = Cr::default().set_en(true);
        proof {
            assert(0u32 | 1u32 == 1u32) by (bit_vector);
        }
        r
    }

    /// The control value with enable set and start-of-message requested.
    pub fn enabled_txsom() -> (r: Cr)
        ensures
            r@ == 3u32,
    {
        let r = Cr::enabled().set_txsom();
        proof {
            assert(1u32 | 2u32 == 3u32) by (bit_vector);
        }
        r
    }

    /// The control value with enable set and end-of-message requested.
    pub fn enabled_txeom() -> (r: Cr)
        ensures
            r@ == 5u32,
    {
        let r = Cr::enabled().set_txeom();
        proof {
            assert(1u32 | 4u32 == 5u32) by (bit_vector);
        }
        r
    }
}

impl Default for Cr {
    /// The reset value: all bits clear.
    fn default() -> (r: Cr)
        ensures
            r@ == 0u32,
    {
        Cr { val: 0 }
    }
}

/// Setting the enable bit and then clearing it again brings the enable bit
/// back to its reset state and leaves every other bit of the control word
/// untouched.
pub proof fn lemma_enable_round_trip(w: u32)
    ensures
        Cr::en_bit(Cr::with_en(Cr::with_en(w, true), false)) == Cr::en_bit(0u32),
        Cr::with_en(Cr::with_en(w, true), false) & 0xFFFF_FFFEu32 == w & 0xFFFF_FFFEu32,
{
    assert(((w | 1u32) & 0xFFFF_FFFEu32) & 1u32 != 1u32) by (bit_vector);
    assert(0u32 & 1u32 != 1u32) by (bit_vector);
    assert(((w | 1u32) & 0xFFFF_FFFEu32) & 0xFFFF_FFFEu32 == w & 0xFFFF_FFFEu32) by (bit_vector);
}

} // verus!
