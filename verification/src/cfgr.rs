//! Configuration register view.

use vstd::prelude::*;

verus! {

/// Signal free time.
///
/// The minimum idle time the peripheral waits before starting a new
/// transmission, in nominal data-bit periods, as a 3-bit hardware field.
#[derive(Debug, Copy, Clone, Eq, PartialEq, Structural)]
pub enum Sft {
    /// Determined by transmission history.
    ///
    /// * 2.5 data-bit periods if CEC is the last bus initiator with
    ///   unsuccessful transmission
    /// * 4 data-bit periods if CEC is the new bus initiator
    /// * 6 data-bit periods if CEC is the last bus initiator with successful
    ///   transmission
    History,
    /// 0.5 nominal data bit periods
    Nom0pt5,
    /// 1.5 nominal data bit periods
    Nom1pt5,
    /// 2.5 nominal data bit periods
    Nom2pt5,
    /// 3.5 nominal data bit periods
    Nom3pt5,
    /// 4.5 nominal data bit periods
    Nom4pt5,
    /// 5.5 nominal data bit periods
    Nom5pt5,
    /// 6.5 nominal data bit periods
    Nom6pt5,
}

impl Sft {
    /// The 3-bit hardware encoding of this signal-free-time profile.
    pub open spec fn encoding(self) -> u32 {
        match self {
            Sft::History => 0u32,
            Sft::Nom0pt5 => 1u32,
            Sft::Nom1pt5 => 2u32,
            Sft::Nom2pt5 => 3u32,
            Sft::Nom3pt5 => 4u32,
            Sft::Nom4pt5 => 5u32,
            Sft::Nom5pt5 => 6u32,
            Sft::Nom6pt5 => 7u32,
        }
    }

    /// The 3-bit hardware encoding of this signal-free-time profile.
    pub fn bits(self) -> (r: u32)
        ensures
            r == self.encoding(),
            r <= 7u32,
    {
        match self {
            Sft::History => 0u32,
            Sft::Nom0pt5 => 1u32,
            Sft::Nom1pt5 => 2u32,
            Sft::Nom2pt5 => 3u32,
            Sft::Nom3pt5 => 4u32,
            Sft::Nom4pt5 => 5u32,
            Sft::Nom5pt5 => 6u32,
            Sft::Nom6pt5 => 7u32,
        }
    }
}

/// Configuration register.
///
/// A value type over the raw 32-bit configuration word.  Bit 31 is the
/// listen-mode flag, bits 16..=30 the own-address filter, bit 8 the
/// signal-free-time option, bits 3..=7 the error-handling flags and bits
/// 0..=2 the signal-free-time field; bits 9..=15 are reserved.
#[derive(Debug, Copy, Clone, Eq, PartialEq, Structural)]
pub struct Cfgr {
    val: u32,
}

impl View for Cfgr {
    type V = u32;

    closed spec fn view(&self) -> u32 {
        self.val
    }
}

impl Cfgr {
    /// The configuration word `w` with the listen-mode bit (bit 31) forced
    /// to `lstn`.
    pub open spec fn with_lstn(w: u32, lstn: bool) -> u32 {
        if lstn {
            w | 0x8000_0000u32
        } else {
            w & 0x7FFF_FFFFu32
        }
    }

    /// The own-address filter held in the configuration word `w`: the 15-bit
    /// field at bits 16..=30, one bit per logical address this node answers
    /// for.
    pub open spec fn oar_of(w: u32) -> u16 {
        ((w >> 16u32) & 0x7FFFu32) as u16
    }

    /// The configuration word `w` with the own-address filter replaced by
    /// the low 15 bits of `oar`.
    pub open spec fn with_oar(w: u32, oar: u16) -> u32 {
        (w & 0x8000_FFFFu32) | (((oar as u32) & 0x7FFFu32) << 16u32)
    }

    /// The configuration word `w` with the signal-free-time option bit
    /// (bit 8) forced to `sftop`.
    pub open spec fn with_sftop(w: u32, sftop: bool) -> u32 {
        if sftop {
            w | 0x100u32
        } else {
            w & 0xFFFF_FEFFu32
        }
    }

    /// The configuration word `w` with the broadcast-no-error-generation bit
    /// (bit 7) forced to `brdnogen`.
    pub open spec fn with_brdnogen(w: u32, brdnogen: bool) -> u32 {
        if brdnogen {
            w | 0x80u32
        } else {
            w & 0xFFFF_FF7Fu32
        }
    }

    /// The configuration word `w` with the long-bit-period-error error-bit
    /// generation bit (bit 6) forced to `lbpegen`.
    pub open spec fn with_lbpegen(w: u32, lbpegen: bool) -> u32 {
        if lbpegen {
            w | 0x40u32
        } else {
            w & 0xFFFF_FFBFu32
        }
    }

    /// The configuration word `w` with the bit-rising-error error-bit
    /// generation bit (bit 5) forced to `bregen`.
    pub open spec fn with_bregen(w: u32, bregen: bool) -> u32 {
        if bregen {
            w | 0x20u32
        } else {
            w & 0xFFFF_FFDFu32
        }
    }

    /// The configuration word `w` with the bit-rising-error-stops-reception
    /// bit (bit 4) forced to `brestp`.
    pub open spec fn with_brestp(w: u32, brestp: bool) -> u32 {
        if brestp {
            w | 0x10u32
        } else {
            w & 0xFFFF_FFEFu32
        }
    }

    /// The configuration word `w` with the receive-tolerance bit (bit 3)
    /// forced to `rxtol`.
    pub open spec fn with_rxtol(w: u32, rxtol: bool) -> u32 {
        if rxtol {
            w | 0x8u32
        } else {
            w & 0xFFFF_FFF7u32
        }
    }

    /// The configuration word `w` with the signal-free-time field (bits
    /// 0..=2) replaced by the encoding of `sft`.
    pub open spec fn with_sft(w: u32, sft: Sft) -> u32 {
        (w & 0xFFFF_FFF8u32) | sft.encoding()
    }

    /// The raw configuration word.
    pub fn bits(&self) -> (r: u32)
        ensures
            r == self@,
    {
        self.val
    }

    /// A configuration value holding the raw word `val`.
    pub fn from_bits(val: u32) -> (r: Cfgr)
        ensures
            r@ == val,
    {
        Cfgr { val }
    }

    /// Set listen mode.
    #[must_use]
    pub fn set_lstn(self, lstn: bool) -> (r: Cfgr)
        ensures
            r@ == Cfgr::with_lstn(self@, lstn),
    {
        if lstn {
            Cfgr { val: self.val | 0x8000_0000u32 }
        } else {
            Cfgr { val: self.val & 0x7FFF_FFFFu32 }
        }
    }

    /// The own-address filter: one bit per logical address this node
    /// answers for.
    pub fn oar(&self) -> (r: u16)
        ensures
            r == Cfgr::oar_of(self@),
    {
        ((self.val >> 16u32) & 0x7FFFu32) as u16
    }

    /// Set the own-address filter from the low 15 bits of `oar`.
    #[must_use]
    pub fn set_oar(self, oar: u16) -> (r: Cfgr)
        ensures
            r@ == Cfgr::with_oar(self@, oar),
    {
        Cfgr { val: (self.val & 0x8000_FFFFu32) | (((oar as u32) & 0x7FFFu32) << 16u32) }
    }

    /// Set the signal-free-time option: when set, the signal-free-time
    /// counter starts on the end of the previous message instead of on the
    /// start-of-message request.
    #[must_use]
    pub fn set_sftop(self, sftop: bool) -> (r: Cfgr)
        ensures
            r@ == Cfgr::with_sftop(self@, sftop),
    {
        if sftop {
            Cfgr { val: self.val | 0x100u32 }
        } else {
            Cfgr { val: self.val & 0xFFFF_FEFFu32 }
        }
    }

    /// Set broadcast-no-error-generation: when set, no error bit is put on
    /// the line on receive errors of broadcast messages.
    #[must_use]
    pub fn set_brdnogen(self, brdnogen: bool) -> (r: Cfgr)
        ensures
            r@ == Cfgr::with_brdnogen(self@, brdnogen),
    {
        if brdnogen {
            Cfgr { val: self.val | 0x80u32 }
        } else {
            Cfgr { val: self.val & 0xFFFF_FF7Fu32 }
        }
    }

    /// Set error-bit generation on long-bit-period errors.
    #[must_use]
    pub fn set_lbpegen(self, lbpegen: bool) -> (r: Cfgr)
        ensures
            r@ == Cfgr::with_lbpegen(self@, lbpegen),
    {
        if lbpegen {
            Cfgr { val: self.val | 0x40u32 }
        } else {
            Cfgr { val: self.val & 0xFFFF_FFBFu32 }
        }
    }

    /// Set error-bit generation on bit-rising errors.
    #[must_use]
    pub fn set_bregen(self, bregen: bool) -> (r: Cfgr)
        ensures
            r@ == Cfgr::with_bregen(self@, bregen),
    {
        if bregen {
            Cfgr { val: self.val | 0x20u32 }
        } else {
            Cfgr { val: self.val & 0xFFFF_FFDFu32 }
        }
    }

    /// Set whether a bit-rising error stops reception.
    #[must_use]
    pub fn set_brestp(self, brestp: bool) -> (r: Cfgr)
        ensures
            r@ == Cfgr::with_brestp(self@, brestp),
    {
        if brestp {
            Cfgr { val: self.val | 0x10u32 }
        } else {
            Cfgr { val: self.val & 0xFFFF_FFEFu32 }
        }
    }

    /// Set the receive-tolerance extension.
    #[must_use]
    pub fn set_rxtol(self, rxtol: bool) -> (r: Cfgr)
        ensures
            r@ == Cfgr::with_rxtol(self@, rxtol),
    {
        if rxtol {
            Cfgr { val: self.val | 0x8u32 }
        } else {
            Cfgr { val: self.val & 0xFFFF_FFF7u32 }
        }
    }

    /// Set the signal-free-time profile.
    #[must_use]
    pub fn set_sft(self, sft: Sft) -> (r: Cfgr)
        ensures
            r@ == Cfgr::with_sft(self@, sft),
    {
        Cfgr { val: (self.val & 0xFFFF_FFF8u32) | sft.bits() }
    }
}

impl Default for Cfgr {
    /// The reset value: all bits clear.
    fn default() -> (r: Cfgr)
        ensures
            r@ == 0u32,
    {
        Cfgr { val: 0 }
    }
}

/// Writing the own-address filter and reading it back yields the low 15 bits
/// of what was written, whatever the prior state of the word, and no bit
/// outside the filter field changes.
pub proof fn lemma_address_filter_round_trip(w: u32, f: u16)
    ensures
        Cfgr::oar_of(Cfgr::with_oar(w, f)) == f & 0x7FFFu16,
        Cfgr::with_oar(w, f) & 0x8000_FFFFu32 == w & 0x8000_FFFFu32,
{
    assert(((((w & 0x8000_FFFFu32) | (((f as u32) & 0x7FFFu32) << 16u32)) >> 16u32) & 0x7FFFu32)
        as u16 == f & 0x7FFFu16) by (bit_vector);
    assert(((w & 0x8000_FFFFu32) | (((f as u32) & 0x7FFFu32) << 16u32)) & 0x8000_FFFFu32 == w
        & 0x8000_FFFFu32) by (bit_vector);
}

} // verus!
