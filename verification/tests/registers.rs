use stm32_cec::irq;
use stm32_cec::Cfgr;
use stm32_cec::Cr;
use stm32_cec::Sft;

#[test]
fn cr_default_is_zero() {
    let cr: Cr = Cr::default();
    assert_eq!(cr.bits(), 0);
    assert!(!cr.en());
    assert!(!cr.txsom());
    assert!(!cr.txeom());
}

#[test]
fn cr_enable_toggles() {
    let cr: Cr = Cr::default();
    assert_eq!(cr.en(), false);
    let cr: Cr = cr.set_en(true);
    assert_eq!(cr.en(), true);
    let cr: Cr = cr.set_en(false);
    assert_eq!(cr.en(), false);
}

#[test]
fn cr_enable_round_trip_keeps_other_bits() {
    let cr = Cr::from_bits(0xDEAD_BEF6);
    let round = cr.set_en(true).set_en(false);
    assert_eq!(round.bits() & 1, 0);
    assert_eq!(round.bits() & 0xFFFF_FFFE, 0xDEAD_BEF6 & 0xFFFF_FFFE);
}

#[test]
fn cr_txsom_and_txeom_set_their_bits() {
    let cr = Cr::default().set_txsom();
    assert!(cr.txsom());
    assert_eq!(cr.bits(), 0b010);
    let cr = Cr::default().set_txeom();
    assert!(cr.txeom());
    assert_eq!(cr.bits(), 0b100);
}

#[test]
fn cr_derived_constants() {
    assert_eq!(Cr::enabled().bits(), 0b001);
    assert_eq!(Cr::enabled_txsom().bits(), 0b011);
    assert_eq!(Cr::enabled_txeom().bits(), 0b101);
    assert!(Cr::enabled_txsom().en());
    assert!(Cr::enabled_txsom().txsom());
    assert!(Cr::enabled_txeom().txeom());
}

#[test]
fn cfgr_default_is_zero() {
    assert_eq!(Cfgr::default().bits(), 0);
    assert_eq!(Cfgr::default().oar(), 0);
}

#[test]
fn cfgr_lstn_is_bit_31() {
    assert_eq!(Cfgr::default().set_lstn(true).bits(), 0x8000_0000);
    assert_eq!(Cfgr::from_bits(0xFFFF_FFFF).set_lstn(false).bits(), 0x7FFF_FFFF);
}

#[test]
fn cfgr_oar_round_trip() {
    let cfgr = Cfgr::default().set_oar(0x8);
    assert_eq!(cfgr.oar(), 0x8);
    assert_eq!(cfgr.bits(), 0x8 << 16);
}

#[test]
fn cfgr_oar_masks_to_15_bits_and_keeps_other_fields() {
    let cfgr = Cfgr::from_bits(0xFFFF_FFFF).set_oar(0xABCD);
    assert_eq!(cfgr.oar(), 0xABCD & 0x7FFF);
    assert_eq!(cfgr.bits() & 0x8000_FFFF, 0x8000_FFFF);
    assert_eq!(cfgr.bits(), 0xABCD_FFFF);
}

#[test]
fn cfgr_flag_setters_hit_their_bits() {
    assert_eq!(Cfgr::default().set_sftop(true).bits(), 1 << 8);
    assert_eq!(Cfgr::default().set_brdnogen(true).bits(), 1 << 7);
    assert_eq!(Cfgr::default().set_lbpegen(true).bits(), 1 << 6);
    assert_eq!(Cfgr::default().set_bregen(true).bits(), 1 << 5);
    assert_eq!(Cfgr::default().set_brestp(true).bits(), 1 << 4);
    assert_eq!(Cfgr::default().set_rxtol(true).bits(), 1 << 3);
    let all = Cfgr::from_bits(0xFFFF_FFFF);
    assert_eq!(all.set_sftop(false).bits(), !(1 << 8));
    assert_eq!(all.set_brdnogen(false).bits(), !(1 << 7));
    assert_eq!(all.set_lbpegen(false).bits(), !(1 << 6));
    assert_eq!(all.set_bregen(false).bits(), !(1 << 5));
    assert_eq!(all.set_brestp(false).bits(), !(1 << 4));
    assert_eq!(all.set_rxtol(false).bits(), !(1 << 3));
}

#[test]
fn cfgr_sft_field_is_low_3_bits() {
    assert_eq!(Cfgr::default().set_sft(Sft::History).bits(), 0);
    assert_eq!(Cfgr::default().set_sft(Sft::Nom0pt5).bits(), 1);
    assert_eq!(Cfgr::default().set_sft(Sft::Nom1pt5).bits(), 2);
    assert_eq!(Cfgr::default().set_sft(Sft::Nom2pt5).bits(), 3);
    assert_eq!(Cfgr::default().set_sft(Sft::Nom3pt5).bits(), 4);
    assert_eq!(Cfgr::default().set_sft(Sft::Nom4pt5).bits(), 5);
    assert_eq!(Cfgr::default().set_sft(Sft::Nom5pt5).bits(), 6);
    assert_eq!(Cfgr::default().set_sft(Sft::Nom6pt5).bits(), 7);
    assert_eq!(Cfgr::from_bits(0xFF).set_sft(Sft::History).bits(), 0xF8);
}

#[test]
fn irq_all_is_union_of_the_13_flags() {
    let union = irq::TXACK | irq::TXERR | irq::TXUDR | irq::TXEND | irq::TXBR | irq::ARBLST
        | irq::RXACK | irq::LBPE | irq::SBPE | irq::BRE | irq::RXOVR | irq::RXEND | irq::RXBR;
    assert_eq!(irq::ALL, union);
    assert_eq!(irq::ALL, 0x1FFF);
}

#[test]
fn irq_flags_are_distinct_single_bits() {
    let flags = [
        irq::RXBR,
        irq::RXEND,
        irq::RXOVR,
        irq::BRE,
        irq::SBPE,
        irq::LBPE,
        irq::RXACK,
        irq::ARBLST,
        irq::TXBR,
        irq::TXEND,
        irq::TXUDR,
        irq::TXERR,
        irq::TXACK,
    ];
    for (i, f) in flags.iter().enumerate() {
        assert_eq!(*f, 1u32 << i);
    }
}
