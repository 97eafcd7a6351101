use stm32_cec::LogiAddr;
use stm32_cec::PhysAddr;

#[test]
fn logi_addr_round_trip_for_all_in_range_bytes() {
    for b in 0u8..16u8 {
        let addr = LogiAddr::try_from_byte(b).unwrap();
        assert_eq!(addr.to_byte(), b);
    }
}

#[test]
fn logi_addr_rejects_every_out_of_range_byte() {
    for b in 16u8..=255u8 {
        assert_eq!(LogiAddr::try_from_byte(b), Err(b));
    }
}

#[test]
fn logi_addr_variant_encodings() {
    assert_eq!(LogiAddr::Tv.to_byte(), 0x0);
    assert_eq!(LogiAddr::RecDev1.to_byte(), 0x1);
    assert_eq!(LogiAddr::RecDev2.to_byte(), 0x2);
    assert_eq!(LogiAddr::Tuner1.to_byte(), 0x3);
    assert_eq!(LogiAddr::PlaybackDev.to_byte(), 0x4);
    assert_eq!(LogiAddr::AudioSys.to_byte(), 0x5);
    assert_eq!(LogiAddr::Tuner2.to_byte(), 0x6);
    assert_eq!(LogiAddr::Tuner3.to_byte(), 0x7);
    assert_eq!(LogiAddr::PlaybackDev2.to_byte(), 0x8);
    assert_eq!(LogiAddr::RecDev3.to_byte(), 0x9);
    assert_eq!(LogiAddr::Tuner4.to_byte(), 0xA);
    assert_eq!(LogiAddr::PlaybackDev3.to_byte(), 0xB);
    assert_eq!(LogiAddr::Rsvd1.to_byte(), 0xC);
    assert_eq!(LogiAddr::Rsvd2.to_byte(), 0xD);
    assert_eq!(LogiAddr::FreeUse.to_byte(), 0xE);
    assert_eq!(LogiAddr::Broadcast.to_byte(), 0xF);
}

#[test]
fn phys_addr_keeps_its_word() {
    let addr = PhysAddr::new(0x1234_ABCD);
    assert_eq!(addr.bits(), 0x1234_ABCD);
}

#[test]
fn phys_addr_displays_as_dotted_hex_quad() {
    assert_eq!(PhysAddr::new(0x1234_ABCD).display(), "12.34.AB.CD");
    assert_eq!(PhysAddr::new(0x4000_6C00).display(), "40.0.6C.0");
    assert_eq!(PhysAddr::new(0).display(), "0.0.0.0");
    assert_eq!(PhysAddr::new(0x0100_0A0F).display(), "1.0.A.F");
    assert_eq!(PhysAddr::new(0xFFFF_FFFF).display(), "FF.FF.FF.FF");
}
