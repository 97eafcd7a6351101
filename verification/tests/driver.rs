use stm32_cec::irq;
use stm32_cec::Cec;
use stm32_cec::LogiAddr;
use stm32_cec::Regs;

const BASE: u32 = 0x4000_6C00;

#[test]
fn construction_runs_the_enable_sequence() {
    let cec = Cec::new(Regs::new(BASE, vec![]));
    let regs = cec.regs();
    assert_eq!(regs.cr().bits(), 1);
    assert!(regs.cr().en());
    assert_eq!(regs.cfgr().bits(), 0x8008_0070);
    assert_eq!(regs.cfgr().oar(), 0x8);
    assert_eq!(regs.ier(), 0x1FFF);
    assert!(regs.tx_writes().is_empty());
    assert!(regs.isr_clears().is_empty());
}

#[test]
fn send_writes_the_header_byte_first() {
    let mut cec = Cec::new(Regs::new(BASE, vec![irq::TXBR, irq::TXEND]));
    let r = cec.send_byte(LogiAddr::PlaybackDev, LogiAddr::Broadcast, 0xAB);
    assert_eq!(r, Ok(()));
    assert_eq!(cec.regs().tx_writes()[0], 0x4F);
}

#[test]
fn send_succeeds_on_byte_request_then_end_of_transmission() {
    let mut cec = Cec::new(Regs::new(BASE, vec![irq::TXBR, irq::TXEND]));
    let r = cec.send_byte(LogiAddr::Tv, LogiAddr::AudioSys, 0x99);
    assert_eq!(r, Ok(()));
    assert_eq!(*cec.regs().tx_writes(), [0x05, 0x99]);
    assert_eq!(*cec.regs().isr_clears(), [irq::TXBR, irq::TXEND]);
    assert!(cec.regs().pending_events().is_empty());
    assert_eq!(cec.regs().cr().bits(), 0b101);
}

#[test]
fn send_fails_without_payload_when_first_status_is_an_error() {
    let mut cec = Cec::new(Regs::new(BASE, vec![irq::TXERR]));
    let r = cec.send_byte(LogiAddr::PlaybackDev, LogiAddr::Tv, 0x55);
    assert_eq!(r, Err(irq::TXERR));
    assert_eq!(*cec.regs().tx_writes(), [0x40]);
    assert_eq!(*cec.regs().isr_clears(), [irq::TXERR]);
    assert_eq!(cec.regs().cr().bits(), 0b011);
}

#[test]
fn send_fails_with_second_status_when_transmission_does_not_end() {
    let mut cec = Cec::new(Regs::new(BASE, vec![irq::TXBR, irq::TXACK]));
    let r = cec.send_byte(LogiAddr::PlaybackDev, LogiAddr::Broadcast, 0x55);
    assert_eq!(r, Err(irq::TXACK));
    assert_eq!(*cec.regs().tx_writes(), [0x4F, 0x55]);
    assert_eq!(*cec.regs().isr_clears(), [irq::TXBR, irq::TXACK]);
}

#[test]
fn send_reports_the_raw_status_word_with_extra_flags() {
    let first = irq::TXBR | irq::ARBLST;
    let second = irq::TXERR | irq::RXBR;
    let mut cec = Cec::new(Regs::new(BASE, vec![first, second]));
    let r = cec.send_byte(LogiAddr::Tuner1, LogiAddr::Tuner2, 0x00);
    assert_eq!(r, Err(second));
    assert_eq!(*cec.regs().isr_clears(), [first, second]);
}

#[test]
fn standby_sends_the_standby_opcode() {
    let mut cec = Cec::new(Regs::new(BASE, vec![irq::TXBR, irq::TXEND]));
    let r = cec.set_standby(LogiAddr::Broadcast, LogiAddr::Broadcast);
    assert_eq!(r, Ok(()));
    assert_eq!(*cec.regs().tx_writes(), [0xFF, 0x36]);
}

#[test]
fn image_view_on_sends_the_image_view_on_opcode() {
    let mut cec = Cec::new(Regs::new(BASE, vec![irq::TXBR, irq::TXEND]));
    let r = cec.set_image_view_on(LogiAddr::PlaybackDev2, LogiAddr::Tv);
    assert_eq!(r, Ok(()));
    assert_eq!(*cec.regs().tx_writes(), [0x80, 0x04]);
}

#[test]
fn standby_failure_mirrors_the_shared_primitive() {
    let mut cec = Cec::new(Regs::new(BASE, vec![irq::ARBLST]));
    let r = cec.set_standby(LogiAddr::PlaybackDev, LogiAddr::Tv);
    assert_eq!(r, Err(irq::ARBLST));
    assert_eq!(*cec.regs().tx_writes(), [0x40]);
}

#[test]
fn consecutive_sends_consume_the_event_script_in_order() {
    let mut cec = Cec::new(Regs::new(BASE, vec![irq::TXBR, irq::TXEND, irq::TXUDR]));
    assert_eq!(cec.set_standby(LogiAddr::PlaybackDev, LogiAddr::Tv), Ok(()));
    assert_eq!(cec.set_image_view_on(LogiAddr::PlaybackDev, LogiAddr::Tv), Err(irq::TXUDR));
    assert_eq!(*cec.regs().tx_writes(), [0x40, 0x36, 0x40]);
}
