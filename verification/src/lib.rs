//! Driver core for the STM32 HDMI-CEC peripheral.
//!
//! The peripheral speaks the HDMI Consumer Electronics Control bus: a
//! single-wire, multi-drop serial bus over which HDMI devices exchange short
//! control messages.  This crate covers the register model of the peripheral
//! (typed bit-field views over raw 32-bit words), the initialization sequence,
//! and the two-byte outbound message protocol driven by polled interrupt
//! status.
//!
//! Hardware access is expressed through [`Regs`], a register-file model that
//! records every write and serves interrupt-status events from a script fixed
//! at construction.  A host binding maps the same operations onto volatile
//! memory-mapped accesses; the driver logic above the register file is
//! identical in both settings.

pub mod irq;

mod addr;
mod cec;
mod cfgr;
mod cr;
mod regs;

pub use addr::LogiAddr;
pub use addr::PhysAddr;
pub use cec::Cec;
pub use cfgr::Cfgr;
pub use cfgr::Sft;
pub use cr::Cr;
pub use regs::Regs;
