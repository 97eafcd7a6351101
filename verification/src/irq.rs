//! Interrupt flags of the HDMI-CEC peripheral.
//!
//! Every flag is a single bit of the 32-bit interrupt-status word; the
//! defined flags occupy bits 0 through 12.  A latched flag is cleared by
//! writing `1` to its bit (write-1-to-clear); writing `0` leaves it alone.

use vstd::prelude::*;

verus! {

/// TX-missing acknowledge error.
///
/// Set in transmission mode when no acknowledge (or, for broadcast, a
/// negative acknowledge) was received.  Aborts the transmission and clears
/// the TXSOM and TXEOM controls.
pub const TXACK: u32 = 1u32 << 12;

/// TX-error.
///
/// Set when the initiator detects low impedance on the CEC line while it is
/// released.  Aborts the transmission and clears TXSOM and TXEOM.
pub const TXERR: u32 = 1u32 << 11;

/// TX-buffer underrun.
///
/// Set when the application was not in time to load the data register before
/// the next byte transmission.  Aborts the transmission and clears TXSOM and
/// TXEOM.
pub const TXUDR: u32 = 1u32 << 10;

/// End of transmission.
///
/// Set when the last byte of the CEC message has been successfully
/// transmitted.  Clears the TXSOM and TXEOM controls.
pub const TXEND: u32 = 1u32 << 9;

/// TX-byte request.
///
/// Set when the next transmission byte has to be written to the data
/// register.
pub const TXBR: u32 = 1u32 << 8;

/// Arbitration lost.
///
/// Set when the device switches to reception because another initiator won
/// arbitration after the TXSOM command.
pub const ARBLST: u32 = 1u32 << 7;

/// RX-missing acknowledge.
///
/// Set in receive mode when no acknowledge was seen on the CEC line.
/// Aborts the reception.
pub const RXACK: u32 = 1u32 << 6;

/// RX-long bit period error.
///
/// Set when a data-bit waveform shows a long bit period error.  Always stops
/// reception of the CEC message.
pub const LBPE: u32 = 1u32 << 5;

/// RX-short bit period error.
///
/// Set when a data-bit waveform shows a short bit period error.
pub const SBPE: u32 = 1u32 << 4;

/// RX-bit rising error.
///
/// Set when a data-bit waveform shows a bit rising error.
pub const BRE: u32 = 1u32 << 3;

/// RX-overrun.
///
/// Set when a received byte arrives before the previous one was read.
/// Stops message reception.
pub const RXOVR: u32 = 1u32 << 2;

/// End of reception.
///
/// Set when the last byte of a CEC message has been received and stored.
pub const RXEND: u32 = 1u32 << 1;

/// RX-byte received.
///
/// Set when a new byte has been received from the CEC line and stored.
pub const RXBR: u32 = 1u32;

/// Bitmask of all interrupts.
pub const ALL: u32 = TXACK | TXERR | TXUDR | TXEND | TXBR | ARBLST | RXACK | LBPE | SBPE | BRE
    | RXOVR | RXEND | RXBR;

/// The union of the thirteen flags fills bits 0 through 12 exactly: every
/// defined flag lies inside `ALL`, and no bit outside 0..=12 does.
pub proof fn lemma_all_flags()
    ensures
        ALL == 0x1FFFu32,
{
    assert((1u32 << 12) | (1u32 << 11) | (1u32 << 10) | (1u32 << 9) | (1u32 << 8) | (1u32 << 7)
        | (1u32 << 6) | (1u32 << 5) | (1u32 << 4) | (1u32 << 3) | (1u32 << 2) | (1u32 << 1)
        | 1u32 == 0x1FFFu32) by (bit_vector);
}

} // verus!
