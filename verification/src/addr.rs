//! CEC address types: the 32-bit physical address and the 16-value logical
//! address.

use vstd::prelude::*;
use vstd::string::StringExecFns;

verus! {

/// Physical address.
///
/// A 32-bit value structured as four 8-bit fields, the dotted quad of the
/// HDMI topology.  It carries no invariant and is used for display only.
#[derive(Debug, Copy, Clone, Eq, PartialEq, Ord, PartialOrd, Hash, Structural)]
pub struct PhysAddr {
    addr: u32,
}

/// The upper-case hexadecimal digit for a value below 16.
pub open spec fn hex_digit(n: u8) -> char {
    match n {
        0u8 => '0',
        1u8 => '1',
        2u8 => '2',
        3u8 => '3',
        4u8 => '4',
        5u8 => '5',
        6u8 => '6',
        7u8 => '7',
        8u8 => '8',
        9u8 => '9',
        10u8 => 'A',
        11u8 => 'B',
        12u8 => 'C',
        13u8 => 'D',
        14u8 => 'E',
        _ => 'F',
    }
}

/// The upper-case hexadecimal rendering of a byte, without leading zeros:
/// one digit below 16, two digits otherwise.
pub open spec fn hex_byte(b: u8) -> Seq<char> {
    if b < 16 {
        seq![hex_digit(b)]
    } else {
        seq![hex_digit(b / 16), hex_digit(b % 16)]
    }
}

/// The upper-case hexadecimal digit for `n`, as a one-character string.
fn hex_digit_str(n: u8) -> (r: &'static str)
    requires
        n < 16,
    ensures
        r@ == seq![hex_digit(n)],
{
    proof {
        reveal_strlit("0");
        reveal_strlit("1");
        reveal_strlit("2");
        reveal_strlit("3");
        reveal_strlit("4");
        reveal_strlit("5");
        reveal_strlit("6");
        reveal_strlit("7");
        reveal_strlit("8");
        reveal_strlit("9");
        reveal_strlit("A");
        reveal_strlit("B");
        reveal_strlit("C");
        reveal_strlit("D");
        reveal_strlit("E");
        reveal_strlit("F");
    }
    match n {
        0u8 => "0",
        1u8 => "1",
        2u8 => "2",
        3u8 => "3",
        4u8 => "4",
        5u8 => "5",
        6u8 => "6",
        7u8 => "7",
        8u8 => "8",
        9u8 => "9",
        10u8 => "A",
        11u8 => "B",
        12u8 => "C",
        13u8 => "D",
        14u8 => "E",
        _ => "F",
    }
}

/// The upper-case hexadecimal rendering of `b`, without leading zeros.
fn hex_byte_string(b: u8) -> (r: String)
    ensures
        r@ == hex_byte(b),
{
    if b < 16 {
        hex_digit_str(b).to_owned()
    } else {
        let mut s = hex_digit_str(b / 16).to_owned();
        s.append(hex_digit_str(b % 16));
        s
    }
}

impl PhysAddr {
    /// The raw 32-bit address word.
    pub closed spec fn word(self) -> u32 {
        self.addr
    }

    /// The dotted-quad rendering of the address: the four bytes from most
    /// to least significant, in upper-case hexadecimal without leading
    /// zeros, separated by dots.
    pub open spec fn rendered(self) -> Seq<char> {
        hex_byte((self.word() >> 24u32) as u8) + seq!['.'] + hex_byte((self.word() >> 16u32) as u8)
            + seq!['.'] + hex_byte((self.word() >> 8u32) as u8) + seq!['.'] + hex_byte(
            self.word() as u8,
        )
    }

    /// A physical address holding the raw word `addr`.
    pub fn new(addr: u32) -> (r: PhysAddr)
        ensures
            r.word() == addr,
    {
        PhysAddr { addr }
    }

    /// The raw 32-bit address word.
    pub fn bits(&self) -> (r: u32)
        ensures
            r == self.word(),
    {
        self.addr
    }

    /// Render the address as its dotted quad, most significant byte first.
    pub fn display(&self) -> (r: String)
        ensures
            r@ == self.rendered(),
    {
        proof {
            reveal_strlit(".");
        }
        let mut s = hex_byte_string((self.addr >> 24u32) as u8);
        s.append(".");
        s.append(hex_byte_string((self.addr >> 16u32) as u8).as_str());
        s.append(".");
        s.append(hex_byte_string((self.addr >> 8u32) as u8).as_str());
        s.append(".");
        s.append(hex_byte_string(self.addr as u8).as_str());
        s
    }
}

/// Logical address: the device role a node claims on the CEC bus.
///
/// All 16 raw values 0x0 through 0xF are mapped, in this order.
#[derive(Debug, Copy, Clone, Eq, PartialEq, Ord, PartialOrd, Hash, Structural)]
pub enum LogiAddr {
    /// Television
    Tv,
    /// Recording device 1
    RecDev1,
    /// Recording device 2
    RecDev2,
    /// Tuner 1
    Tuner1,
    /// Playback device 1
    PlaybackDev,
    /// Audio system
    AudioSys,
    /// Tuner 2
    Tuner2,
    /// Tuner 3
    Tuner3,
    /// Playback device 2
    PlaybackDev2,
    /// Recording device 3
    RecDev3,
    /// Tuner 4
    Tuner4,
    /// Playback device 3
    PlaybackDev3,
    /// Reserved 1
    Rsvd1,
    /// Reserved 2
    Rsvd2,
    /// Free use
    FreeUse,
    /// Unregistered (as source address) or broadcast (as destination
    /// address).
    Broadcast,
}

impl LogiAddr {
    /// The 4-bit wire encoding of this logical address.
    pub open spec fn as_byte(self) -> u8 {
        match self {
            LogiAddr::Tv => 0u8,
            LogiAddr::RecDev1 => 1u8,
            LogiAddr::RecDev2 => 2u8,
            LogiAddr::Tuner1 => 3u8,
            LogiAddr::PlaybackDev => 4u8,
            LogiAddr::AudioSys => 5u8,
            LogiAddr::Tuner2 => 6u8,
            LogiAddr::Tuner3 => 7u8,
            LogiAddr::PlaybackDev2 => 8u8,
            LogiAddr::RecDev3 => 9u8,
            LogiAddr::Tuner4 => 10u8,
            LogiAddr::PlaybackDev3 => 11u8,
            LogiAddr::Rsvd1 => 12u8,
            LogiAddr::Rsvd2 => 13u8,
            LogiAddr::FreeUse => 14u8,
            LogiAddr::Broadcast => 15u8,
        }
    }

    /// The logical address encoded by a raw byte: every byte below 16 maps
    /// to an address, and every other byte is rejected and handed back.
    pub open spec fn spec_try_from_byte(b: u8) -> Result<LogiAddr, u8> {
        if b == 0 {
            Result::Ok(LogiAddr::Tv)
        } else if b == 1 {
            Result::Ok(LogiAddr::RecDev1)
        } else if b == 2 {
            Result::Ok(LogiAddr::RecDev2)
        } else if b == 3 {
            Result::Ok(LogiAddr::Tuner1)
        } else if b == 4 {
            Result::Ok(LogiAddr::PlaybackDev)
        } else if b == 5 {
            Result::Ok(LogiAddr::AudioSys)
        } else if b == 6 {
            Result::Ok(LogiAddr::Tuner2)
        } else if b == 7 {
            Result::Ok(LogiAddr::Tuner3)
        } else if b == 8 {
            Result::Ok(LogiAddr::PlaybackDev2)
        } else if b == 9 {
            Result::Ok(LogiAddr::RecDev3)
        } else if b == 10 {
            Result::Ok(LogiAddr::Tuner4)
        } else if b == 11 {
            Result::Ok(LogiAddr::PlaybackDev3)
        } else if b == 12 {
            Result::Ok(LogiAddr::Rsvd1)
        } else if b == 13 {
            Result::Ok(LogiAddr::Rsvd2)
        } else if b == 14 {
            Result::Ok(LogiAddr::FreeUse)
        } else if b == 15 {
            Result::Ok(LogiAddr::Broadcast)
        } else {
            Result::Err(b)
        }
    }

    /// The 4-bit wire encoding of this logical address.
    pub fn to_byte(self) -> (r: u8)
        ensures
            r == self.as_byte(),
            r < 16,
    {
        match self {
            LogiAddr::Tv => 0u8,
            LogiAddr::RecDev1 => 1u8,
            LogiAddr::RecDev2 => 2u8,
            LogiAddr::Tuner1 => 3u8,
            LogiAddr::PlaybackDev => 4u8,
            LogiAddr::AudioSys => 5u8,
            LogiAddr::Tuner2 => 6u8,
            LogiAddr::Tuner3 => 7u8,
            LogiAddr::PlaybackDev2 => 8u8,
            LogiAddr::RecDev3 => 9u8,
            LogiAddr::Tuner4 => 10u8,
            LogiAddr::PlaybackDev3 => 11u8,
            LogiAddr::Rsvd1 => 12u8,
            LogiAddr::Rsvd2 => 13u8,
            LogiAddr::FreeUse => 14u8,
            LogiAddr::Broadcast => 15u8,
        }
    }

    /// Decode a raw byte into a logical address, handing the byte back when
    /// it is out of range.
    pub fn try_from_byte(b: u8) -> (r: Result<LogiAddr, u8>)
        ensures
            r == LogiAddr::spec_try_from_byte(b),
            b < 16 <==> r is Ok,
    {
        match b {
            0u8 => Result::Ok(LogiAddr::Tv),
            1u8 => Result::Ok(LogiAddr::RecDev1),
            2u8 => Result::Ok(LogiAddr::RecDev2),
            3u8 => Result::Ok(LogiAddr::Tuner1),
            4u8 => Result::Ok(LogiAddr::PlaybackDev),
            5u8 => Result::Ok(LogiAddr::AudioSys),
            6u8 => Result::Ok(LogiAddr::Tuner2),
            7u8 => Result::Ok(LogiAddr::Tuner3),
            8u8 => Result::Ok(LogiAddr::PlaybackDev2),
            9u8 => Result::Ok(LogiAddr::RecDev3),
            10u8 => Result::Ok(LogiAddr::Tuner4),
            11u8 => Result::Ok(LogiAddr::PlaybackDev3),
            12u8 => Result::Ok(LogiAddr::Rsvd1),
            13u8 => Result::Ok(LogiAddr::Rsvd2),
            14u8 => Result::Ok(LogiAddr::FreeUse),
            15u8 => Result::Ok(LogiAddr::Broadcast),
            _ => Result::Err(b),
        }
    }
}

/// Decoding any byte below 16 yields the logical address that encodes back
/// to that same byte; every byte of 16 or more is rejected and returned
/// unchanged as the failure payload.
pub proof fn lemma_byte_round_trip(b: u8)
    ensures
        b < 16 ==> (LogiAddr::spec_try_from_byte(b) matches Ok(a) && a.as_byte() == b),
        b >= 16 ==> LogiAddr::spec_try_from_byte(b) == Result::<LogiAddr, u8>::Err(b),
{
}

/// Encoding a logical address and decoding the byte again yields the same
/// address.
pub proof fn lemma_addr_round_trip(a: LogiAddr)
    ensures
        LogiAddr::spec_try_from_byte(a.as_byte()) == Result::<LogiAddr, u8>::Ok(a),
{
}

} // verus!
