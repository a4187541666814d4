//! The addressing mode that the two `mod` bits of an instruction select.

use vstd::prelude::*;

verus! {

/// How the `rm` field of an instruction is to be read.
#[derive(Copy, Clone, Debug, PartialEq, Eq, Structural)]
pub enum Mode {
    /// Memory operand without displacement (but for the direct address).
    Memory,
    /// Memory operand with a displacement of one byte.
    Displace8Bits,
    /// Memory operand with a displacement of two bytes.
    Displace16Bits,
    /// The `rm` field names a register.
    Register,
}

impl Mode {
    /// The mode that the two bits select, `hi` being the first of them.
    pub open spec fn of_bits(hi: bool, lo: bool) -> Mode {
        if hi {
            if lo {
                Mode::Register
            } else {
                Mode::Displace16Bits
            }
        } else {
            if lo {
                Mode::Displace8Bits
            } else {
                Mode::Memory
            }
        }
    }
}

impl<'a> From<&'a [bool; 2]> for Mode {
    fn from(bits: &'a [bool; 2]) -> (mode: Mode) {
        if bits[0] {
            if bits[1] {
                Mode::Register
            } else {
                Mode::Displace16Bits
            }
        } else {
            if bits[1] {
                Mode::Displace8Bits
            } else {
                Mode::Memory
            }
        }
    }
}

impl<'a> vstd::std_specs::convert::FromSpecImpl<&'a [bool; 2]> for Mode {
    open spec fn obeys_from_spec() -> bool {
        true
    }

    open spec fn from_spec(bits: &'a [bool; 2]) -> Mode {
        Mode::of_bits(bits[0], bits[1])
    }
}

} // verus!
