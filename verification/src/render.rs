//! The assembly renderer: from a decoded instruction to one line of text,
//! `mov <dest>, <src>`.

use crate::instruction::{is_direct_rm, Instruction};
use crate::mode::Mode;
use crate::register::Register;
use vstd::prelude::*;
use vstd::string::StringExecFns;

verus! {

/// The character of a decimal digit.
pub open spec fn digit_char(d: nat) -> char {
    if d == 0 {
        '0'
    } else if d == 1 {
        '1'
    } else if d == 2 {
        '2'
    } else if d == 3 {
        '3'
    } else if d == 4 {
        '4'
    } else if d == 5 {
        '5'
    } else if d == 6 {
        '6'
    } else if d == 7 {
        '7'
    } else if d == 8 {
        '8'
    } else {
        '9'
    }
}

/// The decimal digits of a number, without leading zeros.
pub open spec fn decimal(n: nat) -> Seq<char>
    decreases n,
{
    if n < 10 {
        seq![digit_char(n)]
    } else {
        decimal(n / 10).push(digit_char(n % 10))
    }
}

/// The decimal text of a number, with a leading `-` where it is negative.
pub open spec fn signed_decimal(v: int) -> Seq<char> {
    if v < 0 {
        seq!['-'] + decimal((-v) as nat)
    } else {
        decimal(v as nat)
    }
}

/// A stored value read in two's complement: its low 8 bits for a narrow
/// instruction, all 16 for a wide one.
pub open spec fn signed_value(raw: u16, wide: bool) -> int {
    if wide {
        if raw >= 32768 {
            raw - 65536
        } else {
            raw as int
        }
    } else {
        let low = raw as int % 256;
        if low >= 128 {
            low - 256
        } else {
            low
        }
    }
}

/// The base expression that `rm` selects for a memory operand.
pub open spec fn base_expression(rm: [bool; 3]) -> Seq<char> {
    if rm[0] {
        if rm[1] {
            if rm[2] {
                "bx"@
            } else {
                "bp"@
            }
        } else {
            if rm[2] {
                "di"@
            } else {
                "si"@
            }
        }
    } else {
        if rm[1] {
            if rm[2] {
                "bp + di"@
            } else {
                "bp + si"@
            }
        } else {
            if rm[2] {
                "bx + di"@
            } else {
                "bx + si"@
            }
        }
    }
}

/// The stored displacement, an absent one counting as 0.
pub open spec fn displacement_or_zero(disp: Option<u16>) -> u16 {
    match disp {
        Some(v) => v,
        None => 0,
    }
}

/// Whether the operand is the direct address: memory mode with `rm` = `110`.
pub open spec fn is_direct_address(rm: [bool; 3], mode: Mode) -> bool {
    mode == Mode::Memory && is_direct_rm(rm)
}

/// The effective address of a memory operand: the whole operand
/// `[<address>]` for the direct address, else the base expression.
pub open spec fn effective_address(rm: [bool; 3], mode: Mode, disp: Option<u16>) -> Seq<char> {
    if is_direct_address(rm, mode) {
        "["@ + decimal(displacement_or_zero(disp) as nat) + "]"@
    } else {
        base_expression(rm)
    }
}

/// The displacement suffix of a memory operand: nothing in memory mode
/// and for a displacement of 0, else ` + N` or ` - N`, `N` being the
/// magnitude of the displacement read as a signed number.
pub open spec fn displacement_suffix(mode: Mode, disp: Option<u16>, wide: bool) -> Seq<char> {
    let raw = displacement_or_zero(disp);
    if mode == Mode::Memory || raw == 0 {
        Seq::<char>::empty()
    } else if signed_value(raw, wide) < 0 {
        " - "@ + decimal((-signed_value(raw, wide)) as nat)
    } else {
        " + "@ + decimal(signed_value(raw, wide) as nat)
    }
}

/// The text of a memory operand.
pub open spec fn memory_operand(rm: [bool; 3], mode: Mode, disp: Option<u16>, wide: bool) -> Seq<
    char,
> {
    if is_direct_address(rm, mode) {
        effective_address(rm, mode, disp)
    } else {
        "["@ + effective_address(rm, mode, disp) + displacement_suffix(mode, disp, wide) + "]"@
    }
}

/// The text of the operand that `rm` stands for: a register name in
/// register mode, else a memory operand.
pub open spec fn rm_operand(rm: [bool; 3], mode: Mode, disp: Option<u16>, wide: bool) -> Seq<
    char,
> {
    if mode == Mode::Register {
        Register::of_bits(rm[0], rm[1], rm[2], wide).spec_name()
    } else {
        memory_operand(rm, mode, disp, wide)
    }
}

/// The size keyword and the unsigned literal of an immediate that is
/// moved to memory.
pub open spec fn sized_immediate(data: u16, wide: bool) -> Seq<char> {
    if wide {
        "word "@ + decimal(data as nat)
    } else {
        "byte "@ + decimal(data as nat)
    }
}

/// One line of assembly: the mnemonic, the destination, the source.
pub open spec fn asm_line(name: Seq<char>, dest: Seq<char>, src: Seq<char>) -> Seq<char> {
    name + " "@ + dest + ", "@ + src
}

impl Instruction {
    /// The destination operand of the rendered line.
    pub open spec fn dest_text(self) -> Seq<char> {
        match self {
            Instruction::RegisterMemoryMov { d, wide, mode, reg, rm, disp, .. } => if d {
                reg.spec_name()
            } else {
                rm_operand(rm, mode, disp, wide)
            },
            Instruction::ImmediateRegisterMov { reg, .. } => reg.spec_name(),
            Instruction::ImmediateRegisterMemoryMov { wide, mode, rm, disp, .. } => rm_operand(
                rm,
                mode,
                disp,
                wide,
            ),
            Instruction::MemoryAccumMov { to_memory, addr, .. } => if to_memory {
                "["@ + decimal(addr as nat) + "]"@
            } else {
                "ax"@
            },
        }
    }

    /// The source operand of the rendered line.
    pub open spec fn src_text(self) -> Seq<char> {
        match self {
            Instruction::RegisterMemoryMov { d, wide, mode, reg, rm, disp, .. } => if d {
                rm_operand(rm, mode, disp, wide)
            } else {
                reg.spec_name()
            },
            Instruction::ImmediateRegisterMov { wide, data, .. } => signed_decimal(
                signed_value(data, wide),
            ),
            Instruction::ImmediateRegisterMemoryMov { wide, data, .. } => sized_immediate(
                data,
                wide,
            ),
            Instruction::MemoryAccumMov { to_memory, addr, .. } => if to_memory {
                "ax"@
            } else {
                "["@ + decimal(addr as nat) + "]"@
            },
        }
    }

    /// The line of assembly that the instruction renders to.
    pub open spec fn asm_text(self) -> Seq<char> {
        asm_line("mov"@, self.dest_text(), self.src_text())
    }
}

/// The text of one decimal digit.
fn digit_str(d: u32) -> (text: &'static str)
    requires
        d < 10,
    ensures
        text@ == seq![digit_char(d as nat)],
{
    proof {
        reveal_strlit("0");
        reveal_strlit("1");
        reveal_strlit("2");
        reveal_strlit("3");
        reveal_strlit("4");
        reveal_strlit("5");
        reveal_strlit("6");
        reveal_strlit("7");
        reveal_strlit("8");
        reveal_strlit("9");
    }
    let text: &'static str = if d == 0 {
        "0"
    } else if d == 1 {
        "1"
    } else if d == 2 {
        "2"
    } else if d == 3 {
        "3"
    } else if d == 4 {
        "4"
    } else if d == 5 {
        "5"
    } else if d == 6 {
        "6"
    } else if d == 7 {
        "7"
    } else if d == 8 {
        "8"
    } else {
        "9"
    };
    assert(text@ =~= seq![digit_char(d as nat)]);
    text
}

/// Appends the decimal digits of `n` to `out`.
fn push_decimal(out: &mut String, n: u32)
    ensures
        final(out)@ == old(out)@ + decimal(n as nat),
    decreases n,
{
    if n >= 10 {
        push_decimal(out, n / 10);
    }
    out.append(digit_str(n % 10));
    assert(final(out)@ =~= old(out)@ + decimal(n as nat));
}

/// The magnitude of a stored value read as a signed number, and whether
/// that number is negative.
fn signed_parts(raw: u16, wide: bool) -> (parts: (bool, u32))
    ensures
        parts.0 == (signed_value(raw, wide) < 0),
        parts.1 == if signed_value(raw, wide) < 0 {
            -signed_value(raw, wide)
        } else {
            signed_value(raw, wide)
        },
{
    if wide {
        if raw >= 32768 {
            (true, 65536 - (raw as u32))
        } else {
            (false, raw as u32)
        }
    } else {
        let low: u16 = raw % 256;
        if low >= 128 {
            (true, 256 - (low as u32))
        } else {
            (false, low as u32)
        }
    }
}

/// The effective address of a memory operand: the whole operand
/// `[<address>]` for the direct address, else the base expression.
fn deserialize_effective_address(rm: &[bool; 3], mode: Mode, disp: Option<u16>) -> (text: String)
    ensures
        text@ == effective_address(*rm, mode, disp),
{
    let b0: bool = rm[0];
    let b1: bool = rm[1];
    let b2: bool = rm[2];
    match (b0, b1, b2) {
        (false, false, false) => String::from_str("bx + si"),
        (false, false, true) => String::from_str("bx + di"),
        (false, true, false) => String::from_str("bp + si"),
        (false, true, true) => String::from_str("bp + di"),
        (true, false, false) => String::from_str("si"),
        (true, false, true) => String::from_str("di"),
        (true, true, false) => {
            if mode == Mode::Memory {
                let address: u16 = match disp {
                    Some(v) => v,
                    None => 0,
                };
                let mut text = String::from_str("[");
                push_decimal(&mut text, address as u32);
                text.append("]");
                return text;
            }
            String::from_str("bp")
        },
        (true, true, true) => String::from_str("bx"),
    }
}

/// The displacement suffix of a memory operand.
fn deserialize_displacement(mode: Mode, disp: Option<u16>, wide: bool) -> (text: String)
    ensures
        text@ == displacement_suffix(mode, disp, wide),
{
    if mode == Mode::Memory {
        return String::new();
    }
    let val: u16 = match disp {
        Some(v) => v,
        None => 0,
    };
    if val == 0 {
        return String::new();
    }
    let (negative, magnitude): (bool, u32) = signed_parts(val, wide);
    let mut text = if negative {
        String::from_str(" - ")
    } else {
        String::from_str(" + ")
    };
    push_decimal(&mut text, magnitude);
    text
}

/// The text of the operand that `rm` stands for.
fn deserialize_rm_operand(rm: &[bool; 3], mode: Mode, disp: Option<u16>, wide: bool) -> (text:
    String)
    ensures
        text@ == rm_operand(*rm, mode, disp, wide),
{
    if mode == Mode::Register {
        String::from_str(Register::from_bits(rm, wide).name())
    } else {
        let effective_address = deserialize_effective_address(rm, mode, disp);
        let disp_str = deserialize_displacement(mode, disp, wide);
        if mode == Mode::Memory && rm[0] && rm[1] && !rm[2] {
            effective_address
        } else {
            let mut text = String::from_str("[");
            text.append(effective_address.as_str());
            text.append(disp_str.as_str());
            text.append("]");
            text
        }
    }
}

/// The text of a direct memory operand, `[<address>]`.
fn address_operand(addr: u16) -> (text: String)
    ensures
        text@ == "["@ + decimal(addr as nat) + "]"@,
{
    let mut text = String::from_str("[");
    push_decimal(&mut text, addr as u32);
    text.append("]");
    text
}

/// One line of assembly: the mnemonic, the destination, the source.
fn format_line(name: &str, dest: &str, src: &str) -> (text: String)
    ensures
        text@ == asm_line(name@, dest@, src@),
{
    let mut text = String::from_str(name);
    text.append(" ");
    text.append(dest);
    text.append(", ");
    text.append(src);
    text
}

impl Instruction {
    /// Renders the instruction as one line of assembly text.
    pub fn to_asm(&self) -> (text: String)
        ensures
            text@ == self.asm_text(),
    {
        match self {
            Instruction::RegisterMemoryMov { d, wide, mode, reg, rm, disp, .. } => {
                let rm_reg = deserialize_rm_operand(rm, *mode, *disp, *wide);
                let reg_name = String::from_str(reg.name());
                let (src, dest): (String, String) = if *d {
                    (rm_reg, reg_name)
                } else {
                    (reg_name, rm_reg)
                };
                format_line(self.opcode_name(), dest.as_str(), src.as_str())
            },
            Instruction::ImmediateRegisterMov { reg, data, wide, .. } => {
                let (negative, magnitude): (bool, u32) = signed_parts(*data, *wide);
                let mut src = if negative {
                    String::from_str("-")
                } else {
                    String::new()
                };
                proof {
                    reveal_strlit("-");
                    assert("-"@ =~= seq!['-']);
                }
                push_decimal(&mut src, magnitude);
                assert(src@ =~= signed_decimal(signed_value(*data, *wide)));
                format_line(self.opcode_name(), reg.name(), src.as_str())
            },
            Instruction::ImmediateRegisterMemoryMov { wide, mode, rm, disp, data, .. } => {
                let dest = deserialize_rm_operand(rm, *mode, *disp, *wide);
                let mut src = if *wide {
                    String::from_str("word ")
                } else {
                    String::from_str("byte ")
                };
                push_decimal(&mut src, *data as u32);
                format_line(self.opcode_name(), dest.as_str(), src.as_str())
            },
            Instruction::MemoryAccumMov { to_memory, addr, .. } => {
                let (src, dest): (String, String) = if *to_memory {
                    (String::from_str("ax"), address_operand(*addr))
                } else {
                    (address_operand(*addr), String::from_str("ax"))
                };
                format_line(self.opcode_name(), dest.as_str(), src.as_str())
            },
        }
    }
}

/// A displacement of 0 renders with an empty suffix, whatever the mode and
/// the width, and so does an absent one.
pub proof fn lemma_zero_displacement_suffix(mode: Mode, wide: bool)
    ensures
        displacement_suffix(mode, Some(0u16), wide) == Seq::<char>::empty(),
        displacement_suffix(mode, None, wide) == Seq::<char>::empty(),
{
}

/// Outside memory mode, a displacement whose signed reading is negative
/// renders as ` - ` and the decimal digits of its magnitude.
pub proof fn lemma_negative_displacement_suffix(mode: Mode, raw: u16, wide: bool)
    requires
        mode != Mode::Memory,
        signed_value(raw, wide) < 0,
    ensures
        displacement_suffix(mode, Some(raw), wide) == " - "@ + decimal(
            (-signed_value(raw, wide)) as nat,
        ),
{
}

/// Outside memory mode, a displacement other than 0 whose signed reading
/// is not negative renders as ` + ` and the decimal digits of that reading.
pub proof fn lemma_positive_displacement_suffix(mode: Mode, raw: u16, wide: bool)
    requires
        mode != Mode::Memory,
        raw != 0,
        signed_value(raw, wide) >= 0,
    ensures
        displacement_suffix(mode, Some(raw), wide) == " + "@ + decimal(
            signed_value(raw, wide) as nat,
        ),
{
}

} // verus!
