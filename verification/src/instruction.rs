//! The decoded instruction and the decoder: from a window of bits to one
//! of the four MOV encodings, with every field and the exact byte count.

use crate::bits::{field_value, BitCursor};
use crate::mode::Mode;
use crate::opcode::{form_of, lemma_table_reads_leading_bits, match_opcode, Form};
use crate::register::Register;
use vstd::prelude::*;

verus! {

/// One decoded MOV instruction.
#[derive(Debug, Clone, Copy, PartialEq, Eq)]
pub enum Instruction {
    /// `100010dw`: register or memory to or from a register.
    RegisterMemoryMov {
        /// `true`: the destination is `reg`; `false`: it is `rm`.
        d: bool,
        wide: bool,
        mode: Mode,
        reg: Register,
        rm: [bool; 3],
        disp: Option<u16>,
        bytes_used: u8,
    },
    /// `1011wreg`: immediate to register.
    ImmediateRegisterMov { wide: bool, reg: Register, data: u16, bytes_used: u8 },
    /// `1100011w`: immediate to register or memory.
    ImmediateRegisterMemoryMov {
        wide: bool,
        mode: Mode,
        rm: [bool; 3],
        disp: Option<u16>,
        data: u16,
        bytes_used: u8,
    },
    /// `101000aw`: memory to or from the accumulator.
    MemoryAccumMov { to_memory: bool, wide: bool, addr: u16, bytes_used: u8 },
}

/// The window ended before the fields that the encoding calls for.
#[derive(Debug, Clone, Copy, PartialEq, Eq)]
pub struct ParseInstructionError {
    pub msg: &'static str,
}

/// Why a window could not be decoded.
#[derive(Debug, Clone, Copy, PartialEq, Eq)]
pub enum DecodeError {
    /// The matched encoding needs more bits than the window holds.
    TruncatedInput(ParseInstructionError),
    /// The leading bits match none of the four encodings.
    UnsupportedOpcode {
        /// The first byte of the window.
        opcode: u8,
    },
}

/// The window holds fewer than the two bytes that every encoding has.
pub const MSG_SHORT_WINDOW: &'static str = "Incoming bits has less than 16 bits!";

/// The byte of an 8-bit displacement is missing.
pub const MSG_MISSING_DISP8: &'static str =
    "Incoming instruction has an 8 bit displacement, but the `disp_lo` byte wasn't provided. Requires at least 24 bits.";

/// A byte of a 16-bit displacement is missing.
pub const MSG_MISSING_DISP16: &'static str =
    "Incoming instruction has an 16 bit displacement, but the `disp_hi` byte wasn't provided. Requires at least 32 bits.";

/// A byte of the 16-bit immediate of an immediate-to-register move is missing.
pub const MSG_MISSING_WIDE_DATA: &'static str = "Expected wide data. Received less than 24 bits.";

/// A byte of the immediate of an immediate-to-memory move is missing.
pub const MSG_MISSING_DATA: &'static str =
    "Incoming instruction has immediate data, but not all of its bytes were provided.";

/// A byte of the 16-bit address of an accumulator move is missing.
pub const MSG_MISSING_ADDRESS: &'static str = "Expected a 16 bit address. Received less than 24 bits.";

/// The truncation error with the given message.
pub open spec fn truncated(msg: &'static str) -> DecodeError {
    DecodeError::TruncatedInput(ParseInstructionError { msg })
}

/// Whether `rm` is `110`, which in memory mode stands for a direct address.
pub open spec fn is_direct_rm(rm: [bool; 3]) -> bool {
    rm[0] && rm[1] && !rm[2]
}

/// The number of displacement bytes that follow the two header bytes.
pub open spec fn displacement_bytes(mode: Mode, rm: [bool; 3]) -> nat {
    match mode {
        Mode::Displace8Bits => 1,
        Mode::Displace16Bits => 2,
        Mode::Memory => if is_direct_rm(rm) {
            2
        } else {
            0
        },
        Mode::Register => 0,
    }
}

/// The byte that starts at bit `start`.
pub open spec fn byte_value(s: Seq<bool>, start: int) -> nat {
    field_value(s, start, 8)
}

/// The 16-bit number whose low byte starts at bit `start` and whose high
/// byte follows it.
pub open spec fn word_value(s: Seq<bool>, start: int) -> nat {
    byte_value(s, start) + 256 * byte_value(s, start + 8)
}

/// The number in the one byte (narrow) or two bytes (wide) from bit `start` on.
pub open spec fn unsigned_value(s: Seq<bool>, start: int, wide: bool) -> u16 {
    if wide {
        word_value(s, start) as u16
    } else {
        byte_value(s, start) as u16
    }
}

/// The displacement of `count` bytes that follows the two header bytes.
pub open spec fn displacement_value(s: Seq<bool>, count: nat) -> Option<u16> {
    if count == 0 {
        None
    } else {
        Some(unsigned_value(s, 16, count == 2))
    }
}

/// The message for a window that ends inside a displacement of `count` bytes.
pub open spec fn missing_displacement(count: nat) -> &'static str {
    if count == 1 {
        MSG_MISSING_DISP8
    } else {
        MSG_MISSING_DISP16
    }
}

/// The number of bytes of an immediate or an address of the given width.
pub open spec fn data_bytes(wide: bool) -> nat {
    if wide {
        2
    } else {
        1
    }
}

/// What a window that starts with `100010dw` decodes to.
pub open spec fn decode_register_memory(s: Seq<bool>) -> Result<Instruction, DecodeError> {
    if s.len() < 16 {
        Err(truncated(MSG_SHORT_WINDOW))
    } else {
        let wide = s[7];
        let mode = Mode::of_bits(s[8], s[9]);
        let rm = [s[13], s[14], s[15]];
        let count = displacement_bytes(mode, rm);
        if s.len() < 16 + 8 * count {
            Err(truncated(missing_displacement(count)))
        } else {
            Ok(
                Instruction::RegisterMemoryMov {
                    d: s[6],
                    wide,
                    mode,
                    reg: Register::of_bits(s[10], s[11], s[12], wide),
                    rm,
                    disp: displacement_value(s, count),
                    bytes_used: (2 + count) as u8,
                },
            )
        }
    }
}

/// What a window that starts with `1011wreg` decodes to.
pub open spec fn decode_immediate_register(s: Seq<bool>) -> Result<Instruction, DecodeError> {
    if s.len() < 16 {
        Err(truncated(MSG_SHORT_WINDOW))
    } else {
        let wide = s[4];
        if wide && s.len() < 24 {
            Err(truncated(MSG_MISSING_WIDE_DATA))
        } else {
            Ok(
                Instruction::ImmediateRegisterMov {
                    wide,
                    reg: Register::of_bits(s[5], s[6], s[7], wide),
                    data: unsigned_value(s, 8, wide),
                    bytes_used: (1 + data_bytes(wide)) as u8,
                },
            )
        }
    }
}

/// What a window that starts with `1100011w` decodes to.
pub open spec fn decode_immediate_register_memory(s: Seq<bool>) -> Result<
    Instruction,
    DecodeError,
> {
    if s.len() < 16 {
        Err(truncated(MSG_SHORT_WINDOW))
    } else {
        let wide = s[7];
        let mode = Mode::of_bits(s[8], s[9]);
        let rm = [s[13], s[14], s[15]];
        let count = displacement_bytes(mode, rm);
        if s.len() < 16 + 8 * count {
            Err(truncated(missing_displacement(count)))
        } else if s.len() < 16 + 8 * count + 8 * data_bytes(wide) {
            Err(truncated(MSG_MISSING_DATA))
        } else {
            Ok(
                Instruction::ImmediateRegisterMemoryMov {
                    wide,
                    mode,
                    rm,
                    disp: displacement_value(s, count),
                    data: unsigned_value(s, 16 + 8 * (count as int), wide),
                    bytes_used: (2 + count + data_bytes(wide)) as u8,
                },
            )
        }
    }
}

/// What a window that starts with `101000aw` decodes to.
pub open spec fn decode_memory_accum(s: Seq<bool>) -> Result<Instruction, DecodeError> {
    if s.len() < 16 {
        Err(truncated(MSG_SHORT_WINDOW))
    } else {
        let wide = s[7];
        if wide && s.len() < 24 {
            Err(truncated(MSG_MISSING_ADDRESS))
        } else {
            Ok(
                Instruction::MemoryAccumMov {
                    to_memory: s[6],
                    wide,
                    addr: unsigned_value(s, 8, wide),
                    bytes_used: (1 + data_bytes(wide)) as u8,
                },
            )
        }
    }
}

/// What a window of bits decodes to: the instruction at its start, or the
/// reason why there is none.
pub open spec fn decode(s: Seq<bool>) -> Result<Instruction, DecodeError> {
    if s.len() < 8 {
        Err(truncated(MSG_SHORT_WINDOW))
    } else {
        match form_of(s) {
            None => Err(DecodeError::UnsupportedOpcode { opcode: byte_value(s, 0) as u8 }),
            Some(Form::RegisterMemory) => decode_register_memory(s),
            Some(Form::ImmediateRegister) => decode_immediate_register(s),
            Some(Form::ImmediateRegisterMemory) => decode_immediate_register_memory(s),
            Some(Form::MemoryAccum) => decode_memory_accum(s),
        }
    }
}

impl ParseInstructionError {
    /// The error that carries `msg`.
    pub fn new(msg: &'static str) -> (error: Self)
        ensures
            error.msg == msg,
    {
        Self { msg }
    }
}

/// Reads the 16-bit number whose low byte starts at bit `start`.
fn read_word(bits: &BitCursor, start: usize) -> (value: u16)
    requires
        start + 16 <= bits@.len(),
    ensures
        value == word_value(bits@, start as int),
{
    let total: usize = bits.len();
    assert(start + 16 <= total);
    let lo: u8 = bits.byte(start);
    let hi: u8 = bits.byte(start + 8);
    (lo as u16) + 256 * (hi as u16)
}

/// Reads the one-byte or two-byte number that starts at bit `start`.
fn read_unsigned(bits: &BitCursor, start: usize, wide: bool) -> (value: u16)
    requires
        start + 8 * data_bytes(wide) <= bits@.len(),
    ensures
        value == unsigned_value(bits@, start as int, wide),
{
    if wide {
        read_word(bits, start)
    } else {
        let lo: u8 = bits.byte(start);
        lo as u16
    }
}

/// The number of displacement bytes that follow the two header bytes.
fn displacement_count(mode: Mode, rm: &[bool; 3]) -> (count: usize)
    ensures
        count == displacement_bytes(mode, *rm),
{
    match mode {
        Mode::Displace8Bits => 1,
        Mode::Displace16Bits => 2,
        Mode::Memory => {
            if rm[0] && rm[1] && !rm[2] {
                2
            } else {
                0
            }
        },
        Mode::Register => 0,
    }
}

impl Instruction {
    /// The number of bytes that the instruction takes in the input.
    pub open spec fn spec_bytes(self) -> u8 {
        match self {
            Instruction::RegisterMemoryMov { bytes_used, .. } => bytes_used,
            Instruction::ImmediateRegisterMov { bytes_used, .. } => bytes_used,
            Instruction::ImmediateRegisterMemoryMov { bytes_used, .. } => bytes_used,
            Instruction::MemoryAccumMov { bytes_used, .. } => bytes_used,
        }
    }

    /// The number of bytes that the instruction takes in the input.
    pub fn bytes(&self) -> (count: u8)
        ensures
            count == self.spec_bytes(),
    {
        match self {
            Instruction::RegisterMemoryMov { bytes_used, .. } => *bytes_used,
            Instruction::ImmediateRegisterMov { bytes_used, .. } => *bytes_used,
            Instruction::ImmediateRegisterMemoryMov { bytes_used, .. } => *bytes_used,
            Instruction::MemoryAccumMov { bytes_used, .. } => *bytes_used,
        }
    }

    /// The mnemonic of the instruction.
    pub fn opcode_name(&self) -> (name: &'static str)
        ensures
            name@ == "mov"@,
    {
        match self {
            Instruction::RegisterMemoryMov { .. } => "mov",
            Instruction::ImmediateRegisterMov { .. } => "mov",
            Instruction::ImmediateRegisterMemoryMov { .. } => "mov",
            Instruction::MemoryAccumMov { .. } => "mov",
        }
    }

    /// Decodes a window that starts with `100010dw`.
    fn try_parse_register_memory_mov(bits: &BitCursor) -> (result: Result<Self, DecodeError>)
        ensures
            result == decode_register_memory(bits@),
    {
        if bits.len() < 16 {
            return Err(DecodeError::TruncatedInput(ParseInstructionError::new(MSG_SHORT_WINDOW)));
        }
        let d: bool = bits.flag(6);
        let wide: bool = bits.flag(7);
        let mode = Mode::from(&[bits.flag(8), bits.flag(9)]);
        let reg = Register::from_bits(&[bits.flag(10), bits.flag(11), bits.flag(12)], wide);
        let rm: [bool; 3] = [bits.flag(13), bits.flag(14), bits.flag(15)];
        let mut disp: Option<u16> = None;
        let mut bytes_used: u8 = 2;

        match mode {
            Mode::Displace8Bits => {
                if bits.len() < 24 {
                    return Err(
                        DecodeError::TruncatedInput(ParseInstructionError::new(MSG_MISSING_DISP8)),
                    );
                }
                disp = Some(read_unsigned(bits, 16, false));
                bytes_used = 3;
            },
            Mode::Displace16Bits => {
                if bits.len() < 32 {
                    return Err(
                        DecodeError::TruncatedInput(ParseInstructionError::new(MSG_MISSING_DISP16)),
                    );
                }
                disp = Some(read_unsigned(bits, 16, true));
                bytes_used = 4;
            },
            Mode::Memory => {
                if rm[0] && rm[1] && !rm[2] {
                    if bits.len() < 32 {
                        return Err(
                            DecodeError::TruncatedInput(
                                ParseInstructionError::new(MSG_MISSING_DISP16),
                            ),
                        );
                    }
                    disp = Some(read_unsigned(bits, 16, true));
                    bytes_used = 4;
                }
            },
            _ => {},
        }

        Ok(Self::RegisterMemoryMov { d, wide, mode, reg, rm, disp, bytes_used })
    }

    /// Decodes a window that starts with `1011wreg`.
    fn try_parse_immediate_register_mov(bits: &BitCursor) -> (result: Result<
        Instruction,
        DecodeError,
    >)
        ensures
            result == decode_immediate_register(bits@),
    {
        if bits.len() < 16 {
            return Err(DecodeError::TruncatedInput(ParseInstructionError::new(MSG_SHORT_WINDOW)));
        }
        let wide: bool = bits.flag(4);
        let reg = Register::from_bits(&[bits.flag(5), bits.flag(6), bits.flag(7)], wide);
        let mut bytes_used: u8 = 2;
        let data: u16 = if wide {
            if bits.len() < 24 {
                return Err(
                    DecodeError::TruncatedInput(ParseInstructionError::new(MSG_MISSING_WIDE_DATA)),
                );
            }
            bytes_used = 3;
            read_unsigned(bits, 8, true)
        } else {
            read_unsigned(bits, 8, false)
        };

        Ok(Self::ImmediateRegisterMov { wide, reg, data, bytes_used })
    }

    /// Decodes a window that starts with `1100011w`.
    fn try_parse_immediate_register_memory_mov(bits: &BitCursor) -> (result: Result<
        Instruction,
        DecodeError,
    >)
        ensures
            result == decode_immediate_register_memory(bits@),
    {
        let len: usize = bits.len();
        if len < 16 {
            return Err(DecodeError::TruncatedInput(ParseInstructionError::new(MSG_SHORT_WINDOW)));
        }
        let wide: bool = bits.flag(7);
        let mode = Mode::from(&[bits.flag(8), bits.flag(9)]);
        let rm: [bool; 3] = [bits.flag(13), bits.flag(14), bits.flag(15)];
        let count: usize = displacement_count(mode, &rm);
        let data_start: usize = 16 + 8 * count;
        if len < data_start {
            let msg: &'static str = if count == 1 {
                MSG_MISSING_DISP8
            } else {
                MSG_MISSING_DISP16
            };
            return Err(DecodeError::TruncatedInput(ParseInstructionError::new(msg)));
        }
        let width: usize = if wide {
            2
        } else {
            1
        };
        if len < data_start + 8 * width {
            return Err(DecodeError::TruncatedInput(ParseInstructionError::new(MSG_MISSING_DATA)));
        }
        let disp: Option<u16> = if count == 0 {
            None
        } else {
            Some(read_unsigned(bits, 16, count == 2))
        };
        let data: u16 = read_unsigned(bits, data_start, wide);
        let bytes_used: u8 = (2 + count + width) as u8;
        Ok(Self::ImmediateRegisterMemoryMov { wide, mode, rm, disp, data, bytes_used })
    }

    /// Decodes a window that starts with `101000aw`.
    fn try_parse_memory_accum_mov(bits: &BitCursor) -> (result: Result<Instruction, DecodeError>)
        ensures
            result == decode_memory_accum(bits@),
    {
        if bits.len() < 16 {
            return Err(DecodeError::TruncatedInput(ParseInstructionError::new(MSG_SHORT_WINDOW)));
        }
        let to_memory: bool = bits.flag(6);
        let wide: bool = bits.flag(7);
        if wide && bits.len() < 24 {
            return Err(
                DecodeError::TruncatedInput(ParseInstructionError::new(MSG_MISSING_ADDRESS)),
            );
        }
        let addr: u16 = read_unsigned(bits, 8, wide);
        let bytes_used: u8 = if wide {
            3
        } else {
            2
        };
        Ok(Self::MemoryAccumMov { to_memory, wide, addr, bytes_used })
    }

    /// Decodes the instruction at the start of a window of bits.
    ///
    /// The leading bits are held against the four opcode patterns in the
    /// order of the table; the first that matches decides which fields are
    /// read. A window that ends before the last of them is refused, and so
    /// is one whose leading bits match no pattern.
    pub fn try_from(bits: &BitCursor) -> (result: Result<Instruction, DecodeError>)
        ensures
            result == decode(bits@),
    {
        if bits.len() < 8 {
            return Err(DecodeError::TruncatedInput(ParseInstructionError::new(MSG_SHORT_WINDOW)));
        }
        let opcode: u8 = bits.byte(0);
        proof {
            lemma_table_reads_leading_bits(bits@);
        }
        match match_opcode(opcode) {
            Some(Form::RegisterMemory) => Self::try_parse_register_memory_mov(bits),
            Some(Form::ImmediateRegister) => Self::try_parse_immediate_register_mov(bits),
            Some(Form::ImmediateRegisterMemory) => Self::try_parse_immediate_register_memory_mov(
                bits,
            ),
            Some(Form::MemoryAccum) => Self::try_parse_memory_accum_mov(bits),
            None => Err(DecodeError::UnsupportedOpcode { opcode }),
        }
    }
}

/// A decoded instruction takes between two and six bytes, and the window
/// it was decoded from holds all of them.
pub proof fn lemma_decoded_length(s: Seq<bool>)
    requires
        decode(s) is Ok,
    ensures
        2 <= decode(s).unwrap().spec_bytes() <= 6,
        8 * decode(s).unwrap().spec_bytes() <= s.len(),
{
}

/// In register mode a register/memory move takes exactly two bytes.
pub proof fn lemma_register_direct_length(s: Seq<bool>)
    requires
        decode(s) matches Ok(Instruction::RegisterMemoryMov { mode: Mode::Register, .. }),
    ensures
        decode(s).unwrap().spec_bytes() == 2,
{
}

/// With an 8-bit displacement a register/memory move takes exactly three
/// bytes.
pub proof fn lemma_displace8_length(s: Seq<bool>)
    requires
        decode(s) matches Ok(Instruction::RegisterMemoryMov { mode: Mode::Displace8Bits, .. }),
    ensures
        decode(s).unwrap().spec_bytes() == 3,
{
}

/// With a 16-bit displacement a register/memory move takes exactly four
/// bytes.
pub proof fn lemma_displace16_length(s: Seq<bool>)
    requires
        decode(s) matches Ok(Instruction::RegisterMemoryMov { mode: Mode::Displace16Bits, .. }),
    ensures
        decode(s).unwrap().spec_bytes() == 4,
{
}

/// In memory mode a register/memory move with `rm` = `110` carries a 16-bit
/// direct address, read from the two bytes after the header, and takes four
/// bytes; with any other `rm` it carries no displacement and takes two.
pub proof fn lemma_memory_mode_length(s: Seq<bool>)
    requires
        decode(s) matches Ok(Instruction::RegisterMemoryMov { mode: Mode::Memory, .. }),
    ensures
        decode(s) matches Ok(Instruction::RegisterMemoryMov { rm, disp, bytes_used, .. }) && if is_direct_rm(
            rm,
        ) {
            bytes_used == 4 && disp == Some(word_value(s, 16) as u16)
        } else {
            bytes_used == 2 && disp is None
        },
{
}

} // verus!
