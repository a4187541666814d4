//! The disassemble driver: decodes instruction after instruction from a
//! stream of bits and collects the rendered lines.

use crate::bits::BitCursor;
use crate::instruction::{decode, lemma_decoded_length, DecodeError, Instruction};
use vstd::prelude::*;
use vstd::string::StringExecFns;

verus! {

/// A run that stopped at an instruction that could not be decoded.
#[derive(Debug, Clone, PartialEq, Eq)]
pub struct DisassembleError {
    /// The offset, in bytes, of the instruction that could not be decoded.
    pub offset: usize,
    /// Why it could not be decoded.
    pub cause: DecodeError,
    /// The header line and the lines of the instructions before it.
    pub decoded: String,
}

/// What a failed run reports, as a mathematical value.
pub struct Failure {
    pub offset: nat,
    pub cause: DecodeError,
    pub decoded: Seq<char>,
}

impl View for DisassembleError {
    type V = Failure;

    open spec fn view(&self) -> Failure {
        Failure { offset: self.offset as nat, cause: self.cause, decoded: self.decoded@ }
    }
}

/// The number of bits offered to the decoder when `remaining` bits are
/// left: the largest of 48, 40, 32, 24 and 16 that they cover, or all of
/// them where they are fewer than 16.
pub open spec fn window_bits(remaining: nat) -> nat {
    if remaining >= 48 {
        48
    } else if remaining >= 40 {
        40
    } else if remaining >= 32 {
        32
    } else if remaining >= 24 {
        24
    } else if remaining >= 16 {
        16
    } else {
        remaining
    }
}

/// The window offered to the decoder at bit `pos` of the stream.
pub open spec fn window_at(s: Seq<bool>, pos: nat) -> Seq<bool> {
    s.subrange(pos as int, pos as int + window_bits((s.len() - pos) as nat))
}

/// The outcome of a run that has reached bit `pos` with `text` collected:
/// `text` at the end of the stream; else the outcome after the next
/// instruction, its line appended, or the failure to decode it.
pub open spec fn disassemble_from(s: Seq<bool>, pos: nat, text: Seq<char>) -> Result<
    Seq<char>,
    Failure,
>
    decreases s.len() - pos,
    via disassemble_from_decreases
{
    if pos >= s.len() {
        Ok(text)
    } else {
        match decode(window_at(s, pos)) {
            Err(cause) => Err(Failure { offset: pos / 8, cause, decoded: text }),
            Ok(instruction) => disassemble_from(
                s,
                pos + 8 * instruction.spec_bytes() as nat,
                text + "\n"@ + instruction.asm_text(),
            ),
        }
    }
}

#[via_fn]
proof fn disassemble_from_decreases(s: Seq<bool>, pos: nat, text: Seq<char>) {
    if pos < s.len() && decode(window_at(s, pos)) is Ok {
        lemma_decoded_length(window_at(s, pos));
    }
}

/// The outcome of a whole run: the header line `bits 16`, then one line
/// for each instruction, or the failure at the first that cannot be decoded.
pub open spec fn disassembly(s: Seq<bool>) -> Result<Seq<char>, Failure> {
    disassemble_from(s, 0, "bits 16"@)
}

/// Disassembles a stream of machine code into assembly text.
///
/// The text starts with the line `bits 16`; one line follows for each
/// instruction, in the order of the stream. The run stops at the first
/// instruction that cannot be decoded and reports where and why, together
/// with the text up to there. `signed_output` is kept for callers and
/// changes nothing.
pub fn disassemble(input: &BitCursor, signed_output: bool) -> (result: Result<
    String,
    DisassembleError,
>)
    ensures
        match result {
            Ok(text) => disassembly(input@) == Ok::<Seq<char>, Failure>(text@),
            Err(error) => disassembly(input@) == Err::<Seq<char>, Failure>(error@),
        },
{
    let mut text = String::from_str("bits 16");
    let total: usize = input.len();
    let mut bit_ptr: usize = 0;
    while bit_ptr < total
        invariant
            bit_ptr <= total,
            total == input@.len(),
            disassemble_from(input@, bit_ptr as nat, text@) == disassembly(input@),
        decreases total - bit_ptr,
    {
        let remaining: usize = total - bit_ptr;
        let end: usize = if remaining >= 48 {
            48
        } else if remaining >= 40 {
            40
        } else if remaining >= 32 {
            32
        } else if remaining >= 24 {
            24
        } else if remaining >= 16 {
            16
        } else {
            remaining
        };
        let current = input.window(bit_ptr, bit_ptr + end);
        assert(current@ == window_at(input@, bit_ptr as nat));
        match Instruction::try_from(&current) {
            Err(cause) => {
                return Err(DisassembleError { offset: bit_ptr / 8, cause, decoded: text });
            },
            Ok(instruction) => {
                proof {
                    lemma_decoded_length(current@);
                }
                let line = instruction.to_asm();
                text.append("\n");
                text.append(line.as_str());
                bit_ptr += instruction.bytes() as usize * 8;
            },
        }
    }
    Ok(text)
}

} // verus!
