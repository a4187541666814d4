//! The opcode table: which of the four MOV encodings the first byte of an
//! instruction selects.

use crate::bits::{field_value, lemma_msb_value_of_eight};
use vstd::prelude::*;

verus! {

/// The four MOV encodings.
#[derive(Copy, Clone, Debug, PartialEq, Eq, Structural)]
pub enum Form {
    /// `100010dw`: register or memory to or from a register.
    RegisterMemory,
    /// `1011wreg`: immediate to register.
    ImmediateRegister,
    /// `1100011w`: immediate to register or memory.
    ImmediateRegisterMemory,
    /// `101000aw`: memory to or from the accumulator.
    MemoryAccum,
}

/// One row of the opcode table: an opcode belongs to `form` where its bits
/// under `mask` equal `value`.
#[derive(Copy, Clone, Debug, PartialEq, Eq)]
pub struct OpcodePattern {
    pub mask: u8,
    pub value: u8,
    pub form: Form,
}

/// The encoding that the leading bits of a window select: the first
/// pattern, in the order of the table, that they match. Asks for at least
/// 7 bits.
pub open spec fn form_of(s: Seq<bool>) -> Option<Form> {
    if s[0] && !s[1] && !s[2] && !s[3] && s[4] && !s[5] {
        Some(Form::RegisterMemory)
    } else if s[0] && !s[1] && s[2] && s[3] {
        Some(Form::ImmediateRegister)
    } else if s[0] && s[1] && !s[2] && !s[3] && !s[4] && s[5] && s[6] {
        Some(Form::ImmediateRegisterMemory)
    } else if s[0] && !s[1] && s[2] && !s[3] && !s[4] && !s[5] {
        Some(Form::MemoryAccum)
    } else {
        None
    }
}

/// The rows of the opcode table, the one of highest priority first.
pub open spec fn opcode_table() -> Seq<OpcodePattern> {
    seq![
        OpcodePattern { mask: 0xFC, value: 0x88, form: Form::RegisterMemory },
        OpcodePattern { mask: 0xF0, value: 0xB0, form: Form::ImmediateRegister },
        OpcodePattern { mask: 0xFE, value: 0xC6, form: Form::ImmediateRegisterMemory },
        OpcodePattern { mask: 0xFC, value: 0xA0, form: Form::MemoryAccum },
    ]
}

/// Whether `opcode` matches a row of the table.
pub open spec fn matches_pattern(pattern: OpcodePattern, opcode: u8) -> bool {
    opcode & pattern.mask == pattern.value
}

/// The encoding of the first row, from row `from` on, that `opcode`
/// matches.
pub open spec fn first_match(table: Seq<OpcodePattern>, from: int, opcode: u8) -> Option<Form>
    decreases table.len() - from,
{
    if from < 0 || from >= table.len() {
        None
    } else if matches_pattern(table[from], opcode) {
        Some(table[from].form)
    } else {
        first_match(table, from + 1, opcode)
    }
}

/// The encoding that an opcode byte selects.
pub open spec fn form_of_opcode(opcode: u8) -> Option<Form> {
    first_match(opcode_table(), 0, opcode)
}

/// The rows of the opcode table, the one of highest priority first.
pub fn opcode_patterns() -> (table: [OpcodePattern; 4])
    ensures
        table@ == opcode_table(),
{
    let table: [OpcodePattern; 4] = [
        OpcodePattern { mask: 0xFC, value: 0x88, form: Form::RegisterMemory },
        OpcodePattern { mask: 0xF0, value: 0xB0, form: Form::ImmediateRegister },
        OpcodePattern { mask: 0xFE, value: 0xC6, form: Form::ImmediateRegisterMemory },
        OpcodePattern { mask: 0xFC, value: 0xA0, form: Form::MemoryAccum },
    ];
    assert(table@ =~= opcode_table());
    table
}

/// Looks an opcode byte up in the table: the first row that matches wins.
pub fn match_opcode(opcode: u8) -> (form: Option<Form>)
    ensures
        form == form_of_opcode(opcode),
{
    let table: [OpcodePattern; 4] = opcode_patterns();
    let mut i: usize = 0;
    while i < 4
        invariant
            i <= 4,
            table@ == opcode_table(),
            opcode_table().len() == 4,
            first_match(opcode_table(), i as int, opcode) == form_of_opcode(opcode),
        decreases 4 - i,
    {
        let row: OpcodePattern = table[i];
        if opcode & row.mask == row.value {
            return Some(row.form);
        }
        i += 1;
    }
    None
}

/// What the four rows say of the bits of an opcode, the most significant
/// bit first.
proof fn lemma_rows_as_bits(
    opcode: u8,
    b0: bool,
    b1: bool,
    b2: bool,
    b3: bool,
    b4: bool,
    b5: bool,
    b6: bool,
    b7: bool,
)
    by (bit_vector)
    requires
        opcode == (if b0 { 128u8 } else { 0 }) + (if b1 { 64u8 } else { 0 }) + (if b2 {
            32u8
        } else {
            0
        }) + (if b3 { 16u8 } else { 0 }) + (if b4 { 8u8 } else { 0 }) + (if b5 {
            4u8
        } else {
            0
        }) + (if b6 { 2u8 } else { 0 }) + (if b7 { 1u8 } else { 0 }),
    ensures
        (opcode & 0xFC == 0x88) == (b0 && !b1 && !b2 && !b3 && b4 && !b5),
        (opcode & 0xF0 == 0xB0) == (b0 && !b1 && b2 && b3),
        (opcode & 0xFE == 0xC6) == (b0 && b1 && !b2 && !b3 && !b4 && b5 && b6),
        (opcode & 0xFC == 0xA0) == (b0 && !b1 && b2 && !b3 && !b4 && !b5),
{
}

/// Looking the first byte of a window up in the table is holding its
/// leading bits against the four patterns, in their order.
pub proof fn lemma_table_reads_leading_bits(s: Seq<bool>)
    requires
        s.len() >= 8,
    ensures
        field_value(s, 0, 8) < 256,
        form_of_opcode(field_value(s, 0, 8) as u8) == form_of(s),
{
    let t = s.subrange(0, 8);
    lemma_msb_value_of_eight(t);
    let opcode = field_value(s, 0, 8) as u8;
    lemma_rows_as_bits(opcode, t[0], t[1], t[2], t[3], t[4], t[5], t[6], t[7]);
    let table = opcode_table();
    assert(first_match(table, 4, opcode) == None::<Form>);
    assert(first_match(table, 3, opcode) == if matches_pattern(table[3], opcode) {
        Some(table[3].form)
    } else {
        None
    });
    assert(first_match(table, 2, opcode) == if matches_pattern(table[2], opcode) {
        Some(table[2].form)
    } else {
        first_match(table, 3, opcode)
    });
    assert(first_match(table, 1, opcode) == if matches_pattern(table[1], opcode) {
        Some(table[1].form)
    } else {
        first_match(table, 2, opcode)
    });
    assert(first_match(table, 0, opcode) == if matches_pattern(table[0], opcode) {
        Some(table[0].form)
    } else {
        first_match(table, 1, opcode)
    });
}

} // verus!
