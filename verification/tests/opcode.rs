use mov_decoder::opcode::{match_opcode, opcode_patterns, Form, OpcodePattern};

#[test]
fn table_lists_the_four_patterns_in_order() {
    assert_eq!(
        opcode_patterns(),
        [
            OpcodePattern { mask: 0xFC, value: 0x88, form: Form::RegisterMemory },
            OpcodePattern { mask: 0xF0, value: 0xB0, form: Form::ImmediateRegister },
            OpcodePattern { mask: 0xFE, value: 0xC6, form: Form::ImmediateRegisterMemory },
            OpcodePattern { mask: 0xFC, value: 0xA0, form: Form::MemoryAccum },
        ]
    );
}

#[test]
fn every_opcode_is_matched_by_its_leading_bits() {
    for opcode in 0u16..256 {
        let opcode = opcode as u8;
        let text = format!("{:08b}", opcode);
        let expected = if text.starts_with("100010") {
            Some(Form::RegisterMemory)
        } else if text.starts_with("1011") {
            Some(Form::ImmediateRegister)
        } else if text.starts_with("1100011") {
            Some(Form::ImmediateRegisterMemory)
        } else if text.starts_with("101000") {
            Some(Form::MemoryAccum)
        } else {
            None
        };
        assert_eq!(match_opcode(opcode), expected, "opcode {}", text);
    }
}

#[test]
fn patterns_do_not_overlap() {
    for opcode in 0u16..256 {
        let opcode = opcode as u8;
        let hits = opcode_patterns()
            .iter()
            .filter(|row| opcode & row.mask == row.value)
            .count();
        assert!(hits <= 1, "opcode {:#04x}", opcode);
    }
}
