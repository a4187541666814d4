use mov_decoder::bits::BitCursor;
use mov_decoder::disassemble;
use mov_decoder::driver::DisassembleError;
use mov_decoder::instruction::{
    DecodeError, ParseInstructionError, MSG_MISSING_DISP16, MSG_SHORT_WINDOW,
};

fn run(bytes: &[u8]) -> Result<String, DisassembleError> {
    let cursor = BitCursor::new(bytes).unwrap();
    disassemble(&cursor, false)
}

#[test]
fn empty_stream_gives_the_header_only() {
    assert_eq!(run(&[]), Ok("bits 16".to_string()));
}

#[test]
fn single_register_move() {
    assert_eq!(run(&[0x89, 0xD9]), Ok("bits 16\nmov cx, bx".to_string()));
}

#[test]
fn many_register_moves() {
    let bytes = [
        0x89, 0xD9, 0x88, 0xE5, 0x89, 0xDA, 0x89, 0xDE, 0x89, 0xFB, 0x88, 0xC8, 0x88, 0xED, 0x89,
        0xC3, 0x89, 0xF3, 0x89, 0xFC, 0x89, 0xC5,
    ];
    let expected = [
        "bits 16",
        "mov cx, bx",
        "mov ch, ah",
        "mov dx, bx",
        "mov si, bx",
        "mov bx, di",
        "mov al, cl",
        "mov ch, ch",
        "mov bx, ax",
        "mov bx, si",
        "mov sp, di",
        "mov bp, ax",
    ];
    assert_eq!(run(&bytes), Ok(expected.join("\n")));
}

#[test]
fn moves_of_every_length() {
    let bytes = [
        0x89, 0xDE, 0x88, 0xC6, 0xB1, 0x0C, 0xB5, 0xF4, 0xB9, 0x0C, 0x00, 0xB9, 0xF4, 0xFF, 0xBA,
        0x6C, 0x0F, 0xBA, 0x94, 0xF0, 0x8A, 0x00, 0x8B, 0x1B, 0x8B, 0x56, 0x00, 0x8A, 0x60, 0x04,
        0x8B, 0x80, 0x87, 0x13, 0x89, 0x09, 0x88, 0x0A, 0x88, 0x6E, 0x00, 0xC7, 0x85, 0x85, 0x03,
        0x5B, 0x01, 0xA1, 0xFB, 0x09, 0xC6, 0x03, 0x07,
    ];
    let expected = [
        "bits 16",
        "mov si, bx",
        "mov dh, al",
        "mov cl, 12",
        "mov ch, -12",
        "mov cx, 12",
        "mov cx, -12",
        "mov dx, 3948",
        "mov dx, -3948",
        "mov al, [bx + si]",
        "mov bx, [bp + di]",
        "mov dx, [bp]",
        "mov ah, [bx + si + 4]",
        "mov ax, [bx + si + 4999]",
        "mov [bx + di], cx",
        "mov [bp + si], cl",
        "mov [bp], ch",
        "mov [di + 901], word 347",
        "mov ax, [2555]",
        "mov [bp + di], byte 7",
    ];
    assert_eq!(run(&bytes), Ok(expected.join("\n")));
}

#[test]
fn signed_output_flag_changes_nothing() {
    let bytes = [0xB5u8, 0xF4, 0x8A, 0x60, 0xFE];
    let cursor = BitCursor::new(&bytes).unwrap();
    assert_eq!(disassemble(&cursor, true), disassemble(&cursor, false));
    assert_eq!(
        disassemble(&cursor, true),
        Ok("bits 16\nmov ch, -12\nmov ah, [bx + si - 2]".to_string())
    );
}

#[test]
fn unsupported_opcode_stops_the_run() {
    let error = run(&[0x89, 0xD9, 0x88, 0xE5, 0x00, 0x00, 0x89, 0xDA]).unwrap_err();
    assert_eq!(
        error,
        DisassembleError {
            offset: 4,
            cause: DecodeError::UnsupportedOpcode { opcode: 0x00 },
            decoded: "bits 16\nmov cx, bx\nmov ch, ah".to_string(),
        }
    );
}

#[test]
fn unsupported_first_opcode_reports_offset_zero() {
    let error = run(&[0x90]).unwrap_err();
    assert_eq!(error.offset, 0);
    assert_eq!(error.cause, DecodeError::UnsupportedOpcode { opcode: 0x90 });
    assert_eq!(error.decoded, "bits 16");
}

#[test]
fn truncated_tail_stops_the_run() {
    let error = run(&[0x89, 0xD9, 0x8B, 0x80, 0x87]).unwrap_err();
    assert_eq!(
        error,
        DisassembleError {
            offset: 2,
            cause: DecodeError::TruncatedInput(ParseInstructionError::new(MSG_MISSING_DISP16)),
            decoded: "bits 16\nmov cx, bx".to_string(),
        }
    );
}

#[test]
fn lone_trailing_byte_is_truncated_input() {
    let error = run(&[0x89, 0xD9, 0x89]).unwrap_err();
    assert_eq!(
        error,
        DisassembleError {
            offset: 2,
            cause: DecodeError::TruncatedInput(ParseInstructionError::new(MSG_SHORT_WINDOW)),
            decoded: "bits 16\nmov cx, bx".to_string(),
        }
    );
}

#[test]
fn stream_may_end_inside_a_byte() {
    let bytes = [0x89u8, 0xD9, 0x89];
    let cursor = BitCursor::new(&bytes).unwrap();
    let error = disassemble(&cursor.window(0, 20), false).unwrap_err();
    assert_eq!(error.offset, 2);
    assert_eq!(
        error.cause,
        DecodeError::TruncatedInput(ParseInstructionError::new(MSG_SHORT_WINDOW))
    );
    assert_eq!(disassemble(&cursor.window(0, 16), false), Ok("bits 16\nmov cx, bx".to_string()));
}

#[test]
fn six_byte_instruction_at_the_end_of_the_stream() {
    let bytes = [0x89u8, 0xD9, 0xC7, 0x06, 0xE8, 0x03, 0x01, 0x00];
    assert_eq!(run(&bytes), Ok("bits 16\nmov cx, bx\nmov [1000], word 1".to_string()));
    let error = run(&bytes[..7]).unwrap_err();
    assert_eq!(error.offset, 2);
    assert_eq!(error.decoded, "bits 16\nmov cx, bx");
}
