use nfc_reader::payload::{decode_payload, PayloadError};
use nfc_reader::vm::{parse_program, Instruction, VmState};

const KEY: u8 = 0x5B;

/// Wraps a program in the envelope: tag, masked body, CRC-32 of the
/// unmasked body.
fn envelope(program: &[u8], key: u8) -> Vec<u8> {
    let mut out = vec![0x03];
    out.extend(program.iter().map(|b| b ^ key));
    out.extend(crc32fast::hash(program).to_le_bytes());
    out
}

fn mov(reg: u8, val: u64) -> Vec<u8> {
    let mut out = vec![0x01, reg];
    out.extend(val.to_le_bytes());
    out
}

fn jeq(reg: u8, cmp: u64, jmp: u8) -> Vec<u8> {
    let mut out = vec![0x03, reg];
    out.extend(cmp.to_le_bytes());
    out.push(jmp);
    out
}

#[test]
fn envelope_round_trip() {
    let program = [0x00, 0x00, 0x01, 0x02, 0x03];
    let input = envelope(&program, KEY);
    assert_eq!(decode_payload(&input, KEY), Ok(program.to_vec()));
}

#[test]
fn envelope_checksum_rejected() {
    let program = [0x00, 0x00, 0x01, 0x02, 0x03];
    let mut input = envelope(&program, KEY);
    let last = input.len() - 1;
    input[last] ^= 0x01;
    assert_eq!(decode_payload(&input, KEY), Err(PayloadError::ChecksumMismatch));
    // A wrong mask key corrupts the body, so its checksum fails too.
    let input = envelope(&program, KEY);
    assert_eq!(decode_payload(&input, 0x5C), Err(PayloadError::ChecksumMismatch));
}

#[test]
fn envelope_shape_errors() {
    assert_eq!(decode_payload(&[], KEY), Err(PayloadError::TooShort));
    assert_eq!(decode_payload(&[0x03, 0x01, 0x02, 0x03], KEY), Err(PayloadError::TooShort));
    assert_eq!(
        decode_payload(&[0x02, 0x01, 0x02, 0x03, 0x04, 0x05], KEY),
        Err(PayloadError::InvalidTag)
    );
    assert_eq!(
        decode_payload(&[0x03, 0x01, 0x02, 0x03, 0x04], KEY),
        Err(PayloadError::BodyTooShort)
    );
}

#[test]
fn parse_single_instructions() {
    assert_eq!(parse_program(&mov(0, 42)), vec![Instruction::Mov { reg: 0, val: 42 }]);
    let mut add = vec![0x02, 0x07];
    add.extend(5u64.to_le_bytes());
    assert_eq!(parse_program(&add), vec![Instruction::Add { reg: 7, val: 5 }]);
    assert_eq!(parse_program(&jeq(0, 3826, 3)), vec![Instruction::Jeq {
        reg: 0,
        cmp: 3826,
        jmp: 3,
    }]);
    let mut call = vec![0x04];
    call.extend(0x1234u64.to_le_bytes());
    assert_eq!(parse_program(&call), vec![Instruction::Call { addr: 0x1234 }]);
    assert_eq!(parse_program(&[0x00]), vec![Instruction::Nop]);
}

#[test]
fn parse_sequence_and_stops() {
    let mut bytes = mov(0, 41);
    bytes.extend(jeq(0, 42, 3));
    bytes.push(0x00);
    let program = parse_program(&bytes);
    assert_eq!(
        program,
        vec![
            Instruction::Mov { reg: 0, val: 41 },
            Instruction::Jeq { reg: 0, cmp: 42, jmp: 3 },
            Instruction::Nop,
        ]
    );
    // An unknown opcode ends the program there.
    let mut bytes = vec![0x00, 0xFE];
    bytes.extend(mov(0, 1));
    assert_eq!(parse_program(&bytes), vec![Instruction::Nop]);
    // A truncated instruction ends the program there.
    let mut bytes = vec![0x00];
    bytes.extend(&mov(1, 7)[..9]);
    assert_eq!(parse_program(&bytes), vec![Instruction::Nop]);
    assert_eq!(parse_program(&[]), vec![]);
}

#[test]
fn vm_moves_adds_and_wraps() {
    let program = vec![
        Instruction::Mov { reg: 0, val: u64::MAX },
        Instruction::Add { reg: 0, val: 2 },
        Instruction::Mov { reg: 9, val: 5 },
    ];
    let mut vm = VmState::new(8);
    while vm.running(&program) {
        assert_eq!(vm.step(&program), None);
    }
    assert_eq!(vm.register(0), Some(1));
    // A register past the file is never touched.
    assert_eq!(vm.register(9), None);
}

#[test]
fn vm_call_gate() {
    let program = vec![
        Instruction::Call { addr: 0x1111 },
        Instruction::Mov { reg: 0, val: 3826 },
        Instruction::Jeq { reg: 0, cmp: 3826, jmp: 4 },
        Instruction::Nop,
        Instruction::Call { addr: 0x2222 },
    ];
    let mut vm = VmState::new(4);
    // The call latch starts closed: the first call is refused.
    assert_eq!(vm.step(&program), None);
    assert_eq!(vm.step(&program), None);
    // The arming jump opens the call latch and jumps over the Nop.
    assert_eq!(vm.step(&program), None);
    assert_eq!(vm.position(), 4);
    assert_eq!(vm.step(&program), Some(0x2222));
}

#[test]
fn vm_jeq_not_taken_and_other_register() {
    let program = vec![
        Instruction::Mov { reg: 1, val: 3826 },
        Instruction::Jeq { reg: 1, cmp: 3826, jmp: 3 },
        Instruction::Nop,
        Instruction::Call { addr: 0x3333 },
        Instruction::Jeq { reg: 0, cmp: 1, jmp: 0 },
    ];
    let mut vm = VmState::new(4);
    assert_eq!(vm.step(&program), None);
    assert_eq!(vm.step(&program), None);
    // The jump was taken, but through register 1 it does not arm calls.
    assert_eq!(vm.position(), 3);
    assert_eq!(vm.step(&program), None);
    // A comparison that does not hold falls through.
    assert_eq!(vm.step(&program), None);
    assert_eq!(vm.position(), 5);
}

#[test]
fn decoded_envelope_parses_to_program() {
    let mut bytes = mov(0, 3826);
    bytes.extend(jeq(0, 3826, 2));
    let input = envelope(&bytes, KEY);
    let body = decode_payload(&input, KEY).unwrap();
    let program = parse_program(&body);
    assert_eq!(
        program,
        vec![
            Instruction::Mov { reg: 0, val: 3826 },
            Instruction::Jeq { reg: 0, cmp: 3826, jmp: 2 },
        ]
    );
}
