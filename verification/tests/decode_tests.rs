use sim86::decoder::{decode, DecodeError, Instruction, Operand};
use sim86::opcodes::{opcode_trie, Opcode};
use sim86::registers::{Register, EAC};

fn dec(bytes: &[u8]) -> Result<Instruction, DecodeError> {
    let trie = opcode_trie();
    decode(&bytes.to_vec(), 0, &trie)
}

#[test]
fn mov_immediate_to_register_word() {
    let i = dec(&[0xB8, 0x05, 0x00]).unwrap();
    assert_eq!(i.opcode, Opcode::MovIR);
    assert!(i.w);
    assert_eq!(i.dest, Operand::Reg(Register::AX));
    assert_eq!(i.src, Some(Operand::Imm(5)));
    assert_eq!(i.length, 3);
}

#[test]
fn mov_immediate_to_register_byte_sign_extends() {
    let i = dec(&[0xB0, 0xFF]).unwrap();
    assert_eq!(i.opcode, Opcode::MovIR);
    assert!(!i.w);
    assert_eq!(i.dest, Operand::Reg(Register::AL));
    assert_eq!(i.src, Some(Operand::Imm(-1)));
    assert_eq!(i.length, 2);
}

#[test]
fn mov_register_to_register() {
    let i = dec(&[0x89, 0xD8]).unwrap();
    assert_eq!(i.opcode, Opcode::MovRmR);
    assert!(!i.d);
    assert!(i.w);
    assert_eq!(i.dest, Operand::Reg(Register::AX));
    assert_eq!(i.src, Some(Operand::Reg(Register::BX)));
    assert_eq!(i.length, 2);
}

#[test]
fn rmr_length_by_mode() {
    // mode 00: no displacement.
    assert_eq!(dec(&[0x89, 0x18]).unwrap().length, 2);
    // mode 01: one displacement byte.
    assert_eq!(dec(&[0x89, 0x58, 0x05]).unwrap().length, 3);
    // mode 10: two displacement bytes.
    assert_eq!(dec(&[0x89, 0x98, 0x05, 0x01]).unwrap().length, 4);
    // mode 11: register direct.
    assert_eq!(dec(&[0x89, 0xD8]).unwrap().length, 2);
}

#[test]
fn rmr_direct_address_special_case() {
    // mod=00, rm=110: two displacement bytes despite mod 00.
    let i = dec(&[0x89, 0x1E, 0x00, 0x10]).unwrap();
    assert_eq!(i.length, 4);
    assert_eq!(i.dest, Operand::MemDirect(0x1000));
    assert_eq!(i.src, Some(Operand::Reg(Register::BX)));
}

#[test]
fn rmr_memory_operand_with_displacement() {
    let i = dec(&[0x03, 0x58, 0x04]).unwrap();
    assert_eq!(i.opcode, Opcode::AddRmR);
    assert!(i.d);
    assert_eq!(i.dest, Operand::Reg(Register::BX));
    assert_eq!(i.src, Some(Operand::Mem(EAC::BXSI, Some(4))));
}

#[test]
fn rmr_negative_displacement_sign_extends() {
    let i = dec(&[0x8B, 0x46, 0xFC]).unwrap();
    // mode 01, rm=110 names bp, displacement -4.
    assert_eq!(i.dest, Operand::Reg(Register::AX));
    assert_eq!(i.src, Some(Operand::Mem(EAC::BPOrDA, Some(-4))));
}

#[test]
fn add_immediate_sign_extended_to_register() {
    let i = dec(&[0x83, 0xC6, 0x02]).unwrap();
    assert_eq!(i.opcode, Opcode::AddIRm);
    assert!(i.w);
    assert_eq!(i.dest, Operand::Reg(Register::SI));
    assert_eq!(i.src, Some(Operand::Imm(2)));
    assert_eq!(i.length, 3);
}

#[test]
fn immediate_sign_extension_matches_native_word() {
    // An 8-bit immediate under s=1 w=1 equals the 16-bit immediate whose
    // high byte replicates the sign.
    let short_form = dec(&[0x83, 0xC6, 0xFE]).unwrap();
    let long_form = dec(&[0x81, 0xC6, 0xFE, 0xFF]).unwrap();
    assert_eq!(short_form.src, Some(Operand::Imm(-2)));
    assert_eq!(short_form.src, long_form.src);
    assert_eq!(short_form.dest, long_form.dest);

    let short_pos = dec(&[0x83, 0xC6, 0x02]).unwrap();
    let long_pos = dec(&[0x81, 0xC6, 0x02, 0x00]).unwrap();
    assert_eq!(short_pos.src, Some(Operand::Imm(2)));
    assert_eq!(short_pos.src, long_pos.src);
}

#[test]
fn irm_sub_and_cmp_selected_by_reg_field() {
    let sub = dec(&[0x83, 0xEE, 0x02]).unwrap();
    assert_eq!(sub.opcode, Opcode::SubIRm);
    let cmp = dec(&[0x83, 0xFE, 0x02]).unwrap();
    assert_eq!(cmp.opcode, Opcode::CmpIRm);
}

#[test]
fn irm_unsupported_reg_field_is_rejected() {
    // reg=010 selects an arithmetic class outside MOV/ADD/SUB/CMP.
    assert_eq!(dec(&[0x80, 0xD0, 0x05]), Err(DecodeError::UnsupportedAddressingMode));
}

#[test]
fn irm_sign_extend_with_byte_width_is_rejected() {
    // s=1 with w=0 leaves no immediate byte to read.
    assert_eq!(dec(&[0x82, 0xC0, 0x05]), Err(DecodeError::UnsupportedAddressingMode));
}

#[test]
fn irm_direct_address_with_word_immediate() {
    let i = dec(&[0x81, 0x3E, 0xE8, 0x03, 0x0C, 0x00]).unwrap();
    assert_eq!(i.opcode, Opcode::CmpIRm);
    assert_eq!(i.dest, Operand::MemDirect(1000));
    assert_eq!(i.src, Some(Operand::Imm(12)));
    assert_eq!(i.length, 6);
}

#[test]
fn mov_immediate_to_memory_lengths() {
    // mov [bx + si], byte 7: mode 00, w=0.
    let byte_form = dec(&[0xC6, 0x00, 0x07]).unwrap();
    assert_eq!(byte_form.opcode, Opcode::MovIRm);
    assert_eq!(byte_form.length, 3);
    assert_eq!(byte_form.dest, Operand::Mem(EAC::BXSI, None));
    // mov [bx + si], word 300: mode 00, w=1.
    let word_form = dec(&[0xC7, 0x00, 0x2C, 0x01]).unwrap();
    assert_eq!(word_form.length, 4);
    assert_eq!(word_form.src, Some(Operand::Imm(300)));
}

#[test]
fn accumulator_memory_moves() {
    let load = dec(&[0xA1, 0x10, 0x00]).unwrap();
    assert_eq!(load.opcode, Opcode::MovMA);
    assert_eq!(load.dest, Operand::Reg(Register::AX));
    assert_eq!(load.src, Some(Operand::MemDirect(16)));
    assert_eq!(load.length, 3);

    let store = dec(&[0xA3, 0x10, 0x00]).unwrap();
    assert_eq!(store.opcode, Opcode::MovAM);
    assert_eq!(store.dest, Operand::MemDirect(16));
    assert_eq!(store.src, Some(Operand::Reg(Register::AX)));
    assert_eq!(store.length, 3);
}

#[test]
fn accumulator_immediate_lengths() {
    let byte_form = dec(&[0x04, 0x05]).unwrap();
    assert_eq!(byte_form.opcode, Opcode::AddIA);
    assert_eq!(byte_form.dest, Operand::Reg(Register::AL));
    assert_eq!(byte_form.length, 2);

    let word_form = dec(&[0x2D, 0x05, 0x00]).unwrap();
    assert_eq!(word_form.opcode, Opcode::SubIA);
    assert_eq!(word_form.dest, Operand::Reg(Register::AX));
    assert_eq!(word_form.src, Some(Operand::Imm(5)));
    assert_eq!(word_form.length, 3);
}

#[test]
fn jump_family_is_two_bytes() {
    let i = dec(&[0x75, 0xFC]).unwrap();
    assert_eq!(i.opcode, Opcode::Jne);
    assert_eq!(i.dest, Operand::Imm(-4));
    assert_eq!(i.src, None);
    assert_eq!(i.length, 2);

    let lp = dec(&[0xE2, 0x10]).unwrap();
    assert_eq!(lp.opcode, Opcode::Loop);
    assert_eq!(lp.dest, Operand::Imm(16));
}

#[test]
fn unknown_opcode_is_reported() {
    assert_eq!(dec(&[0xF4]), Err(DecodeError::UnknownOpcode));
}

#[test]
fn truncated_instructions_are_reported() {
    assert_eq!(dec(&[]), Err(DecodeError::TruncatedInstruction));
    assert_eq!(dec(&[0x89]), Err(DecodeError::TruncatedInstruction));
    assert_eq!(dec(&[0xB8, 0x05]), Err(DecodeError::TruncatedInstruction));
    assert_eq!(dec(&[0x89, 0x1E, 0x00]), Err(DecodeError::TruncatedInstruction));
    assert_eq!(dec(&[0x81, 0x3E, 0xE8, 0x03, 0x0C]), Err(DecodeError::TruncatedInstruction));
    assert_eq!(dec(&[0x75]), Err(DecodeError::TruncatedInstruction));
}

#[test]
fn decode_at_later_positions() {
    let trie = opcode_trie();
    let prog = vec![0xB8, 0x05, 0x00, 0x89, 0xD8];
    let second = decode(&prog, 3, &trie).unwrap();
    assert_eq!(second.opcode, Opcode::MovRmR);
    assert_eq!(decode(&prog, 5, &trie), Err(DecodeError::TruncatedInstruction));
}
