use sim86::decoder::{decode, Instruction, DecodeError};
use sim86::opcodes::{opcode_trie, Opcode};
use sim86::registers::{Register, EAC};
use sim86::render::{dec_i16, dec_u16, eac_name, instruction_text, mnemonic, operand_text, register_name, with_sign};
use sim86::decoder::Operand;

fn text(bytes: &[u8]) -> String {
    let trie = opcode_trie();
    let i: Result<Instruction, DecodeError> = decode(&bytes.to_vec(), 0, &trie);
    instruction_text(&i.unwrap())
}

#[test]
fn decimal_rendering() {
    assert_eq!(dec_u16(0).as_str(), "0");
    assert_eq!(dec_u16(7).as_str(), "7");
    assert_eq!(dec_u16(305).as_str(), "305");
    assert_eq!(dec_u16(65535).as_str(), "65535");
    assert_eq!(dec_i16(-1).as_str(), "-1");
    assert_eq!(dec_i16(-32768).as_str(), "-32768");
    assert_eq!(dec_i16(32767).as_str(), "32767");
}

#[test]
fn with_sign_uses_explicit_sign_tokens() {
    assert_eq!(with_sign(4).as_str(), "+ 4");
    assert_eq!(with_sign(0).as_str(), "+ 0");
    assert_eq!(with_sign(-4).as_str(), "- 4");
}

#[test]
fn name_tables() {
    assert_eq!(mnemonic(Opcode::MovIR), "mov");
    assert_eq!(mnemonic(Opcode::SubIA), "sub");
    assert_eq!(mnemonic(Opcode::Loopnz), "loopnz");
    assert_eq!(register_name(Register::AX), "ax");
    assert_eq!(register_name(Register::BH), "bh");
    assert_eq!(eac_name(EAC::BXSI), "bx + si");
    assert_eq!(eac_name(EAC::BPOrDA), "bp");
}

#[test]
fn operand_rendering() {
    assert_eq!(operand_text(&Operand::Reg(Register::DI)).as_str(), "di");
    assert_eq!(operand_text(&Operand::Mem(EAC::BXSI, None)).as_str(), "[bx + si]");
    assert_eq!(operand_text(&Operand::Mem(EAC::SI, Some(-3))).as_str(), "[si - 3]");
    assert_eq!(operand_text(&Operand::MemDirect(1000)).as_str(), "[1000]");
    assert_eq!(operand_text(&Operand::Imm(-7)).as_str(), "-7");
}

#[test]
fn trace_mov_immediate() {
    assert_eq!(text(&[0xB8, 0x05, 0x00]).as_str(), "mov ax, 5");
}

#[test]
fn trace_mov_register_to_register() {
    assert_eq!(text(&[0x89, 0xD8]).as_str(), "mov ax, bx");
}

#[test]
fn trace_add_memory_source_with_displacement() {
    assert_eq!(text(&[0x03, 0x58, 0x04]).as_str(), "add bx, [bx + si + 4]");
}

#[test]
fn trace_cmp_direct_address_word_immediate() {
    assert_eq!(text(&[0x81, 0x3E, 0xE8, 0x03, 0x0C, 0x00]).as_str(), "cmp [1000], word 12");
}

#[test]
fn trace_mov_byte_immediate_to_memory() {
    assert_eq!(text(&[0xC6, 0x00, 0x07]).as_str(), "mov [bx + si], byte 7");
}

#[test]
fn trace_mov_word_immediate_to_displaced_memory() {
    // mode 01 renders its displacement and always the word keyword.
    assert_eq!(text(&[0xC7, 0x41, 0x05, 0x2C, 0x01]).as_str(), "mov [bx + di + 5], word 300");
}

#[test]
fn trace_jne_negative_displacement() {
    assert_eq!(text(&[0x75, 0xFC]).as_str(), "jne -4");
}

#[test]
fn trace_accumulator_moves() {
    assert_eq!(text(&[0xA1, 0x10, 0x00]).as_str(), "mov ax, [16]");
    assert_eq!(text(&[0xA3, 0x10, 0x00]).as_str(), "mov [16], ax");
}

#[test]
fn trace_add_sub_cmp_immediate_register() {
    assert_eq!(text(&[0x83, 0xC6, 0x02]).as_str(), "add si, 2");
    assert_eq!(text(&[0x83, 0xEE, 0x02]).as_str(), "sub si, 2");
    assert_eq!(text(&[0x3D, 0x05, 0x00]).as_str(), "cmp ax, 5");
}
