//! The instruction decoder: given a byte buffer and a cursor position, it
//! classifies the leading byte, determines from the class and the mode
//! byte exactly how many bytes the instruction occupies, and assembles a
//! complete instruction record without consuming anything past that
//! length.

use vstd::prelude::*;

use crate::opcodes::{is_ia, is_irm, is_jump, is_rmr, BitTrie, Opcode};
use crate::registers::{eac_entry, register_entry, spec_eac_entry, spec_register_entry, Register, EAC};
use crate::values::{assemble_signed, assemble_word, sign_extend, sign_extend_byte, word_le, word_le_signed};

verus! {

/// Why a decode step failed. Every failure is fatal for the run: there is
/// no resynchronisation.
#[derive(Copy, Clone, Debug, PartialEq, Eq, Structural)]
pub enum DecodeError {
    /// The leading byte matches no registered opcode pattern.
    UnknownOpcode,
    /// The buffer ends before the instruction's computed length.
    TruncatedInstruction,
    /// A 3-bit field fell outside a lookup table.
    InvalidOperandIndex,
    /// An encoding the decoder does not support, such as an unhandled
    /// sub-opcode in the reg field of an immediate arithmetic form.
    UnsupportedAddressingMode,
}

/// One operand of a decoded instruction.
#[derive(Copy, Clone, Debug, PartialEq, Eq, Structural)]
pub enum Operand {
    /// A named register.
    Reg(Register),
    /// A memory operand: a symbolic effective-address expression with an
    /// optional signed displacement.
    Mem(EAC, Option<i16>),
    /// A memory operand given as a raw 16-bit direct address.
    MemDirect(u16),
    /// An immediate value, sign-extended to 16 bits where the encoding
    /// carried a single byte.
    Imm(i16),
}

/// A fully decoded instruction: its class, the direction and word flags,
/// the destination, the source (absent for the jump family, whose single
/// operand is the displacement in `dest`), and the total encoded length
/// in bytes.
#[derive(Copy, Clone, Debug, PartialEq, Eq, Structural)]
pub struct Instruction {
    pub opcode: Opcode,
    pub d: bool,
    pub w: bool,
    pub dest: Operand,
    pub src: Option<Operand>,
    pub length: u8,
}

/// The mod field: the top two bits of a mode byte.
pub open spec fn mode_field(b: u8) -> u8 {
    b / 64
}

/// The reg field: bits 3 to 5 of a mode byte.
pub open spec fn reg_field(b: u8) -> u8 {
    (b / 8) % 8
}

/// The rm field: the low three bits of a mode byte.
pub open spec fn rm_field(b: u8) -> u8 {
    b % 8
}

/// The word flag in bit 0.
pub open spec fn w_bit(b: u8) -> bool {
    b % 2 == 1
}

/// The flag in bit 1: direction for register/memory forms, sign-extend
/// for immediate arithmetic forms.
pub open spec fn bit1(b: u8) -> bool {
    (b / 2) % 2 == 1
}

/// The word flag in bit 3, used by the immediate-to-register MOV.
pub open spec fn bit3(b: u8) -> bool {
    (b / 8) % 2 == 1
}

/// How many displacement bytes follow a mode byte: none in register mode;
/// two in mode 00 for the direct-address special case rm=110, else none;
/// otherwise the mod value itself.
pub open spec fn disp_len(mode: u8, rm: u8) -> int {
    if mode == 3 {
        0
    } else if mode == 0 {
        if rm == 6 {
            2
        } else {
            0
        }
    } else {
        mode as int
    }
}

/// The memory or register operand a mode byte selects, with its
/// displacement read from the bytes after the mode byte.
pub open spec fn spec_rm_operand(prog: Seq<u8>, pos: int, w: bool, mode: u8, rm: u8) -> Operand {
    if mode == 3 {
        Operand::Reg(spec_register_entry(w, rm))
    } else if mode == 0 && rm == 6 {
        Operand::MemDirect(word_le(prog[pos + 2], prog[pos + 3]))
    } else if mode == 0 {
        Operand::Mem(spec_eac_entry(rm), None)
    } else if mode == 1 {
        Operand::Mem(spec_eac_entry(rm), Some(sign_extend(prog[pos + 2])))
    } else {
        Operand::Mem(spec_eac_entry(rm), Some(word_le_signed(prog[pos + 2], prog[pos + 3])))
    }
}

/// Decoding of the register/memory-with-register forms (MOV, ADD, SUB,
/// CMP): a mode byte follows the opcode byte, then the displacement the
/// mod/rm rule calls for. The d flag picks which operand is the
/// destination.
pub open spec fn spec_decode_rmr(prog: Seq<u8>, pos: int, op: Opcode) -> Result<
    Instruction,
    DecodeError,
> {
    if prog.len() - pos < 2 {
        Err(DecodeError::TruncatedInstruction)
    } else {
        let b0 = prog[pos];
        let b1 = prog[pos + 1];
        let mode = mode_field(b1);
        let rm = rm_field(b1);
        let total = 2 + disp_len(mode, rm);
        if prog.len() - pos < total {
            Err(DecodeError::TruncatedInstruction)
        } else {
            let w = w_bit(b0);
            let d = bit1(b0);
            let reg_op = Operand::Reg(spec_register_entry(w, reg_field(b1)));
            let other = spec_rm_operand(prog, pos, w, mode, rm);
            Ok(
                Instruction {
                    opcode: op,
                    d,
                    w,
                    dest: if d {
                        reg_op
                    } else {
                        other
                    },
                    src: Some(
                        if d {
                            other
                        } else {
                            reg_op
                        },
                    ),
                    length: total as u8,
                },
            )
        }
    }
}

/// Decoding of the immediate-to-register MOV: the word flag sits in bit 3
/// of the opcode byte and selects one or two immediate bytes; the low
/// three bits name the destination register.
pub open spec fn spec_decode_ir(prog: Seq<u8>, pos: int) -> Result<Instruction, DecodeError> {
    let b0 = prog[pos];
    let w = bit3(b0);
    let total: int = if w {
        3
    } else {
        2
    };
    if prog.len() - pos < total {
        Err(DecodeError::TruncatedInstruction)
    } else {
        let value = if w {
            word_le_signed(prog[pos + 1], prog[pos + 2])
        } else {
            sign_extend(prog[pos + 1])
        };
        Ok(
            Instruction {
                opcode: Opcode::MovIR,
                d: false,
                w,
                dest: Operand::Reg(spec_register_entry(w, rm_field(b0))),
                src: Some(Operand::Imm(value)),
                length: total as u8,
            },
        )
    }
}

/// Decoding of the immediate-to-accumulator arithmetic forms: the word
/// flag in bit 0 selects one or two immediate bytes and whether the
/// destination is the full accumulator or its low byte.
pub open spec fn spec_decode_ia(prog: Seq<u8>, pos: int, op: Opcode) -> Result<
    Instruction,
    DecodeError,
> {
    let b0 = prog[pos];
    let w = w_bit(b0);
    let total: int = if w {
        3
    } else {
        2
    };
    if prog.len() - pos < total {
        Err(DecodeError::TruncatedInstruction)
    } else {
        let value = if w {
            word_le_signed(prog[pos + 1], prog[pos + 2])
        } else {
            sign_extend(prog[pos + 1])
        };
        Ok(
            Instruction {
                opcode: op,
                d: false,
                w,
                dest: Operand::Reg(
                    if w {
                        Register::AX
                    } else {
                        Register::AL
                    },
                ),
                src: Some(Operand::Imm(value)),
                length: total as u8,
            },
        )
    }
}

/// The arithmetic class the reg field of an immediate
/// register/memory form selects, if the decoder supports it.
pub open spec fn spec_irm_class(op: Opcode, reg: u8) -> Result<Opcode, DecodeError> {
    if op == Opcode::AddIRm {
        if reg == 0 {
            Ok(Opcode::AddIRm)
        } else if reg == 5 {
            Ok(Opcode::SubIRm)
        } else if reg == 7 {
            Ok(Opcode::CmpIRm)
        } else {
            Err(DecodeError::UnsupportedAddressingMode)
        }
    } else {
        Ok(op)
    }
}

/// Decoding of the immediate-to-register/memory forms: a mode byte, the
/// displacement the mod/rm rule calls for, then the immediate, whose byte
/// count is the word flag plus one minus the sign-extend flag. The
/// sign-extend flag exists only on the arithmetic form, where the reg
/// field selects ADD, SUB or CMP.
pub open spec fn spec_decode_irm(prog: Seq<u8>, pos: int, op: Opcode) -> Result<
    Instruction,
    DecodeError,
> {
    if prog.len() - pos < 2 {
        Err(DecodeError::TruncatedInstruction)
    } else {
        let b0 = prog[pos];
        let b1 = prog[pos + 1];
        let w = w_bit(b0);
        let s = op != Opcode::MovIRm && bit1(b0);
        let mode = mode_field(b1);
        let rm = rm_field(b1);
        let dl = disp_len(mode, rm);
        let il: int = if w && !s {
            2
        } else {
            1
        };
        let total = 2 + dl + il;
        if prog.len() - pos < total {
            Err(DecodeError::TruncatedInstruction)
        } else {
            match spec_irm_class(op, reg_field(b1)) {
                Err(e) => Err(e),
                Ok(class) => {
                    if s && !w {
                        Err(DecodeError::UnsupportedAddressingMode)
                    } else {
                        let value = if w && !s {
                            word_le_signed(prog[pos + 2 + dl], prog[pos + 3 + dl])
                        } else {
                            sign_extend(prog[pos + 2 + dl])
                        };
                        Ok(
                            Instruction {
                                opcode: class,
                                d: false,
                                w,
                                dest: spec_rm_operand(prog, pos, w, mode, rm),
                                src: Some(Operand::Imm(value)),
                                length: total as u8,
                            },
                        )
                    }
                },
            }
        }
    }
}

/// Decoding of the accumulator/memory MOVs: always exactly two address
/// bytes after the opcode byte, no mode byte.
pub open spec fn spec_decode_accum_mem(prog: Seq<u8>, pos: int, op: Opcode) -> Result<
    Instruction,
    DecodeError,
> {
    if prog.len() - pos < 3 {
        Err(DecodeError::TruncatedInstruction)
    } else {
        let addr = word_le(prog[pos + 1], prog[pos + 2]);
        let w = w_bit(prog[pos]);
        if op == Opcode::MovMA {
            Ok(
                Instruction {
                    opcode: op,
                    d: false,
                    w,
                    dest: Operand::Reg(Register::AX),
                    src: Some(Operand::MemDirect(addr)),
                    length: 3,
                },
            )
        } else {
            Ok(
                Instruction {
                    opcode: op,
                    d: false,
                    w,
                    dest: Operand::MemDirect(addr),
                    src: Some(Operand::Reg(Register::AX)),
                    length: 3,
                },
            )
        }
    }
}

/// Decoding of the conditional jump / loop family: one signed 8-bit
/// relative displacement, measured from the following instruction.
pub open spec fn spec_decode_jump(prog: Seq<u8>, pos: int, op: Opcode) -> Result<
    Instruction,
    DecodeError,
> {
    if prog.len() - pos < 2 {
        Err(DecodeError::TruncatedInstruction)
    } else {
        Ok(
            Instruction {
                opcode: op,
                d: false,
                w: false,
                dest: Operand::Imm(sign_extend(prog[pos + 1])),
                src: None,
                length: 2,
            },
        )
    }
}

/// Decoding once the leading byte has been classified.
pub open spec fn spec_decode_with(prog: Seq<u8>, pos: int, op: Opcode) -> Result<
    Instruction,
    DecodeError,
> {
    if is_rmr(op) {
        spec_decode_rmr(prog, pos, op)
    } else if op == Opcode::MovIR {
        spec_decode_ir(prog, pos)
    } else if is_ia(op) {
        spec_decode_ia(prog, pos, op)
    } else if op == Opcode::MovAM || op == Opcode::MovMA {
        spec_decode_accum_mem(prog, pos, op)
    } else if is_jump(op) {
        spec_decode_jump(prog, pos, op)
    } else {
        spec_decode_irm(prog, pos, op)
    }
}

/// The whole decode step: classify the byte under the cursor against the
/// trie, then decode per class. An exhausted cursor is a truncated
/// instruction; an unmatched byte is an unknown opcode.
pub open spec fn spec_decode(prog: Seq<u8>, t: BitTrie, pos: int) -> Result<
    Instruction,
    DecodeError,
> {
    if pos >= prog.len() {
        Err(DecodeError::TruncatedInstruction)
    } else {
        match t.spec_match(prog[pos]) {
            None => Err(DecodeError::UnknownOpcode),
            Some((op, len)) => spec_decode_with(prog, pos, op),
        }
    }
}

/// Read the register or memory operand a mode byte selects, together with
/// its displacement bytes.
fn rm_operand(prog: &Vec<u8>, pos: usize, w: bool, mode: u8, rm: u8) -> (r: Operand)
    requires
        mode < 4,
        rm < 8,
        pos + 2 + disp_len(mode, rm) <= prog@.len(),
        prog@.len() <= usize::MAX,
    ensures
        r == spec_rm_operand(prog@, pos as int, w, mode, rm),
{
    if mode == 3 {
        Operand::Reg(register_entry(w, rm))
    } else if mode == 0 && rm == 6 {
        Operand::MemDirect(assemble_word(prog[pos + 2], prog[pos + 3]))
    } else if mode == 0 {
        Operand::Mem(eac_entry(rm), None)
    } else if mode == 1 {
        Operand::Mem(eac_entry(rm), Some(sign_extend_byte(prog[pos + 2])))
    } else {
        Operand::Mem(eac_entry(rm), Some(assemble_signed(prog[pos + 2], prog[pos + 3])))
    }
}

/// Decode a register/memory-with-register form. The mode byte fixes the
/// displacement length before any displacement byte is consumed.
pub fn decode_rmr(prog: &Vec<u8>, pos: usize, op: Opcode) -> (r: Result<Instruction, DecodeError>)
    requires
        pos < prog@.len(),
        is_rmr(op),
    ensures
        r == spec_decode_rmr(prog@, pos as int, op),
{
    if prog.len() - pos < 2 {
        return Err(DecodeError::TruncatedInstruction);
    }
    let b0 = prog[pos];
    let b1 = prog[pos + 1];
    let mode = b1 / 64;
    let reg = (b1 / 8) % 8;
    let rm = b1 % 8;
    let dlen: usize = if mode == 3 {
        0
    } else if mode == 0 {
        if rm == 6 {
            2
        } else {
            0
        }
    } else {
        mode as usize
    };
    let total = 2 + dlen;
    if prog.len() - pos < total {
        return Err(DecodeError::TruncatedInstruction);
    }
    let w = b0 % 2 == 1;
    let d = (b0 / 2) % 2 == 1;
    let reg_op = Operand::Reg(register_entry(w, reg));
    let other = rm_operand(prog, pos, w, mode, rm);
    Ok(
        Instruction {
            opcode: op,
            d,
            w,
            dest: if d {
                reg_op
            } else {
                other
            },
            src: Some(
                if d {
                    other
                } else {
                    reg_op
                },
            ),
            length: total as u8,
        },
    )
}

/// Decode an immediate-to-register MOV.
pub fn decode_ir(prog: &Vec<u8>, pos: usize) -> (r: Result<Instruction, DecodeError>)
    requires
        pos < prog@.len(),
    ensures
        r == spec_decode_ir(prog@, pos as int),
{
    let b0 = prog[pos];
    let w = (b0 / 8) % 2 == 1;
    let total: usize = if w {
        3
    } else {
        2
    };
    if prog.len() - pos < total {
        return Err(DecodeError::TruncatedInstruction);
    }
    let value = if w {
        assemble_signed(prog[pos + 1], prog[pos + 2])
    } else {
        sign_extend_byte(prog[pos + 1])
    };
    Ok(
        Instruction {
            opcode: Opcode::MovIR,
            d: false,
            w,
            dest: Operand::Reg(register_entry(w, b0 % 8)),
            src: Some(Operand::Imm(value)),
            length: total as u8,
        },
    )
}

/// Decode an immediate-to-accumulator arithmetic form.
pub fn decode_ia(prog: &Vec<u8>, pos: usize, op: Opcode) -> (r: Result<Instruction, DecodeError>)
    requires
        pos < prog@.len(),
        is_ia(op),
    ensures
        r == spec_decode_ia(prog@, pos as int, op),
{
    let b0 = prog[pos];
    let w = b0 % 2 == 1;
    let total: usize = if w {
        3
    } else {
        2
    };
    if prog.len() - pos < total {
        return Err(DecodeError::TruncatedInstruction);
    }
    let value = if w {
        assemble_signed(prog[pos + 1], prog[pos + 2])
    } else {
        sign_extend_byte(prog[pos + 1])
    };
    Ok(
        Instruction {
            opcode: op,
            d: false,
            w,
            dest: Operand::Reg(
                if w {
                    Register::AX
                } else {
                    Register::AL
                },
            ),
            src: Some(Operand::Imm(value)),
            length: total as u8,
        },
    )
}

/// Decode an immediate-to-register/memory form, resolving the arithmetic
/// sub-opcode carried in the reg field.
pub fn decode_irm(prog: &Vec<u8>, pos: usize, op: Opcode) -> (r: Result<Instruction, DecodeError>)
    requires
        pos < prog@.len(),
        is_irm(op),
    ensures
        r == spec_decode_irm(prog@, pos as int, op),
{
    if prog.len() - pos < 2 {
        return Err(DecodeError::TruncatedInstruction);
    }
    let b0 = prog[pos];
    let b1 = prog[pos + 1];
    let w = b0 % 2 == 1;
    let s = op != Opcode::MovIRm && (b0 / 2) % 2 == 1;
    let mode = b1 / 64;
    let reg = (b1 / 8) % 8;
    let rm = b1 % 8;
    let dl: usize = if mode == 3 {
        0
    } else if mode == 0 {
        if rm == 6 {
            2
        } else {
            0
        }
    } else {
        mode as usize
    };
    let il: usize = if w && !s {
        2
    } else {
        1
    };
    let total = 2 + dl + il;
    if prog.len() - pos < total {
        return Err(DecodeError::TruncatedInstruction);
    }
    let class = if op == Opcode::AddIRm {
        match reg {
            0 => Opcode::AddIRm,
            5 => Opcode::SubIRm,
            7 => Opcode::CmpIRm,
            _ => {
                return Err(DecodeError::UnsupportedAddressingMode);
            },
        }
    } else {
        op
    };
    if s && !w {
        return Err(DecodeError::UnsupportedAddressingMode);
    }
    let value = if w && !s {
        assemble_signed(prog[pos + 2 + dl], prog[pos + 3 + dl])
    } else {
        sign_extend_byte(prog[pos + 2 + dl])
    };
    Ok(
        Instruction {
            opcode: class,
            d: false,
            w,
            dest: rm_operand(prog, pos, w, mode, rm),
            src: Some(Operand::Imm(value)),
            length: total as u8,
        },
    )
}

/// Decode an accumulator/memory MOV: two raw address bytes.
pub fn decode_accum_mem(prog: &Vec<u8>, pos: usize, op: Opcode) -> (r: Result<
    Instruction,
    DecodeError,
>)
    requires
        pos < prog@.len(),
        op == Opcode::MovAM || op == Opcode::MovMA,
    ensures
        r == spec_decode_accum_mem(prog@, pos as int, op),
{
    if prog.len() - pos < 3 {
        return Err(DecodeError::TruncatedInstruction);
    }
    let addr = assemble_word(prog[pos + 1], prog[pos + 2]);
    let w = prog[pos] % 2 == 1;
    if matches!(op, Opcode::MovMA) {
        Ok(
            Instruction {
                opcode: op,
                d: false,
                w,
                dest: Operand::Reg(Register::AX),
                src: Some(Operand::MemDirect(addr)),
                length: 3,
            },
        )
    } else {
        Ok(
            Instruction {
                opcode: op,
                d: false,
                w,
                dest: Operand::MemDirect(addr),
                src: Some(Operand::Reg(Register::AX)),
                length: 3,
            },
        )
    }
}

/// Decode a conditional jump or loop: one signed displacement byte.
pub fn decode_jump(prog: &Vec<u8>, pos: usize, op: Opcode) -> (r: Result<Instruction, DecodeError>)
    requires
        pos < prog@.len(),
        is_jump(op),
    ensures
        r == spec_decode_jump(prog@, pos as int, op),
{
    if prog.len() - pos < 2 {
        return Err(DecodeError::TruncatedInstruction);
    }
    Ok(
        Instruction {
            opcode: op,
            d: false,
            w: false,
            dest: Operand::Imm(sign_extend_byte(prog[pos + 1])),
            src: None,
            length: 2,
        },
    )
}

/// Decode the instruction under the cursor: classify its leading byte
/// against the trie, then apply that class's field-extraction rules. The
/// cursor is not consumed; the caller advances by the returned length.
pub fn decode(prog: &Vec<u8>, pos: usize, trie: &BitTrie) -> (r: Result<Instruction, DecodeError>)
    requires
        trie.wf(),
    ensures
        r == spec_decode(prog@, *trie, pos as int),
{
    if pos >= prog.len() {
        return Err(DecodeError::TruncatedInstruction);
    }
    let b0 = prog[pos];
    let matched = trie.match_bits(b0);
    match matched {
        None => Err(DecodeError::UnknownOpcode),
        Some((op, _len)) => {
            match op {
                Opcode::MovRmR | Opcode::AddRmR | Opcode::SubRmR | Opcode::CmpRmR => decode_rmr(
                    prog,
                    pos,
                    op,
                ),
                Opcode::MovIR => decode_ir(prog, pos),
                Opcode::AddIA | Opcode::SubIA | Opcode::CmpIA => decode_ia(prog, pos, op),
                Opcode::MovAM | Opcode::MovMA => decode_accum_mem(prog, pos, op),
                Opcode::MovIRm | Opcode::AddIRm | Opcode::SubIRm | Opcode::CmpIRm => decode_irm(
                    prog,
                    pos,
                    op,
                ),
                _ => decode_jump(prog, pos, op),
            }
        },
    }
}

/// The byte-length law: whenever a decode succeeds, the consumed length
/// is exactly what the per-class rules give — two bytes plus the mod/rm
/// displacement for register/memory forms, one or two immediate bytes
/// after the opcode byte for immediate-to-register and accumulator
/// forms, three bytes for the accumulator/memory moves, two for a jump,
/// and mode byte plus displacement plus immediate for the
/// immediate-to-register/memory forms. The length never reaches past the
/// end of the buffer and never exceeds six bytes.
pub proof fn lemma_decoded_length(prog: Seq<u8>, pos: int, op: Opcode)
    requires
        0 <= pos < prog.len(),
    ensures
        spec_decode_with(prog, pos, op) matches Ok(i) ==> {
            let b0 = prog[pos];
            let b1 = prog[pos + 1];
            i.length == if is_rmr(op) {
                2 + disp_len(mode_field(b1), rm_field(b1))
            } else if op == Opcode::MovIR {
                if bit3(b0) {
                    3int
                } else {
                    2int
                }
            } else if is_ia(op) {
                if w_bit(b0) {
                    3int
                } else {
                    2int
                }
            } else if op == Opcode::MovAM || op == Opcode::MovMA {
                3int
            } else if is_jump(op) {
                2int
            } else {
                2 + disp_len(mode_field(b1), rm_field(b1)) + if w_bit(b0) && !(op
                    != Opcode::MovIRm && bit1(b0)) {
                    2int
                } else {
                    1int
                }
            }
        },
        spec_decode_with(prog, pos, op) matches Ok(i) ==> 2 <= i.length <= 6 && pos + i.length
            <= prog.len(),
{
}

/// The direct-address law: in any form that carries a mode byte, the
/// combination mod=00, rm=110 consumes exactly two displacement bytes —
/// regardless of the zero bytes mod=00 would normally imply — and the
/// operand becomes the raw 16-bit address they hold.
pub proof fn lemma_direct_address(prog: Seq<u8>, pos: int, op: Opcode)
    requires
        0 <= pos < prog.len(),
        is_rmr(op) || is_irm(op),
    ensures
        spec_decode_with(prog, pos, op) matches Ok(i) ==> {
            let b1 = prog[pos + 1];
            mode_field(b1) == 0 && rm_field(b1) == 6 ==> {
                let direct = Operand::MemDirect(word_le(prog[pos + 2], prog[pos + 3]));
                &&& disp_len(mode_field(b1), rm_field(b1)) == 2
                &&& if is_rmr(op) {
                    i.length == 4 && (i.dest == direct || i.src == Some(direct))
                } else {
                    i.length == 4 + (if w_bit(prog[pos]) && !(op != Opcode::MovIRm && bit1(
                        prog[pos],
                    )) {
                        2int
                    } else {
                        1int
                    }) && i.dest == direct
                }
            }
        },
{
}

/// The sign-extension law: an 8-bit immediate read under the sign-extend
/// rule has the same numeric value as a native little-endian 16-bit
/// immediate whose high byte is 0xFF when the byte reads negative and
/// 0x00 when it does not.
pub proof fn lemma_immediate_sign_extension(b: u8)
    ensures
        sign_extend(b) == word_le_signed(
            b,
            if b < 128 {
                0u8
            } else {
                0xFFu8
            },
        ),
{
}

/// A byte cursor over a loaded program image.
pub struct Reader {
    pub buffer: Vec<u8>,
    pub pos: usize,
}

impl Reader {
    /// A cursor over a buffer, positioned at its start.
    pub fn new(buffer: Vec<u8>) -> (r: Reader)
        ensures
            r.buffer@ == buffer@,
            r.pos == 0,
    {
        Reader { buffer, pos: 0 }
    }

    /// The byte under the cursor, if any, without consuming it.
    pub fn peek(&self) -> (r: Option<u8>)
        ensures
            r == if self.pos < self.buffer@.len() {
                Some(self.buffer@[self.pos as int])
            } else {
                None::<u8>
            },
    {
        if self.pos < self.buffer.len() {
            Some(self.buffer[self.pos])
        } else {
            None
        }
    }

    /// Consume and return the byte under the cursor, if any.
    pub fn next(&mut self) -> (r: Option<u8>)
        ensures
            final(self).buffer@ == old(self).buffer@,
            r == if old(self).pos < old(self).buffer@.len() {
                Some(old(self).buffer@[old(self).pos as int])
            } else {
                None::<u8>
            },
            final(self).pos == if old(self).pos < old(self).buffer@.len() {
                old(self).pos + 1
            } else {
                old(self).pos as int
            },
    {
        if self.pos < self.buffer.len() {
            let b = self.buffer[self.pos];
            self.pos = self.pos + 1;
            Some(b)
        } else {
            None
        }
    }

    /// Consume the next `n` bytes and return them, or nothing, consuming
    /// nothing, when fewer than `n` remain.
    pub fn read_n(&mut self, n: usize) -> (r: Option<Vec<u8>>)
        ensures
            final(self).buffer@ == old(self).buffer@,
            old(self).pos + n <= old(self).buffer@.len() ==> {
                &&& r is Some
                &&& r->Some_0@ == old(self).buffer@.subrange(
                    old(self).pos as int,
                    old(self).pos + n,
                )
                &&& final(self).pos == old(self).pos + n
            },
            old(self).pos + n > old(self).buffer@.len() ==> r is None && final(self).pos == old(
                self,
            ).pos,
    {
        if self.pos <= self.buffer.len() && n <= self.buffer.len() - self.pos {
            let mut chunk: Vec<u8> = Vec::new();
            let mut i: usize = 0;
            while i < n
                invariant
                    i <= n,
                    self.pos + n <= self.buffer@.len(),
                    self.buffer@.len() <= usize::MAX,
                    chunk@ == self.buffer@.subrange(self.pos as int, self.pos + i),
                decreases n - i,
            {
                chunk.push(self.buffer[self.pos + i]);
                i = i + 1;
                proof {
                    assert(chunk@ =~= self.buffer@.subrange(self.pos as int, self.pos + i));
                }
            }
            self.pos = self.pos + n;
            Some(chunk)
        } else {
            None
        }
    }
}

} // verus!
