//! Pure rendering of decoded instructions into the assembly-like trace
//! format: mnemonic, destination, source, with bracketed memory
//! expressions, explicit sign tokens on displacements, and a byte/word
//! keyword on immediates stored to memory. Field order and spacing are
//! the wire contract for downstream tooling; nothing here performs I/O.

use vstd::prelude::*;
use vstd::string::StringExecFns;

use crate::decoder::{Instruction, Operand};
use crate::opcodes::Opcode;
use crate::registers::{Register, EAC};

verus! {

/// The mnemonic of an opcode class.
pub open spec fn spec_mnemonic(op: Opcode) -> Seq<char> {
    match op {
        Opcode::MovRmR | Opcode::MovIR | Opcode::MovIRm | Opcode::MovAM | Opcode::MovMA => "mov"@,
        Opcode::AddRmR | Opcode::AddIRm | Opcode::AddIA => "add"@,
        Opcode::SubRmR | Opcode::SubIRm | Opcode::SubIA => "sub"@,
        Opcode::CmpRmR | Opcode::CmpIRm | Opcode::CmpIA => "cmp"@,
        Opcode::Je => "je"@,
        Opcode::Jl => "jl"@,
        Opcode::Jle => "jle"@,
        Opcode::Jb => "jb"@,
        Opcode::Jbe => "jbe"@,
        Opcode::Jp => "jp"@,
        Opcode::Jo => "jo"@,
        Opcode::Js => "js"@,
        Opcode::Jne => "jne"@,
        Opcode::Jnl => "jnl"@,
        Opcode::Jg => "jg"@,
        Opcode::Jnb => "jnb"@,
        Opcode::Ja => "ja"@,
        Opcode::Jnp => "jnp"@,
        Opcode::Jno => "jno"@,
        Opcode::Jns => "jns"@,
        Opcode::Loop => "loop"@,
        Opcode::Loopz => "loopz"@,
        Opcode::Loopnz => "loopnz"@,
        Opcode::Jcxz => "jcxz"@,
    }
}

/// The mnemonic of an opcode class.
pub fn mnemonic(op: Opcode) -> (r: &'static str)
    ensures
        r@ == spec_mnemonic(op),
{
    match op {
        Opcode::MovRmR | Opcode::MovIR | Opcode::MovIRm | Opcode::MovAM | Opcode::MovMA => "mov",
        Opcode::AddRmR | Opcode::AddIRm | Opcode::AddIA => "add",
        Opcode::SubRmR | Opcode::SubIRm | Opcode::SubIA => "sub",
        Opcode::CmpRmR | Opcode::CmpIRm | Opcode::CmpIA => "cmp",
        Opcode::Je => "je",
        Opcode::Jl => "jl",
        Opcode::Jle => "jle",
        Opcode::Jb => "jb",
        Opcode::Jbe => "jbe",
        Opcode::Jp => "jp",
        Opcode::Jo => "jo",
        Opcode::Js => "js",
        Opcode::Jne => "jne",
        Opcode::Jnl => "jnl",
        Opcode::Jg => "jg",
        Opcode::Jnb => "jnb",
        Opcode::Ja => "ja",
        Opcode::Jnp => "jnp",
        Opcode::Jno => "jno",
        Opcode::Jns => "jns",
        Opcode::Loop => "loop",
        Opcode::Loopz => "loopz",
        Opcode::Loopnz => "loopnz",
        Opcode::Jcxz => "jcxz",
    }
}

/// The lower-case name of a register.
pub open spec fn spec_register_name(r: Register) -> Seq<char> {
    match r {
        Register::AL => "al"@,
        Register::CL => "cl"@,
        Register::DL => "dl"@,
        Register::BL => "bl"@,
        Register::AH => "ah"@,
        Register::CH => "ch"@,
        Register::DH => "dh"@,
        Register::BH => "bh"@,
        Register::AX => "ax"@,
        Register::CX => "cx"@,
        Register::DX => "dx"@,
        Register::BX => "bx"@,
        Register::SP => "sp"@,
        Register::BP => "bp"@,
        Register::SI => "si"@,
        Register::DI => "di"@,
    }
}

/// The lower-case name of a register.
pub fn register_name(r: Register) -> (s: &'static str)
    ensures
        s@ == spec_register_name(r),
{
    match r {
        Register::AL => "al",
        Register::CL => "cl",
        Register::DL => "dl",
        Register::BL => "bl",
        Register::AH => "ah",
        Register::CH => "ch",
        Register::DH => "dh",
        Register::BH => "bh",
        Register::AX => "ax",
        Register::CX => "cx",
        Register::DX => "dx",
        Register::BX => "bx",
        Register::SP => "sp",
        Register::BP => "bp",
        Register::SI => "si",
        Register::DI => "di",
    }
}

/// The textual form of an effective-address expression.
pub open spec fn spec_eac_name(e: EAC) -> Seq<char> {
    match e {
        EAC::BXSI => "bx + si"@,
        EAC::BXDI => "bx + di"@,
        EAC::BPSI => "bp + si"@,
        EAC::BPDI => "bp + di"@,
        EAC::SI => "si"@,
        EAC::DI => "di"@,
        EAC::BPOrDA => "bp"@,
        EAC::BX => "bx"@,
    }
}

/// The textual form of an effective-address expression.
pub fn eac_name(e: EAC) -> (s: &'static str)
    ensures
        s@ == spec_eac_name(e),
{
    match e {
        EAC::BXSI => "bx + si",
        EAC::BXDI => "bx + di",
        EAC::BPSI => "bp + si",
        EAC::BPDI => "bp + di",
        EAC::SI => "si",
        EAC::DI => "di",
        EAC::BPOrDA => "bp",
        EAC::BX => "bx",
    }
}

/// The single decimal digit character for a value below ten.
pub open spec fn spec_digit(d: int) -> Seq<char> {
    if d == 0 {
        "0"@
    } else if d == 1 {
        "1"@
    } else if d == 2 {
        "2"@
    } else if d == 3 {
        "3"@
    } else if d == 4 {
        "4"@
    } else if d == 5 {
        "5"@
    } else if d == 6 {
        "6"@
    } else if d == 7 {
        "7"@
    } else if d == 8 {
        "8"@
    } else {
        "9"@
    }
}

/// The decimal digits of a non-negative value, no leading zeroes.
pub open spec fn spec_dec(n: nat) -> Seq<char>
    decreases n,
{
    if n < 10 {
        spec_digit(n as int)
    } else {
        spec_dec(n / 10) + spec_digit((n % 10) as int)
    }
}

/// The decimal form of a signed value: a minus sign before the digits of
/// its magnitude when negative.
pub open spec fn spec_dec_signed(v: int) -> Seq<char> {
    if v < 0 {
        "-"@ + spec_dec((-v) as nat)
    } else {
        spec_dec(v as nat)
    }
}

/// A signed value as an explicit sign token and the digits of its
/// magnitude, as displacements appear inside bracketed memory
/// expressions.
pub open spec fn spec_with_sign(v: int) -> Seq<char> {
    if v >= 0 {
        "+ "@ + spec_dec(v as nat)
    } else {
        "- "@ + spec_dec((-v) as nat)
    }
}

/// The single decimal digit string for a value below ten.
fn digit_str(d: u16) -> (s: &'static str)
    requires
        d < 10,
    ensures
        s@ == spec_digit(d as int),
{
    match d {
        0 => "0",
        1 => "1",
        2 => "2",
        3 => "3",
        4 => "4",
        5 => "5",
        6 => "6",
        7 => "7",
        8 => "8",
        _ => "9",
    }
}

/// The decimal digits of a 16-bit value.
pub fn dec_u16(n: u16) -> (s: String)
    ensures
        s@ == spec_dec(n as nat),
    decreases n,
{
    if n < 10 {
        String::from_str(digit_str(n))
    } else {
        let mut s = dec_u16(n / 10);
        s.append(digit_str(n % 10));
        s
    }
}

/// The decimal form of a signed 16-bit value.
pub fn dec_i16(v: i16) -> (s: String)
    ensures
        s@ == spec_dec_signed(v as int),
{
    if v >= 0 {
        dec_u16(v as u16)
    } else {
        let mag = (-(v as i32)) as u16;
        let mut s = String::from_str("-");
        let digits = dec_u16(mag);
        s.append(digits.as_str());
        s
    }
}

/// A signed displacement with its explicit sign token, as it appears
/// inside a bracketed memory expression.
pub fn with_sign(n: i16) -> (s: String)
    ensures
        s@ == spec_with_sign(n as int),
{
    if n >= 0 {
        let mut s = String::from_str("+ ");
        let digits = dec_u16(n as u16);
        s.append(digits.as_str());
        s
    } else {
        let mag = (-(n as i32)) as u16;
        let mut s = String::from_str("- ");
        let digits = dec_u16(mag);
        s.append(digits.as_str());
        s
    }
}

/// The textual form of one operand.
pub open spec fn spec_operand_text(o: Operand) -> Seq<char> {
    match o {
        Operand::Reg(r) => spec_register_name(r),
        Operand::Mem(e, d) => match d {
            None => "["@ + spec_eac_name(e) + "]"@,
            Some(disp) => "["@ + spec_eac_name(e) + " "@ + spec_with_sign(disp as int) + "]"@,
        },
        Operand::MemDirect(a) => "["@ + spec_dec(a as nat) + "]"@,
        Operand::Imm(v) => spec_dec_signed(v as int),
    }
}

/// The textual form of one operand.
pub fn operand_text(o: &Operand) -> (s: String)
    ensures
        s@ == spec_operand_text(*o),
{
    match o {
        Operand::Reg(r) => String::from_str(register_name(*r)),
        Operand::Mem(e, d) => {
            let mut s = String::from_str("[");
            s.append(eac_name(*e));
            match d {
                None => {},
                Some(disp) => {
                    s.append(" ");
                    let signed = with_sign(*disp);
                    s.append(signed.as_str());
                },
            }
            s.append("]");
            s
        },
        Operand::MemDirect(a) => {
            let mut s = String::from_str("[");
            let digits = dec_u16(*a);
            s.append(digits.as_str());
            s.append("]");
            s
        },
        Operand::Imm(v) => dec_i16(*v),
    }
}

/// The width keyword printed before an immediate stored to memory: a
/// displaced memory destination is always rendered "word"; otherwise the
/// word flag decides between "word" and "byte".
pub open spec fn spec_width_keyword(dest: Operand, w: bool) -> Seq<char> {
    if dest matches Operand::Mem(_, Some(_)) {
        "word"@
    } else if w {
        "word"@
    } else {
        "byte"@
    }
}

/// One trace line: the mnemonic, then the operands separated by a comma,
/// with the width keyword before an immediate whose destination is
/// memory. A jump renders its displacement as its only operand.
pub open spec fn spec_instruction_text(i: Instruction) -> Seq<char> {
    let head = spec_mnemonic(i.opcode) + " "@ + spec_operand_text(i.dest);
    match i.src {
        None => head,
        Some(src) => {
            if (src matches Operand::Imm(_)) && (i.dest matches Operand::Mem(_, _)
                || i.dest matches Operand::MemDirect(_)) {
                head + ", "@ + spec_width_keyword(i.dest, i.w) + " "@ + spec_operand_text(src)
            } else {
                head + ", "@ + spec_operand_text(src)
            }
        },
    }
}

/// Render one trace line for a decoded instruction.
pub fn instruction_text(i: &Instruction) -> (s: String)
    ensures
        s@ == spec_instruction_text(*i),
{
    let mut s = String::from_str(mnemonic(i.opcode));
    s.append(" ");
    let dest = operand_text(&i.dest);
    s.append(dest.as_str());
    match &i.src {
        None => {},
        Some(src) => {
            s.append(", ");
            let keyword = (matches!(src, Operand::Imm(_)) && matches!(
                i.dest,
                Operand::Mem(_, _) | Operand::MemDirect(_),
            ));
            if keyword {
                if matches!(i.dest, Operand::Mem(_, Some(_))) {
                    s.append("word");
                } else if i.w {
                    s.append("word");
                } else {
                    s.append("byte");
                }
                s.append(" ");
            }
            let src_text = operand_text(src);
            s.append(src_text.as_str());
        },
    }
    proof {
        assert(s@ =~= spec_instruction_text(*i));
    }
    s
}

} // verus!
