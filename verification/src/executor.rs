//! The executor: applies a decoded instruction's semantics to the
//! register file. Data moves copy into the destination register;
//! arithmetic stores the wraparound result and recomputes Zero, Sign and
//! Parity; CMP computes the same flags and discards the result; of the
//! jump family only "jump if not equal" takes its branch. The instruction
//! pointer advances by the instruction's length before any side effect,
//! so jump displacements are measured from the following instruction.

use vstd::prelude::*;

use crate::decoder::{decode, spec_decode, DecodeError, Instruction, Operand};
use crate::opcodes::{is_add, is_arithmetic, is_cmp, is_jump, BitTrie, Opcode};
use crate::registers::{spec_flags_after, Flag, Register, RegisterFile};
use crate::values::{
    add16, as_signed, lemma_signed_unsigned_roundtrip, lemma_wrap16_in_range,
    lemma_wrap16_shift_down, lemma_wrap16_shift_up, sub16, to_signed, to_unsigned, unsigned16,
    wrap16,
};

verus! {

/// The 16-bit value an operand contributes to execution, read as signed:
/// a register's current contents or an immediate. Memory operands
/// contribute nothing, since no memory array is modelled.
pub open spec fn spec_src_value(s: RegisterFile, op: Operand) -> Option<i16> {
    match op {
        Operand::Reg(r) => Some(as_signed(s.spec_get(r)) as i16),
        Operand::Imm(v) => Some(v),
        _ => None,
    }
}

/// The wraparound result an arithmetic class computes from the
/// destination's current value and the source value.
pub open spec fn arith_result(op: Opcode, a: u16, b: u16) -> u16 {
    if is_add(op) {
        add16(a, b)
    } else {
        sub16(a, b)
    }
}

/// The state after an arithmetic class runs against a register
/// destination: flags are recomputed from the signed reading of the
/// result, and the result is stored unless the class is CMP, which
/// discards it.
pub open spec fn spec_perform(op: Opcode, dest: Register, value: i16, s: RegisterFile) -> RegisterFile {
    let r = arith_result(op, s.spec_get(dest), unsigned16(value));
    let flagged = RegisterFile { flags: spec_flags_after(s.flags, as_signed(r) as i16), ..s };
    if is_cmp(op) {
        flagged
    } else {
        flagged.spec_set(dest, r)
    }
}

/// The state after one instruction: the instruction pointer first
/// advances past the instruction; then a jump may displace it further
/// (only "jump if not equal" has its condition evaluated; the rest of the
/// family is decoded but branches nowhere), a move copies its source into
/// a register destination, and arithmetic runs as `spec_perform` says.
/// An instruction whose destination is memory changes nothing beyond the
/// instruction pointer.
pub open spec fn spec_execute(i: Instruction, s: RegisterFile) -> RegisterFile {
    let s1 = RegisterFile { ip: wrap16(s.ip + i.length), ..s };
    if is_jump(i.opcode) {
        if i.opcode == Opcode::Jne && !s1.spec_flag(Flag::Zero) {
            match i.dest {
                Operand::Imm(v) => RegisterFile { ip: wrap16(s1.ip + v), ..s1 },
                _ => s1,
            }
        } else {
            s1
        }
    } else {
        match i.dest {
            Operand::Reg(d) => match i.src {
                Some(src) => match spec_src_value(s1, src) {
                    Some(v) => if is_arithmetic(i.opcode) {
                        spec_perform(i.opcode, d, v, s1)
                    } else {
                        s1.spec_set(d, unsigned16(v))
                    },
                    None => s1,
                },
                None => s1,
            },
            _ => s1,
        }
    }
}

/// Copy a value into a destination register; no flags are affected.
pub fn move_data(dest: Register, value: i16, memory: &mut RegisterFile)
    ensures
        *final(memory) == old(memory).spec_set(dest, unsigned16(value)),
{
    let v = to_unsigned(value);
    memory.set(dest, v);
}

/// Run one arithmetic class against a register destination: compute the
/// wraparound result, record it in the flags, and store it unless the
/// class is CMP.
pub fn perform_arithmetic(op: Opcode, dest: Register, value: i16, memory: &mut RegisterFile)
    requires
        is_arithmetic(op),
    ensures
        *final(memory) == spec_perform(op, dest, value, *old(memory)),
{
    let current = memory.get(dest);
    let operand = to_unsigned(value);
    let result_u: u16 = match op {
        Opcode::AddRmR | Opcode::AddIA | Opcode::AddIRm => {
            proof {
                if current + operand < 0x10000 {
                    lemma_wrap16_in_range(current + operand);
                } else {
                    lemma_wrap16_shift_down(current + operand);
                }
            }
            current.wrapping_add(operand)
        },
        _ => {
            proof {
                if current >= operand {
                    lemma_wrap16_in_range(current - operand);
                } else {
                    lemma_wrap16_shift_up(current - operand);
                }
            }
            current.wrapping_sub(operand)
        },
    };
    let result = to_signed(result_u);
    memory.set_flags_from_result(result);
    if !matches!(op, Opcode::CmpRmR | Opcode::CmpIA | Opcode::CmpIRm) {
        move_data(dest, result, memory);
        proof {
            lemma_signed_unsigned_roundtrip(result_u, result);
        }
    }
}

/// Apply one decoded instruction to the machine state, exactly as
/// `spec_execute` describes.
pub fn execute(instr: &Instruction, memory: &mut RegisterFile)
    ensures
        *final(memory) == spec_execute(*instr, *old(memory)),
{
    memory.move_ip_by(instr.length as i16);
    let is_jmp = matches!(
        instr.opcode,
        Opcode::Je | Opcode::Jl | Opcode::Jle | Opcode::Jb | Opcode::Jbe | Opcode::Jp
        | Opcode::Jo | Opcode::Js | Opcode::Jne | Opcode::Jnl | Opcode::Jg | Opcode::Jnb
        | Opcode::Ja | Opcode::Jnp | Opcode::Jno | Opcode::Jns | Opcode::Loop | Opcode::Loopz
        | Opcode::Loopnz | Opcode::Jcxz
    );
    if is_jmp {
        if matches!(instr.opcode, Opcode::Jne) && !memory.get_flag(Flag::Zero) {
            match instr.dest {
                Operand::Imm(v) => memory.move_ip_by(v),
                _ => {},
            }
        }
    } else {
        match instr.dest {
            Operand::Reg(d) => {
                let value: Option<i16> = match instr.src {
                    Some(Operand::Reg(r)) => Some(to_signed(memory.get(r))),
                    Some(Operand::Imm(v)) => Some(v),
                    _ => None,
                };
                match value {
                    Some(v) => {
                        if matches!(
                            instr.opcode,
                            Opcode::AddRmR | Opcode::AddIA | Opcode::AddIRm | Opcode::SubRmR
                            | Opcode::SubIA | Opcode::SubIRm | Opcode::CmpRmR | Opcode::CmpIA
                            | Opcode::CmpIRm
                        ) {
                            perform_arithmetic(instr.opcode, d, v, memory);
                        } else {
                            move_data(d, v, memory);
                        }
                    },
                    None => {},
                }
            },
            _ => {},
        }
    }
}

/// The flag law for subtraction: for any machine state, destination
/// register and source value, SUB sets Zero iff the operands are equal,
/// Sign iff the wraparound difference reads negative (its top bit is
/// set), and Parity iff the difference is even; and CMP produces exactly
/// the flags SUB produces while leaving every register and the
/// instruction pointer as they were.
pub proof fn lemma_sub_cmp_flags(sub_op: Opcode, cmp_op: Opcode, dest: Register, value: i16, s: RegisterFile)
    requires
        sub_op == Opcode::SubRmR || sub_op == Opcode::SubIA || sub_op == Opcode::SubIRm,
        is_cmp(cmp_op),
    ensures
        spec_perform(sub_op, dest, value, s).spec_flag(Flag::Zero) == (s.spec_get(dest)
            == unsigned16(value)),
        spec_perform(sub_op, dest, value, s).spec_flag(Flag::Sign) == (sub16(
            s.spec_get(dest),
            unsigned16(value),
        ) >= 0x8000),
        spec_perform(sub_op, dest, value, s).spec_flag(Flag::Parity) == ((s.spec_get(dest)
            - unsigned16(value)) % 2 == 0),
        spec_perform(cmp_op, dest, value, s) == (RegisterFile {
            flags: spec_perform(sub_op, dest, value, s).flags,
            ..s
        }),
{
    let a = s.spec_get(dest);
    let b = unsigned16(value);
    let r = sub16(a, b);
    if a >= b {
        lemma_wrap16_in_range(a - b);
    } else {
        lemma_wrap16_shift_up(a - b);
    }
    let result = as_signed(r) as i16;
    crate::registers::lemma_flags_after(s.flags, result);
    crate::values::lemma_parity_shift(a - b);
    crate::values::lemma_parity_shift(a - b + 0x10000);
    assert(result % 2 == (a - b) % 2);
}

/// The machine state after a sequence of instructions has run.
pub open spec fn state_after(init: RegisterFile, trace: Seq<Instruction>) -> RegisterFile
    decreases trace.len(),
{
    if trace.len() == 0 {
        init
    } else {
        spec_execute(trace.last(), state_after(init, trace.drop_last()))
    }
}

/// The trace is exactly what decoding and executing from the initial
/// state produces: each instruction decodes successfully at the
/// instruction pointer of the state before it, which lies inside the
/// buffer.
pub open spec fn valid_trace(
    prog: Seq<u8>,
    t: BitTrie,
    init: RegisterFile,
    trace: Seq<Instruction>,
) -> bool
    decreases trace.len(),
{
    trace.len() == 0 || {
        &&& valid_trace(prog, t, init, trace.drop_last())
        &&& state_after(init, trace.drop_last()).ip < prog.len()
        &&& spec_decode(prog, t, state_after(init, trace.drop_last()).ip as int) == Ok::<
            Instruction,
            DecodeError,
        >(trace.last())
    }
}

/// Decode and execute the instruction at the current instruction
/// pointer. On a decode failure the machine state is left unchanged.
pub fn step(prog: &Vec<u8>, trie: &BitTrie, memory: &mut RegisterFile) -> (r: Result<
    Instruction,
    DecodeError,
>)
    requires
        trie.wf(),
    ensures
        r == spec_decode(prog@, *trie, old(memory).ip as int),
        *final(memory) == match spec_decode(prog@, *trie, old(memory).ip as int) {
            Ok(i) => spec_execute(i, *old(memory)),
            Err(_) => *old(memory),
        },
{
    let ip = memory.ip as usize;
    match decode(prog, ip, trie) {
        Ok(i) => {
            execute(&i, memory);
            Ok(i)
        },
        Err(e) => Err(e),
    }
}

/// What a bounded run produced: the instructions executed in order,
/// the decode error that stopped it if one did, and whether it halted
/// by reaching the end of the buffer. A run that neither halted nor
/// failed used up its step budget.
pub struct RunOutcome {
    pub trace: Vec<Instruction>,
    pub error: Option<DecodeError>,
    pub halted: bool,
}

/// Run the executor loop from the current state: decode at the
/// instruction pointer, execute, and repeat until the pointer reaches
/// the end of the buffer, a decode fails, or the step budget runs out.
/// The encoding itself has no halt instruction and a backward jump can
/// loop forever, so the budget makes the loop finite.
pub fn run(prog: &Vec<u8>, trie: &BitTrie, memory: &mut RegisterFile, max_steps: usize) -> (r:
    RunOutcome)
    requires
        trie.wf(),
    ensures
        valid_trace(prog@, *trie, *old(memory), r.trace@),
        *final(memory) == state_after(*old(memory), r.trace@),
        r.halted ==> r.error is None && final(memory).ip >= prog@.len(),
        r.error is None && !r.halted ==> r.trace@.len() == max_steps,
        r.error matches Some(e) ==> !r.halted && final(memory).ip < prog@.len() && spec_decode(
            prog@,
            *trie,
            final(memory).ip as int,
        ) == Err::<Instruction, DecodeError>(e),
{
    let mut trace: Vec<Instruction> = Vec::new();
    let mut steps: usize = 0;
    loop
        invariant
            trie.wf(),
            steps == trace@.len(),
            steps <= max_steps,
            valid_trace(prog@, *trie, *old(memory), trace@),
            *memory == state_after(*old(memory), trace@),
        decreases max_steps - steps,
    {
        if steps == max_steps {
            return RunOutcome { trace, error: None, halted: false };
        }
        let ip = memory.ip as usize;
        if ip >= prog.len() {
            return RunOutcome { trace, error: None, halted: true };
        }
        match decode(prog, ip, trie) {
            Err(e) => {
                return RunOutcome { trace, error: Some(e), halted: false };
            },
            Ok(instr) => {
                let ghost t0 = trace@;
                execute(&instr, memory);
                trace.push(instr);
                steps = steps + 1;
                proof {
                    assert(trace@.drop_last() =~= t0);
                    assert(trace@.last() == instr);
                }
            },
        }
    }
}

} // verus!
