//! The simulated CPU state: sixteen register names over eight 16-bit
//! backing stores, a packed flags byte, and the instruction pointer.

use vstd::prelude::*;

use crate::decoder::DecodeError;
use crate::values::{lemma_wrap16_in_range, lemma_wrap16_shift_down, lemma_wrap16_shift_up, wrap16};

verus! {

/// The sixteen register names: eight 8-bit views (low/high halves of the
/// first four word registers) followed by the eight 16-bit registers.
#[derive(Copy, Clone, Debug, PartialEq, Eq, Structural)]
pub enum Register {
    AL,
    CL,
    DL,
    BL,
    AH,
    CH,
    DH,
    BH,
    AX,
    CX,
    DX,
    BX,
    SP,
    BP,
    SI,
    DI,
}

/// The four condition flags kept in the packed flags byte.
#[derive(Copy, Clone, Debug, PartialEq, Eq, Structural)]
pub enum Flag {
    Carry,
    Zero,
    Sign,
    Parity,
}

/// The bit each flag occupies inside the flags byte.
pub open spec fn spec_flag_mask(f: Flag) -> u8 {
    match f {
        Flag::Carry => 0x01,
        Flag::Zero => 0x02,
        Flag::Sign => 0x04,
        Flag::Parity => 0x08,
    }
}

/// The bit each flag occupies inside the flags byte.
#[verifier::when_used_as_spec(spec_flag_mask)]
pub fn flag_mask(f: Flag) -> (m: u8)
    ensures
        m == spec_flag_mask(f),
{
    match f {
        Flag::Carry => 0x01,
        Flag::Zero => 0x02,
        Flag::Sign => 0x04,
        Flag::Parity => 0x08,
    }
}

/// Whether a flag is set in a packed flags byte.
pub open spec fn flag_in_byte(flags: u8, f: Flag) -> bool {
    flags & spec_flag_mask(f) != 0
}

/// A flags byte with one flag forced on or off and the rest kept.
pub open spec fn flag_written(flags: u8, f: Flag, on: bool) -> u8 {
    if on {
        flags | spec_flag_mask(f)
    } else {
        flags & !spec_flag_mask(f)
    }
}

/// The eight symbolic effective-address expressions selected by the 3-bit
/// rm field of a mode byte.
#[derive(Copy, Clone, Debug, PartialEq, Eq, Structural)]
pub enum EAC {
    BXSI,
    BXDI,
    BPSI,
    BPDI,
    SI,
    DI,
    BPOrDA,
    BX,
}

/// One 16-bit backing store addressable as two adjoining bytes:
/// bits 0-7 live in `low`, bits 8-15 in `high`.
#[derive(Copy, Clone, Debug, PartialEq, Eq, Structural)]
pub struct RegisterRow {
    pub low: u8,
    pub high: u8,
}

impl RegisterRow {
    /// The word this row holds.
    pub open spec fn spec_word(self) -> u16 {
        (self.high * 256 + self.low) as u16
    }

    /// A row holding a given word, split into its two byte halves.
    pub open spec fn spec_from_word(value: u16) -> RegisterRow {
        RegisterRow { low: (value % 256) as u8, high: (value / 256) as u8 }
    }

    /// A zeroed row.
    pub fn new() -> (r: RegisterRow)
        ensures
            r == (RegisterRow { low: 0u8, high: 0u8 }),
    {
        RegisterRow { low: 0, high: 0 }
    }

    /// The full 16-bit value, assembled from the two byte halves.
    pub fn get(self) -> (w: u16)
        ensures
            w == self.spec_word(),
    {
        (self.high as u16) * 256 + (self.low as u16)
    }
}

/// Splitting a word into its byte halves and reassembling it is the identity.
pub proof fn lemma_row_word_roundtrip(value: u16)
    ensures
        RegisterRow::spec_from_word(value).spec_word() == value,
{
    assert(value / 256 * 256 + value % 256 == value) by {
        vstd::arithmetic::div_mod::lemma_fundamental_div_mod(value as int, 256);
    }
}

/// The full simulated machine state: the eight word registers (the first
/// four doubling as byte pairs), the packed flags byte, and the
/// instruction pointer.
#[derive(Copy, Clone, Debug, PartialEq, Eq, Structural)]
pub struct RegisterFile {
    pub ax: RegisterRow,
    pub cx: RegisterRow,
    pub dx: RegisterRow,
    pub bx: RegisterRow,
    pub sp: RegisterRow,
    pub bp: RegisterRow,
    pub si: RegisterRow,
    pub di: RegisterRow,
    pub flags: u8,
    pub ip: u16,
}

impl RegisterFile {
    /// The value a register name denotes: byte registers read one half of
    /// their backing row, word registers the whole row.
    pub open spec fn spec_get(self, reg: Register) -> u16 {
        match reg {
            Register::AL => self.ax.low as u16,
            Register::CL => self.cx.low as u16,
            Register::DL => self.dx.low as u16,
            Register::BL => self.bx.low as u16,
            Register::AH => self.ax.high as u16,
            Register::CH => self.cx.high as u16,
            Register::DH => self.dx.high as u16,
            Register::BH => self.bx.high as u16,
            Register::AX => self.ax.spec_word(),
            Register::CX => self.cx.spec_word(),
            Register::DX => self.dx.spec_word(),
            Register::BX => self.bx.spec_word(),
            Register::SP => self.sp.spec_word(),
            Register::BP => self.bp.spec_word(),
            Register::SI => self.si.spec_word(),
            Register::DI => self.di.spec_word(),
        }
    }

    /// The state after writing a register: a byte register replaces only
    /// its half of the backing row, a word register replaces the row.
    /// Everything else, the flags byte and the instruction pointer
    /// included, is untouched.
    pub open spec fn spec_set(self, reg: Register, value: u16) -> RegisterFile {
        match reg {
            Register::AL => RegisterFile { ax: RegisterRow { low: (value % 256) as u8, ..self.ax }, ..self },
            Register::CL => RegisterFile { cx: RegisterRow { low: (value % 256) as u8, ..self.cx }, ..self },
            Register::DL => RegisterFile { dx: RegisterRow { low: (value % 256) as u8, ..self.dx }, ..self },
            Register::BL => RegisterFile { bx: RegisterRow { low: (value % 256) as u8, ..self.bx }, ..self },
            Register::AH => RegisterFile { ax: RegisterRow { high: (value % 256) as u8, ..self.ax }, ..self },
            Register::CH => RegisterFile { cx: RegisterRow { high: (value % 256) as u8, ..self.cx }, ..self },
            Register::DH => RegisterFile { dx: RegisterRow { high: (value % 256) as u8, ..self.dx }, ..self },
            Register::BH => RegisterFile { bx: RegisterRow { high: (value % 256) as u8, ..self.bx }, ..self },
            Register::AX => RegisterFile { ax: RegisterRow::spec_from_word(value), ..self },
            Register::CX => RegisterFile { cx: RegisterRow::spec_from_word(value), ..self },
            Register::DX => RegisterFile { dx: RegisterRow::spec_from_word(value), ..self },
            Register::BX => RegisterFile { bx: RegisterRow::spec_from_word(value), ..self },
            Register::SP => RegisterFile { sp: RegisterRow::spec_from_word(value), ..self },
            Register::BP => RegisterFile { bp: RegisterRow::spec_from_word(value), ..self },
            Register::SI => RegisterFile { si: RegisterRow::spec_from_word(value), ..self },
            Register::DI => RegisterFile { di: RegisterRow::spec_from_word(value), ..self },
        }
    }

    /// Whether a flag is set.
    pub open spec fn spec_flag(self, f: Flag) -> bool {
        flag_in_byte(self.flags, f)
    }

    /// A fresh machine state with every register, flag and the instruction
    /// pointer zeroed.
    pub fn new() -> (r: RegisterFile)
        ensures
            r == RegisterFile::spec_new(),
    {
        RegisterFile {
            ax: RegisterRow::new(),
            cx: RegisterRow::new(),
            dx: RegisterRow::new(),
            bx: RegisterRow::new(),
            sp: RegisterRow::new(),
            bp: RegisterRow::new(),
            si: RegisterRow::new(),
            di: RegisterRow::new(),
            flags: 0,
            ip: 0,
        }
    }

    /// The zeroed machine state.
    pub open spec fn spec_new() -> RegisterFile {
        RegisterFile {
            ax: RegisterRow { low: 0u8, high: 0u8 },
            cx: RegisterRow { low: 0u8, high: 0u8 },
            dx: RegisterRow { low: 0u8, high: 0u8 },
            bx: RegisterRow { low: 0u8, high: 0u8 },
            sp: RegisterRow { low: 0u8, high: 0u8 },
            bp: RegisterRow { low: 0u8, high: 0u8 },
            si: RegisterRow { low: 0u8, high: 0u8 },
            di: RegisterRow { low: 0u8, high: 0u8 },
            flags: 0u8,
            ip: 0u16,
        }
    }

    /// Read a register.
    pub fn get(&self, reg: Register) -> (v: u16)
        ensures
            v == self.spec_get(reg),
    {
        match reg {
            Register::AL => self.ax.low as u16,
            Register::CL => self.cx.low as u16,
            Register::DL => self.dx.low as u16,
            Register::BL => self.bx.low as u16,
            Register::AH => self.ax.high as u16,
            Register::CH => self.cx.high as u16,
            Register::DH => self.dx.high as u16,
            Register::BH => self.bx.high as u16,
            Register::AX => self.ax.get(),
            Register::CX => self.cx.get(),
            Register::DX => self.dx.get(),
            Register::BX => self.bx.get(),
            Register::SP => self.sp.get(),
            Register::BP => self.bp.get(),
            Register::SI => self.si.get(),
            Register::DI => self.di.get(),
        }
    }

    /// Write a register. A byte register write changes only its own half
    /// of the parent word; a word register write replaces both halves at
    /// once.
    pub fn set(&mut self, reg: Register, value: u16)
        ensures
            *final(self) == old(self).spec_set(reg, value),
    {
        let byte = (value % 256) as u8;
        let upper = (value / 256) as u8;
        match reg {
            Register::AL => self.ax.low = byte,
            Register::CL => self.cx.low = byte,
            Register::DL => self.dx.low = byte,
            Register::BL => self.bx.low = byte,
            Register::AH => self.ax.high = byte,
            Register::CH => self.cx.high = byte,
            Register::DH => self.dx.high = byte,
            Register::BH => self.bx.high = byte,
            Register::AX => self.ax = RegisterRow { low: byte, high: upper },
            Register::CX => self.cx = RegisterRow { low: byte, high: upper },
            Register::DX => self.dx = RegisterRow { low: byte, high: upper },
            Register::BX => self.bx = RegisterRow { low: byte, high: upper },
            Register::SP => self.sp = RegisterRow { low: byte, high: upper },
            Register::BP => self.bp = RegisterRow { low: byte, high: upper },
            Register::SI => self.si = RegisterRow { low: byte, high: upper },
            Register::DI => self.di = RegisterRow { low: byte, high: upper },
        }
    }

    /// Whether a flag is currently set in the flags byte.
    pub fn get_flag(&self, flag: Flag) -> (b: bool)
        ensures
            b == self.spec_flag(flag),
    {
        self.flags & flag_mask(flag) != 0
    }

    /// The sixteen bytes of register storage in encoding order, low byte
    /// of each word first.
    pub fn raw_memory(&self) -> (r: [u8; 16])
        ensures
            r@ == seq![
                self.ax.low, self.ax.high,
                self.cx.low, self.cx.high,
                self.dx.low, self.dx.high,
                self.bx.low, self.bx.high,
                self.sp.low, self.sp.high,
                self.bp.low, self.bp.high,
                self.si.low, self.si.high,
                self.di.low, self.di.high,
            ],
    {
        let r = [
            self.ax.low, self.ax.high,
            self.cx.low, self.cx.high,
            self.dx.low, self.dx.high,
            self.bx.low, self.bx.high,
            self.sp.low, self.sp.high,
            self.bp.low, self.bp.high,
            self.si.low, self.si.high,
            self.di.low, self.di.high,
        ];
        proof {
            assert(r@ =~= seq![
                self.ax.low, self.ax.high,
                self.cx.low, self.cx.high,
                self.dx.low, self.dx.high,
                self.bx.low, self.bx.high,
                self.sp.low, self.sp.high,
                self.bp.low, self.bp.high,
                self.si.low, self.si.high,
                self.di.low, self.di.high,
            ]);
        }
        r
    }
}

/// The two-row register name table of the encoding: a 3-bit field selects
/// a byte register when the word flag is clear and a word register when
/// it is set.
pub open spec fn spec_register_entry(w: bool, index: u8) -> Register {
    if w {
        if index == 0 {
            Register::AX
        } else if index == 1 {
            Register::CX
        } else if index == 2 {
            Register::DX
        } else if index == 3 {
            Register::BX
        } else if index == 4 {
            Register::SP
        } else if index == 5 {
            Register::BP
        } else if index == 6 {
            Register::SI
        } else {
            Register::DI
        }
    } else {
        if index == 0 {
            Register::AL
        } else if index == 1 {
            Register::CL
        } else if index == 2 {
            Register::DL
        } else if index == 3 {
            Register::BL
        } else if index == 4 {
            Register::AH
        } else if index == 5 {
            Register::CH
        } else if index == 6 {
            Register::DH
        } else {
            Register::BH
        }
    }
}

/// The register a 3-bit field names under a word flag.
pub fn register_entry(w: bool, index: u8) -> (r: Register)
    requires
        index < 8,
    ensures
        r == spec_register_entry(w, index),
{
    if w {
        match index {
            0 => Register::AX,
            1 => Register::CX,
            2 => Register::DX,
            3 => Register::BX,
            4 => Register::SP,
            5 => Register::BP,
            6 => Register::SI,
            _ => Register::DI,
        }
    } else {
        match index {
            0 => Register::AL,
            1 => Register::CL,
            2 => Register::DL,
            3 => Register::BL,
            4 => Register::AH,
            5 => Register::CH,
            6 => Register::DH,
            _ => Register::BH,
        }
    }
}

/// Look a register up by its 3-bit field and the word flag bit, rejecting
/// indices outside either table.
pub fn retrieve_register(index: u8, w: u8) -> (r: Result<Register, DecodeError>)
    ensures
        r == if w <= 1 && index <= 7 {
            Ok::<Register, DecodeError>(spec_register_entry(w == 1, index))
        } else {
            Err::<Register, DecodeError>(DecodeError::InvalidOperandIndex)
        },
{
    if w <= 1 && index <= 7 {
        Ok(register_entry(w == 1, index))
    } else {
        Err(DecodeError::InvalidOperandIndex)
    }
}

/// The effective-address table: which symbolic base+index expression a
/// 3-bit rm field selects.
pub open spec fn spec_eac_entry(rm: u8) -> EAC {
    if rm == 0 {
        EAC::BXSI
    } else if rm == 1 {
        EAC::BXDI
    } else if rm == 2 {
        EAC::BPSI
    } else if rm == 3 {
        EAC::BPDI
    } else if rm == 4 {
        EAC::SI
    } else if rm == 5 {
        EAC::DI
    } else if rm == 6 {
        EAC::BPOrDA
    } else {
        EAC::BX
    }
}

/// The effective-address expression a 3-bit rm field selects.
pub fn eac_entry(rm: u8) -> (r: EAC)
    requires
        rm < 8,
    ensures
        r == spec_eac_entry(rm),
{
    match rm {
        0 => EAC::BXSI,
        1 => EAC::BXDI,
        2 => EAC::BPSI,
        3 => EAC::BPDI,
        4 => EAC::SI,
        5 => EAC::DI,
        6 => EAC::BPOrDA,
        _ => EAC::BX,
    }
}

/// Byte/word aliasing law: writing the low byte register and then the
/// high byte register assembles the parent word from the two bytes, and
/// writing the word register sets both byte views to its halves.
pub proof fn lemma_byte_word_aliasing(rf: RegisterFile, lo: u8, hi: u8, v: u16)
    ensures
        rf.spec_set(Register::AL, lo as u16).spec_set(Register::AH, hi as u16).spec_get(Register::AX)
            == hi * 256 + lo,
        rf.spec_set(Register::AX, v).spec_get(Register::AL) == v % 256,
        rf.spec_set(Register::AX, v).spec_get(Register::AH) == v / 256,
{
}

/// The aliasing invariant: at every point each word register reads as its
/// high byte view times 256 plus its low byte view.
pub proof fn lemma_word_byte_invariant(rf: RegisterFile)
    ensures
        rf.spec_get(Register::AX) == rf.spec_get(Register::AH) * 256 + rf.spec_get(Register::AL),
        rf.spec_get(Register::CX) == rf.spec_get(Register::CH) * 256 + rf.spec_get(Register::CL),
        rf.spec_get(Register::DX) == rf.spec_get(Register::DH) * 256 + rf.spec_get(Register::DL),
        rf.spec_get(Register::BX) == rf.spec_get(Register::BH) * 256 + rf.spec_get(Register::BL),
{
}

/// Writing a flag sets exactly that flag's bit and keeps every other bit
/// of the flags byte.
pub proof fn lemma_flag_written(flags: u8, f: Flag, on: bool)
    ensures
        flag_in_byte(flag_written(flags, f, on), f) == on,
        forall|g: Flag| g != f ==> flag_in_byte(flag_written(flags, f, on), g) == flag_in_byte(flags, g),
{
    let m = spec_flag_mask(f);
    assert((flags | m) & m != 0 && (flags & !m) & m == 0) by (bit_vector)
        requires
            m == 1 || m == 2 || m == 4 || m == 8,
    ;
    assert forall|g: Flag| g != f implies flag_in_byte(flag_written(flags, f, on), g) == flag_in_byte(
        flags,
        g,
    ) by {
        let m2 = spec_flag_mask(g);
        assert((flags | m) & m2 == flags & m2 && (flags & !m) & m2 == flags & m2) by (bit_vector)
            requires
                m == 1 || m == 2 || m == 4 || m == 8,
                m2 == 1 || m2 == 2 || m2 == 4 || m2 == 8,
                m != m2,
        ;
    }
}

/// The flags byte after recording an arithmetic result: Zero, Sign and
/// Parity are rewritten from the result and every other bit, Carry
/// included, is kept.
pub open spec fn spec_flags_after(flags: u8, result: i16) -> u8 {
    flag_written(
        flag_written(flag_written(flags, Flag::Zero, result == 0), Flag::Sign, result < 0),
        Flag::Parity,
        result % 2 == 0,
    )
}

/// What each flag reads after an arithmetic result is recorded: Zero iff
/// the result is zero, Sign iff it is negative, Parity iff it is even,
/// and Carry as it was before.
pub proof fn lemma_flags_after(flags: u8, result: i16)
    ensures
        flag_in_byte(spec_flags_after(flags, result), Flag::Zero) == (result == 0),
        flag_in_byte(spec_flags_after(flags, result), Flag::Sign) == (result < 0),
        flag_in_byte(spec_flags_after(flags, result), Flag::Parity) == (result % 2 == 0),
        flag_in_byte(spec_flags_after(flags, result), Flag::Carry) == flag_in_byte(flags, Flag::Carry),
{
    let f1 = flag_written(flags, Flag::Zero, result == 0);
    let f2 = flag_written(f1, Flag::Sign, result < 0);
    lemma_flag_written(flags, Flag::Zero, result == 0);
    lemma_flag_written(f1, Flag::Sign, result < 0);
    lemma_flag_written(f2, Flag::Parity, result % 2 == 0);
}

impl RegisterFile {
    /// Turn one flag on, leaving the rest of the flags byte and all other
    /// state as it was.
    fn set_flag(&mut self, flag: Flag)
        ensures
            *final(self) == (RegisterFile { flags: flag_written(old(self).flags, flag, true), ..*old(self) }),
    {
        self.flags = self.flags | flag_mask(flag);
    }

    /// Turn one flag off, leaving the rest of the flags byte and all
    /// other state as it was.
    fn clear_flag(&mut self, flag: Flag)
        ensures
            *final(self) == (RegisterFile { flags: flag_written(old(self).flags, flag, false), ..*old(self) }),
    {
        self.flags = self.flags & !flag_mask(flag);
    }

    /// Record an arithmetic result in the flags byte: Zero iff the result
    /// is zero, Sign iff it is negative, Parity iff it is even (the
    /// simplified parity rule of this machine, not bit-count parity).
    /// Carry is never computed and keeps its value. Registers and the
    /// instruction pointer are untouched.
    pub fn set_flags_from_result(&mut self, result: i16)
        ensures
            *final(self) == (RegisterFile { flags: spec_flags_after(old(self).flags, result), ..*old(self) }),
    {
        if result == 0 {
            self.set_flag(Flag::Zero);
        } else {
            self.clear_flag(Flag::Zero);
        }
        if result < 0 {
            self.set_flag(Flag::Sign);
        } else {
            self.clear_flag(Flag::Sign);
        }
        if result % 2 == 0 {
            self.set_flag(Flag::Parity);
        } else {
            self.clear_flag(Flag::Parity);
        }
    }

    /// Advance the instruction pointer by a signed byte count with 16-bit
    /// wraparound; used both for the sequential advance past an
    /// instruction and for relative jump displacements.
    pub fn move_ip_by(&mut self, delta: i16)
        ensures
            *final(self) == (RegisterFile { ip: wrap16(old(self).ip + delta), ..*old(self) }),
    {
        proof {
            let s = old(self).ip + delta;
            if s < 0 {
                lemma_wrap16_shift_up(s);
            } else if s < 0x10000 {
                lemma_wrap16_in_range(s);
            } else {
                lemma_wrap16_shift_down(s);
            }
        }
        self.ip = self.ip.wrapping_add_signed(delta);
    }
}

} // verus!
