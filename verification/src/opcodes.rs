//! Opcode classes and the bit-pattern matcher: a prefix trie over bit
//! sequences of one to eight bits, descended most-significant-bit first,
//! that classifies the leading byte of an instruction.

use vstd::prelude::*;

verus! {

/// The opcode classes this machine decodes: the five MOV encodings, the
/// register/memory, immediate and accumulator forms of ADD, SUB and CMP,
/// and the conditional jump / loop family.
#[derive(Copy, Clone, Debug, PartialEq, Eq, Structural)]
pub enum Opcode {
    MovRmR,
    MovIR,
    MovIRm,
    MovAM,
    MovMA,
    AddRmR,
    AddIA,
    AddIRm,
    SubRmR,
    SubIA,
    SubIRm,
    CmpRmR,
    CmpIRm,
    CmpIA,
    Je,
    Jl,
    Jle,
    Jb,
    Jbe,
    Jp,
    Jo,
    Js,
    Jne,
    Jnl,
    Jg,
    Jnb,
    Ja,
    Jnp,
    Jno,
    Jns,
    Loop,
    Loopz,
    Loopnz,
    Jcxz,
}

/// The register/memory-with-register forms, which carry a mode byte and
/// both d and w flags.
pub open spec fn is_rmr(op: Opcode) -> bool {
    op == Opcode::MovRmR || op == Opcode::AddRmR || op == Opcode::SubRmR || op == Opcode::CmpRmR
}

/// The immediate-to-accumulator arithmetic forms.
pub open spec fn is_ia(op: Opcode) -> bool {
    op == Opcode::AddIA || op == Opcode::SubIA || op == Opcode::CmpIA
}

/// The immediate-to-register/memory forms, which carry a mode byte and a
/// trailing immediate.
pub open spec fn is_irm(op: Opcode) -> bool {
    op == Opcode::MovIRm || op == Opcode::AddIRm || op == Opcode::SubIRm || op == Opcode::CmpIRm
}

/// The conditional jump / loop family: one signed displacement byte.
pub open spec fn is_jump(op: Opcode) -> bool {
    match op {
        Opcode::Je | Opcode::Jl | Opcode::Jle | Opcode::Jb | Opcode::Jbe | Opcode::Jp
        | Opcode::Jo | Opcode::Js | Opcode::Jne | Opcode::Jnl | Opcode::Jg | Opcode::Jnb
        | Opcode::Ja | Opcode::Jnp | Opcode::Jno | Opcode::Jns | Opcode::Loop | Opcode::Loopz
        | Opcode::Loopnz | Opcode::Jcxz => true,
        _ => false,
    }
}

/// The opcode classes that compute an arithmetic result and flags.
pub open spec fn is_arithmetic(op: Opcode) -> bool {
    match op {
        Opcode::AddRmR | Opcode::AddIA | Opcode::AddIRm | Opcode::SubRmR | Opcode::SubIA
        | Opcode::SubIRm | Opcode::CmpRmR | Opcode::CmpIA | Opcode::CmpIRm => true,
        _ => false,
    }
}

/// The addition classes.
pub open spec fn is_add(op: Opcode) -> bool {
    op == Opcode::AddRmR || op == Opcode::AddIA || op == Opcode::AddIRm
}

/// The compare classes, which discard their result.
pub open spec fn is_cmp(op: Opcode) -> bool {
    op == Opcode::CmpRmR || op == Opcode::CmpIA || op == Opcode::CmpIRm
}

/// First slot of the trie level holding patterns of a given bit length.
/// Level `len` holds one slot per possible `len`-bit prefix, so the
/// levels pack into 510 slots in order of length.
pub open spec fn trie_base(len: int) -> int {
    if len <= 1 {
        0
    } else if len == 2 {
        2
    } else if len == 3 {
        6
    } else if len == 4 {
        14
    } else if len == 5 {
        30
    } else if len == 6 {
        62
    } else if len == 7 {
        126
    } else {
        254
    }
}

/// How many distinct prefixes a level has: two to the power of the
/// pattern length.
pub open spec fn prefix_count(len: int) -> int {
    if len <= 1 {
        2
    } else if len == 2 {
        4
    } else if len == 3 {
        8
    } else if len == 4 {
        16
    } else if len == 5 {
        32
    } else if len == 6 {
        64
    } else if len == 7 {
        128
    } else {
        256
    }
}

/// The leading `len` bits of a byte, most significant first, as a value.
pub open spec fn byte_prefix(byte: u8, len: int) -> int {
    byte as int / (256int / prefix_count(len))
}

/// A prefix trie over bit sequences of 1 to 8 bits, stored as a complete
/// binary trie: one slot for every possible prefix of every length, so a
/// terminal class can sit at any node and patterns may share prefixes.
pub struct BitTrie {
    pub slots: Vec<Option<Opcode>>,
}

impl BitTrie {
    /// Well-formed: one slot for each of the 510 nodes.
    pub open spec fn wf(self) -> bool {
        self.slots.len() == 510
    }

    /// The class stored for a pattern of a given length and value, if
    /// any.
    pub open spec fn entry(self, len: int, prefix: int) -> Option<Opcode> {
        if 1 <= len <= 8 && 0 <= prefix < prefix_count(len) {
            self.slots@[trie_base(len) + prefix]
        } else {
            None
        }
    }

    /// An empty trie: no pattern of any length is registered.
    pub fn new() -> (t: BitTrie)
        ensures
            t.wf(),
            forall|l: int, p: int| t.entry(l, p) is None,
    {
        let mut slots: Vec<Option<Opcode>> = Vec::new();
        let mut i: usize = 0;
        while i < 510
            invariant
                slots.len() == i,
                i <= 510,
                forall|j: int| 0 <= j < i ==> slots@[j] is None,
            decreases 510 - i,
        {
            slots.push(None);
            i = i + 1;
        }
        BitTrie { slots }
    }

    /// Register a pattern: the low `len` bits of `bits` become a complete
    /// match mapping to `val`. Every other node of the trie is untouched,
    /// so patterns of different lengths may share prefixes.
    pub fn insert(&mut self, bits: u8, len: u8, val: Opcode)
        requires
            old(self).wf(),
            1 <= len <= 8,
        ensures
            final(self).wf(),
            forall|l: int, p: int|
                final(self).entry(l, p) == if l == len as int && p == bits as int % prefix_count(
                    len as int,
                ) {
                    Some(val)
                } else {
                    old(self).entry(l, p)
                },
    {
        let count: usize = match len {
            1 => 2,
            2 => 4,
            3 => 8,
            4 => 16,
            5 => 32,
            6 => 64,
            7 => 128,
            _ => 256,
        };
        let base: usize = match len {
            1 => 0,
            2 => 2,
            3 => 6,
            4 => 14,
            5 => 30,
            6 => 62,
            7 => 126,
            _ => 254,
        };
        let idx: usize = base + (bits as usize) % count;
        self.slots.set(idx, Some(val));
    }

    /// Match a byte against the registered patterns, longest first: the
    /// result is the class of the longest registered pattern that equals
    /// the byte's leading bits, together with that pattern's length,
    /// tested from 8 bits down to 1. If no registered pattern matches,
    /// nothing is returned.
    pub fn match_bits(&self, byte: u8) -> (r: Option<(Opcode, u8)>)
        requires
            self.wf(),
        ensures
            r == self.spec_match(byte),
    {
        let mut len: u8 = 8;
        loop
            invariant
                self.wf(),
                1 <= len <= 8,
                spec_match_at(*self, byte, 8) == spec_match_at(*self, byte, len as int),
            decreases len,
        {
            let divisor: u16 = match len {
                1 => 128,
                2 => 64,
                3 => 32,
                4 => 16,
                5 => 8,
                6 => 4,
                7 => 2,
                _ => 1,
            };
            let prefix: usize = (byte as usize) / (divisor as usize);
            let base: usize = match len {
                1 => 0,
                2 => 2,
                3 => 6,
                4 => 14,
                5 => 30,
                6 => 62,
                7 => 126,
                _ => 254,
            };
            proof {
                assert(divisor as int == 256int / prefix_count(len as int));
                assert(prefix as int == byte_prefix(byte, len as int));
                assert(0 <= byte_prefix(byte, len as int) < prefix_count(len as int));
                assert(base as int == trie_base(len as int));
            }
            if let Some(val) = self.slots[base + prefix] {
                proof {
                    assert(self.entry(len as int, byte_prefix(byte, len as int)) == Some(val));
                    assert(spec_match_at(*self, byte, len as int) == Some((val, len)));
                }
                return Some((val, len));
            }
            proof {
                assert(self.entry(len as int, byte_prefix(byte, len as int)) is None);
                assert(spec_match_at(*self, byte, len as int) == spec_match_at(
                    *self,
                    byte,
                    len as int - 1,
                ));
            }
            if len == 1 {
                proof {
                    assert(spec_match_at(*self, byte, 0) is None);
                }
                return None;
            }
            len = len - 1;
        }
    }

    /// The longest registered pattern that forms the byte's leading bits,
    /// with its length.
    pub open spec fn spec_match(self, byte: u8) -> Option<(Opcode, u8)> {
        spec_match_at(self, byte, 8)
    }
}

/// The longest registered pattern of length at most `len` that forms the
/// byte's leading bits.
pub open spec fn spec_match_at(t: BitTrie, byte: u8, len: int) -> Option<(Opcode, u8)>
    decreases len,
{
    if len < 1 {
        None
    } else {
        match t.entry(len, byte_prefix(byte, len)) {
            Some(v) => Some((v, len as u8)),
            None => spec_match_at(t, byte, len - 1),
        }
    }
}

/// The longest-match law, stepwise: below a given length bound, a match
/// names a registered pattern that forms the byte's leading bits, and no
/// longer pattern within the bound does; no match means no pattern of any
/// length within the bound matches.
proof fn lemma_match_at_longest(t: BitTrie, byte: u8, len: int)
    requires
        0 <= len <= 8,
    ensures
        spec_match_at(t, byte, len) matches Some(m) ==> {
            &&& 1 <= m.1 <= len
            &&& t.entry(m.1 as int, byte_prefix(byte, m.1 as int)) == Some(m.0)
            &&& forall|l: int| m.1 < l <= len ==> t.entry(l, byte_prefix(byte, l)) is None
        },
        spec_match_at(t, byte, len) is None ==> forall|l: int|
            1 <= l <= len ==> t.entry(l, byte_prefix(byte, l)) is None,
    decreases len,
{
    if len >= 1 {
        lemma_match_at_longest(t, byte, len - 1);
    }
}

/// The longest-match law: when the matcher returns a class, it is stored
/// for exactly the byte's leading bits of the returned length, and no
/// longer registered pattern matches the byte; when it returns nothing,
/// no registered pattern of any length matches the byte.
pub proof fn lemma_match_longest(t: BitTrie, byte: u8)
    ensures
        t.spec_match(byte) matches Some(m) ==> {
            &&& 1 <= m.1 <= 8
            &&& t.entry(m.1 as int, byte_prefix(byte, m.1 as int)) == Some(m.0)
            &&& forall|l: int| m.1 < l <= 8 ==> t.entry(l, byte_prefix(byte, l)) is None
        },
        t.spec_match(byte) is None ==> forall|l: int|
            1 <= l <= 8 ==> t.entry(l, byte_prefix(byte, l)) is None,
{
    lemma_match_at_longest(t, byte, 8);
}

impl Default for BitTrie {
    /// An empty trie, as `BitTrie::new` builds it.
    fn default() -> (t: BitTrie)
        ensures
            t.wf(),
            forall|l: int, p: int| t.entry(l, p) is None,
    {
        BitTrie::new()
    }
}

/// The fixed opcode table of this machine: which class, if any, each
/// pattern of each bit length names.
pub open spec fn standard_entry(len: int, prefix: int) -> Option<Opcode> {
    if len == 4 && prefix == 0b1011 {
        Some(Opcode::MovIR)
    } else if len == 6 {
        if prefix == 0b100010 {
            Some(Opcode::MovRmR)
        } else if prefix == 0b000000 {
            Some(Opcode::AddRmR)
        } else if prefix == 0b100000 {
            Some(Opcode::AddIRm)
        } else if prefix == 0b001010 {
            Some(Opcode::SubRmR)
        } else if prefix == 0b001110 {
            Some(Opcode::CmpRmR)
        } else {
            None
        }
    } else if len == 7 {
        if prefix == 0b1100011 {
            Some(Opcode::MovIRm)
        } else if prefix == 0b1010001 {
            Some(Opcode::MovAM)
        } else if prefix == 0b1010000 {
            Some(Opcode::MovMA)
        } else if prefix == 0b0000010 {
            Some(Opcode::AddIA)
        } else if prefix == 0b0010110 {
            Some(Opcode::SubIA)
        } else if prefix == 0b0011110 {
            Some(Opcode::CmpIA)
        } else {
            None
        }
    } else if len == 8 {
        if prefix == 0b01110100 {
            Some(Opcode::Je)
        } else if prefix == 0b01111100 {
            Some(Opcode::Jl)
        } else if prefix == 0b01111110 {
            Some(Opcode::Jle)
        } else if prefix == 0b01110010 {
            Some(Opcode::Jb)
        } else if prefix == 0b01110110 {
            Some(Opcode::Jbe)
        } else if prefix == 0b01111010 {
            Some(Opcode::Jp)
        } else if prefix == 0b01110000 {
            Some(Opcode::Jo)
        } else if prefix == 0b01111000 {
            Some(Opcode::Js)
        } else if prefix == 0b01110101 {
            Some(Opcode::Jne)
        } else if prefix == 0b01111101 {
            Some(Opcode::Jnl)
        } else if prefix == 0b01111111 {
            Some(Opcode::Jg)
        } else if prefix == 0b01110011 {
            Some(Opcode::Jnb)
        } else if prefix == 0b01110111 {
            Some(Opcode::Ja)
        } else if prefix == 0b01111011 {
            Some(Opcode::Jnp)
        } else if prefix == 0b01110001 {
            Some(Opcode::Jno)
        } else if prefix == 0b01111001 {
            Some(Opcode::Jns)
        } else if prefix == 0b11100010 {
            Some(Opcode::Loop)
        } else if prefix == 0b11100001 {
            Some(Opcode::Loopz)
        } else if prefix == 0b11100000 {
            Some(Opcode::Loopnz)
        } else if prefix == 0b11100011 {
            Some(Opcode::Jcxz)
        } else {
            None
        }
    } else {
        None
    }
}

/// Build the opcode table: every pattern the machine recognises,
/// registered once, as `standard_entry` describes.
#[verifier::rlimit(60)]
pub fn opcode_trie() -> (t: BitTrie)
    ensures
        t.wf(),
        forall|l: int, p: int| #[trigger] t.entry(l, p) == standard_entry(l, p),
{
    let mut trie = BitTrie::new();
    trie.insert(0b100010, 6, Opcode::MovRmR);
    trie.insert(0b1011, 4, Opcode::MovIR);
    trie.insert(0b1100011, 7, Opcode::MovIRm);
    trie.insert(0b1010001, 7, Opcode::MovAM);
    trie.insert(0b1010000, 7, Opcode::MovMA);
    trie.insert(0b000000, 6, Opcode::AddRmR);
    trie.insert(0b100000, 6, Opcode::AddIRm);
    trie.insert(0b0000010, 7, Opcode::AddIA);
    trie.insert(0b001010, 6, Opcode::SubRmR);
    trie.insert(0b0010110, 7, Opcode::SubIA);
    trie.insert(0b001110, 6, Opcode::CmpRmR);
    trie.insert(0b0011110, 7, Opcode::CmpIA);
    trie.insert(0b01110100, 8, Opcode::Je);
    trie.insert(0b01111100, 8, Opcode::Jl);
    trie.insert(0b01111110, 8, Opcode::Jle);
    trie.insert(0b01110010, 8, Opcode::Jb);
    trie.insert(0b01110110, 8, Opcode::Jbe);
    trie.insert(0b01111010, 8, Opcode::Jp);
    trie.insert(0b01110000, 8, Opcode::Jo);
    trie.insert(0b01111000, 8, Opcode::Js);
    trie.insert(0b01110101, 8, Opcode::Jne);
    trie.insert(0b01111101, 8, Opcode::Jnl);
    trie.insert(0b01111111, 8, Opcode::Jg);
    trie.insert(0b01110011, 8, Opcode::Jnb);
    trie.insert(0b01110111, 8, Opcode::Ja);
    trie.insert(0b01111011, 8, Opcode::Jnp);
    trie.insert(0b01110001, 8, Opcode::Jno);
    trie.insert(0b01111001, 8, Opcode::Jns);
    trie.insert(0b11100010, 8, Opcode::Loop);
    trie.insert(0b11100001, 8, Opcode::Loopz);
    trie.insert(0b11100000, 8, Opcode::Loopnz);
    trie.insert(0b11100011, 8, Opcode::Jcxz);
    proof {
        assert forall|l: int, p: int| trie.entry(l, p) == standard_entry(l, p) by {
            assert(trie.entry(4, 11) == Some(Opcode::MovIR));
        }
    }
    trie
}

} // verus!
