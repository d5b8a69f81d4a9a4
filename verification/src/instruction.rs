//! The instruction table: one descriptor per implemented opcode, ordered by
//! composite code so lookup can binary-search. Extended (0xCB-prefixed)
//! opcodes live in a distinct namespace: their composite code is 0xCB00 plus
//! the second byte, so they cannot collide with a primary opcode that shares
//! the low byte.

use vstd::prelude::*;

use crate::cpu::Loc;

verus! {

/// The shape of one operand of an instruction.
#[derive(Clone, Copy, Debug)]
pub enum Operand {
    Imm8,
    Imm16,
    Register(Loc),
}

/// The static description of one opcode: its composite code and up to two
/// operand shapes.
#[derive(Clone, Copy, Debug)]
pub struct Instruction {
    pub code: u16,
    pub op1: Option<Operand>,
    pub op2: Option<Operand>,
}

/// How many bytes one operand shape adds to an instruction.
pub open spec fn op_len(op: Option<Operand>) -> int {
    match op {
        Some(Operand::Imm8) => 1,
        Some(Operand::Imm16) => 2,
        _ => 0,
    }
}

/// The byte length of an instruction: one opcode byte (two with the 0xCB
/// prefix) plus its immediate operands.
pub open spec fn spec_length(i: Instruction) -> int {
    (if i.code <= 0xFF {
        1int
    } else {
        2int
    }) + op_len(i.op1) + op_len(i.op2)
}

impl Instruction {
    /// The total byte length of this instruction.
    pub fn length(&self) -> (r: u16)
        requires
            self.code <= 0xFF || (0xCB00 <= self.code && self.code <= 0xCBFF),
        ensures
            r == spec_length(*self),
    {
        let base: u16 = if self.code <= 0xFF {
            1
        } else {
            2
        };
        let l1: u16 = match self.op1 {
            Option::Some(Operand::Imm8) => 1,
            Option::Some(Operand::Imm16) => 2,
            _ => 0,
        };
        let l2: u16 = match self.op2 {
            Option::Some(Operand::Imm8) => 1,
            Option::Some(Operand::Imm16) => 2,
            _ => 0,
        };
        base + l1 + l2
    }
}

/// The composite code a lookup key resolves to: anything without the 0xCB
/// high byte is masked down to its low byte.
pub open spec fn norm_opcode(opcode: u16) -> u16 {
    if opcode / 0x100 != 0xCB {
        (opcode % 0x100) as u16
    } else {
        opcode
    }
}

/// The full table: every implemented opcode, in ascending composite order.
pub open spec fn spec_table() -> Seq<Instruction> {
    seq![
        Instruction { code: 0x00, op1: Option::None, op2: Option::None },
        Instruction { code: 0x01, op1: Some(Operand::Register(Loc::RegBC)), op2: Some(Operand::Imm16) },
        Instruction { code: 0x11, op1: Some(Operand::Register(Loc::RegDE)), op2: Some(Operand::Imm16) },
        Instruction { code: 0x18, op1: Some(Operand::Imm8), op2: Option::None },
        Instruction { code: 0x20, op1: Some(Operand::Imm8), op2: Option::None },
        Instruction { code: 0x21, op1: Some(Operand::Register(Loc::RegHL)), op2: Some(Operand::Imm16) },
        Instruction { code: 0x28, op1: Some(Operand::Imm8), op2: Option::None },
        Instruction { code: 0x31, op1: Some(Operand::Register(Loc::RegSP)), op2: Some(Operand::Imm16) },
        Instruction { code: 0x36, op1: Some(Operand::Register(Loc::RegHL)), op2: Some(Operand::Imm8) },
        Instruction { code: 0x3E, op1: Some(Operand::Register(Loc::RegA)), op2: Some(Operand::Imm8) },
        Instruction { code: 0x47, op1: Some(Operand::Register(Loc::RegB)), op2: Some(Operand::Register(Loc::RegA)) },
        Instruction { code: 0x78, op1: Some(Operand::Register(Loc::RegA)), op2: Some(Operand::Register(Loc::RegB)) },
        Instruction { code: 0xAF, op1: Some(Operand::Register(Loc::RegA)), op2: Some(Operand::Register(Loc::RegA)) },
        Instruction { code: 0xC3, op1: Some(Operand::Imm16), op2: Option::None },
        Instruction { code: 0xC9, op1: Option::None, op2: Option::None },
        Instruction { code: 0xCD, op1: Some(Operand::Imm16), op2: Option::None },
        Instruction { code: 0xE0, op1: Some(Operand::Imm8), op2: Some(Operand::Register(Loc::RegA)) },
        Instruction { code: 0xE6, op1: Some(Operand::Imm8), op2: Option::None },
        Instruction { code: 0xEA, op1: Some(Operand::Imm16), op2: Some(Operand::Register(Loc::RegA)) },
        Instruction { code: 0xF0, op1: Some(Operand::Register(Loc::RegA)), op2: Some(Operand::Imm8) },
        Instruction { code: 0xF3, op1: Option::None, op2: Option::None },
        Instruction { code: 0xFE, op1: Some(Operand::Imm8), op2: Option::None },
        Instruction { code: 0xCB87, op1: Some(Operand::Register(Loc::RegA)), op2: Option::None },
    ]
}

/// The composite codes the execution engine implements.
pub open spec fn known_code(c: u16) -> bool {
    ||| c == 0x00
    ||| c == 0x01
    ||| c == 0x11
    ||| c == 0x18
    ||| c == 0x20
    ||| c == 0x21
    ||| c == 0x28
    ||| c == 0x31
    ||| c == 0x36
    ||| c == 0x3E
    ||| c == 0x47
    ||| c == 0x78
    ||| c == 0xAF
    ||| c == 0xC3
    ||| c == 0xC9
    ||| c == 0xCD
    ||| c == 0xE0
    ||| c == 0xE6
    ||| c == 0xEA
    ||| c == 0xF0
    ||| c == 0xF3
    ||| c == 0xFE
    ||| c == 0xCB87
}

/// The ordered, opcode-indexed catalogue of instruction descriptors.
pub struct InstructionSet {
    instructions: Vec<Instruction>,
}

impl View for InstructionSet {
    type V = Seq<Instruction>;

    closed spec fn view(&self) -> Seq<Instruction> {
        self.instructions@
    }
}

impl InstructionSet {
    /// The table is strictly sorted by composite code.
    pub open spec fn wf(self) -> bool {
        forall|i: int, j: int| 0 <= i < j < self@.len() ==> self@[i].code < self@[j].code
    }

    /// Register one descriptor; registration is additive and must keep the
    /// table sorted.
    fn add(&mut self, instr: Instruction)
        requires
            old(self).wf(),
            old(self)@.len() > 0 ==> old(self)@.last().code < instr.code,
        ensures
            final(self)@ == old(self)@.push(instr),
            final(self).wf(),
    {
        self.instructions.push(instr);
        proof {
            let t = self.instructions@;
            let n = t.len() as int;
            assert forall|i: int, j: int| 0 <= i < j < n implies t[i].code < t[j].code by {
                if j < n - 1 {
                    assert(old(self)@[i].code < old(self)@[j].code);
                } else if i < n - 2 {
                    assert(old(self)@[i].code < old(self)@[n - 2].code);
                }
            }
        }
    }

    /// Build the whole table, group by group, in ascending code order.
    pub fn new() -> (r: InstructionSet)
        ensures
            r.wf(),
            r@ == spec_table(),
    {
        let mut s = InstructionSet { instructions: Vec::new() };
        // no-operation
        s.add(Instruction { code: 0x00, op1: Option::None, op2: Option::None });
        // 16-bit immediate loads
        s.add(Instruction { code: 0x01, op1: Option::Some(Operand::Register(Loc::RegBC)), op2: Option::Some(Operand::Imm16) });
        s.add(Instruction { code: 0x11, op1: Option::Some(Operand::Register(Loc::RegDE)), op2: Option::Some(Operand::Imm16) });
        // relative jumps
        s.add(Instruction { code: 0x18, op1: Option::Some(Operand::Imm8), op2: Option::None });
        s.add(Instruction { code: 0x20, op1: Option::Some(Operand::Imm8), op2: Option::None });
        s.add(Instruction { code: 0x21, op1: Option::Some(Operand::Register(Loc::RegHL)), op2: Option::Some(Operand::Imm16) });
        s.add(Instruction { code: 0x28, op1: Option::Some(Operand::Imm8), op2: Option::None });
        s.add(Instruction { code: 0x31, op1: Option::Some(Operand::Register(Loc::RegSP)), op2: Option::Some(Operand::Imm16) });
        // 8-bit loads
        s.add(Instruction { code: 0x36, op1: Option::Some(Operand::Register(Loc::RegHL)), op2: Option::Some(Operand::Imm8) });
        s.add(Instruction { code: 0x3E, op1: Option::Some(Operand::Register(Loc::RegA)), op2: Option::Some(Operand::Imm8) });
        s.add(Instruction { code: 0x47, op1: Option::Some(Operand::Register(Loc::RegB)), op2: Option::Some(Operand::Register(Loc::RegA)) });
        s.add(Instruction { code: 0x78, op1: Option::Some(Operand::Register(Loc::RegA)), op2: Option::Some(Operand::Register(Loc::RegB)) });
        // arithmetic and logic
        s.add(Instruction { code: 0xAF, op1: Option::Some(Operand::Register(Loc::RegA)), op2: Option::Some(Operand::Register(Loc::RegA)) });
        // absolute control flow
        s.add(Instruction { code: 0xC3, op1: Option::Some(Operand::Imm16), op2: Option::None });
        s.add(Instruction { code: 0xC9, op1: Option::None, op2: Option::None });
        s.add(Instruction { code: 0xCD, op1: Option::Some(Operand::Imm16), op2: Option::None });
        // high-page loads, logic and compares
        s.add(Instruction { code: 0xE0, op1: Option::Some(Operand::Imm8), op2: Option::Some(Operand::Register(Loc::RegA)) });
        s.add(Instruction { code: 0xE6, op1: Option::Some(Operand::Imm8), op2: Option::None });
        s.add(Instruction { code: 0xEA, op1: Option::Some(Operand::Imm16), op2: Option::Some(Operand::Register(Loc::RegA)) });
        s.add(Instruction { code: 0xF0, op1: Option::Some(Operand::Register(Loc::RegA)), op2: Option::Some(Operand::Imm8) });
        s.add(Instruction { code: 0xF3, op1: Option::None, op2: Option::None });
        s.add(Instruction { code: 0xFE, op1: Option::Some(Operand::Imm8), op2: Option::None });
        // bit operations, in the 0xCB-prefixed namespace
        s.add(Instruction { code: 0xCB87, op1: Option::Some(Operand::Register(Loc::RegA)), op2: Option::None });
        proof {
            assert(s@ =~= spec_table());
        }
        s
    }

    /// Binary-search the table for an opcode. A key without the 0xCB high
    /// byte is masked down to its low byte first, so a primary opcode is
    /// found under any high byte but 0xCB.
    pub fn get_instruction(&self, opcode: u16) -> (r: Option<Instruction>)
        requires
            self.wf(),
        ensures
            (match r {
                Some(instr) => instr.code == norm_opcode(opcode)
                    && (exists|i: int| 0 <= i < self@.len() && self@[i] == instr),
                Option::None => forall|i: int|
                    0 <= i < self@.len() ==> self@[i].code != norm_opcode(opcode),
            }),
    {
        let key = if opcode / 0x100 != 0xCB {
            opcode % 0x100
        } else {
            opcode
        };
        let mut lo: usize = 0;
        let mut hi: usize = self.instructions.len();
        while lo < hi
            invariant
                self.wf(),
                key == norm_opcode(opcode),
                lo <= hi <= self@.len(),
                forall|i: int| 0 <= i < lo ==> self@[i].code < key,
                forall|i: int| hi <= i < self@.len() ==> self@[i].code > key,
            decreases hi - lo,
        {
            let mid = lo + (hi - lo) / 2;
            let c = self.instructions[mid].code;
            if c == key {
                let found = self.instructions[mid];
                proof {
                    assert(key == norm_opcode(opcode));
                    assert(self@[mid as int] == found);
                    assert(exists|i: int| 0 <= i < self@.len() && self@[i] == found);
                }
                return Some(found);
            } else if c < key {
                lo = mid + 1;
            } else {
                hi = mid;
            }
        }
        Option::None
    }
}

/// The table and the execution engine agree: the descriptors catalogue
/// exactly the composite codes whose effects the engine implements.
pub proof fn lemma_table_matches_engine(c: u16)
    ensures
        (exists|i: int| 0 <= i < spec_table().len() && spec_table()[i].code == c) <==> known_code(c),
{
    let t = spec_table();
    if known_code(c) {
        if c == 0x00 {
            assert(t[0].code == c);
        } else if c == 0x01 {
            assert(t[1].code == c);
        } else if c == 0x11 {
            assert(t[2].code == c);
        } else if c == 0x18 {
            assert(t[3].code == c);
        } else if c == 0x20 {
            assert(t[4].code == c);
        } else if c == 0x21 {
            assert(t[5].code == c);
        } else if c == 0x28 {
            assert(t[6].code == c);
        } else if c == 0x31 {
            assert(t[7].code == c);
        } else if c == 0x36 {
            assert(t[8].code == c);
        } else if c == 0x3E {
            assert(t[9].code == c);
        } else if c == 0x47 {
            assert(t[10].code == c);
        } else if c == 0x78 {
            assert(t[11].code == c);
        } else if c == 0xAF {
            assert(t[12].code == c);
        } else if c == 0xC3 {
            assert(t[13].code == c);
        } else if c == 0xC9 {
            assert(t[14].code == c);
        } else if c == 0xCD {
            assert(t[15].code == c);
        } else if c == 0xE0 {
            assert(t[16].code == c);
        } else if c == 0xE6 {
            assert(t[17].code == c);
        } else if c == 0xEA {
            assert(t[18].code == c);
        } else if c == 0xF0 {
            assert(t[19].code == c);
        } else if c == 0xF3 {
            assert(t[20].code == c);
        } else if c == 0xFE {
            assert(t[21].code == c);
        } else {
            assert(t[22].code == c);
        }
    }
    if exists|i: int| 0 <= i < t.len() && t[i].code == c {
        let i = choose|i: int| 0 <= i < t.len() && t[i].code == c;
        assert(known_code(t[i].code)) by {
            if i == 0 {
            } else if i == 1 {
            } else if i == 2 {
            } else if i == 3 {
            } else if i == 4 {
            } else if i == 5 {
            } else if i == 6 {
            } else if i == 7 {
            } else if i == 8 {
            } else if i == 9 {
            } else if i == 10 {
            } else if i == 11 {
            } else if i == 12 {
            } else if i == 13 {
            } else if i == 14 {
            } else if i == 15 {
            } else if i == 16 {
            } else if i == 17 {
            } else if i == 18 {
            } else if i == 19 {
            } else if i == 20 {
            } else if i == 21 {
            } else {
                assert(i == 22);
            }
        }
    }
}

} // verus!
