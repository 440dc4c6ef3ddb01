//! Instruction-set model: operand locations, decoded instruction forms, the
//! total decoder over the 16-bit opcode token space, and the pure value/flag
//! semantics of the arithmetic, logic, rotate and shift families.
//!
//! A token in 0x0000..=0x00FF is a base opcode; a token in 0xCB00..=0xCBFF is
//! an extended opcode (the low byte is the true extended opcode).  Every
//! other 16-bit value is invalid and decodes to nothing.

use vstd::prelude::*;

use crate::flags::Flags;

verus! {

/// One of the eight 8-bit register cells.
#[derive(Clone, Copy, Debug, PartialEq, Eq, Structural)]
pub enum Reg8 {
    A,
    B,
    C,
    D,
    E,
    F,
    H,
    L,
}

/// One of the four 16-bit register pairs; the first named register holds the
/// high byte, the second the low byte.
#[derive(Clone, Copy, Debug, PartialEq, Eq, Structural)]
pub enum Reg16 {
    AF,
    BC,
    DE,
    HL,
}

/// An addressable operand location: one of the seven general registers, or
/// the memory byte addressed by the HL pair.  Register F is never an operand.
#[derive(Clone, Copy, Debug, PartialEq, Eq, Structural)]
pub enum Operand {
    Reg(Reg8),
    HlPtr,
}

/// The eight-entry arithmetic/logic family applied to the accumulator.
#[derive(Clone, Copy, Debug, PartialEq, Eq, Structural)]
pub enum AluOp {
    Add,
    Adc,
    Sub,
    Sbc,
    And,
    Xor,
    Or,
    Cp,
}

/// The eight-entry rotate/shift family of the extended table.
#[derive(Clone, Copy, Debug, PartialEq, Eq, Structural)]
pub enum RotOp {
    Rlc,
    Rrc,
    Rl,
    Rr,
    Sla,
    Sra,
    Swap,
    Srl,
}

/// A decoded instruction.
#[derive(Clone, Copy, Debug, PartialEq, Eq, Structural)]
pub enum Instr {
    /// No effect on the processor core.  Besides the real no-op slot, every
    /// valid base opcode whose family (immediate operands, control flow,
    /// stack operations, decimal adjust) is outside this core's instruction
    /// subset decodes to this.
    Nop,
    /// Transition from Running to Halted.
    Halt,
    /// Copy the source operand into the destination operand.
    Ld(Operand, Operand),
    /// Apply an arithmetic/logic operation to the accumulator and an operand.
    Alu(AluOp, Operand),
    /// Increment an operand by one, wrapping.
    Inc(Operand),
    /// Decrement an operand by one, wrapping.
    Dec(Operand),
    /// Rotate the accumulator (base-table form: Zero flag cleared).
    RotA(RotOp),
    /// Rotate or shift an operand (extended form: Zero flag from result).
    Rot(RotOp, Operand),
    /// Increment a register pair by one, wrapping (no flag effect).
    IncPair(Reg16),
    /// Decrement a register pair by one, wrapping (no flag effect).
    DecPair(Reg16),
    /// Add a register pair into HL (16-bit carries; Zero untouched).
    AddHl(Reg16),
    /// Store the accumulator at the address a register pair holds.
    LdPairPtrA(Reg16),
    /// Load the accumulator from the address a register pair holds.
    LdAPairPtr(Reg16),
    /// Complement the accumulator (sets Subtract and HalfCarry).
    Cpl,
    /// Set the Carry flag, clearing Subtract and HalfCarry.
    Scf,
    /// Complement the Carry flag, clearing Subtract and HalfCarry.
    Ccf,
    /// Test one bit of an operand.
    BitTest(u8, Operand),
    /// Clear one bit of an operand.
    BitRes(u8, Operand),
    /// Set one bit of an operand.
    BitSet(u8, Operand),
}

/// An operand never addresses the flag register.
pub open spec fn wf_operand(o: Operand) -> bool {
    o != Operand::Reg(Reg8::F)
}

/// Instructions the decoder produces: operands are well formed and bit
/// indices fit in a byte.
pub open spec fn wf_instr(i: Instr) -> bool {
    match i {
        Instr::Nop => true,
        Instr::Halt => true,
        Instr::Ld(d, s) => wf_operand(d) && wf_operand(s),
        Instr::Alu(_, o) => wf_operand(o),
        Instr::Inc(o) => wf_operand(o),
        Instr::Dec(o) => wf_operand(o),
        Instr::IncPair(p) => !(p is AF),
        Instr::DecPair(p) => !(p is AF),
        Instr::AddHl(p) => !(p is AF),
        Instr::LdPairPtrA(p) => !(p is AF),
        Instr::LdAPairPtr(p) => !(p is AF),
        Instr::Cpl => true,
        Instr::Scf => true,
        Instr::Ccf => true,
        Instr::RotA(_) => true,
        Instr::Rot(_, o) => wf_operand(o),
        Instr::BitTest(b, o) => b < 8 && wf_operand(o),
        Instr::BitRes(b, o) => b < 8 && wf_operand(o),
        Instr::BitSet(b, o) => b < 8 && wf_operand(o),
    }
}

/// The fixed eight-way operand enumeration shared by every instruction
/// family: B, C, D, E, H, L, memory-at-HL, A.
pub open spec fn spec_operand_of_index(i: int) -> Operand {
    if i == 0 {
        Operand::Reg(Reg8::B)
    } else if i == 1 {
        Operand::Reg(Reg8::C)
    } else if i == 2 {
        Operand::Reg(Reg8::D)
    } else if i == 3 {
        Operand::Reg(Reg8::E)
    } else if i == 4 {
        Operand::Reg(Reg8::H)
    } else if i == 5 {
        Operand::Reg(Reg8::L)
    } else if i == 6 {
        Operand::HlPtr
    } else {
        Operand::Reg(Reg8::A)
    }
}

/// The eight-way ALU family enumeration of the 0x80..=0xBF block.
pub open spec fn spec_alu_of_index(i: int) -> AluOp {
    if i == 0 {
        AluOp::Add
    } else if i == 1 {
        AluOp::Adc
    } else if i == 2 {
        AluOp::Sub
    } else if i == 3 {
        AluOp::Sbc
    } else if i == 4 {
        AluOp::And
    } else if i == 5 {
        AluOp::Xor
    } else if i == 6 {
        AluOp::Or
    } else {
        AluOp::Cp
    }
}

/// The eight-way rotate/shift family enumeration of the extended table.
pub open spec fn spec_rot_of_index(i: int) -> RotOp {
    if i == 0 {
        RotOp::Rlc
    } else if i == 1 {
        RotOp::Rrc
    } else if i == 2 {
        RotOp::Rl
    } else if i == 3 {
        RotOp::Rr
    } else if i == 4 {
        RotOp::Sla
    } else if i == 5 {
        RotOp::Sra
    } else if i == 6 {
        RotOp::Swap
    } else {
        RotOp::Srl
    }
}

/// The fixed mapping from a 16-bit opcode token to an instruction; `None`
/// exactly on the tokens outside the 512 valid opcode values.
pub open spec fn spec_decode(t: u16) -> Option<Instr> {
    if t < 0x100 {
        if 0x40 <= t && t < 0x80 {
            if t == 0x76 {
                Some(Instr::Halt)
            } else {
                Some(Instr::Ld(spec_operand_of_index((t - 0x40) / 8), spec_operand_of_index((t % 8) as int)))
            }
        } else if 0x80 <= t && t < 0xC0 {
            Some(Instr::Alu(spec_alu_of_index((t - 0x80) / 8), spec_operand_of_index((t % 8) as int)))
        } else if t < 0x40 && t % 8 == 4 {
            Some(Instr::Inc(spec_operand_of_index((t / 8) as int)))
        } else if t < 0x40 && t % 8 == 5 {
            Some(Instr::Dec(spec_operand_of_index((t / 8) as int)))
        } else if t == 0x03 {
            Some(Instr::IncPair(Reg16::BC))
        } else if t == 0x13 {
            Some(Instr::IncPair(Reg16::DE))
        } else if t == 0x23 {
            Some(Instr::IncPair(Reg16::HL))
        } else if t == 0x0B {
            Some(Instr::DecPair(Reg16::BC))
        } else if t == 0x1B {
            Some(Instr::DecPair(Reg16::DE))
        } else if t == 0x2B {
            Some(Instr::DecPair(Reg16::HL))
        } else if t == 0x09 {
            Some(Instr::AddHl(Reg16::BC))
        } else if t == 0x19 {
            Some(Instr::AddHl(Reg16::DE))
        } else if t == 0x29 {
            Some(Instr::AddHl(Reg16::HL))
        } else if t == 0x02 {
            Some(Instr::LdPairPtrA(Reg16::BC))
        } else if t == 0x12 {
            Some(Instr::LdPairPtrA(Reg16::DE))
        } else if t == 0x0A {
            Some(Instr::LdAPairPtr(Reg16::BC))
        } else if t == 0x1A {
            Some(Instr::LdAPairPtr(Reg16::DE))
        } else if t == 0x2F {
            Some(Instr::Cpl)
        } else if t == 0x37 {
            Some(Instr::Scf)
        } else if t == 0x3F {
            Some(Instr::Ccf)
        } else if t == 0x07 {
            Some(Instr::RotA(RotOp::Rlc))
        } else if t == 0x0F {
            Some(Instr::RotA(RotOp::Rrc))
        } else if t == 0x17 {
            Some(Instr::RotA(RotOp::Rl))
        } else if t == 0x1F {
            Some(Instr::RotA(RotOp::Rr))
        } else {
            Some(Instr::Nop)
        }
    } else if 0xCB00 <= t && t <= 0xCBFF {
        let x = t - 0xCB00;
        if x < 0x40 {
            Some(Instr::Rot(spec_rot_of_index(x / 8), spec_operand_of_index(x % 8)))
        } else if x < 0x80 {
            Some(Instr::BitTest((x / 8 - 8) as u8, spec_operand_of_index(x % 8)))
        } else if x < 0xC0 {
            Some(Instr::BitRes((x / 8 - 16) as u8, spec_operand_of_index(x % 8)))
        } else {
            Some(Instr::BitSet((x / 8 - 24) as u8, spec_operand_of_index(x % 8)))
        }
    } else {
        None
    }
}

/// Executable form of the eight-way operand enumeration.
pub fn operand_of_index(i: u16) -> (r: Operand)
    ensures
        r == spec_operand_of_index(i as int),
{
    if i == 0 {
        Operand::Reg(Reg8::B)
    } else if i == 1 {
        Operand::Reg(Reg8::C)
    } else if i == 2 {
        Operand::Reg(Reg8::D)
    } else if i == 3 {
        Operand::Reg(Reg8::E)
    } else if i == 4 {
        Operand::Reg(Reg8::H)
    } else if i == 5 {
        Operand::Reg(Reg8::L)
    } else if i == 6 {
        Operand::HlPtr
    } else {
        Operand::Reg(Reg8::A)
    }
}

/// Executable form of the ALU family enumeration.
pub fn alu_of_index(i: u16) -> (r: AluOp)
    ensures
        r == spec_alu_of_index(i as int),
{
    if i == 0 {
        AluOp::Add
    } else if i == 1 {
        AluOp::Adc
    } else if i == 2 {
        AluOp::Sub
    } else if i == 3 {
        AluOp::Sbc
    } else if i == 4 {
        AluOp::And
    } else if i == 5 {
        AluOp::Xor
    } else if i == 6 {
        AluOp::Or
    } else {
        AluOp::Cp
    }
}

/// Executable form of the rotate/shift family enumeration.
pub fn rot_of_index(i: u16) -> (r: RotOp)
    ensures
        r == spec_rot_of_index(i as int),
{
    if i == 0 {
        RotOp::Rlc
    } else if i == 1 {
        RotOp::Rrc
    } else if i == 2 {
        RotOp::Rl
    } else if i == 3 {
        RotOp::Rr
    } else if i == 4 {
        RotOp::Sla
    } else if i == 5 {
        RotOp::Sra
    } else if i == 6 {
        RotOp::Swap
    } else {
        RotOp::Srl
    }
}

/// The opcode dispatcher's table lookup: total over all 16-bit tokens,
/// `None` exactly for the invalid ones.
pub fn decode(t: u16) -> (r: Option<Instr>)
    ensures
        r == spec_decode(t),
        r matches Some(i) ==> wf_instr(i),
{
    if t < 0x100 {
        if 0x40 <= t && t < 0x80 {
            if t == 0x76 {
                Some(Instr::Halt)
            } else {
                Some(Instr::Ld(operand_of_index((t - 0x40) / 8), operand_of_index(t % 8)))
            }
        } else if 0x80 <= t && t < 0xC0 {
            Some(Instr::Alu(alu_of_index((t - 0x80) / 8), operand_of_index(t % 8)))
        } else if t < 0x40 && t % 8 == 4 {
            Some(Instr::Inc(operand_of_index(t / 8)))
        } else if t < 0x40 && t % 8 == 5 {
            Some(Instr::Dec(operand_of_index(t / 8)))
        } else if t == 0x03 {
            Some(Instr::IncPair(Reg16::BC))
        } else if t == 0x13 {
            Some(Instr::IncPair(Reg16::DE))
        } else if t == 0x23 {
            Some(Instr::IncPair(Reg16::HL))
        } else if t == 0x0B {
            Some(Instr::DecPair(Reg16::BC))
        } else if t == 0x1B {
            Some(Instr::DecPair(Reg16::DE))
        } else if t == 0x2B {
            Some(Instr::DecPair(Reg16::HL))
        } else if t == 0x09 {
            Some(Instr::AddHl(Reg16::BC))
        } else if t == 0x19 {
            Some(Instr::AddHl(Reg16::DE))
        } else if t == 0x29 {
            Some(Instr::AddHl(Reg16::HL))
        } else if t == 0x02 {
            Some(Instr::LdPairPtrA(Reg16::BC))
        } else if t == 0x12 {
            Some(Instr::LdPairPtrA(Reg16::DE))
        } else if t == 0x0A {
            Some(Instr::LdAPairPtr(Reg16::BC))
        } else if t == 0x1A {
            Some(Instr::LdAPairPtr(Reg16::DE))
        } else if t == 0x2F {
            Some(Instr::Cpl)
        } else if t == 0x37 {
            Some(Instr::Scf)
        } else if t == 0x3F {
            Some(Instr::Ccf)
        } else if t == 0x07 {
            Some(Instr::RotA(RotOp::Rlc))
        } else if t == 0x0F {
            Some(Instr::RotA(RotOp::Rrc))
        } else if t == 0x17 {
            Some(Instr::RotA(RotOp::Rl))
        } else if t == 0x1F {
            Some(Instr::RotA(RotOp::Rr))
        } else {
            Some(Instr::Nop)
        }
    } else if 0xCB00 <= t && t <= 0xCBFF {
        let x = t - 0xCB00;
        if x < 0x40 {
            Some(Instr::Rot(rot_of_index(x / 8), operand_of_index(x % 8)))
        } else if x < 0x80 {
            Some(Instr::BitTest((x / 8 - 8) as u8, operand_of_index(x % 8)))
        } else if x < 0xC0 {
            Some(Instr::BitRes((x / 8 - 16) as u8, operand_of_index(x % 8)))
        } else {
            Some(Instr::BitSet((x / 8 - 24) as u8, operand_of_index(x % 8)))
        }
    } else {
        None
    }
}

/// Result value and flag state of one ALU operation on the accumulator.
/// Addition clears Subtract and carries out of bit 3 and bit 7; subtraction
/// and compare set Subtract and borrow into bit 3 and bit 7; the logic
/// operations clear Carry, with HalfCarry set only by And; Zero always
/// follows the 8-bit result.
pub open spec fn spec_alu(op: AluOp, a: u8, b: u8, cin: bool) -> (u8, Flags) {
    let ci: int = if cin {
        1
    } else {
        0
    };
    match op {
        AluOp::Add => {
            let r = ((a + b) % 256) as u8;
            (r, Flags { z: r == 0, n: false, h: a % 16 + b % 16 > 15, c: a + b > 255 })
        },
        AluOp::Adc => {
            let r = ((a + b + ci) % 256) as u8;
            (r, Flags { z: r == 0, n: false, h: a % 16 + b % 16 + ci > 15, c: a + b + ci > 255 })
        },
        AluOp::Sub => {
            let r = ((a + 256 - b) % 256) as u8;
            (r, Flags { z: r == 0, n: true, h: a % 16 < b % 16, c: (a as int) < b })
        },
        AluOp::Sbc => {
            let r = ((a + 256 - b - ci) % 256) as u8;
            (r, Flags { z: r == 0, n: true, h: (a % 16) < b % 16 + ci, c: (a as int) < b + ci })
        },
        AluOp::And => {
            let r = a & b;
            (r, Flags { z: r == 0, n: false, h: true, c: false })
        },
        AluOp::Xor => {
            let r = a ^ b;
            (r, Flags { z: r == 0, n: false, h: false, c: false })
        },
        AluOp::Or => {
            let r = a | b;
            (r, Flags { z: r == 0, n: false, h: false, c: false })
        },
        AluOp::Cp => {
            let r = ((a + 256 - b) % 256) as u8;
            (r, Flags { z: r == 0, n: true, h: a % 16 < b % 16, c: (a as int) < b })
        },
    }
}

/// Executable form of the ALU semantics.
pub fn alu_apply(op: AluOp, a: u8, b: u8, cin: bool) -> (r: (u8, Flags))
    ensures
        r == spec_alu(op, a, b, cin),
{
    let ci: u16 = if cin {
        1
    } else {
        0
    };
    match op {
        AluOp::Add => {
            let s: u16 = a as u16 + b as u16;
            let r = (s % 256) as u8;
            (r, Flags { z: r == 0, n: false, h: a % 16 + b % 16 > 15, c: s > 255 })
        },
        AluOp::Adc => {
            let s: u16 = a as u16 + b as u16 + ci;
            let r = (s % 256) as u8;
            let hsum: u16 = (a % 16) as u16 + (b % 16) as u16 + ci;
            (r, Flags { z: r == 0, n: false, h: hsum > 15, c: s > 255 })
        },
        AluOp::Sub => {
            let s: u16 = a as u16 + 256 - b as u16;
            let r = (s % 256) as u8;
            (r, Flags { z: r == 0, n: true, h: a % 16 < b % 16, c: a < b })
        },
        AluOp::Sbc => {
            let s: u16 = a as u16 + 256 - b as u16 - ci;
            let r = (s % 256) as u8;
            let hb: u16 = (b % 16) as u16 + ci;
            let cb: u16 = b as u16 + ci;
            (r, Flags { z: r == 0, n: true, h: ((a % 16) as u16) < hb, c: (a as u16) < cb })
        },
        AluOp::And => {
            let r = a & b;
            (r, Flags { z: r == 0, n: false, h: true, c: false })
        },
        AluOp::Xor => {
            let r = a ^ b;
            (r, Flags { z: r == 0, n: false, h: false, c: false })
        },
        AluOp::Or => {
            let r = a | b;
            (r, Flags { z: r == 0, n: false, h: false, c: false })
        },
        AluOp::Cp => {
            let s: u16 = a as u16 + 256 - b as u16;
            let r = (s % 256) as u8;
            (r, Flags { z: r == 0, n: true, h: a % 16 < b % 16, c: a < b })
        },
    }
}

/// Result value and carry-out of one rotate or shift of a byte.  The bit
/// shifted out of the byte becomes the carry; Swap exchanges the nibbles and
/// never carries.
pub open spec fn spec_rot(op: RotOp, v: u8, cin: bool) -> (u8, bool) {
    let ci: u8 = if cin {
        1
    } else {
        0
    };
    match op {
        RotOp::Rlc => ((v << 1) | (v >> 7), v >> 7 == 1),
        RotOp::Rrc => ((v >> 1) | (v << 7), v & 1 == 1),
        RotOp::Rl => ((v << 1) | ci, v >> 7 == 1),
        RotOp::Rr => ((v >> 1) | (ci << 7), v & 1 == 1),
        RotOp::Sla => (v << 1, v >> 7 == 1),
        RotOp::Sra => ((v >> 1) | (v & 0x80), v & 1 == 1),
        RotOp::Swap => ((v << 4) | (v >> 4), false),
        RotOp::Srl => (v >> 1, v & 1 == 1),
    }
}

/// Executable form of the rotate/shift semantics.
pub fn rot_apply(op: RotOp, v: u8, cin: bool) -> (r: (u8, bool))
    ensures
        r == spec_rot(op, v, cin),
{
    let ci: u8 = if cin {
        1
    } else {
        0
    };
    match op {
        RotOp::Rlc => ((v << 1) | (v >> 7), v >> 7 == 1),
        RotOp::Rrc => ((v >> 1) | (v << 7), v & 1 == 1),
        RotOp::Rl => ((v << 1) | ci, v >> 7 == 1),
        RotOp::Rr => ((v >> 1) | (ci << 7), v & 1 == 1),
        RotOp::Sla => (v << 1, v >> 7 == 1),
        RotOp::Sra => ((v >> 1) | (v & 0x80), v & 1 == 1),
        RotOp::Swap => ((v << 4) | (v >> 4), false),
        RotOp::Srl => (v >> 1, v & 1 == 1),
    }
}

/// Every base opcode in 0x40..=0x7F other than the halt slot decodes to a
/// transfer between two well-formed operands.
pub proof fn lemma_transfer_block_decodes(t: u16)
    requires
        0x40 <= t < 0x80,
        t != 0x76,
    ensures
        spec_decode(t) == Some(
            Instr::Ld(spec_operand_of_index((t - 0x40) / 8), spec_operand_of_index((t % 8) as int)),
        ),
        wf_operand(spec_operand_of_index((t - 0x40) / 8)),
        wf_operand(spec_operand_of_index((t % 8) as int)),
{
}

/// The halt slot decodes to the halt transition.
pub proof fn lemma_halt_decodes()
    ensures
        spec_decode(0x76) == Some(Instr::Halt),
{
}

/// Every 16-bit token outside the 512 valid opcode values decodes to
/// nothing: the dispatcher reports it as invalid.
pub proof fn lemma_invalid_token(t: u16)
    requires
        0x100 <= t,
        !(0xCB00 <= t <= 0xCBFF),
    ensures
        spec_decode(t) is None,
{
}

} // verus!
