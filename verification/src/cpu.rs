//! The processor core: the register file, the flag accessors, the
//! addressing-mode helpers, the transfer helpers, and the fetch-decode-execute
//! engine over the full 16-bit opcode token space.

use vstd::prelude::*;

use crate::flags::{Flag, Flags};
use crate::isa::{
    alu_apply, decode, rot_apply, spec_alu, spec_decode, spec_rot, wf_instr, wf_operand, AluOp, Instr,
    Operand, Reg16, Reg8, RotOp,
};
use crate::ram::Ram;

verus! {

/// Whether the processor fetches further instructions.
#[derive(Clone, Copy, Debug, PartialEq, Eq, Structural)]
pub enum CpuState {
    Running,
    Halted,
}

/// The fatal condition raised when a fetched or supplied opcode token has no
/// table entry: the faulting address and the offending token.
#[derive(Clone, Copy, Debug, PartialEq, Eq, Structural)]
pub struct Fault {
    pub address: u16,
    pub opcode: u16,
}

/// The processor core: eight 8-bit register cells (F held as typed flags),
/// the 16-bit program counter and stack pointer, the run state, and the
/// memory bus it owns exclusively.
pub struct Cpu {
    pub a: u8,
    pub b: u8,
    pub c: u8,
    pub d: u8,
    pub e: u8,
    pub flags: Flags,
    pub h: u8,
    pub l: u8,
    pub pc: u16,
    pub sp: u16,
    pub state: CpuState,
    pub ram: Ram,
}

impl Cpu {
    /// The core is well formed when its bus spans the full address space.
    pub open spec fn wf(&self) -> bool {
        self.ram.wf()
    }

    /// The byte read out of a named register; register F yields the packed
    /// flag byte, whose low nibble is always zero.
    pub open spec fn spec_register(self, r: Reg8) -> u8 {
        match r {
            Reg8::A => self.a,
            Reg8::B => self.b,
            Reg8::C => self.c,
            Reg8::D => self.d,
            Reg8::E => self.e,
            Reg8::F => self.flags.spec_byte(),
            Reg8::H => self.h,
            Reg8::L => self.l,
        }
    }

    /// The 16-bit value of a register pair: high-named register times 256
    /// plus low-named register.
    pub open spec fn spec_pair(self, p: Reg16) -> u16 {
        (self.spec_register(spec_pair_hi(p)) * 256 + self.spec_register(spec_pair_lo(p))) as u16
    }

    /// The byte an operand location currently holds.
    pub open spec fn spec_operand(self, o: Operand) -> u8 {
        match o {
            Operand::Reg(r) => self.spec_register(r),
            Operand::HlPtr => self.ram@[self.spec_pair(Reg16::HL) as int],
        }
    }
}

/// The register holding the high byte of a pair.
pub open spec fn spec_pair_hi(p: Reg16) -> Reg8 {
    match p {
        Reg16::AF => Reg8::A,
        Reg16::BC => Reg8::B,
        Reg16::DE => Reg8::D,
        Reg16::HL => Reg8::H,
    }
}

/// The register holding the low byte of a pair.
pub open spec fn spec_pair_lo(p: Reg16) -> Reg8 {
    match p {
        Reg16::AF => Reg8::F,
        Reg16::BC => Reg8::C,
        Reg16::DE => Reg8::E,
        Reg16::HL => Reg8::L,
    }
}

/// A named cell of `post` holds byte `v`: for register F this means the
/// flags are the unpacking of `v` (its low nibble is discarded).
pub open spec fn spec_cell_holds(post: Cpu, r: Reg8, v: u8) -> bool {
    match r {
        Reg8::A => post.a == v,
        Reg8::B => post.b == v,
        Reg8::C => post.c == v,
        Reg8::D => post.d == v,
        Reg8::E => post.e == v,
        Reg8::F => post.flags == Flags::spec_of_byte(v),
        Reg8::H => post.h == v,
        Reg8::L => post.l == v,
    }
}

/// The seven general register cells (flags excluded) are unchanged, except
/// possibly the one or two named cells.
pub open spec fn spec_cells_unchanged_except2(pre: Cpu, post: Cpu, r1: Reg8, r2: Reg8) -> bool {
    &&& (r1 is A || r2 is A || post.a == pre.a)
    &&& (r1 is B || r2 is B || post.b == pre.b)
    &&& (r1 is C || r2 is C || post.c == pre.c)
    &&& (r1 is D || r2 is D || post.d == pre.d)
    &&& (r1 is E || r2 is E || post.e == pre.e)
    &&& (r1 is H || r2 is H || post.h == pre.h)
    &&& (r1 is L || r2 is L || post.l == pre.l)
}

/// All seven general register cells are unchanged (flags said separately).
pub open spec fn spec_cells_unchanged(pre: Cpu, post: Cpu) -> bool {
    &&& post.a == pre.a
    &&& post.b == pre.b
    &&& post.c == pre.c
    &&& post.d == pre.d
    &&& post.e == pre.e
    &&& post.h == pre.h
    &&& post.l == pre.l
}

/// Writing byte `v` to an operand location: the named cell (or the memory
/// byte at the pre-state HL address) takes `v` and nothing else moves among
/// the cells and the memory.  Flag effects are stated by each instruction.
pub open spec fn spec_store(pre: Cpu, post: Cpu, o: Operand, v: u8) -> bool {
    match o {
        Operand::Reg(r) => {
            &&& spec_cells_unchanged_except2(pre, post, r, r)
            &&& spec_cell_holds(post, r, v)
            &&& post.ram@ == pre.ram@
        },
        Operand::HlPtr => {
            &&& spec_cells_unchanged(pre, post)
            &&& post.ram@ == pre.ram@.update(pre.spec_pair(Reg16::HL) as int, v)
        },
    }
}

/// Nothing the instruction engine can touch has changed: cells, flags,
/// memory, stack pointer and run state are all as before (the program
/// counter is accounted for by the caller).
pub open spec fn spec_core_unchanged(pre: Cpu, post: Cpu) -> bool {
    &&& spec_cells_unchanged(pre, post)
    &&& post.flags == pre.flags
    &&& post.ram@ == pre.ram@
    &&& post.sp == pre.sp
    &&& post.state == pre.state
}

impl Cpu {
    /// A fresh core: every register and counter zero, all flags clear,
    /// running, owning the given bus.
    pub fn new(ram: Ram) -> (r: Cpu)
        requires
            ram.wf(),
        ensures
            r.wf(),
            r.a == 0 && r.b == 0 && r.c == 0 && r.d == 0 && r.e == 0 && r.h == 0 && r.l == 0,
            r.flags == (Flags { z: false, n: false, h: false, c: false }),
            r.pc == 0 && r.sp == 0,
            r.state == CpuState::Running,
            r.ram@ == ram@,
    {
        Cpu {
            a: 0,
            b: 0,
            c: 0,
            d: 0,
            e: 0,
            flags: Flags { z: false, n: false, h: false, c: false },
            h: 0,
            l: 0,
            pc: 0,
            sp: 0,
            state: CpuState::Running,
            ram,
        }
    }

    /// Read one named 8-bit register.
    pub fn read_register(&self, r: Reg8) -> (v: u8)
        ensures
            v == self.spec_register(r),
    {
        match r {
            Reg8::A => self.a,
            Reg8::B => self.b,
            Reg8::C => self.c,
            Reg8::D => self.d,
            Reg8::E => self.e,
            Reg8::F => self.flags.byte(),
            Reg8::H => self.h,
            Reg8::L => self.l,
        }
    }

    /// Write one named 8-bit register; a write to F keeps only the four
    /// flag bits of the byte, so F's low nibble stays zero.
    pub fn write_register(&mut self, r: Reg8, v: u8)
        ensures
            spec_store(*old(self), *final(self), Operand::Reg(r), v),
            r is F || final(self).flags == old(self).flags,
            final(self).pc == old(self).pc,
            final(self).sp == old(self).sp,
            final(self).state == old(self).state,
    {
        match r {
            Reg8::A => self.a = v,
            Reg8::B => self.b = v,
            Reg8::C => self.c = v,
            Reg8::D => self.d = v,
            Reg8::E => self.e = v,
            Reg8::F => self.flags = Flags::of_byte(v),
            Reg8::H => self.h = v,
            Reg8::L => self.l = v,
        }
    }

    /// Read one named flag.
    pub fn aux_read_flag(&self, param: Flag) -> (r: bool)
        ensures
            r == self.flags.spec_read(param),
    {
        match param {
            Flag::Zero => self.flags.z,
            Flag::Subtract => self.flags.n,
            Flag::HalfCarry => self.flags.h,
            Flag::Carry => self.flags.c,
        }
    }

    /// Write one named flag, touching nothing but its own bit: the other
    /// three flags, every register, and F's forced-zero low nibble are
    /// untouched.
    pub fn aux_write_flag(&mut self, param: Flag, data: bool)
        ensures
            final(self).flags == old(self).flags.spec_with(param, data),
            spec_cells_unchanged(*old(self), *final(self)),
            final(self).ram@ == old(self).ram@,
            final(self).pc == old(self).pc,
            final(self).sp == old(self).sp,
            final(self).state == old(self).state,
    {
        match param {
            Flag::Zero => self.flags.z = data,
            Flag::Subtract => self.flags.n = data,
            Flag::HalfCarry => self.flags.h = data,
            Flag::Carry => self.flags.c = data,
        }
    }

    /// Read a register pair as one 16-bit value, high-named register first.
    pub fn read_pair(&self, p: Reg16) -> (v: u16)
        ensures
            v == self.spec_pair(p),
    {
        let hi = self.read_register(pair_hi(p));
        let lo = self.read_register(pair_lo(p));
        hi as u16 * 256 + lo as u16
    }

    /// Write a 16-bit value into a register pair: the high-named register
    /// takes the high byte, the low-named register the low byte.  Reading
    /// the two cells back reconstructs the value, except that a write to AF
    /// drops the low nibble (F's low nibble is forced to zero).
    pub fn write_pair(&mut self, p: Reg16, v: u16)
        ensures
            spec_cells_unchanged_except2(*old(self), *final(self), spec_pair_hi(p), spec_pair_lo(p)),
            spec_cell_holds(*final(self), spec_pair_hi(p), (v / 256) as u8),
            spec_cell_holds(*final(self), spec_pair_lo(p), (v % 256) as u8),
            p is AF || final(self).flags == old(self).flags,
            p is AF || final(self).spec_pair(p) == v,
            p is AF && v % 16 == 0 ==> final(self).spec_pair(p) == v,
            final(self).ram@ == old(self).ram@,
            final(self).pc == old(self).pc,
            final(self).sp == old(self).sp,
            final(self).state == old(self).state,
    {
        self.ld_r16_16(pair_hi(p), pair_lo(p), v);
        proof {
            if p is AF && v % 16 == 0 {
                assert((v % 256) % 16 == 0) by (bit_vector)
                    requires
                        v % 16 == 0,
                ;
                crate::flags::lemma_of_byte_round_trip((v % 256) as u8);
            }
        }
    }

    /// Load a 16-bit immediate into two distinct register cells, high byte
    /// into the first, low byte into the second.
    pub fn ld_r16_16(&mut self, msh: Reg8, lsh: Reg8, p2: u16)
        requires
            msh != lsh,
        ensures
            spec_cells_unchanged_except2(*old(self), *final(self), msh, lsh),
            spec_cell_holds(*final(self), msh, (p2 / 256) as u8),
            spec_cell_holds(*final(self), lsh, (p2 % 256) as u8),
            msh is F || lsh is F || final(self).flags == old(self).flags,
            final(self).ram@ == old(self).ram@,
            final(self).pc == old(self).pc,
            final(self).sp == old(self).sp,
            final(self).state == old(self).state,
    {
        self.write_register(msh, (p2 / 256) as u8);
        self.write_register(lsh, (p2 % 256) as u8);
    }
}

/// The state transition one decoded instruction makes, program counter
/// excluded (advancing it is the stepper's business).  `pre` is the core
/// before, `post` the core after.
pub open spec fn spec_instr_effect(pre: Cpu, post: Cpu, i: Instr) -> bool {
    match i {
        Instr::Nop => spec_core_unchanged(pre, post),
        Instr::Halt => {
            &&& spec_cells_unchanged(pre, post)
            &&& post.flags == pre.flags
            &&& post.ram@ == pre.ram@
            &&& post.sp == pre.sp
            &&& post.state == CpuState::Halted
        },
        Instr::Ld(dst, src) => {
            &&& spec_store(pre, post, dst, pre.spec_operand(src))
            &&& dst == Operand::Reg(Reg8::F) || post.flags == pre.flags
            &&& post.sp == pre.sp
            &&& post.state == pre.state
        },
        Instr::Alu(op, src) => {
            let rf = spec_alu(op, pre.a, pre.spec_operand(src), pre.flags.c);
            &&& post.a == (if op is Cp {
                pre.a
            } else {
                rf.0
            })
            &&& post.flags == rf.1
            &&& spec_cells_unchanged_except2(pre, post, Reg8::A, Reg8::A)
            &&& post.ram@ == pre.ram@
            &&& post.sp == pre.sp
            &&& post.state == pre.state
        },
        Instr::Inc(o) => {
            let x = pre.spec_operand(o);
            let r = ((x + 1) % 256) as u8;
            &&& spec_store(pre, post, o, r)
            &&& post.flags == (Flags { z: r == 0, n: false, h: x % 16 == 15, c: pre.flags.c })
            &&& post.sp == pre.sp
            &&& post.state == pre.state
        },
        Instr::Dec(o) => {
            let x = pre.spec_operand(o);
            let r = ((x + 255) % 256) as u8;
            &&& spec_store(pre, post, o, r)
            &&& post.flags == (Flags { z: r == 0, n: true, h: x % 16 == 0, c: pre.flags.c })
            &&& post.sp == pre.sp
            &&& post.state == pre.state
        },
        Instr::RotA(op) => {
            let rc = spec_rot(op, pre.a, pre.flags.c);
            &&& post.a == rc.0
            &&& post.flags == (Flags { z: false, n: false, h: false, c: rc.1 })
            &&& spec_cells_unchanged_except2(pre, post, Reg8::A, Reg8::A)
            &&& post.ram@ == pre.ram@
            &&& post.sp == pre.sp
            &&& post.state == pre.state
        },
        Instr::Rot(op, o) => {
            let x = pre.spec_operand(o);
            let rc = spec_rot(op, x, pre.flags.c);
            &&& spec_store(pre, post, o, rc.0)
            &&& post.flags == (Flags { z: rc.0 == 0, n: false, h: false, c: rc.1 })
            &&& post.sp == pre.sp
            &&& post.state == pre.state
        },
        Instr::IncPair(p) => {
            let nv = ((pre.spec_pair(p) + 1) % 0x10000) as u16;
            &&& spec_cells_unchanged_except2(pre, post, spec_pair_hi(p), spec_pair_lo(p))
            &&& post.spec_pair(p) == nv
            &&& post.flags == pre.flags
            &&& post.ram@ == pre.ram@
            &&& post.sp == pre.sp
            &&& post.state == pre.state
        },
        Instr::DecPair(p) => {
            let nv = ((pre.spec_pair(p) + 0xFFFF) % 0x10000) as u16;
            &&& spec_cells_unchanged_except2(pre, post, spec_pair_hi(p), spec_pair_lo(p))
            &&& post.spec_pair(p) == nv
            &&& post.flags == pre.flags
            &&& post.ram@ == pre.ram@
            &&& post.sp == pre.sp
            &&& post.state == pre.state
        },
        Instr::AddHl(p) => {
            let hl = pre.spec_pair(Reg16::HL);
            let v = pre.spec_pair(p);
            &&& spec_cells_unchanged_except2(pre, post, Reg8::H, Reg8::L)
            &&& post.spec_pair(Reg16::HL) == ((hl + v) % 0x10000) as u16
            &&& post.flags == (Flags {
                z: pre.flags.z,
                n: false,
                h: hl % 0x1000 + v % 0x1000 > 0xFFF,
                c: hl + v > 0xFFFF,
            })
            &&& post.ram@ == pre.ram@
            &&& post.sp == pre.sp
            &&& post.state == pre.state
        },
        Instr::LdPairPtrA(p) => {
            &&& spec_cells_unchanged(pre, post)
            &&& post.flags == pre.flags
            &&& post.ram@ == pre.ram@.update(pre.spec_pair(p) as int, pre.a)
            &&& post.sp == pre.sp
            &&& post.state == pre.state
        },
        Instr::LdAPairPtr(p) => {
            &&& post.a == pre.ram@[pre.spec_pair(p) as int]
            &&& spec_cells_unchanged_except2(pre, post, Reg8::A, Reg8::A)
            &&& post.flags == pre.flags
            &&& post.ram@ == pre.ram@
            &&& post.sp == pre.sp
            &&& post.state == pre.state
        },
        Instr::Cpl => {
            &&& post.a == !pre.a
            &&& spec_cells_unchanged_except2(pre, post, Reg8::A, Reg8::A)
            &&& post.flags == (Flags { z: pre.flags.z, n: true, h: true, c: pre.flags.c })
            &&& post.ram@ == pre.ram@
            &&& post.sp == pre.sp
            &&& post.state == pre.state
        },
        Instr::Scf => {
            &&& spec_cells_unchanged(pre, post)
            &&& post.flags == (Flags { z: pre.flags.z, n: false, h: false, c: true })
            &&& post.ram@ == pre.ram@
            &&& post.sp == pre.sp
            &&& post.state == pre.state
        },
        Instr::Ccf => {
            &&& spec_cells_unchanged(pre, post)
            &&& post.flags == (Flags { z: pre.flags.z, n: false, h: false, c: !pre.flags.c })
            &&& post.ram@ == pre.ram@
            &&& post.sp == pre.sp
            &&& post.state == pre.state
        },
        Instr::BitTest(bi, o) => {
            let x = pre.spec_operand(o);
            &&& spec_cells_unchanged(pre, post)
            &&& post.flags == (Flags { z: (x >> bi) & 1 == 0, n: false, h: true, c: pre.flags.c })
            &&& post.ram@ == pre.ram@
            &&& post.sp == pre.sp
            &&& post.state == pre.state
        },
        Instr::BitRes(bi, o) => {
            let x = pre.spec_operand(o);
            &&& spec_store(pre, post, o, x & !(1u8 << bi))
            &&& post.flags == pre.flags
            &&& post.sp == pre.sp
            &&& post.state == pre.state
        },
        Instr::BitSet(bi, o) => {
            let x = pre.spec_operand(o);
            &&& spec_store(pre, post, o, x | (1u8 << bi))
            &&& post.flags == pre.flags
            &&& post.sp == pre.sp
            &&& post.state == pre.state
        },
    }
}

impl Cpu {
    /// Load an immediate byte into a register.
    pub fn ld_r8_8(&mut self, p1: Reg8, p2: u8)
        ensures
            spec_store(*old(self), *final(self), Operand::Reg(p1), p2),
            p1 is F || final(self).flags == old(self).flags,
            final(self).pc == old(self).pc,
            final(self).sp == old(self).sp,
            final(self).state == old(self).state,
    {
        self.write_register(p1, p2);
    }

    /// Copy one register into another.
    pub fn ld_r8_r8(&mut self, p1: Reg8, p2: Reg8)
        ensures
            spec_store(*old(self), *final(self), Operand::Reg(p1), old(self).spec_register(p2)),
            p1 is F || final(self).flags == old(self).flags,
            final(self).pc == old(self).pc,
            final(self).sp == old(self).sp,
            final(self).state == old(self).state,
    {
        let v = self.read_register(p2);
        self.write_register(p1, v);
    }

    /// Load a register from the memory byte addressed by a register pair's
    /// cells (high-named register first).
    pub fn ld_r8_r16a(&mut self, p1: Reg8, msh: Reg8, lsh: Reg8)
        requires
            old(self).wf(),
        ensures
            final(self).wf(),
            spec_store(
                *old(self),
                *final(self),
                Operand::Reg(p1),
                old(self).ram@[old(self).spec_register(msh) * 256 + old(self).spec_register(lsh)],
            ),
            p1 is F || final(self).flags == old(self).flags,
            final(self).pc == old(self).pc,
            final(self).sp == old(self).sp,
            final(self).state == old(self).state,
    {
        let addr: u16 = self.read_register(msh) as u16 * 256 + self.read_register(lsh) as u16;
        let x = self.ram.read_from_address(addr as usize);
        self.write_register(p1, x);
    }

    /// Store a register into the memory byte addressed by a register pair's
    /// cells (high-named register first).
    pub fn ld_r16a_r8(&mut self, msh: Reg8, lsh: Reg8, p2: Reg8)
        requires
            old(self).wf(),
        ensures
            final(self).wf(),
            spec_cells_unchanged(*old(self), *final(self)),
            final(self).flags == old(self).flags,
            final(self).ram@ == old(self).ram@.update(
                old(self).spec_register(msh) * 256 + old(self).spec_register(lsh),
                old(self).spec_register(p2),
            ),
            final(self).pc == old(self).pc,
            final(self).sp == old(self).sp,
            final(self).state == old(self).state,
    {
        let v = self.read_register(p2);
        self.ld_r16a_8(msh, lsh, v);
    }

    /// Store an immediate byte into the memory byte addressed by a register
    /// pair's cells (high-named register first).
    pub fn ld_r16a_8(&mut self, msh: Reg8, lsh: Reg8, p2: u8)
        requires
            old(self).wf(),
        ensures
            final(self).wf(),
            spec_cells_unchanged(*old(self), *final(self)),
            final(self).flags == old(self).flags,
            final(self).ram@ == old(self).ram@.update(
                old(self).spec_register(msh) * 256 + old(self).spec_register(lsh),
                p2,
            ),
            final(self).pc == old(self).pc,
            final(self).sp == old(self).sp,
            final(self).state == old(self).state,
    {
        let addr: u16 = self.read_register(msh) as u16 * 256 + self.read_register(lsh) as u16;
        self.ram.write_to_address(addr as usize, p2);
    }

    /// Read the byte an operand location holds.
    fn read_operand(&self, o: Operand) -> (r: u8)
        requires
            self.wf(),
        ensures
            r == self.spec_operand(o),
    {
        match o {
            Operand::Reg(r) => self.read_register(r),
            Operand::HlPtr => {
                let addr = self.read_pair(Reg16::HL);
                self.ram.read_from_address(addr as usize)
            },
        }
    }

    /// Write a byte to an operand location.
    fn write_operand(&mut self, o: Operand, v: u8)
        requires
            old(self).wf(),
        ensures
            final(self).wf(),
            spec_store(*old(self), *final(self), o, v),
            o == Operand::Reg(Reg8::F) || final(self).flags == old(self).flags,
            final(self).pc == old(self).pc,
            final(self).sp == old(self).sp,
            final(self).state == old(self).state,
    {
        match o {
            Operand::Reg(r) => self.write_register(r, v),
            Operand::HlPtr => {
                let addr = self.read_pair(Reg16::HL);
                self.ram.write_to_address(addr as usize, v);
            },
        }
    }

    /// Copy the source operand into the destination operand.
    fn run_ld(&mut self, dst: Operand, src: Operand)
        requires
            old(self).wf(),
        ensures
            final(self).wf(),
            spec_instr_effect(*old(self), *final(self), Instr::Ld(dst, src)),
            final(self).pc == old(self).pc,
    {
        let v = self.read_operand(src);
        self.write_operand(dst, v);
    }

    /// Apply one ALU operation to the accumulator and an operand.
    fn run_alu(&mut self, op: AluOp, src: Operand)
        requires
            old(self).wf(),
        ensures
            final(self).wf(),
            spec_instr_effect(*old(self), *final(self), Instr::Alu(op, src)),
            final(self).pc == old(self).pc,
    {
        let x = self.read_operand(src);
        let (res, fl) = alu_apply(op, self.a, x, self.flags.c);
        match op {
            AluOp::Cp => {},
            _ => {
                self.a = res;
            },
        }
        self.flags = fl;
    }

    /// Increment an operand, carrying the old Carry flag through.
    fn run_inc(&mut self, o: Operand)
        requires
            old(self).wf(),
            wf_operand(o),
        ensures
            final(self).wf(),
            spec_instr_effect(*old(self), *final(self), Instr::Inc(o)),
            final(self).pc == old(self).pc,
    {
        let x = self.read_operand(o);
        let res: u8 = if x == 255 {
            0
        } else {
            x + 1
        };
        self.write_operand(o, res);
        self.flags = Flags { z: res == 0, n: false, h: x % 16 == 15, c: self.flags.c };
    }

    /// Decrement an operand, carrying the old Carry flag through.
    fn run_dec(&mut self, o: Operand)
        requires
            old(self).wf(),
            wf_operand(o),
        ensures
            final(self).wf(),
            spec_instr_effect(*old(self), *final(self), Instr::Dec(o)),
            final(self).pc == old(self).pc,
    {
        let x = self.read_operand(o);
        let res: u8 = if x == 0 {
            255
        } else {
            x - 1
        };
        self.write_operand(o, res);
        self.flags = Flags { z: res == 0, n: true, h: x % 16 == 0, c: self.flags.c };
    }

    /// Rotate the accumulator, base-table form (Zero cleared).
    fn run_rot_a(&mut self, op: RotOp)
        ensures
            final(self).wf() == old(self).wf(),
            spec_instr_effect(*old(self), *final(self), Instr::RotA(op)),
            final(self).pc == old(self).pc,
    {
        let (res, cout) = rot_apply(op, self.a, self.flags.c);
        self.a = res;
        self.flags = Flags { z: false, n: false, h: false, c: cout };
    }

    /// Rotate or shift an operand, extended form (Zero from the result).
    fn run_rot(&mut self, op: RotOp, o: Operand)
        requires
            old(self).wf(),
            wf_operand(o),
        ensures
            final(self).wf(),
            spec_instr_effect(*old(self), *final(self), Instr::Rot(op, o)),
            final(self).pc == old(self).pc,
    {
        let x = self.read_operand(o);
        let (res, cout) = rot_apply(op, x, self.flags.c);
        self.write_operand(o, res);
        self.flags = Flags { z: res == 0, n: false, h: false, c: cout };
    }

    /// Increment a register pair, wrapping; no flag moves.
    fn run_inc_pair(&mut self, p: Reg16)
        requires
            old(self).wf(),
            !(p is AF),
        ensures
            final(self).wf(),
            spec_instr_effect(*old(self), *final(self), Instr::IncPair(p)),
            final(self).pc == old(self).pc,
    {
        let v = self.read_pair(p);
        let nv: u16 = if v == 0xFFFF {
            0
        } else {
            v + 1
        };
        self.write_pair(p, nv);
    }

    /// Decrement a register pair, wrapping; no flag moves.
    fn run_dec_pair(&mut self, p: Reg16)
        requires
            old(self).wf(),
            !(p is AF),
        ensures
            final(self).wf(),
            spec_instr_effect(*old(self), *final(self), Instr::DecPair(p)),
            final(self).pc == old(self).pc,
    {
        let v = self.read_pair(p);
        let nv: u16 = if v == 0 {
            0xFFFF
        } else {
            v - 1
        };
        self.write_pair(p, nv);
    }

    /// Add a register pair into HL: 16-bit half-carry and carry, Zero kept.
    fn run_add_hl(&mut self, p: Reg16)
        requires
            old(self).wf(),
            !(p is AF),
        ensures
            final(self).wf(),
            spec_instr_effect(*old(self), *final(self), Instr::AddHl(p)),
            final(self).pc == old(self).pc,
    {
        let hl = self.read_pair(Reg16::HL);
        let v = self.read_pair(p);
        let sum: u32 = hl as u32 + v as u32;
        let half: u16 = hl % 0x1000 + v % 0x1000;
        self.write_pair(Reg16::HL, (sum % 0x10000) as u16);
        self.flags = Flags { z: self.flags.z, n: false, h: half > 0xFFF, c: sum > 0xFFFF };
    }

    /// Store the accumulator at the address a register pair holds.
    fn run_ld_pair_ptr_a(&mut self, p: Reg16)
        requires
            old(self).wf(),
        ensures
            final(self).wf(),
            spec_instr_effect(*old(self), *final(self), Instr::LdPairPtrA(p)),
            final(self).pc == old(self).pc,
    {
        let addr = self.read_pair(p);
        let v = self.a;
        self.ram.write_to_address(addr as usize, v);
    }

    /// Load the accumulator from the address a register pair holds.
    fn run_ld_a_pair_ptr(&mut self, p: Reg16)
        requires
            old(self).wf(),
        ensures
            final(self).wf(),
            spec_instr_effect(*old(self), *final(self), Instr::LdAPairPtr(p)),
            final(self).pc == old(self).pc,
    {
        let addr = self.read_pair(p);
        let v = self.ram.read_from_address(addr as usize);
        self.a = v;
    }

    /// Test one bit of an operand; Carry is preserved.
    fn run_bit_test(&mut self, bi: u8, o: Operand)
        requires
            old(self).wf(),
            bi < 8,
        ensures
            final(self).wf(),
            spec_instr_effect(*old(self), *final(self), Instr::BitTest(bi, o)),
            final(self).pc == old(self).pc,
    {
        let x = self.read_operand(o);
        self.flags = Flags { z: (x >> bi) & 1 == 0, n: false, h: true, c: self.flags.c };
    }

    /// Clear one bit of an operand; no flag moves.
    fn run_bit_res(&mut self, bi: u8, o: Operand)
        requires
            old(self).wf(),
            bi < 8,
            wf_operand(o),
        ensures
            final(self).wf(),
            spec_instr_effect(*old(self), *final(self), Instr::BitRes(bi, o)),
            final(self).pc == old(self).pc,
    {
        let x = self.read_operand(o);
        self.write_operand(o, x & !(1u8 << bi));
    }

    /// Set one bit of an operand; no flag moves.
    fn run_bit_set(&mut self, bi: u8, o: Operand)
        requires
            old(self).wf(),
            bi < 8,
            wf_operand(o),
        ensures
            final(self).wf(),
            spec_instr_effect(*old(self), *final(self), Instr::BitSet(bi, o)),
            final(self).pc == old(self).pc,
    {
        let x = self.read_operand(o);
        self.write_operand(o, x | (1u8 << bi));
    }

    /// Carry out one decoded instruction against the register file and the
    /// memory bus.
    #[verifier::rlimit(100)]
    #[verifier::spinoff_prover]
    fn run(&mut self, i: Instr)
        requires
            old(self).wf(),
            wf_instr(i),
        ensures
            final(self).wf(),
            spec_instr_effect(*old(self), *final(self), i),
            final(self).pc == old(self).pc,
    {
        match i {
            Instr::Nop => {},
            Instr::Halt => {
                self.state = CpuState::Halted;
            },
            Instr::Ld(dst, src) => self.run_ld(dst, src),
            Instr::Alu(op, src) => self.run_alu(op, src),
            Instr::Inc(o) => self.run_inc(o),
            Instr::Dec(o) => self.run_dec(o),
            Instr::RotA(op) => self.run_rot_a(op),
            Instr::Rot(op, o) => self.run_rot(op, o),
            Instr::IncPair(p) => self.run_inc_pair(p),
            Instr::DecPair(p) => self.run_dec_pair(p),
            Instr::AddHl(p) => self.run_add_hl(p),
            Instr::LdPairPtrA(p) => self.run_ld_pair_ptr_a(p),
            Instr::LdAPairPtr(p) => self.run_ld_a_pair_ptr(p),
            Instr::Cpl => {
                self.a = !self.a;
                self.flags = Flags { z: self.flags.z, n: true, h: true, c: self.flags.c };
            },
            Instr::Scf => {
                self.flags = Flags { z: self.flags.z, n: false, h: false, c: true };
            },
            Instr::Ccf => {
                self.flags = Flags { z: self.flags.z, n: false, h: false, c: !self.flags.c };
            },
            Instr::BitTest(bi, o) => self.run_bit_test(bi, o),
            Instr::BitRes(bi, o) => self.run_bit_res(bi, o),
            Instr::BitSet(bi, o) => self.run_bit_set(bi, o),
        }
    }

    /// Dispatch one 16-bit opcode token: look it up in the fixed table and
    /// carry it out.  A token with no table entry is the fatal invalid-opcode
    /// condition: nothing is mutated and the fault reports the current
    /// program counter and the offending token.  The program counter itself
    /// never moves here; the stepper advances it.
    pub fn execute(&mut self, opcode: u16) -> (r: Result<(), Fault>)
        requires
            old(self).wf(),
        ensures
            final(self).wf(),
            final(self).pc == old(self).pc,
            r is Ok <==> spec_decode(opcode) is Some,
            (match spec_decode(opcode) {
                Some(i) => spec_instr_effect(*old(self), *final(self), i),
                None => spec_core_unchanged(*old(self), *final(self)),
            }),
            r matches Err(f) ==> f == (Fault { address: old(self).pc, opcode }),
    {
        match decode(opcode) {
            None => Err(Fault { address: self.pc, opcode }),
            Some(i) => {
                self.run(i);
                Ok(())
            },
        }
    }

    /// Execute exactly one instruction: fetch the byte at the program
    /// counter (two bytes for the extended prefix), dispatch it, advance the
    /// program counter by the instruction's length with wraparound, and
    /// report the new run state.  In the halted state nothing is fetched and
    /// nothing changes until an external wake.
    #[verifier::rlimit(100)]
    #[verifier::spinoff_prover]
    pub fn step(&mut self) -> (r: Result<CpuState, Fault>)
        requires
            old(self).wf(),
        ensures
            final(self).wf(),
            old(self).state is Halted ==> spec_core_unchanged(*old(self), *final(self))
                && final(self).pc == old(self).pc && r == Result::<CpuState, Fault>::Ok(
                CpuState::Halted,
            ),
            old(self).state is Running ==> ({
                let t = spec_fetch_token(*old(self));
                &&& spec_decode(t) is Some
                &&& (spec_decode(t) matches Some(i) && spec_instr_effect(
                    *old(self),
                    *final(self),
                    i,
                ))
                &&& final(self).pc == spec_next_pc(*old(self))
                &&& r == Result::<CpuState, Fault>::Ok(final(self).state)
            }),
    {
        match self.state {
            CpuState::Halted => Ok(CpuState::Halted),
            CpuState::Running => {
                let b0 = self.ram.read_from_address(self.pc as usize);
                let token: u16;
                let len: u16;
                if b0 == 0xCB {
                    let pc1: u16 = if self.pc == 0xFFFF {
                        0
                    } else {
                        self.pc + 1
                    };
                    let b1 = self.ram.read_from_address(pc1 as usize);
                    token = 0xCB00 + b1 as u16;
                    len = 2;
                } else {
                    token = b0 as u16;
                    len = 1;
                }
                match self.execute(token) {
                    Err(f) => Err(f),
                    Ok(()) => {
                        let ghost mid = *self;
                        let pc2: u32 = self.pc as u32 + len as u32;
                        self.pc = (pc2 % 0x10000) as u16;
                        proof {
                            lemma_effect_ignores_pc(*old(self), mid, *self, token);
                        }
                        Ok(self.state)
                    },
                }
            },
        }
    }
}

/// The opcode token the next fetch at the program counter yields: the byte
/// at PC, or, when that byte is the extended prefix, 0xCB00 plus the byte
/// after it (wrapping around the address space).
pub open spec fn spec_fetch_token(c: Cpu) -> u16 {
    let b0 = c.ram@[c.pc as int];
    if b0 == 0xCB {
        (0xCB00 + c.ram@[((c.pc + 1) % 0x10000) as int]) as u16
    } else {
        b0 as u16
    }
}

/// The declared length in bytes of the instruction the next fetch yields.
pub open spec fn spec_fetch_len(c: Cpu) -> u16 {
    if c.ram@[c.pc as int] == 0xCB {
        2
    } else {
        1
    }
}

/// The program counter after the next fetched instruction, wrapping.
pub open spec fn spec_next_pc(c: Cpu) -> u16 {
    ((c.pc + spec_fetch_len(c)) % 0x10000) as u16
}

/// No instruction's effect mentions the program counter, so a state that
/// differs from `mid` only in PC makes the same transition from `pre`.
#[verifier::rlimit(100)]
#[verifier::spinoff_prover]
proof fn lemma_effect_ignores_pc(pre: Cpu, mid: Cpu, post: Cpu, opcode: u16)
    requires
        (match spec_decode(opcode) {
            Some(i) => spec_instr_effect(pre, mid, i),
            None => spec_core_unchanged(pre, mid),
        }),
        post.a == mid.a,
        post.b == mid.b,
        post.c == mid.c,
        post.d == mid.d,
        post.e == mid.e,
        post.flags == mid.flags,
        post.h == mid.h,
        post.l == mid.l,
        post.sp == mid.sp,
        post.state == mid.state,
        post.ram == mid.ram,
    ensures
        (match spec_decode(opcode) {
            Some(i) => spec_instr_effect(pre, post, i),
            None => spec_core_unchanged(pre, post),
        }),
{
}

/// Transfer block: executing any base opcode in 0x40..=0x7F other than the
/// halt slot copies the declared source operand into the declared
/// destination operand and leaves all four flags bit-for-bit unchanged.
pub proof fn lemma_transfer_block(pre: Cpu, post: Cpu, t: u16, d: Operand, s: Operand)
    requires
        pre.wf(),
        0x40 <= t < 0x80,
        t != 0x76,
        spec_decode(t) == Some(Instr::Ld(d, s)),
        spec_instr_effect(pre, post, Instr::Ld(d, s)),
    ensures
        post.flags == pre.flags,
        post.spec_operand(d) == pre.spec_operand(s),
{
}

/// Halt: executing opcode 0x76 transitions the processor from Running to
/// Halted without mutating any register, flag, or memory byte.
pub proof fn lemma_halt_transition(pre: Cpu, post: Cpu)
    requires
        spec_instr_effect(pre, post, Instr::Halt),
    ensures
        post.state == CpuState::Halted,
        spec_cells_unchanged(pre, post),
        post.flags == pre.flags,
        post.ram@ == pre.ram@,
        post.sp == pre.sp,
{
}

/// Executable form of the pair high-byte register.
pub fn pair_hi(p: Reg16) -> (r: Reg8)
    ensures
        r == spec_pair_hi(p),
{
    match p {
        Reg16::AF => Reg8::A,
        Reg16::BC => Reg8::B,
        Reg16::DE => Reg8::D,
        Reg16::HL => Reg8::H,
    }
}

/// Executable form of the pair low-byte register.
pub fn pair_lo(p: Reg16) -> (r: Reg8)
    ensures
        r == spec_pair_lo(p),
{
    match p {
        Reg16::AF => Reg8::F,
        Reg16::BC => Reg8::C,
        Reg16::DE => Reg8::E,
        Reg16::HL => Reg8::L,
    }
}

} // verus!
