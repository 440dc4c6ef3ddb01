//! Exercises of the register file, the flag accessors, the pair helpers and
//! the transfer instruction block.

use gb_cpu_core::cpu::{Cpu, CpuState, Fault};
use gb_cpu_core::flags::Flag;
use gb_cpu_core::isa::{Reg16, Reg8};
use gb_cpu_core::ram::Ram;

fn fresh_cpu() -> Cpu {
    Cpu::new(Ram::new())
}

#[test]
fn register_read_write_round_trip() {
    let mut cpu = fresh_cpu();
    cpu.write_register(Reg8::A, 0xAB);
    cpu.write_register(Reg8::B, 0x01);
    cpu.write_register(Reg8::L, 0xFE);
    assert_eq!(cpu.read_register(Reg8::A), 0xAB);
    assert_eq!(cpu.read_register(Reg8::B), 0x01);
    assert_eq!(cpu.read_register(Reg8::L), 0xFE);
}

#[test]
fn register_f_write_drops_low_nibble() {
    let mut cpu = fresh_cpu();
    cpu.write_register(Reg8::F, 0xFF);
    assert_eq!(cpu.read_register(Reg8::F), 0xF0);
    cpu.write_register(Reg8::F, 0xA5);
    assert_eq!(cpu.read_register(Reg8::F), 0xA0);
    assert!(cpu.flags.z);
    assert!(!cpu.flags.n);
    assert!(cpu.flags.h);
    assert!(!cpu.flags.c);
}

#[test]
fn pair_write_read_back_bc() {
    let mut cpu = fresh_cpu();
    cpu.write_pair(Reg16::BC, 0x1234);
    assert_eq!(cpu.read_register(Reg8::B), 0x12);
    assert_eq!(cpu.read_register(Reg8::C), 0x34);
    let recomposed = (cpu.read_register(Reg8::B) as u16) * 256 + cpu.read_register(Reg8::C) as u16;
    assert_eq!(recomposed, 0x1234);
    assert_eq!(cpu.read_pair(Reg16::BC), 0x1234);
}

#[test]
fn pair_write_read_back_de_hl() {
    let mut cpu = fresh_cpu();
    cpu.write_pair(Reg16::DE, 0xFFEE);
    cpu.write_pair(Reg16::HL, 0x0001);
    assert_eq!(cpu.read_pair(Reg16::DE), 0xFFEE);
    assert_eq!(cpu.read_register(Reg8::D), 0xFF);
    assert_eq!(cpu.read_register(Reg8::E), 0xEE);
    assert_eq!(cpu.read_pair(Reg16::HL), 0x0001);
    assert_eq!(cpu.read_register(Reg8::H), 0x00);
    assert_eq!(cpu.read_register(Reg8::L), 0x01);
}

#[test]
fn pair_write_read_back_af() {
    let mut cpu = fresh_cpu();
    cpu.write_pair(Reg16::AF, 0x12F0);
    assert_eq!(cpu.read_pair(Reg16::AF), 0x12F0);
    // A write to AF with a nonzero low nibble keeps F's low nibble zero.
    cpu.write_pair(Reg16::AF, 0x340F);
    assert_eq!(cpu.read_pair(Reg16::AF), 0x3400);
}

#[test]
fn flag_round_trip_each_flag() {
    for (i, f) in [Flag::Zero, Flag::Subtract, Flag::HalfCarry, Flag::Carry]
        .into_iter()
        .enumerate()
    {
        // Try every prior value of the other flag bits.
        for prior in 0u16..=0xFF {
            let mut cpu = fresh_cpu();
            cpu.write_register(Reg8::F, prior as u8);
            let before = cpu.read_register(Reg8::F);
            cpu.aux_write_flag(f, true);
            assert!(cpu.aux_read_flag(f));
            cpu.aux_write_flag(f, false);
            assert!(!cpu.aux_read_flag(f));
            let after = cpu.read_register(Reg8::F);
            assert_eq!(after & 0x0F, 0);
            let own_bit = 0x80u8 >> i;
            assert_eq!(after & !own_bit, before & !own_bit);
        }
    }
}

#[test]
fn flag_write_touches_only_its_bit() {
    let mut cpu = fresh_cpu();
    cpu.write_register(Reg8::F, 0xF0);
    cpu.aux_write_flag(Flag::Subtract, false);
    assert_eq!(cpu.read_register(Reg8::F), 0xB0);
    cpu.aux_write_flag(Flag::Carry, false);
    assert_eq!(cpu.read_register(Reg8::F), 0xA0);
    cpu.aux_write_flag(Flag::Subtract, true);
    assert_eq!(cpu.read_register(Reg8::F), 0xE0);
}

#[test]
fn transfer_ld_b_c() {
    let mut cpu = fresh_cpu();
    cpu.write_register(Reg8::B, 0x12);
    cpu.write_register(Reg8::C, 0x34);
    cpu.write_register(Reg8::F, 0xF0);
    assert!(cpu.execute(0x41).is_ok());
    assert_eq!(cpu.read_register(Reg8::B), 0x34);
    assert_eq!(cpu.read_register(Reg8::C), 0x34);
    assert_eq!(cpu.read_register(Reg8::F), 0xF0);
    assert_eq!(cpu.state, CpuState::Running);
}

#[test]
fn transfer_block_copies_and_preserves_flags() {
    // Every opcode of the 0x40..=0x7F block except halt: the destination
    // ends up holding the source's prior value and F is untouched.
    let regs = [Reg8::B, Reg8::C, Reg8::D, Reg8::E, Reg8::H, Reg8::L];
    for t in 0x40u16..=0x7F {
        if t == 0x76 {
            continue;
        }
        let d = ((t - 0x40) / 8) as usize;
        let s = (t % 8) as usize;
        let mut cpu = fresh_cpu();
        for (k, r) in regs.iter().enumerate() {
            cpu.write_register(*r, 0x10 + k as u8);
        }
        cpu.write_register(Reg8::A, 0x77);
        cpu.write_register(Reg8::F, 0x50);
        // Seed the byte addressed by HL for the memory operand.
        let hl = cpu.read_pair(Reg16::HL);
        let mem_before = 0xEE;
        cpu.ram.write_to_address(hl as usize, mem_before);
        let src_val = match s {
            6 => mem_before,
            7 => cpu.read_register(Reg8::A),
            k => cpu.read_register(regs[k]),
        };
        assert!(cpu.execute(t).is_ok());
        let dst_val = match d {
            6 => cpu.ram.read_from_address(hl as usize),
            7 => cpu.read_register(Reg8::A),
            k => cpu.read_register(regs[k]),
        };
        assert_eq!(dst_val, src_val, "opcode {t:#06x}");
        assert_eq!(cpu.read_register(Reg8::F), 0x50, "opcode {t:#06x}");
        assert_eq!(cpu.state, CpuState::Running);
    }
}

#[test]
fn transfer_ld_b_from_hl_memory() {
    let mut ram = Ram::new();
    ram.write_to_address(0x0102, 0x99);
    let mut cpu = Cpu::new(ram);
    cpu.write_register(Reg8::H, 0x01);
    cpu.write_register(Reg8::L, 0x02);
    assert!(cpu.execute(0x46).is_ok());
    assert_eq!(cpu.read_register(Reg8::B), 0x99);
}

#[test]
fn transfer_ld_hl_memory_from_register() {
    let mut cpu = fresh_cpu();
    cpu.write_register(Reg8::H, 0x20);
    cpu.write_register(Reg8::L, 0x40);
    cpu.write_register(Reg8::E, 0x5A);
    assert!(cpu.execute(0x73).is_ok());
    assert_eq!(cpu.ram.read_from_address(0x2040), 0x5A);
}

#[test]
fn transfer_same_pair_memory_round_trip_is_noop() {
    // ld (HL),L and ld H,(HL): legal memory accesses, not errors.
    let mut cpu = fresh_cpu();
    cpu.write_register(Reg8::H, 0x30);
    cpu.write_register(Reg8::L, 0x07);
    assert!(cpu.execute(0x75).is_ok());
    assert_eq!(cpu.ram.read_from_address(0x3007), 0x07);
    assert!(cpu.execute(0x66).is_ok());
    assert_eq!(cpu.read_register(Reg8::H), 0x07);
}

#[test]
fn halt_transitions_without_mutation() {
    let mut cpu = fresh_cpu();
    cpu.write_register(Reg8::B, 0x12);
    cpu.write_register(Reg8::F, 0x30);
    let r = cpu.execute(0x76);
    assert!(r.is_ok());
    assert_eq!(cpu.state, CpuState::Halted);
    assert_eq!(cpu.read_register(Reg8::B), 0x12);
    assert_eq!(cpu.read_register(Reg8::F), 0x30);
}

#[test]
fn invalid_tokens_fault_without_mutation() {
    for t in [0x0100u16, 0xCC00, 0xFFFF, 0x0200, 0xCAFF] {
        let mut cpu = fresh_cpu();
        cpu.write_register(Reg8::B, 0x12);
        cpu.write_register(Reg8::F, 0xA0);
        cpu.pc = 0x1234;
        let r = cpu.execute(t);
        assert_eq!(
            r.unwrap_err(),
            Fault { address: 0x1234, opcode: t }
        );
        assert_eq!(cpu.read_register(Reg8::B), 0x12);
        assert_eq!(cpu.read_register(Reg8::F), 0xA0);
        assert_eq!(cpu.pc, 0x1234);
        assert_eq!(cpu.state, CpuState::Running);
    }
}

#[test]
fn all_valid_tokens_dispatch() {
    for t in 0x0000u16..=0x00FF {
        let mut cpu = fresh_cpu();
        assert!(cpu.execute(t).is_ok(), "base opcode {t:#06x}");
    }
    for t in 0xCB00u16..=0xCBFF {
        let mut cpu = fresh_cpu();
        assert!(cpu.execute(t).is_ok(), "extended opcode {t:#06x}");
    }
}

#[test]
fn transfer_helpers_direct() {
    let mut cpu = fresh_cpu();
    cpu.ld_r8_8(Reg8::D, 0x42);
    assert_eq!(cpu.read_register(Reg8::D), 0x42);
    cpu.ld_r8_r8(Reg8::E, Reg8::D);
    assert_eq!(cpu.read_register(Reg8::E), 0x42);
    cpu.ld_r16_16(Reg8::H, Reg8::L, 0xC0DE);
    assert_eq!(cpu.read_register(Reg8::H), 0xC0);
    assert_eq!(cpu.read_register(Reg8::L), 0xDE);
    cpu.ld_r16a_8(Reg8::H, Reg8::L, 0x11);
    assert_eq!(cpu.ram.read_from_address(0xC0DE), 0x11);
    cpu.ld_r16a_r8(Reg8::H, Reg8::L, Reg8::D);
    assert_eq!(cpu.ram.read_from_address(0xC0DE), 0x42);
    cpu.ld_r8_r16a(Reg8::A, Reg8::H, Reg8::L);
    assert_eq!(cpu.read_register(Reg8::A), 0x42);
}

#[test]
fn ram_read_write() {
    let mut ram = Ram::new();
    assert_eq!(ram.read_from_address(0x0000), 0);
    assert_eq!(ram.read_from_address(0xFFFF), 0);
    ram.write_to_address(0x8000, 0x7E);
    assert_eq!(ram.read_from_address(0x8000), 0x7E);
    assert_eq!(ram.read_from_address(0x8001), 0);
}
