use riscv_emu::bus::bus::Bus;
use riscv_emu::console::TtyDummy;
use riscv_emu::cpu::cpu::{
    csr_operand, delegated, ecall_exception, entry_status, load_value, mret_status, sret_status,
    trap_cause, Cpu, Privilege, Xlen,
};
use riscv_emu::cpu::cpu_csr::{
    CSR_CYCLE, CSR_MCAUSE, CSR_MEDELEG, CSR_MEPC, CSR_MIDELEG, CSR_MIE, CSR_MIP, CSR_MSCRATCH,
    CSR_MSTATUS, CSR_MTVAL, CSR_MTVEC, CSR_SCAUSE, CSR_SEDELEG, CSR_SEPC, CSR_SIDELEG,
    CSR_SPTBR, CSR_SSTATUS, CSR_STVAL, CSR_STVEC, CSR_TIME, CSR_UCAUSE, CSR_UEPC, CSR_USTATUS,
    CSR_UTVEC,
};
use riscv_emu::cpu::cpu_instruction::{
    enc_b, enc_i, enc_j, enc_r, enc_s, enc_u, CsrOp, Instruction, Width,
};
use riscv_emu::cpu::mmu::AddressingMode;
use riscv_emu::cpu::trap::{Exception, Interrupt, Trap};
use riscv_emu::machine::Machine;

const DRAM: u64 = 0x8000_0000;

fn addi(rd: u32, rs1: u32, imm: i32) -> u32 {
    enc_i(imm as u32, rs1, 0, rd, 0x13)
}

fn csr_word(funct3: u32, rd: u32, csr: u16, rs1: u32) -> u32 {
    enc_i(csr as u32, rs1, funct3, rd, 0x73)
}

/// A hart on the `virt` board with `program` at the start of DRAM and the
/// program counter on it.
fn hart(program: &[u32]) -> Cpu {
    let mut cpu = Cpu::new(Machine::QemuVirt, Box::new(TtyDummy::new()), false);
    for (i, word) in program.iter().enumerate() {
        cpu.mmu.bus.write32(DRAM + 4 * i as u64, *word).unwrap();
    }
    cpu.set_pc(DRAM);
    cpu
}

fn ticks(cpu: &mut Cpu, n: usize) {
    for _ in 0..n {
        cpu.tick();
    }
}

#[test]
fn hart_resets_to_machine_mode() {
    let mut cpu = Cpu::new(Machine::QemuVirt, Box::new(TtyDummy::new()), true);
    assert_eq!(cpu.pc, 0);
    assert_eq!(cpu.privilege, Privilege::Machine);
    assert_eq!(cpu.xlen, Xlen::X64);
    assert!(!cpu.wfi);
    assert!(cpu.testmode);
    assert_eq!(cpu.x[11], 0x1020);
    for i in 0..32 {
        if i != 11 {
            assert_eq!(cpu.x[i], 0);
        }
        assert_eq!(cpu.f[i], 0);
    }
    assert_eq!(cpu.mmu.privilege, Privilege::Machine);
    assert_eq!(cpu.mmu.addressing_mode, AddressingMode::Bare);
    cpu.x[5] = 7;
    cpu.f[5] = 7;
    cpu.pc = 100;
    cpu.wfi = true;
    cpu.csr.write_direct(CSR_MSCRATCH, 9);
    cpu.set_xlen(Xlen::X32);
    assert_eq!(cpu.mmu.xlen, Xlen::X32);
    cpu.change_privilege(Privilege::User);
    cpu.reset();
    assert_eq!(cpu.pc, 0);
    assert_eq!(cpu.xlen, Xlen::X64);
    assert_eq!(cpu.mmu.xlen, Xlen::X64);
    assert_eq!(cpu.privilege, Privilege::Machine);
    assert_eq!(cpu.mmu.privilege, Privilege::Machine);
    assert!(!cpu.wfi);
    assert_eq!(cpu.x, [0i64; 32]);
    assert_eq!(cpu.f, [0u64; 32]);
    assert_eq!(cpu.csr.read_direct(CSR_MSCRATCH), 9);
    let e = Cpu::new(Machine::SiFiveE, Box::new(TtyDummy::new()), false);
    assert_eq!(e.x[11], 0x1020);
    assert!(matches!(e.mmu.bus, Bus::Fe310(_)));
}

#[test]
fn three_additions_in_a_row() {
    let mut cpu = hart(&[addi(1, 0, 5), addi(2, 1, 3), enc_r(0, 2, 1, 0, 3, 0x33)]);
    ticks(&mut cpu, 3);
    assert_eq!(cpu.x[1], 5);
    assert_eq!(cpu.x[2], 8);
    assert_eq!(cpu.x[3], 13);
    assert_eq!(cpu.pc, DRAM + 12);
    // With the second immediate added to x0 instead of x1: 5 + 3.
    let mut cpu = hart(&[0x0050_0093, 0x0030_0113, 0x0020_81b3]);
    ticks(&mut cpu, 3);
    assert_eq!(cpu.x[3], 8);
}

#[test]
fn store_word_then_load_word_sign_extends() {
    // lui x1, 0x20001; sw x2, 0(x1); lw x3, 0(x1) on the FE310, whose flash
    // starts at 0x20000000.
    let mut cpu = Cpu::new(Machine::SiFiveE, Box::new(TtyDummy::new()), false);
    let program = [enc_u(0x2000_1000, 1, 0x37), enc_s(0, 2, 1, 2, 0x23), enc_i(0, 1, 2, 3, 0x03)];
    for (i, word) in program.iter().enumerate() {
        cpu.mmu.bus.write32(0x2000_0000 + 4 * i as u64, *word).unwrap();
    }
    cpu.set_pc(0x2000_0000);
    cpu.x[2] = 0xdead_beef;
    ticks(&mut cpu, 3);
    assert_eq!(cpu.x[1], 0x2000_1000);
    assert_eq!(cpu.x[3] as u64, 0xffff_ffff_dead_beef);
    assert_eq!(cpu.mmu.bus.read32(0x2000_1000), Ok(0xdead_beef));
    assert_eq!(cpu.mmu.bus.read32(0x2000_1004), Ok(0));
}

#[test]
fn ecall_in_machine_mode_traps_to_mtvec() {
    let mut cpu = Cpu::new(Machine::QemuVirt, Box::new(TtyDummy::new()), false);
    if let Bus::QemuVirt(bus) = &mut cpu.mmu.bus {
        bus.mrom.write32(0x1000, 0x0000_0073);
    }
    assert_eq!(cpu.csr.write(CSR_MTVEC, 0x1000, 0, &Privilege::Machine), Ok(false));
    cpu.csr.write_direct(CSR_MSTATUS, 0x8);
    cpu.set_pc(0x2000);
    cpu.tick();
    assert_eq!(cpu.pc, 0x1000);
    assert_eq!(cpu.csr.read_direct(CSR_MEPC), 0x2000);
    assert_eq!(cpu.csr.read_direct(CSR_MCAUSE), 11);
    assert_eq!(cpu.csr.read_direct(CSR_MTVAL), 0x2000);
    assert_eq!(cpu.privilege, Privilege::Machine);
    assert_eq!(cpu.mmu.privilege, Privilege::Machine);
    // MIE moved to MPIE, MPP holds machine mode.
    assert_eq!(cpu.csr.read_direct(CSR_MSTATUS), 0x1880);
}

#[test]
fn load_reserved_then_store_conditional() {
    // lr.d x1, (x10); sc.d x2, x3, (x10); sc.d x2, x3, (x10)
    let mut cpu = hart(&[0x1005_30af, 0x1835_312f, 0x1835_312f]);
    cpu.x[10] = 0x8000_1000;
    cpu.x[3] = 0x1122_3344_5566_7788;
    cpu.x[2] = 99;
    cpu.mmu.bus.write64(0x8000_1000, 0xaaaa_bbbb_cccc_dddd).unwrap();
    cpu.tick();
    assert_eq!(cpu.x[1] as u64, 0xaaaa_bbbb_cccc_dddd);
    assert!(cpu.mmu.is_address_reserved(0x8000_1000));
    cpu.tick();
    assert_eq!(cpu.x[2], 0);
    assert_eq!(cpu.mmu.bus.read64(0x8000_1000), Ok(0x1122_3344_5566_7788));
    assert!(!cpu.mmu.is_address_reserved(0x8000_1000));
    cpu.x[3] = 5;
    cpu.tick();
    assert_eq!(cpu.x[2], 1);
    assert_eq!(cpu.mmu.bus.read64(0x8000_1000), Ok(0x1122_3344_5566_7788));
}

#[test]
fn a_reservation_survives_other_instructions() {
    // lr.w x1, (x10); sw x3, 8(x10); addi x4, x0, 1; sc.w x2, x3, (x11);
    // sc.w x5, x3, (x10)
    let mut cpu = hart(&[
        0x1005_20af,
        enc_s(8, 3, 10, 2, 0x23),
        addi(4, 0, 1),
        enc_r(0x0c, 3, 11, 2, 2, 0x2f),
        enc_r(0x0c, 3, 10, 2, 5, 0x2f),
    ]);
    cpu.x[10] = 0x8000_1000;
    cpu.x[11] = 0x8000_2000;
    cpu.x[3] = 0x7777;
    cpu.x[2] = 9;
    cpu.x[5] = 9;
    ticks(&mut cpu, 4);
    assert_eq!(cpu.x[2], 1);
    assert_eq!(cpu.mmu.bus.read32(0x8000_2000), Ok(0));
    cpu.tick();
    assert_eq!(cpu.x[5], 0);
    assert_eq!(cpu.mmu.bus.read32(0x8000_1000), Ok(0x7777));
    assert_eq!(cpu.mmu.bus.read32(0x8000_1008), Ok(0x7777));
}

#[test]
fn register_x0_is_always_zero() {
    let mut cpu = hart(&[
        addi(0, 0, 5),
        enc_u(0xffff_f000, 0, 0x37),
        enc_j(8, 0, 0x6f),
        0,
        enc_i(0, 0, 3, 0, 0x03),
        enc_r(0, 0, 0, 0, 1, 0x33),
    ]);
    for _ in 0..5 {
        cpu.tick();
        assert_eq!(cpu.x[0], 0);
    }
    assert_eq!(cpu.x[1], 0);
    // Even a stray value does not survive a tick.
    cpu.x[0] = 77;
    cpu.tick();
    assert_eq!(cpu.x[0], 0);
}

#[test]
fn loads_extend_by_width_and_sign() {
    let mut cpu = hart(&[
        enc_i(0, 10, 0, 1, 0x03),
        enc_i(0, 10, 1, 2, 0x03),
        enc_i(0, 10, 2, 3, 0x03),
        enc_i(0, 10, 3, 4, 0x03),
        enc_i(0, 10, 4, 5, 0x03),
        enc_i(0, 10, 5, 6, 0x03),
        enc_i(0, 10, 6, 7, 0x03),
        enc_i(0xffff_fffc, 10, 2, 8, 0x03),
    ]);
    cpu.x[10] = 0x8000_1004;
    cpu.mmu.bus.write64(0x8000_1004, 0x8877_6655_c4b3_a291).unwrap();
    cpu.mmu.bus.write32(0x8000_1000, 0x7fff_0001).unwrap();
    ticks(&mut cpu, 8);
    assert_eq!(cpu.x[1], 0xffff_ffff_ffff_ff91u64 as i64);
    assert_eq!(cpu.x[2], 0xffff_ffff_ffff_a291u64 as i64);
    assert_eq!(cpu.x[3], 0xffff_ffff_c4b3_a291u64 as i64);
    assert_eq!(cpu.x[4], 0x8877_6655_c4b3_a291u64 as i64);
    assert_eq!(cpu.x[5], 0x91);
    assert_eq!(cpu.x[6], 0xa291);
    assert_eq!(cpu.x[7], 0xc4b3_a291);
    assert_eq!(cpu.x[8], 0x7fff_0001);
    assert_eq!(load_value(Width::Byte, true, 0x17f), 0x7f);
    assert_eq!(load_value(Width::Half, false, 0xffff_8000), 0x8000);
}

#[test]
fn stores_write_the_low_bits() {
    let mut cpu = hart(&[
        enc_s(0, 2, 1, 3, 0x23),
        enc_s(8, 3, 1, 0, 0x23),
        enc_s(10, 3, 1, 1, 0x23),
        enc_s(12, 3, 1, 2, 0x23),
        enc_s(0xffff_fff8, 3, 1, 3, 0x23),
    ]);
    cpu.x[1] = 0x8000_1008;
    cpu.x[2] = -1;
    cpu.x[3] = 0x0102_0304_0506_0708;
    ticks(&mut cpu, 5);
    assert_eq!(cpu.mmu.bus.read64(0x8000_1008), Ok(u64::MAX));
    assert_eq!(cpu.mmu.bus.read64(0x8000_1010), Ok(0x0506_0708_0708_0008));
    assert_eq!(cpu.mmu.bus.read64(0x8000_1000), Ok(0x0102_0304_0506_0708));
}

#[test]
fn floating_point_registers_move_bit_patterns() {
    // fld f1, 0(x10); flw f2, 8(x10); fsd f1, 16(x10); fsw f1, 24(x10);
    // fmv.w.x f3, x5
    let mut cpu = hart(&[
        enc_i(0, 10, 3, 1, 0x07),
        enc_i(8, 10, 2, 2, 0x07),
        enc_s(16, 1, 10, 3, 0x27),
        enc_s(24, 1, 10, 2, 0x27),
        enc_r(0x78, 0, 5, 0, 3, 0x53),
    ]);
    cpu.x[10] = 0x8000_1000;
    cpu.x[5] = 0x1234_5678_c000_0000u64 as i64;
    cpu.mmu.bus.write64(0x8000_1000, 0x4009_21fb_5444_2d18).unwrap();
    cpu.mmu.bus.write32(0x8000_1008, 0xc049_0fdb).unwrap();
    ticks(&mut cpu, 5);
    assert_eq!(cpu.f[1], 0x4009_21fb_5444_2d18);
    assert_eq!(cpu.f[2], 0xffff_ffff_c049_0fdb);
    assert_eq!(cpu.mmu.bus.read64(0x8000_1010), Ok(0x4009_21fb_5444_2d18));
    assert_eq!(cpu.mmu.bus.read64(0x8000_1018), Ok(0x5444_2d18));
    assert_eq!(cpu.f[3], 0xc000_0000);
    assert_eq!(cpu.x[1], 0);
}

#[test]
fn upper_immediates() {
    let mut cpu = hart(&[
        enc_u(0x1234_5000, 1, 0x37),
        enc_u(0x8000_0000, 2, 0x37),
        enc_u(0x0000_1000, 3, 0x17),
        enc_u(0xffff_f000, 4, 0x17),
    ]);
    ticks(&mut cpu, 4);
    assert_eq!(cpu.x[1], 0x1234_5000);
    assert_eq!(cpu.x[2], -0x8000_0000);
    assert_eq!(cpu.x[3] as u64, DRAM + 8 + 0x1000);
    assert_eq!(cpu.x[4] as u64, DRAM + 12 - 0x1000);
}

#[test]
fn jumps_link_and_branches_compare() {
    let mut cpu = hart(&[
        enc_j(12, 1, 0x6f),               // 0: jal x1, +12
        addi(9, 0, 1),                    // 4: skipped
        addi(9, 0, 2),                    // 8: skipped
        enc_i(8, 5, 0, 2, 0x67),          // 12: jalr x2, 8(x5)
        addi(9, 0, 3),                    // 16: skipped
        enc_b(8, 7, 6, 0, 0x63),          // 20: beq x6, x7, +8 (not taken)
        enc_b(0xffff_fff8, 7, 6, 1, 0x63), // 24: bne x6, x7, -8 (taken, to 16)
    ]);
    cpu.x[5] = (DRAM + 12) as i64;
    cpu.x[6] = 1;
    cpu.x[7] = 2;
    cpu.tick();
    assert_eq!(cpu.pc, DRAM + 12);
    assert_eq!(cpu.x[1] as u64, DRAM + 4);
    cpu.tick();
    assert_eq!(cpu.pc, DRAM + 20);
    assert_eq!(cpu.x[2] as u64, DRAM + 16);
    cpu.tick();
    assert_eq!(cpu.pc, DRAM + 24);
    cpu.tick();
    assert_eq!(cpu.pc, DRAM + 16);
    cpu.tick();
    assert_eq!(cpu.x[9], 3);
    assert_eq!(cpu.pc, DRAM + 20);
}

#[test]
fn jalr_to_its_own_link_register() {
    let mut cpu = hart(&[enc_i(4, 1, 0, 1, 0x67)]);
    cpu.x[1] = 0x8000_0100;
    cpu.tick();
    assert_eq!(cpu.pc, 0x8000_0104);
    assert_eq!(cpu.x[1] as u64, DRAM + 4);
}

#[test]
fn compressed_instructions_advance_by_two() {
    // c.li a0, 1; c.addi a0, -3; c.mv a1, a0; c.j 0
    let mut cpu = hart(&[0x1575_4505, 0xa001_85aa]);
    cpu.tick();
    assert_eq!(cpu.pc, DRAM + 2);
    assert_eq!(cpu.x[10], 1);
    cpu.tick();
    assert_eq!(cpu.pc, DRAM + 4);
    assert_eq!(cpu.x[10], -2);
    cpu.tick();
    assert_eq!(cpu.pc, DRAM + 6);
    assert_eq!(cpu.x[11], -2);
    cpu.tick();
    assert_eq!(cpu.pc, DRAM + 6);
    cpu.tick();
    assert_eq!(cpu.pc, DRAM + 6);
}

#[test]
fn a_compressed_jump_links_to_the_next_halfword() {
    // c.jalr a5 at 0x80000002, after a c.nop
    let mut cpu = hart(&[0x9782_0001]);
    cpu.x[15] = 0x8000_0100;
    ticks(&mut cpu, 2);
    assert_eq!(cpu.pc, 0x8000_0100);
    assert_eq!(cpu.x[1] as u64, DRAM + 4);
    // The canonical form at the same place links two bytes further on.
    let mut cpu = hart(&[0x0007_80e7]);
    cpu.x[15] = 0x8000_0100;
    cpu.tick();
    assert_eq!(cpu.pc, 0x8000_0100);
    assert_eq!(cpu.x[1] as u64, DRAM + 4);
}

#[test]
fn a_compressed_instruction_acts_as_its_expansion() {
    let cases: [(u16, u32); 8] = [
        (0x4505, 0x0010_0513),
        (0x1575, 0xffd5_0513),
        (0x952e, 0x00b5_0533),
        (0x8d0d, 0x40b5_0533),
        (0x050a, 0x0025_1513),
        (0xe988, 0x00a5_b823),
        (0x6588, 0x0085_b503),
        (0xc101, 0x0005_0063),
    ];
    for (short, full) in cases {
        let mut a = hart(&[short as u32 | 0x0001_0000]);
        let mut b = hart(&[full]);
        for cpu in [&mut a, &mut b] {
            cpu.x[10] = 0x1234;
            cpu.x[11] = 0x8000_1000;
            cpu.mmu.bus.write64(0x8000_1008, 0x5555_6666_7777_8888).unwrap();
        }
        if short == 0xc101 {
            a.x[10] = 0;
            b.x[10] = 0;
        }
        a.tick();
        b.tick();
        assert_eq!(a.x, b.x, "{:04x}", short);
        assert_eq!(a.mmu.bus.read64(0x8000_1010), b.mmu.bus.read64(0x8000_1010));
        if short == 0xc101 {
            assert_eq!(a.pc, b.pc);
        } else {
            assert_eq!(a.pc + 2, b.pc);
        }
    }
}

#[test]
fn an_unknown_word_is_an_illegal_instruction() {
    let mut cpu = hart(&[0xffff_ffff]);
    cpu.csr.write_direct(CSR_MTVEC, 0x8000_0100);
    cpu.tick();
    assert_eq!(cpu.pc, 0x8000_0100);
    assert_eq!(cpu.csr.read_direct(CSR_MCAUSE), 2);
    assert_eq!(cpu.csr.read_direct(CSR_MEPC), DRAM);
    assert_eq!(cpu.csr.read_direct(CSR_MTVAL), DRAM);
    // A reserved 16-bit encoding too.
    let mut cpu = hart(&[0x0001_0001, 0x0000_0000]);
    cpu.csr.write_direct(CSR_MTVEC, 0x8000_0100);
    ticks(&mut cpu, 3);
    assert_eq!(cpu.pc, 0x8000_0100);
    assert_eq!(cpu.csr.read_direct(CSR_MCAUSE), 2);
    assert_eq!(cpu.csr.read_direct(CSR_MEPC), DRAM + 4);
    assert_eq!(cpu.csr.read_direct(CSR_MTVAL), DRAM + 4);
}

#[test]
fn a_fetch_from_nowhere_is_an_instruction_page_fault() {
    let mut cpu = hart(&[]);
    cpu.csr.write_direct(CSR_MTVEC, DRAM);
    cpu.set_pc(0x4000_0000);
    cpu.tick();
    assert_eq!(cpu.pc, DRAM);
    assert_eq!(cpu.csr.read_direct(CSR_MCAUSE), 12);
    assert_eq!(cpu.csr.read_direct(CSR_MEPC), 0x4000_0000);
    assert_eq!(cpu.csr.read_direct(CSR_MTVAL), 0x4000_0000);
    assert_eq!(cpu.tick_execute(), Err(Trap { exception: Exception::IllegalInstruction, value: DRAM }));
}

#[test]
fn a_load_from_nowhere_is_a_load_page_fault() {
    let mut cpu = hart(&[enc_i(4, 1, 3, 2, 0x03), enc_s(4, 2, 1, 3, 0x23)]);
    cpu.x[1] = 0x4000_0000;
    cpu.x[2] = 55;
    cpu.csr.write_direct(CSR_MTVEC, DRAM + 4);
    cpu.tick();
    assert_eq!(cpu.x[2], 55);
    assert_eq!(cpu.csr.read_direct(CSR_MCAUSE), 13);
    assert_eq!(cpu.csr.read_direct(CSR_MEPC), DRAM);
    assert_eq!(cpu.csr.read_direct(CSR_MTVAL), 0x4000_0004);
    cpu.tick();
    assert_eq!(cpu.csr.read_direct(CSR_MCAUSE), 15);
    assert_eq!(cpu.csr.read_direct(CSR_MEPC), DRAM + 4);
    assert_eq!(cpu.csr.read_direct(CSR_MTVAL), 0x4000_0004);
}

#[test]
fn csr_instructions_read_and_write() {
    let mut cpu = hart(&[
        csr_word(1, 1, CSR_MSCRATCH, 5),  // csrrw x1, mscratch, x5
        csr_word(2, 2, CSR_MSCRATCH, 6),  // csrrs x2, mscratch, x6
        csr_word(3, 3, CSR_MSCRATCH, 7),  // csrrc x3, mscratch, x7
        csr_word(5, 4, CSR_MSCRATCH, 21), // csrrwi x4, mscratch, 21
        csr_word(6, 8, CSR_MSCRATCH, 10), // csrrsi x8, mscratch, 10
        csr_word(7, 9, CSR_MSCRATCH, 3),  // csrrci x9, mscratch, 3
        csr_word(2, 10, CSR_MSCRATCH, 0), // csrrs x10, mscratch, x0
    ]);
    cpu.csr.write_direct(CSR_MSCRATCH, 0x11);
    cpu.x[5] = 0xf0;
    cpu.x[6] = 0x0f;
    cpu.x[7] = 0x3c;
    ticks(&mut cpu, 7);
    assert_eq!(cpu.x[1], 0x11);
    assert_eq!(cpu.x[2], 0xf0);
    assert_eq!(cpu.x[3], 0xff);
    assert_eq!(cpu.x[4], 0xc3);
    assert_eq!(cpu.x[8], 21);
    assert_eq!(cpu.x[9], 31);
    assert_eq!(cpu.x[10], 28);
    assert_eq!(csr_operand(CsrOp::ReadWrite, Xlen::X32, 0, -1), 0xffff_ffff);
    assert_eq!(csr_operand(CsrOp::ReadClear, Xlen::X64, 0xff, 0x0f), 0xf0);
    assert_eq!(csr_operand(CsrOp::ReadSetImm, Xlen::X64, 0x100, 3), 0x103);
}

#[test]
fn a_csr_access_below_privilege_is_illegal_and_changes_nothing() {
    let mut cpu = hart(&[csr_word(1, 1, CSR_MSCRATCH, 5), csr_word(2, 2, CSR_SSTATUS, 0)]);
    cpu.csr.write_direct(CSR_MSCRATCH, 0x11);
    cpu.csr.write_direct(CSR_MTVEC, DRAM + 4);
    cpu.x[5] = 0x22;
    cpu.x[1] = 7;
    cpu.change_privilege(Privilege::Supervisor);
    cpu.tick();
    assert_eq!(cpu.csr.read_direct(CSR_MSCRATCH), 0x11);
    assert_eq!(cpu.x[1], 7);
    assert_eq!(cpu.csr.read_direct(CSR_MCAUSE), 2);
    assert_eq!(cpu.csr.read_direct(CSR_MTVAL), DRAM);
    assert_eq!(cpu.privilege, Privilege::Machine);
    // MPP holds supervisor mode.
    assert_eq!(cpu.csr.read_direct(CSR_MSTATUS) & 0x1800, 0x0800);
    cpu.change_privilege(Privilege::User);
    cpu.tick();
    assert_eq!(cpu.csr.read_direct(CSR_MCAUSE), 2);
    assert_eq!(cpu.csr.read_direct(CSR_MTVAL), DRAM + 4);
    assert_eq!(cpu.x[2], 0);
}

#[test]
fn a_write_to_satp_switches_the_translation_mode() {
    let mut cpu = hart(&[csr_word(1, 0, CSR_SPTBR, 5), csr_word(1, 0, CSR_SPTBR, 0)]);
    cpu.x[5] = ((8u64 << 60) | 0x80010) as i64;
    cpu.tick();
    assert_eq!(cpu.mmu.addressing_mode, AddressingMode::Sv39);
    assert_eq!(cpu.mmu.ppn, 0x80010);
    assert_eq!(cpu.csr.read_direct(CSR_SPTBR), (8u64 << 60) | 0x80010);
    cpu.tick();
    assert_eq!(cpu.mmu.addressing_mode, AddressingMode::Bare);
    assert_eq!(cpu.mmu.ppn, 0);
}

#[test]
fn ecall_and_ebreak_raise_their_exceptions() {
    assert_eq!(ecall_exception(Privilege::User), Exception::EnvironmentCallFromUMode);
    assert_eq!(ecall_exception(Privilege::Supervisor), Exception::EnvironmentCallFromSMode);
    assert_eq!(ecall_exception(Privilege::Machine), Exception::EnvironmentCallFromMMode);
    let mut cpu = hart(&[0x0010_0073]);
    assert_eq!(
        cpu.execute(Instruction::Ebreak, 0x44, 0x0010_0073),
        Err(Trap { exception: Exception::Breakpoint, value: 0x44 })
    );
    cpu.change_privilege(Privilege::User);
    assert_eq!(
        cpu.execute(Instruction::Ecall, 0x48, 0x73),
        Err(Trap { exception: Exception::EnvironmentCallFromUMode, value: 0x48 })
    );
    cpu.csr.write_direct(CSR_MTVEC, DRAM + 0x40);
    cpu.tick();
    assert_eq!(cpu.csr.read_direct(CSR_MCAUSE), 3);
    assert_eq!(cpu.csr.read_direct(CSR_MEPC), DRAM);
    assert_eq!(cpu.pc, DRAM + 0x40);
    assert_eq!(cpu.privilege, Privilege::Machine);
    assert_eq!(cpu.csr.read_direct(CSR_MSTATUS) & 0x1800, 0);
}

#[test]
fn exceptions_are_delegated_by_medeleg_and_sedeleg() {
    assert_eq!(delegated(0, 0, 8), Privilege::Machine);
    assert_eq!(delegated(1 << 8, 0, 8), Privilege::Supervisor);
    assert_eq!(delegated(1 << 8, 1 << 8, 8), Privilege::User);
    assert_eq!(delegated(0, 1 << 8, 8), Privilege::Machine);
    // The machine-level bits cannot be delegated.
    assert_eq!(delegated(u64::MAX, 0, 3), Privilege::Machine);
    assert_eq!(delegated(u64::MAX, 0, 7), Privilege::Machine);
    assert_eq!(delegated(u64::MAX, 0, 11), Privilege::Machine);
    assert_eq!(delegated(u64::MAX, u64::MAX, 5), Privilege::Supervisor);
    assert_eq!(delegated(u64::MAX, u64::MAX, 4), Privilege::User);
    assert_eq!(delegated(u64::MAX, 0, 12), Privilege::Supervisor);

    let mut cpu = hart(&[0x73]);
    cpu.csr.write_direct(CSR_MEDELEG, 1 << 8);
    cpu.csr.write_direct(CSR_STVEC, DRAM + 0x80);
    cpu.csr.write_direct(CSR_MSTATUS, 0x2);
    cpu.change_privilege(Privilege::User);
    assert_eq!(cpu.get_next_privilege(8, false), Privilege::Supervisor);
    assert_eq!(cpu.get_next_privilege(9, false), Privilege::Machine);
    cpu.tick();
    assert_eq!(cpu.privilege, Privilege::Supervisor);
    assert_eq!(cpu.mmu.privilege, Privilege::Supervisor);
    assert_eq!(cpu.pc, DRAM + 0x80);
    assert_eq!(cpu.csr.read_direct(CSR_SEPC), DRAM);
    assert_eq!(cpu.csr.read_direct(CSR_SCAUSE), 8);
    assert_eq!(cpu.csr.read_direct(CSR_STVAL), DRAM);
    assert_eq!(cpu.csr.read_direct(CSR_MCAUSE), 0);
    // SIE moved to SPIE, SPP holds user mode.
    assert_eq!(cpu.csr.read_direct(CSR_SSTATUS), 0x20);
}

#[test]
fn a_trap_to_user_level_uses_the_user_registers() {
    let mut cpu = hart(&[0x73]);
    cpu.csr.write_direct(CSR_MEDELEG, 1 << 8);
    cpu.csr.write_direct(CSR_SEDELEG, 1 << 8);
    cpu.csr.write_direct(CSR_UTVEC, DRAM + 0xc0);
    cpu.csr.write_direct(CSR_USTATUS, 0x1);
    cpu.change_privilege(Privilege::User);
    cpu.tick();
    assert_eq!(cpu.privilege, Privilege::User);
    assert_eq!(cpu.pc, DRAM + 0xc0);
    assert_eq!(cpu.csr.read_direct(CSR_UEPC), DRAM);
    assert_eq!(cpu.csr.read_direct(CSR_UCAUSE), 8);
    assert_eq!(cpu.csr.read_direct(CSR_USTATUS), 0x10);
}

#[test]
fn trap_entry_stacks_the_interrupt_enable() {
    assert_eq!(entry_status(Privilege::Machine, 0x8, Privilege::User), (0x80, 0x1888));
    assert_eq!(entry_status(Privilege::Machine, 0x0, Privilege::Machine), (0x1800, 0x1888));
    assert_eq!(entry_status(Privilege::Machine, 0x8, Privilege::Supervisor), (0x880, 0x1888));
    assert_eq!(entry_status(Privilege::Supervisor, 0x2, Privilege::Supervisor), (0x120, 0x122));
    assert_eq!(entry_status(Privilege::Supervisor, 0x8, Privilege::User), (0, 0x122));
    assert_eq!(entry_status(Privilege::User, 0x1, Privilege::User), (0x10, 0x11));
    assert_eq!(trap_cause(Xlen::X64, 7, true), 0x8000_0000_0000_0007);
    assert_eq!(trap_cause(Xlen::X32, 7, true), 0x8000_0007);
    assert_eq!(trap_cause(Xlen::X64, 13, false), 13);
    assert_eq!(mret_status(0x1880), 0x88);
    assert_eq!(mret_status(0x0808), 0x80);
    assert_eq!(mret_status(0xffff_1fff), 0xffff_07ff);
    assert_eq!(sret_status(0x120), 0x22);
    assert_eq!(sret_status(0x102), 0x20);
}

#[test]
fn mret_returns_to_the_previous_privilege() {
    let mut cpu = hart(&[0x3020_0073]);
    cpu.csr.write_direct(CSR_MEPC, 0x8000_0200);
    cpu.csr.write_direct(CSR_MSTATUS, 0x0880);
    cpu.tick();
    assert_eq!(cpu.pc, 0x8000_0200);
    assert_eq!(cpu.privilege, Privilege::Supervisor);
    assert_eq!(cpu.mmu.privilege, Privilege::Supervisor);
    assert_eq!(cpu.csr.read_direct(CSR_MSTATUS), 0x88);
    let mut cpu = hart(&[0x3020_0073]);
    cpu.csr.write_direct(CSR_MEPC, 0x8000_0200);
    cpu.csr.write_direct(CSR_MSTATUS, 0x1808);
    cpu.tick();
    assert_eq!(cpu.privilege, Privilege::Machine);
    assert_eq!(cpu.csr.read_direct(CSR_MSTATUS), 0x80);
    let mut cpu = hart(&[0x3020_0073]);
    cpu.csr.write_direct(CSR_MSTATUS, 0x0080);
    cpu.tick();
    assert_eq!(cpu.privilege, Privilege::User);
    assert_eq!(cpu.pc, 0);
}

#[test]
fn sret_returns_to_the_previous_privilege() {
    let mut cpu = hart(&[0x1020_0073]);
    cpu.csr.write_direct(CSR_SEPC, 0x8000_0300);
    cpu.csr.write_direct(CSR_MSTATUS, 0x1920);
    cpu.change_privilege(Privilege::Supervisor);
    cpu.tick();
    assert_eq!(cpu.pc, 0x8000_0300);
    assert_eq!(cpu.privilege, Privilege::Supervisor);
    assert_eq!(cpu.csr.read_direct(CSR_MSTATUS), 0x1822);
    let mut cpu = hart(&[0x1020_0073]);
    cpu.csr.write_direct(CSR_SEPC, 0x8000_0300);
    cpu.csr.write_direct(CSR_MSTATUS, 0x0002);
    cpu.tick();
    assert_eq!(cpu.privilege, Privilege::User);
    assert_eq!(cpu.mmu.privilege, Privilege::User);
    assert_eq!(cpu.csr.read_direct(CSR_MSTATUS), 0x20);
}

#[test]
fn trap_returns_below_their_privilege_are_illegal() {
    let mut cpu = hart(&[0x3020_0073, 0x1020_0073]);
    cpu.csr.write_direct(CSR_MTVEC, DRAM + 4);
    cpu.csr.write_direct(CSR_MEPC, 0x1234);
    cpu.change_privilege(Privilege::Supervisor);
    cpu.tick();
    assert_eq!(cpu.csr.read_direct(CSR_MCAUSE), 2);
    assert_eq!(cpu.csr.read_direct(CSR_MEPC), DRAM);
    assert_eq!(cpu.privilege, Privilege::Machine);
    cpu.change_privilege(Privilege::User);
    cpu.tick();
    assert_eq!(cpu.csr.read_direct(CSR_MCAUSE), 2);
    assert_eq!(cpu.csr.read_direct(CSR_MEPC), DRAM + 4);
}

#[test]
fn wfi_waits_for_an_interrupt() {
    let mut cpu = hart(&[0x1050_0073, addi(1, 0, 1)]);
    cpu.mmu.bus.write32(DRAM + 0x100, addi(2, 0, 1)).unwrap();
    cpu.csr.write_direct(CSR_MTVEC, DRAM + 0x100);
    cpu.csr.write_direct(CSR_MIE, 0x80);
    cpu.csr.write_direct(CSR_MSTATUS, 0x8);
    cpu.mmu.bus.write64(0x0200_4000, 10).unwrap();
    cpu.tick();
    assert!(cpu.wfi);
    assert_eq!(cpu.pc, DRAM + 4);
    ticks(&mut cpu, 8);
    assert!(cpu.wfi);
    assert_eq!(cpu.pc, DRAM + 4);
    assert_eq!(cpu.x[1], 0);
    assert_eq!(cpu.csr.read_direct(CSR_MIP) & 0x80, 0);
    // The tenth tick of the timer raises MTIP; the eleventh tick takes it.
    cpu.tick();
    assert_eq!(cpu.csr.read_direct(CSR_MIP) & 0x80, 0x80);
    assert!(cpu.wfi);
    cpu.tick();
    assert!(!cpu.wfi);
    assert_eq!(cpu.csr.read_direct(CSR_MCAUSE), 0x8000_0000_0000_0007);
    assert_eq!(cpu.csr.read_direct(CSR_MEPC), DRAM + 4);
    assert_eq!(cpu.csr.read_direct(CSR_MTVAL), DRAM + 4);
    assert_eq!(cpu.csr.read_direct(CSR_MSTATUS), 0x1880);
    // The handler's first instruction ran in the same tick.
    assert_eq!(cpu.pc, DRAM + 0x104);
    assert_eq!(cpu.x[2], 1);
    assert_eq!(cpu.x[1], 0);
}

#[test]
fn software_interrupt_follows_the_clint() {
    let mut cpu = hart(&[addi(1, 1, 1), enc_j(0xffff_fffc, 0, 0x6f)]);
    cpu.mmu.bus.write32(DRAM + 0x100, addi(2, 0, 1)).unwrap();
    cpu.csr.write_direct(CSR_MTVEC, DRAM + 0x100);
    cpu.csr.write_direct(CSR_MIE, 0x8);
    cpu.csr.write_direct(CSR_MSTATUS, 0x8);
    ticks(&mut cpu, 4);
    assert_eq!(cpu.x[1], 2);
    cpu.mmu.bus.write32(0x0200_0000, 1).unwrap();
    cpu.tick();
    assert_eq!(cpu.csr.read_direct(CSR_MIP) & 0x8, 0x8);
    cpu.tick();
    assert_eq!(cpu.csr.read_direct(CSR_MCAUSE), 0x8000_0000_0000_0003);
    assert_eq!(cpu.pc, DRAM + 0x104);
}

#[test]
fn interrupts_are_arbitrated_by_priority() {
    let mut cpu = hart(&[]);
    cpu.csr.write_direct(CSR_MSTATUS, 0x8);
    cpu.csr.write_direct(CSR_MIE, 0xfff);
    assert_eq!(cpu.check_interrupts(), None);
    cpu.csr.write_direct(CSR_MIP, 0x888);
    assert_eq!(cpu.check_interrupts(), Some(Interrupt::MachineExternal));
    cpu.csr.write_direct(CSR_MIP, 0x088);
    assert_eq!(cpu.check_interrupts(), Some(Interrupt::MachineSoftware));
    cpu.csr.write_direct(CSR_MIP, 0x2a0);
    assert_eq!(cpu.check_interrupts(), Some(Interrupt::MachineTimer));
    cpu.csr.write_direct(CSR_MIP, 0x222);
    assert_eq!(cpu.check_interrupts(), Some(Interrupt::SupervisorExternal));
    cpu.csr.write_direct(CSR_MIP, 0x022);
    assert_eq!(cpu.check_interrupts(), Some(Interrupt::SupervisorSoftware));
    cpu.csr.write_direct(CSR_MIP, 0x120);
    assert_eq!(cpu.check_interrupts(), Some(Interrupt::SupervisorTimer));
    cpu.csr.write_direct(CSR_MIP, 0x111);
    assert_eq!(cpu.check_interrupts(), Some(Interrupt::UserExternal));
    cpu.csr.write_direct(CSR_MIP, 0x011);
    assert_eq!(cpu.check_interrupts(), Some(Interrupt::UserTimer));
    cpu.csr.write_direct(CSR_MIP, 0x001);
    assert_eq!(cpu.check_interrupts(), Some(Interrupt::UserSoftware));
    // The hypervisor bits select nothing.
    cpu.csr.write_direct(CSR_MIP, 0x444);
    assert_eq!(cpu.check_interrupts(), None);
    // Pending without enable, and enable without pending, select nothing.
    cpu.csr.write_direct(CSR_MIP, 0x080);
    cpu.csr.write_direct(CSR_MIE, 0xf7f);
    assert_eq!(cpu.check_interrupts(), None);
    assert!(!cpu.is_candidate(Interrupt::MachineTimer));
}

#[test]
fn interrupts_respect_the_global_enable_and_the_delegation() {
    let mut cpu = hart(&[]);
    cpu.csr.write_direct(CSR_MIE, 0xfff);
    cpu.csr.write_direct(CSR_MIP, 0x0a0);
    // In machine mode with MIE clear nothing is taken.
    cpu.csr.write_direct(CSR_MSTATUS, 0);
    assert!(!cpu.select_handling_interrupt(Interrupt::MachineTimer));
    assert_eq!(cpu.check_interrupts(), None);
    // In supervisor mode a machine interrupt is taken whatever MIE says.
    cpu.change_privilege(Privilege::Supervisor);
    assert!(cpu.select_handling_interrupt(Interrupt::MachineTimer));
    assert_eq!(cpu.check_interrupts(), Some(Interrupt::MachineTimer));
    // A supervisor timer interrupt that is delegated to supervisor level is
    // taken there only while SIE is set; the machine timer still comes first.
    cpu.csr.write_direct(CSR_MIDELEG, 0x20);
    cpu.csr.write_direct(CSR_MIP, 0x020);
    assert_eq!(cpu.get_next_privilege(5, true), Privilege::Supervisor);
    assert_eq!(cpu.check_interrupts(), None);
    cpu.csr.write_direct(CSR_MSTATUS, 0x2);
    assert_eq!(cpu.check_interrupts(), Some(Interrupt::SupervisorTimer));
    cpu.csr.write_direct(CSR_MIP, 0x0a0);
    assert_eq!(cpu.check_interrupts(), Some(Interrupt::MachineTimer));
    // In machine mode a delegated interrupt is below the hart and not taken.
    cpu.change_privilege(Privilege::Machine);
    cpu.csr.write_direct(CSR_MSTATUS, 0xa);
    cpu.csr.write_direct(CSR_MIP, 0x020);
    assert!(!cpu.select_handling_interrupt(Interrupt::SupervisorTimer));
    assert_eq!(cpu.check_interrupts(), None);
    // In user mode it is taken even with SIE clear.
    cpu.change_privilege(Privilege::User);
    cpu.csr.write_direct(CSR_MSTATUS, 0);
    assert_eq!(cpu.check_interrupts(), Some(Interrupt::SupervisorTimer));
    // The supervisor cannot delegate its own interrupts, only the user's;
    // those need the user's enable bits.
    cpu.csr.write_direct(CSR_MIDELEG, 0x30);
    cpu.csr.write_direct(CSR_SIDELEG, 0x30);
    assert_eq!(cpu.get_next_privilege(5, true), Privilege::Supervisor);
    assert_eq!(cpu.get_next_privilege(4, true), Privilege::User);
    cpu.csr.write_direct(CSR_MIP, 0x010);
    assert_eq!(cpu.check_interrupts(), None);
    cpu.csr.write_direct(CSR_USTATUS, 0x1);
    assert_eq!(cpu.check_interrupts(), None);
    cpu.csr.write_direct(riscv_emu::cpu::cpu_csr::CSR_UIE, 0x10);
    assert_eq!(cpu.check_interrupts(), Some(Interrupt::UserTimer));
}

#[test]
fn a_delegated_interrupt_enters_supervisor_mode() {
    let mut cpu = hart(&[addi(1, 0, 1)]);
    cpu.csr.write_direct(CSR_MIDELEG, 0x222);
    cpu.csr.write_direct(CSR_MIE, 0x222);
    cpu.csr.write_direct(CSR_MIP, 0x002);
    cpu.csr.write_direct(CSR_MSTATUS, 0x2);
    cpu.csr.write_direct(CSR_STVEC, DRAM + 0x200);
    cpu.change_privilege(Privilege::Supervisor);
    cpu.interrupt_handler(Interrupt::SupervisorSoftware);
    assert_eq!(cpu.privilege, Privilege::Supervisor);
    assert_eq!(cpu.pc, DRAM + 0x200);
    assert_eq!(cpu.csr.read_direct(CSR_SCAUSE), 0x8000_0000_0000_0001);
    assert_eq!(cpu.csr.read_direct(CSR_SEPC), DRAM);
    assert_eq!(cpu.csr.read_direct(CSR_STVAL), DRAM);
    assert_eq!(cpu.csr.read_direct(CSR_SSTATUS), 0x120);
    cpu.set_xlen(Xlen::X32);
    cpu.catch_exception(Trap { exception: Exception::StorePageFault, value: 0x77 }, 0x40);
    assert_eq!(cpu.privilege, Privilege::Machine);
    assert_eq!(cpu.csr.read_direct(CSR_MCAUSE), 15);
    assert_eq!(cpu.csr.read_direct(CSR_MEPC), 0x40);
    assert_eq!(cpu.csr.read_direct(CSR_MTVAL), 0x77);
    cpu.update_csr_trap_registers(0x50, 7, 0x60, Privilege::User, true);
    assert_eq!(cpu.csr.read_direct(CSR_MCAUSE), 0x8000_0007);
    assert_eq!(cpu.csr.read_direct(CSR_MEPC), 0x50);
    assert_eq!(cpu.get_cause(9, true), 0x8000_0009);
    assert_eq!(cpu.get_trap_next_pc(), 0);
}

#[test]
fn external_interrupt_lines_are_copied_into_mip() {
    let mut cpu = hart(&[]);
    cpu.csr.write_direct(CSR_MIP, 0x00a);
    cpu.tick_interrupt(&vec![true, true, true, true]);
    assert_eq!(cpu.csr.read_direct(CSR_MIP), 0xe02);
    assert_eq!(cpu.csr.read_direct(riscv_emu::cpu::cpu_csr::CSR_UIP), 0x100);
    cpu.mmu.bus.write32(0x0200_0000, 1).unwrap();
    cpu.mmu.bus.write64(0x0200_4000, 0).unwrap();
    cpu.tick_interrupt(&vec![false, false, false, false]);
    assert_eq!(cpu.csr.read_direct(CSR_MIP), 0x08a);
    assert_eq!(cpu.csr.read_direct(riscv_emu::cpu::cpu_csr::CSR_UIP), 0);
    cpu.set_line(CSR_MIP, 0x800, true);
    cpu.set_line(CSR_MIP, 0x080, false);
    assert_eq!(cpu.csr.read_direct(CSR_MIP), 0x80a);
}

#[test]
fn every_tick_advances_cycle_and_time() {
    let mut cpu = hart(&[enc_j(0, 0, 0x6f)]);
    ticks(&mut cpu, 5);
    assert_eq!(cpu.cycle, 5);
    assert_eq!(cpu.csr.read_direct(CSR_CYCLE), 5);
    assert_eq!(cpu.csr.read_direct(CSR_TIME), 5);
    assert_eq!(cpu.pc, DRAM);
    cpu.cycle = u64::MAX;
    cpu.tick();
    assert_eq!(cpu.cycle, 0);
    assert_eq!(cpu.csr.read_direct(CSR_CYCLE), 0);
    assert_eq!(cpu.csr.read_direct(CSR_TIME), 6);
}

#[test]
fn atomic_memory_operations_return_the_old_value() {
    // amoadd.w x1, x3, (x10); amoswap.d x2, x4, (x11); amomaxu.d x5, x6, (x11);
    // amomin.w x7, x8, (x10)
    let mut cpu = hart(&[
        enc_r(0x00, 3, 10, 2, 1, 0x2f),
        enc_r(0x04, 4, 11, 3, 2, 0x2f),
        enc_r(0x70, 6, 11, 3, 5, 0x2f),
        enc_r(0x40, 8, 10, 2, 7, 0x2f),
    ]);
    cpu.x[10] = 0x8000_1000;
    cpu.x[11] = 0x8000_1008;
    cpu.x[3] = 5;
    cpu.x[4] = 0x1111_2222_3333_4444;
    cpu.x[6] = -1;
    cpu.x[8] = -7;
    cpu.mmu.bus.write32(0x8000_1000, 0xffff_fffe).unwrap();
    cpu.mmu.bus.write64(0x8000_1008, 0x9999_8888_7777_6666).unwrap();
    ticks(&mut cpu, 4);
    assert_eq!(cpu.x[1], -2);
    assert_eq!(cpu.x[2] as u64, 0x9999_8888_7777_6666);
    assert_eq!(cpu.x[5], 0x1111_2222_3333_4444);
    assert_eq!(cpu.mmu.bus.read64(0x8000_1008), Ok(u64::MAX));
    assert_eq!(cpu.x[7], 3);
    assert_eq!(cpu.mmu.bus.read32(0x8000_1000), Ok(0xffff_fff9));
    assert_eq!(cpu.mmu.bus.read32(0x8000_1004), Ok(0));
}

#[test]
fn xlen_32_keeps_results_in_32_bits() {
    let mut cpu = hart(&[
        addi(1, 1, 1),
        enc_i(31, 2, 1, 3, 0x13),
        enc_i(1, 3, 5, 4, 0x13),
        enc_i(0x401, 3, 5, 5, 0x13),
        enc_r(0, 7, 6, 3, 8, 0x33),
    ]);
    cpu.set_xlen(Xlen::X32);
    cpu.x[1] = 0x7fff_ffff;
    cpu.x[2] = 1;
    cpu.x[6] = 0x1_0000_0000;
    cpu.x[7] = 1;
    ticks(&mut cpu, 5);
    assert_eq!(cpu.x[1], -0x8000_0000);
    assert_eq!(cpu.x[3], -0x8000_0000);
    assert_eq!(cpu.x[4], 0x4000_0000);
    assert_eq!(cpu.x[5], -0x4000_0000);
    assert_eq!(cpu.x[8], 1);
    assert_eq!(cpu.pc, DRAM + 20);
}

#[test]
fn fetch_decodes_both_lengths() {
    let mut cpu = hart(&[0x0050_0093, 0x0001_4505]);
    assert_eq!(cpu.fetch(), Ok(0x0050_0093));
    assert_eq!(cpu.pc, DRAM + 4);
    assert_eq!(cpu.fetch(), Ok(0x0010_0513));
    assert_eq!(cpu.pc, DRAM + 6);
    assert_eq!(cpu.fetch(), Ok(0x13));
    assert_eq!(cpu.pc, DRAM + 8);
    assert_eq!(
        cpu.fetch(),
        Err(Trap { exception: Exception::IllegalInstruction, value: DRAM + 8 })
    );
    assert_eq!(cpu.pc, DRAM + 10);
    assert_eq!(cpu.decode(0x0050_0093), riscv_emu::cpu::cpu_instruction::decode(0x0050_0093));
    assert_eq!(cpu.decode(0), None);
}

#[test]
fn reservations_are_held_on_physical_addresses() {
    // Two virtual pages on one physical page: a load-reserved through the
    // first and a store-conditional through the second meet.
    // lr.d x1, (x10); sc.d x2, x3, (x11); sc.d x4, x3, (x10)
    let mut cpu = hart(&[]);
    let flags = 0xcf;
    cpu.mmu.bus.write64(0x8001_0000 + 16, (0x80011 << 10) | 1).unwrap();
    cpu.mmu.bus.write64(0x8001_1000, (0x80012 << 10) | 1).unwrap();
    cpu.mmu.bus.write64(0x8001_2000 + 8 * 0x20, (0x80020 << 10) | flags).unwrap();
    cpu.mmu.bus.write64(0x8001_2000 + 8 * 0x21, (0x80020 << 10) | flags).unwrap();
    cpu.mmu.bus.write64(0x8001_2000 + 8 * 0x22, (0x80022 << 10) | flags).unwrap();
    for (i, word) in [0x1005_30afu32, 0x1835_b12f, 0x1835_322f].iter().enumerate() {
        cpu.mmu.bus.write32(0x8002_2000 + 4 * i as u64, *word).unwrap();
    }
    cpu.mmu.bus.write64(0x8002_0040, 0x55).unwrap();
    cpu.mmu.update_addressing_mode((8 << 60) | 0x80010);
    cpu.change_privilege(Privilege::Supervisor);
    cpu.set_pc(0x8002_2000);
    cpu.x[10] = 0x8002_0040;
    cpu.x[11] = 0x8002_1040;
    cpu.x[3] = 0x66;
    cpu.x[2] = 9;
    cpu.x[4] = 9;
    cpu.tick();
    assert_eq!(cpu.x[1], 0x55);
    assert!(cpu.mmu.is_address_reserved(0x8002_0040));
    assert!(!cpu.mmu.is_address_reserved(0x8002_1040));
    cpu.tick();
    assert_eq!(cpu.x[2], 0);
    assert_eq!(cpu.mmu.bus.read64(0x8002_0040), Ok(0x66));
    assert!(!cpu.mmu.is_address_reserved(0x8002_0040));
    cpu.tick();
    assert_eq!(cpu.x[4], 1);
    assert_eq!(cpu.pc, 0x8002_200c);
}

#[test]
fn a_store_conditional_to_an_unmapped_page_faults() {
    let mut cpu = hart(&[0x1835_312f]);
    cpu.csr.write_direct(CSR_MTVEC, DRAM + 0x40);
    cpu.mmu.bus.write32(DRAM + 0x40, addi(0, 0, 0)).unwrap();
    cpu.x[10] = 0x4000_0000;
    cpu.x[2] = 9;
    cpu.mmu.set_address_reserve(0x4000_0000, true);
    cpu.tick();
    assert_eq!(cpu.csr.read_direct(CSR_MCAUSE), 15);
    assert_eq!(cpu.csr.read_direct(CSR_MTVAL), 0x4000_0000);
    assert_eq!(cpu.x[2], 9);
    assert!(cpu.mmu.is_address_reserved(0x4000_0000));
}
