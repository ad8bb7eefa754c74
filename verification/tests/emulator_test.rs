use riscv_emu::bus::bus::{Bus, Device};
use riscv_emu::console::{Console, TtyDummy, TtyWeb};
use riscv_emu::cpu::cpu::{Privilege, Xlen};
use riscv_emu::elf_loader::{ElfLoader, ProgramHeader, SectionHeader, ShType};
use riscv_emu::emulator::{Emulator, LoadError};
use riscv_emu::machine::Machine;

fn write16(data: &mut Vec<u8>, at: usize, v: u16) {
    data[at..at + 2].copy_from_slice(&v.to_le_bytes());
}

fn write32(data: &mut Vec<u8>, at: usize, v: u32) {
    data[at..at + 4].copy_from_slice(&v.to_le_bytes());
}

fn write64(data: &mut Vec<u8>, at: usize, v: u64) {
    data[at..at + 8].copy_from_slice(&v.to_le_bytes());
}

/// A test program for the `virt` board: it stores `verdict` to the report
/// word at 0x80001000 and then spins.
///
///   auipc t1, 0x1; addi t0, x0, verdict; sw t0, 0(t1); j .
fn test_program(verdict: u32) -> Vec<u8> {
    let mut d = vec![0u8; 0x300];
    write32(&mut d, 0, 0x464c_457f);
    d[4] = 2;
    d[5] = 1;
    d[6] = 1;
    write16(&mut d, 0x10, 2);
    write16(&mut d, 0x12, 0xf3);
    write32(&mut d, 0x14, 1);
    write64(&mut d, 0x18, 0x8000_0000);
    write64(&mut d, 0x20, 0x40);
    write64(&mut d, 0x28, 0x200);
    write16(&mut d, 0x34, 0x40);
    write16(&mut d, 0x36, 56);
    write16(&mut d, 0x38, 1);
    write16(&mut d, 0x3a, 64);
    write16(&mut d, 0x3c, 4);
    write16(&mut d, 0x3e, 3);
    write32(&mut d, 0x40, 1);
    write64(&mut d, 0x48, 0x100);
    write64(&mut d, 0x50, 0x8000_0000);
    write64(&mut d, 0x58, 0x8000_0000);
    write64(&mut d, 0x60, 16);
    write64(&mut d, 0x68, 16);
    write32(&mut d, 0x100, 0x0000_1317);
    write32(&mut d, 0x104, 0x0000_0293 | (verdict << 20));
    write32(&mut d, 0x108, 0x0053_2023);
    write32(&mut d, 0x10c, 0x0000_006f);
    write64(&mut d, 0x140, 0);
    let names = b"\0.text\0.tohost\0.shstrtab\0";
    d[0x180..0x180 + names.len()].copy_from_slice(names);
    let s = 0x200 + 64;
    write32(&mut d, s, 1);
    write32(&mut d, s + 4, 1);
    write64(&mut d, s + 0x10, 0x8000_0000);
    write64(&mut d, s + 0x18, 0x100);
    write64(&mut d, s + 0x20, 0x20);
    let s = 0x200 + 128;
    write32(&mut d, s, 7);
    write32(&mut d, s + 4, 1);
    write64(&mut d, s + 0x10, 0x8000_1000);
    write64(&mut d, s + 0x18, 0x140);
    write64(&mut d, s + 0x20, 8);
    let s = 0x200 + 192;
    write32(&mut d, s, 15);
    write32(&mut d, s + 4, 3);
    write64(&mut d, s + 0x18, 0x180);
    write64(&mut d, s + 0x20, names.len() as u64);
    d
}

fn virt(testmode: bool) -> Emulator {
    Emulator::new(Machine::QemuVirt, Box::new(TtyDummy::new()), testmode)
}

#[test]
fn emulator_starts_reset() {
    let mut emu = virt(true);
    assert_eq!(emu.machine, Machine::QemuVirt);
    assert!(emu.testmode);
    assert_eq!(emu.tohost, 0);
    assert_eq!(emu.cpu.pc, 0);
    assert_eq!(emu.cpu.privilege, Privilege::Machine);
    assert_eq!(emu.cpu.x[11], 0x1020);
    emu.set_pc(0x8000_0000);
    assert_eq!(emu.cpu.pc, 0x8000_0000);
    emu.cpu.x[7] = 3;
    emu.reset();
    assert_eq!(emu.cpu.pc, 0);
    assert_eq!(emu.cpu.x[7], 0);
    assert_eq!(emu.cpu.x[11], 0);
}

#[test]
fn a_program_in_dram_runs() {
    let mut emu = virt(false);
    assert!(emu.accepts_device_data(Device::Dram, 12));
    // addi x1, x0, 5; addi x2, x1, 3; add x3, x1, x2
    emu.set_dram_data(vec![0x93, 0x00, 0x50, 0x00, 0x13, 0x81, 0x30, 0x00, 0xb3, 0x81, 0x20, 0x00]);
    emu.set_pc(0x8000_0000);
    emu.run_steps(3);
    assert_eq!(emu.cpu.x[1], 5);
    assert_eq!(emu.cpu.x[2], 8);
    assert_eq!(emu.cpu.x[3], 13);
    assert_eq!(emu.cpu.pc, 0x8000_000c);
    emu.run_steps(0);
    assert_eq!(emu.cpu.pc, 0x8000_000c);
    // Without a report word nothing ends the run.
    assert_eq!(emu.step(), None);
    assert_eq!(emu.run(10), None);
    assert_eq!(emu.cpu.csr.read_direct(riscv_emu::cpu::cpu_csr::CSR_CYCLE), 14);
}

#[test]
fn device_data_reaches_the_devices() {
    let mut emu = virt(false);
    assert!(emu.accepts_device_data(Device::Disk, 3));
    assert!(emu.accepts_device_data(Device::DTB, 4));
    assert!(!emu.accepts_device_data(Device::DTB, 0x1000));
    assert!(!emu.accepts_device_data(Device::SpiFlash, 1));
    emu.set_data_from_binary(Device::Disk, vec![1, 2, 3]);
    emu.set_data_from_binary(Device::DTB, vec![0xd0, 0x0d, 0xfe, 0xed]);
    assert_eq!(emu.cpu.mmu.read32(0x1020), Ok(0xedfe_0dd0));
    match &emu.cpu.mmu.bus {
        Bus::QemuVirt(bus) => assert_eq!(bus.virtio.disk_image, vec![1, 2, 3]),
        _ => panic!("the virt board has its own bus"),
    }
    let mut emu = Emulator::new(Machine::SiFiveE, Box::new(TtyDummy::new()), false);
    assert!(emu.accepts_device_data(Device::SpiFlash, 4));
    emu.set_data_from_binary(Device::SpiFlash, vec![0x13, 0x05, 0x10, 0x00]);
    emu.set_pc(0x2000_0000);
    emu.run_steps(1);
    assert_eq!(emu.cpu.x[10], 1);
}

#[test]
fn the_console_is_behind_the_uart() {
    let mut emu = Emulator::new(Machine::QemuVirt, Box::new(TtyWeb::new()), false);
    // lui a0, 0x10000; addi a1, x0, 'H'; sb a1, 0(a0); j .
    let program: [u32; 4] = [0x1000_0537, 0x0480_0593, 0x00b5_0023, 0x0000_006f];
    let mut data = Vec::new();
    for word in program {
        data.extend_from_slice(&word.to_le_bytes());
    }
    emu.set_dram_data(data);
    emu.set_pc(0x8000_0000);
    emu.run_steps(20);
    assert_eq!(emu.get_console().get_output(), b'H');
    assert_eq!(emu.get_console().get_output(), 0);
}

#[test]
fn a_passing_test_program_ends_the_run_with_one() {
    let mut emu = virt(true);
    assert_eq!(emu.load_program_from_binary(test_program(1)), Ok(()));
    assert_eq!(emu.cpu.pc, 0x8000_0000);
    assert_eq!(emu.cpu.xlen, Xlen::X64);
    assert_eq!(emu.tohost, 0x8000_1000);
    assert_eq!(emu.cpu.mmu.read32(0x8000_0000), Ok(0x0000_1317));
    assert_eq!(emu.cpu.mmu.read32(0x8000_000c), Ok(0x0000_006f));
    // The program header's file size, not the section's size, was copied.
    assert_eq!(emu.cpu.mmu.read32(0x8000_0010), Ok(0));
    assert_eq!(emu.step(), None);
    assert_eq!(emu.step(), None);
    assert_eq!(emu.step(), Some(Ok(1)));
    let mut emu = virt(true);
    assert_eq!(emu.load_program_from_binary(test_program(1)), Ok(()));
    assert_eq!(emu.run(2), None);
    assert_eq!(emu.run(1000), Some(Ok(1)));
    assert_eq!(emu.cpu.cycle, 3);
}

#[test]
fn a_failing_test_program_ends_the_run_with_its_number() {
    let mut emu = virt(true);
    assert_eq!(emu.load_program_from_binary(test_program(5)), Ok(()));
    assert_eq!(emu.run(1000), Some(Err(5)));
    assert_eq!(emu.cpu.x[5], 5);
    assert_eq!(emu.cpu.x[6] as u64, 0x8000_1000);
}

#[test]
fn outside_test_mode_the_report_word_is_ignored() {
    let mut emu = virt(false);
    assert_eq!(emu.load_program_from_binary(test_program(1)), Ok(()));
    assert_eq!(emu.tohost, 0);
    assert_eq!(emu.run(100), None);
    assert_eq!(emu.cpu.mmu.read32(0x8000_1000), Ok(1));
    assert_eq!(emu.cpu.cycle, 100);
}

#[test]
fn a_program_without_a_report_word_has_none() {
    let mut d = test_program(1);
    d[0x188] = b'x';
    let mut emu = virt(true);
    emu.tohost = 0x1234;
    assert_eq!(emu.load_program_from_binary(d), Ok(()));
    assert_eq!(emu.tohost, 0);
    assert_eq!(emu.run(50), None);
}

#[test]
fn a_32_bit_program_switches_the_register_width() {
    let mut d = vec![0u8; 0x100];
    write32(&mut d, 0, 0x464c_457f);
    d[4] = 1;
    d[5] = 1;
    d[6] = 1;
    write16(&mut d, 0x10, 2);
    write16(&mut d, 0x12, 0xf3);
    write32(&mut d, 0x14, 1);
    write32(&mut d, 0x18, 0x8000_0004);
    write32(&mut d, 0x1c, 0x34);
    write32(&mut d, 0x20, 0x80);
    write16(&mut d, 0x2a, 32);
    write16(&mut d, 0x2c, 0);
    write16(&mut d, 0x2e, 40);
    write16(&mut d, 0x30, 2);
    // one section of program data: 8 bytes at 0x60 for 0x80000000
    let s = 0x80 + 40;
    for (i, v) in [0u32, 1, 6, 0x8000_0000, 0x60, 8, 0, 0, 4, 0].iter().enumerate() {
        write32(&mut d, s + 4 * i, *v);
    }
    write32(&mut d, 0x60, 0x0000_0013);
    write32(&mut d, 0x64, 0x7ff0_0093);
    let mut emu = virt(false);
    assert_eq!(emu.load_program_from_binary(d), Ok(()));
    assert_eq!(emu.cpu.xlen, Xlen::X32);
    assert_eq!(emu.cpu.mmu.xlen, Xlen::X32);
    assert_eq!(emu.cpu.pc, 0x8000_0004);
    emu.run_steps(1);
    assert_eq!(emu.cpu.x[1], 0x7ff);
}

#[test]
fn sections_below_the_program_device_or_without_data_are_skipped() {
    let mut d = test_program(1);
    // The text section now lies below DRAM; .tohost has no place in the file.
    write64(&mut d, 0x200 + 64 + 0x10, 0x7000_0000);
    write64(&mut d, 0x200 + 128 + 0x18, 0);
    let mut emu = virt(true);
    assert_eq!(emu.load_program_from_binary(d), Ok(()));
    assert_eq!(emu.cpu.mmu.read32(0x8000_0000), Ok(0));
    assert_eq!(emu.tohost, 0x8000_1000);
}

#[test]
fn a_section_without_a_program_header_is_copied_whole() {
    let mut d = test_program(1);
    write64(&mut d, 0x50, 0x8000_4000);
    let mut emu = virt(false);
    assert_eq!(emu.load_program_from_binary(d), Ok(()));
    assert_eq!(emu.cpu.mmu.read32(0x8000_000c), Ok(0x0000_006f));
    assert_eq!(emu.cpu.mmu.read64(0x8000_0018), Ok(0));
    // And one whose program header names another physical address goes there.
    let mut d = test_program(1);
    write64(&mut d, 0x58, 0x8000_8000);
    let mut emu = virt(false);
    assert_eq!(emu.load_program_from_binary(d), Ok(()));
    assert_eq!(emu.cpu.mmu.read32(0x8000_0000), Ok(0));
    assert_eq!(emu.cpu.mmu.read32(0x8000_8000), Ok(0x0000_1317));
    let section = SectionHeader {
        sh_name: 0,
        sh_type: ShType::Progbits,
        sh_flags: 0,
        sh_addr: 0x100,
        sh_offset: 1,
        sh_size: 9,
        sh_link: 0,
        sh_info: 0,
        sh_addralign: 0,
        sh_entsize: 0,
    };
    let segment = |vaddr: u64, paddr: u64, size: u64| ProgramHeader {
        p_type: 1,
        p_flags: 0,
        p_offset: 0,
        p_vaddr: vaddr,
        p_paddr: paddr,
        p_filesz: size,
        p_memsz: size,
        p_alignz: 0,
    };
    assert_eq!(Emulator::place(&section, &vec![]), (0x100, 9));
    assert_eq!(Emulator::place(&section, &vec![segment(0x200, 1, 2)]), (0x100, 9));
    assert_eq!(
        Emulator::place(&section, &vec![segment(0x200, 1, 2), segment(0x100, 3, 4), segment(0x100, 5, 6)]),
        (3, 4)
    );
}

#[test]
fn load_errors_name_what_is_wrong() {
    let mut emu = virt(true);
    assert_eq!(emu.load_program_from_binary(vec![1, 2, 3, 4, 5]), Err(LoadError::NotElf));
    assert_eq!(emu.load_program_from_binary(vec![]), Err(LoadError::NotElf));
    let mut d = test_program(1);
    d.truncate(0x30);
    assert_eq!(emu.load_program_from_binary(d), Err(LoadError::BadHeader));
    let mut d = test_program(1);
    d[5] = 9;
    assert_eq!(emu.load_program_from_binary(d), Err(LoadError::BadHeader));
    let mut d = test_program(1);
    d[0x12] = 0x3e;
    assert_eq!(emu.load_program_from_binary(d), Err(LoadError::NotRiscv));
    let mut d = test_program(1);
    d[4] = 0;
    assert_eq!(emu.load_program_from_binary(d), Err(LoadError::BadClass));
    let mut d = test_program(1);
    write16(&mut d, 0x3c, 9);
    assert_eq!(emu.load_program_from_binary(d), Err(LoadError::BadSections));
    let mut d = test_program(1);
    write64(&mut d, 0x20, 0x2f0);
    assert_eq!(emu.load_program_from_binary(d), Err(LoadError::BadSegments));
    // Nothing of all that has touched the hart.
    assert_eq!(emu.cpu.pc, 0);
    assert_eq!(emu.tohost, 0);
    let mut d = test_program(1);
    write64(&mut d, 0x60, 0x201);
    assert_eq!(emu.load_program_from_binary(d), Err(LoadError::Truncated));
    assert_eq!(emu.cpu.pc, 0x8000_0000);
    assert_eq!(emu.cpu.mmu.read32(0x8000_0000), Ok(0x0000_1317));
    assert_eq!(emu.tohost, 0);
    let mut d = test_program(1);
    write64(&mut d, 0x58, 0x8fff_fffc);
    assert_eq!(emu.load_program_from_binary(d), Err(LoadError::Fault));
    assert_eq!(emu.cpu.mmu.read32(0x8fff_fffc), Ok(0x0000_1317));
    let loader = ElfLoader::new(test_program(1)).unwrap();
    assert_eq!(emu.copy(&loader, 0x2fe, 0x8000_2000, 3), Err(LoadError::Truncated));
    assert_eq!(emu.copy(&loader, u64::MAX, 0x8000_2000, 3), Err(LoadError::Truncated));
    assert_eq!(emu.copy(&loader, 0x100, 0x10, 1), Err(LoadError::Fault));
    assert_eq!(emu.copy(&loader, 0x100, 0x8000_3000, 4), Ok(()));
    assert_eq!(emu.cpu.mmu.read32(0x8000_3000), Ok(0x0000_1317));
}

#[test]
fn on_the_sifive_boards_programs_go_through_the_flash_window() {
    // Sections at or above the SPI flash are loaded; this one lies in DRAM
    // of the FU540.
    let mut emu = Emulator::new(Machine::SiFiveU, Box::new(TtyDummy::new()), true);
    assert_eq!(emu.load_program_from_binary(test_program(1)), Ok(()));
    assert_eq!(emu.tohost, 0x8000_1000);
    assert_eq!(emu.run(1000), Some(Ok(1)));
    // The FE310 has only 16 KiB there, which is enough for this program.
    let mut emu = Emulator::new(Machine::SiFiveE, Box::new(TtyDummy::new()), true);
    assert_eq!(emu.load_program_from_binary(test_program(7)), Ok(()));
    assert_eq!(emu.run(1000), Some(Err(7)));
    let sections = Emulator::sections_of(
        &ElfLoader::new(test_program(1))
            .unwrap()
            .get_section_header(&ElfLoader::new(test_program(1)).unwrap().get_elf_header().unwrap())
            .unwrap(),
        ShType::Progbits,
    );
    assert_eq!(sections.len(), 2);
    assert_eq!(sections[1].sh_addr, 0x8000_1000);
}
