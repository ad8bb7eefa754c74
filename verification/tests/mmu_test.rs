use riscv_emu::console::TtyDummy;
use riscv_emu::cpu::cpu::{Privilege, Xlen};
use riscv_emu::cpu::cpu_instruction::Width;
use riscv_emu::cpu::mmu::{
    effective_address, leaf_address, needs_update, page_fault, parse_pte, permitted,
    pte_address, pte_is_pointer, pte_valid, satp_mode, satp_ppn, updated_pte, vpn,
    AddressingMode, MemoryAccessType, Mmu,
};
use riscv_emu::cpu::trap::{Exception, Trap};
use riscv_emu::machine::Machine;

const V: u64 = 1;
const R: u64 = 2;
const W: u64 = 4;
const X: u64 = 8;
const A: u64 = 0x40;
const D: u64 = 0x80;

fn mmu64() -> Mmu {
    Mmu::new(Xlen::X64, Machine::QemuVirt, Box::new(TtyDummy::new()))
}

fn load_fault(addr: u64) -> Trap {
    Trap { exception: Exception::LoadPageFault, value: addr }
}

fn store_fault(addr: u64) -> Trap {
    Trap { exception: Exception::StorePageFault, value: addr }
}

fn fetch_fault(addr: u64) -> Trap {
    Trap { exception: Exception::InstructionPageFault, value: addr }
}

/// Three levels of tables at 0x80010000, 0x80011000 and 0x80012000 that map
/// the page at 0x80020000 onto itself with the given permission bits.
fn sv39_identity(mmu: &mut Mmu, flags: u64) {
    mmu.bus.write64(0x8001_0000 + 8 * 2, (0x80011 << 10) | V).unwrap();
    mmu.bus.write64(0x8001_1000, (0x80012 << 10) | V).unwrap();
    mmu.bus.write64(0x8001_2000 + 8 * 0x20, (0x80020 << 10) | flags).unwrap();
    mmu.update_addressing_mode((8 << 60) | 0x80010);
    mmu.set_privilege(&Privilege::Supervisor);
}

#[test]
fn mmu_starts_bare_in_machine_mode() {
    let mut mmu = mmu64();
    assert_eq!(mmu.addressing_mode, AddressingMode::Bare);
    assert_eq!(mmu.privilege, Privilege::Machine);
    assert_eq!(mmu.ppn, 0);
    assert_eq!(mmu.write32(0x8000_0010, 0xdead_beef), Ok(()));
    assert_eq!(mmu.read32(0x8000_0010), Ok(0xdead_beef));
    assert_eq!(mmu.fetch32(0x8000_0010), Ok(0xdead_beef));
    assert_eq!(mmu.read8(0x8000_0013), Ok(0xde));
    assert_eq!(mmu.read16(0x8000_0012), Ok(0xdead));
    assert_eq!(mmu.read64(0x8000_0010), Ok(0xdead_beef));
    assert_eq!(mmu.read32_direct(0x8000_0010), Ok(0xdead_beef));
    assert_eq!(mmu.get_bus().read32(0x8000_0010), Ok(0xdead_beef));
    assert_eq!(mmu.to_physical_address(0x1234, MemoryAccessType::Write), Ok(0x1234));
}

#[test]
fn bus_errors_become_page_faults_of_the_access() {
    let mut mmu = mmu64();
    assert_eq!(mmu.read8(0x10), Err(load_fault(0x10)));
    assert_eq!(mmu.read16(0x10), Err(load_fault(0x10)));
    assert_eq!(mmu.read32(0x10), Err(load_fault(0x10)));
    assert_eq!(mmu.read64(0x10), Err(load_fault(0x10)));
    assert_eq!(mmu.read32_direct(0x10), Err(load_fault(0x10)));
    assert_eq!(mmu.write8(0x10, 0), Err(store_fault(0x10)));
    assert_eq!(mmu.write16(0x10, 0), Err(store_fault(0x10)));
    assert_eq!(mmu.write32(0x10, 0), Err(store_fault(0x10)));
    assert_eq!(mmu.write64(0x10, 0), Err(store_fault(0x10)));
    assert_eq!(mmu.fetch32(0x10), Err(fetch_fault(0x10)));
    assert_eq!(mmu.fetch8(0x10), Err(fetch_fault(0x10)));
    assert_eq!(page_fault(MemoryAccessType::Fetch), Exception::InstructionPageFault);
    assert_eq!(page_fault(MemoryAccessType::Read), Exception::LoadPageFault);
    assert_eq!(page_fault(MemoryAccessType::Write), Exception::StorePageFault);
}

#[test]
fn accesses_across_a_page_boundary_go_byte_by_byte() {
    let mut mmu = mmu64();
    assert_eq!(mmu.write64(0x8000_0ffc, 0x0102_0304_0506_0708), Ok(()));
    assert_eq!(mmu.read64(0x8000_0ffc), Ok(0x0102_0304_0506_0708));
    assert_eq!(mmu.read32(0x8000_0ffe), Ok(0x0304_0506));
    assert_eq!(mmu.fetch32(0x8000_0ffe), Ok(0x0304_0506));
    assert_eq!(mmu.read16(0x8000_0fff), Ok(0x0405));
    assert_eq!(mmu.write16(0x8000_0fff, 0xaabb), Ok(()));
    assert_eq!(mmu.write32(0x8000_1ffd, 0x1122_3344), Ok(()));
    assert_eq!(mmu.read8(0x8000_0fff), Ok(0xbb));
    assert_eq!(mmu.read8(0x8000_1000), Ok(0xaa));
    assert_eq!(mmu.read32(0x8000_1ffd), Ok(0x1122_3344));
    assert_eq!(mmu.load_bytes(0x8000_0ffc, 3, MemoryAccessType::Read), Ok(0x06_0708));
    assert_eq!(mmu.store_bytes(0x8000_2000, 0x0a0b_0c0d, 2), Ok(()));
    assert_eq!(mmu.read32(0x8000_2000), Ok(0x0c0d));
    // The last byte of DRAM and the first byte beyond it.
    assert_eq!(mmu.write16(0x8fff_ffff, 0x1234), Err(store_fault(0x9000_0000)));
    assert_eq!(mmu.read8(0x8fff_ffff), Ok(0x34));
    assert_eq!(mmu.read16(0x8fff_ffff), Err(load_fault(0x9000_0000)));
}

#[test]
fn widths_read_and_write_through_one_entry_point() {
    let mut mmu = mmu64();
    assert_eq!(mmu.write_width(Width::Double, 0x8000_0000, 0x8877_6655_4433_2211), Ok(()));
    assert_eq!(mmu.read_width(Width::Byte, 0x8000_0000), Ok(0x11));
    assert_eq!(mmu.read_width(Width::Half, 0x8000_0000), Ok(0x2211));
    assert_eq!(mmu.read_width(Width::Word, 0x8000_0000), Ok(0x4433_2211));
    assert_eq!(mmu.read_width(Width::Double, 0x8000_0000), Ok(0x8877_6655_4433_2211));
    assert_eq!(mmu.write_width(Width::Byte, 0x8000_0000, 0xffff_ffff_ffff_ff00), Ok(()));
    assert_eq!(mmu.write_width(Width::Half, 0x8000_0002, 0xffff_ffff_ffff_0000), Ok(()));
    assert_eq!(mmu.write_width(Width::Word, 0x8000_0004, 0xffff_ffff_0000_0000), Ok(()));
    assert_eq!(mmu.read64(0x8000_0000), Ok(0x0000_0000_0000_2200));
}

#[test]
fn satp_selects_mode_and_root() {
    assert_eq!(satp_mode(Xlen::X64, 0), Some(AddressingMode::Bare));
    assert_eq!(satp_mode(Xlen::X64, 8 << 60), Some(AddressingMode::Sv39));
    assert_eq!(satp_mode(Xlen::X64, 9 << 60), None);
    assert_eq!(satp_mode(Xlen::X64, 1 << 60), None);
    assert_eq!(satp_mode(Xlen::X32, 0x8000_0000), Some(AddressingMode::Sv32));
    assert_eq!(satp_mode(Xlen::X32, 0x7fff_ffff), Some(AddressingMode::Bare));
    assert_eq!(satp_ppn(Xlen::X64, u64::MAX), 0xfff_ffff_ffff);
    assert_eq!(satp_ppn(Xlen::X32, u64::MAX), 0x3f_ffff);
    let mut mmu = mmu64();
    mmu.update_addressing_mode((8 << 60) | 0x8_0010);
    assert_eq!(mmu.addressing_mode, AddressingMode::Sv39);
    assert_eq!(mmu.ppn, 0x8_0010);
    // A mode that is not implemented leaves the unit as it is.
    mmu.update_addressing_mode((9 << 60) | 0x1234);
    assert_eq!(mmu.addressing_mode, AddressingMode::Sv39);
    assert_eq!(mmu.ppn, 0x8_0010);
    mmu.update_addressing_mode(0x77);
    assert_eq!(mmu.addressing_mode, AddressingMode::Bare);
    assert_eq!(mmu.ppn, 0x77);
    mmu.set_xlen(&Xlen::X32);
    mmu.update_addressing_mode(0x8000_0000 | 0x12345);
    assert_eq!(mmu.addressing_mode, AddressingMode::Sv32);
    assert_eq!(mmu.ppn, 0x12345);
}

#[test]
fn page_table_entries_parse_into_their_fields() {
    let p = parse_pte(AddressingMode::Sv39, (0x1234_5678 << 10) | 0x3ff);
    assert_eq!(p.ppn, 0x1234_5678);
    assert_eq!((p.ppn0, p.ppn1, p.ppn2), (0x078, 0x02b, 0x48d));
    assert_eq!((p.rsw, p.d, p.a, p.g, p.u, p.x, p.w, p.r, p.v), (3, 1, 1, 1, 1, 1, 1, 1, 1));
    let p = parse_pte(AddressingMode::Sv32, (0x2a_bcde << 10) | V | X);
    assert_eq!(p.ppn, 0x2a_bcde);
    assert_eq!((p.ppn0, p.ppn1, p.ppn2), (0x0de, 0xaaf, 0));
    assert_eq!((p.rsw, p.d, p.a, p.g, p.u, p.x, p.w, p.r, p.v), (0, 0, 0, 0, 0, 1, 0, 0, 1));
    assert!(pte_valid(parse_pte(AddressingMode::Sv39, V)));
    assert!(pte_valid(parse_pte(AddressingMode::Sv39, V | R | W)));
    assert!(!pte_valid(parse_pte(AddressingMode::Sv39, R | X)));
    assert!(!pte_valid(parse_pte(AddressingMode::Sv39, V | W)));
    assert!(!pte_valid(parse_pte(AddressingMode::Sv39, V | W | X)));
    assert!(pte_is_pointer(parse_pte(AddressingMode::Sv39, V)));
    assert!(!pte_is_pointer(parse_pte(AddressingMode::Sv39, V | X)));
    assert!(!pte_is_pointer(parse_pte(AddressingMode::Sv39, V | R)));
    let rx = parse_pte(AddressingMode::Sv39, V | R | X | A);
    assert!(permitted(rx, MemoryAccessType::Fetch));
    assert!(permitted(rx, MemoryAccessType::Read));
    assert!(!permitted(rx, MemoryAccessType::Write));
    assert!(!needs_update(rx, MemoryAccessType::Read));
    assert!(needs_update(rx, MemoryAccessType::Write));
    assert!(needs_update(parse_pte(AddressingMode::Sv39, V | R), MemoryAccessType::Read));
    assert_eq!(updated_pte(V | R, MemoryAccessType::Read), V | R | A);
    assert_eq!(updated_pte(V | R, MemoryAccessType::Fetch), V | R | A);
    assert_eq!(updated_pte(V | R | W, MemoryAccessType::Write), V | R | W | A | D);
}

#[test]
fn virtual_page_numbers_and_entry_addresses() {
    let va = (0x155 << 30) | (0x0aa << 21) | (0x1fe << 12) | 0x123;
    assert_eq!(vpn(AddressingMode::Sv39, va, 0), 0x1fe);
    assert_eq!(vpn(AddressingMode::Sv39, va, 1), 0x0aa);
    assert_eq!(vpn(AddressingMode::Sv39, va, 2), 0x155);
    let va32 = (0x2aa << 22) | (0x3fd << 12) | 0x456;
    assert_eq!(vpn(AddressingMode::Sv32, va32, 0), 0x3fd);
    assert_eq!(vpn(AddressingMode::Sv32, va32, 1), 0x2aa);
    assert_eq!(pte_address(AddressingMode::Sv39, 0x80010, va, 2), 0x8001_0000 + 8 * 0x155);
    assert_eq!(pte_address(AddressingMode::Sv39, 0x80010, va, 0), 0x8001_0000 + 8 * 0x1fe);
    assert_eq!(pte_address(AddressingMode::Sv32, 0x80010, va32, 1), 0x8001_0000 + 4 * 0x2aa);
    assert_eq!(effective_address(Xlen::X32, 0xffff_ffff_8000_0000), 0x8000_0000);
    assert_eq!(effective_address(Xlen::X64, 0xffff_ffff_8000_0000), 0xffff_ffff_8000_0000);
}

#[test]
fn leaf_addresses_put_page_number_and_offset_together() {
    let va = (0x155 << 30) | (0x0aa << 21) | (0x1fe << 12) | 0x123;
    let page = parse_pte(AddressingMode::Sv39, (0x80020 << 10) | V | R);
    assert_eq!(leaf_address(AddressingMode::Sv39, page, va, 0), Some(0x8002_0123));
    // A 2 MiB page at 0x80200000 and a 1 GiB page at 0x80000000.
    let mega = parse_pte(AddressingMode::Sv39, (0x80200 << 10) | V | R);
    assert_eq!(leaf_address(AddressingMode::Sv39, mega, va, 1), Some(0x8020_0000 + 0x1f_e123));
    let giga = parse_pte(AddressingMode::Sv39, (0x80000 << 10) | V | R);
    assert_eq!(
        leaf_address(AddressingMode::Sv39, giga, va, 2),
        Some(0x8000_0000 + (0x0aa << 21) + 0x1f_e123)
    );
    // A superpage whose low page number parts are not zero is misaligned.
    assert_eq!(leaf_address(AddressingMode::Sv39, page, va, 1), None);
    assert_eq!(leaf_address(AddressingMode::Sv39, mega, va, 2), None);
    assert_eq!(leaf_address(AddressingMode::Sv39, page, va, 3), None);
    let va32 = (0x2aa << 22) | (0x3fd << 12) | 0x456;
    let page32 = parse_pte(AddressingMode::Sv32, (0x80020 << 10) | V | R);
    assert_eq!(leaf_address(AddressingMode::Sv32, page32, va32, 0), Some(0x8002_0456));
    let mega32 = parse_pte(AddressingMode::Sv32, (0x80000 << 10) | V | R);
    assert_eq!(leaf_address(AddressingMode::Sv32, mega32, va32, 1), Some(0x8000_0000 + 0x3f_d456));
    assert_eq!(leaf_address(AddressingMode::Sv32, page32, va32, 1), None);
}

#[test]
fn sv39_identity_mapping_of_one_page() {
    let mut mmu = mmu64();
    mmu.bus.write8(0x8002_0123, 0xab).unwrap();
    sv39_identity(&mut mmu, V | R | W | X | A | D);
    assert_eq!(mmu.read8(0x8002_0123), Ok(0xab));
    assert_eq!(mmu.to_physical_address(0x8002_0fff, MemoryAccessType::Read), Ok(0x8002_0fff));
    assert_eq!(mmu.write32(0x8002_0200, 0x1357_9bdf), Ok(()));
    assert_eq!(mmu.bus.read32(0x8002_0200), Ok(0x1357_9bdf));
    assert_eq!(mmu.fetch32(0x8002_0200), Ok(0x1357_9bdf));
    // The next page is not mapped: its entry is zero.
    assert_eq!(mmu.read8(0x8002_1000), Err(load_fault(0x8002_1000)));
    assert_eq!(mmu.read8(0x8003_0000), Err(load_fault(0x8003_0000)));
    assert_eq!(mmu.write8(0x8003_0000, 1), Err(store_fault(0x8003_0000)));
    assert_eq!(mmu.fetch32(0x8003_0000), Err(fetch_fault(0x8003_0000)));
    // Nor is anything under another root entry.
    assert_eq!(mmu.read8(0x4002_0123), Err(load_fault(0x4002_0123)));
    // A load that crosses into the unmapped page fails at its second byte.
    assert_eq!(mmu.read16(0x8002_0fff), Err(load_fault(0x8002_1000)));
    // In user mode the same mapping applies; in machine mode none does.
    mmu.set_privilege(&Privilege::User);
    assert_eq!(mmu.read8(0x8002_0123), Ok(0xab));
    mmu.set_privilege(&Privilege::Machine);
    assert_eq!(mmu.read8(0x8003_0000), Ok(0));
    assert_eq!(mmu.read64(0x8001_2000 + 8 * 0x20), Ok((0x80020 << 10) | V | R | W | X | A | D));
}

#[test]
fn sv39_translation_to_another_page() {
    let mut mmu = mmu64();
    mmu.bus.write64(0x8001_0000, (0x80011 << 10) | V).unwrap();
    mmu.bus.write64(0x8001_1000, (0x80012 << 10) | V).unwrap();
    mmu.bus.write64(0x8001_2000 + 8, (0x80055 << 10) | V | R | W | A | D).unwrap();
    mmu.bus.write32(0x8005_5010, 0x600d_cafe).unwrap();
    mmu.update_addressing_mode((8 << 60) | 0x80010);
    mmu.set_privilege(&Privilege::Supervisor);
    assert_eq!(mmu.read32(0x1010), Ok(0x600d_cafe));
    assert_eq!(mmu.write8(0x1fff, 0x7e), Ok(()));
    assert_eq!(mmu.bus.read8(0x8005_5fff), Ok(0x7e));
    assert_eq!(mmu.to_physical_address(0x1abc, MemoryAccessType::Write), Ok(0x8005_5abc));
}

#[test]
fn an_invalid_entry_faults_for_every_kind_of_access() {
    for bad in [0u64, R | X | A, V | W, V | W | X, V | W | A | D] {
        let mut mmu = mmu64();
        sv39_identity(&mut mmu, bad | (if bad & V != 0 { A | D } else { 0 }));
        assert_eq!(mmu.read8(0x8002_0000), Err(load_fault(0x8002_0000)), "{:x}", bad);
        assert_eq!(mmu.read64(0x8002_0008), Err(load_fault(0x8002_0008)), "{:x}", bad);
        assert_eq!(mmu.write8(0x8002_0000, 1), Err(store_fault(0x8002_0000)), "{:x}", bad);
        assert_eq!(mmu.write32(0x8002_0004, 1), Err(store_fault(0x8002_0004)), "{:x}", bad);
        assert_eq!(mmu.fetch32(0x8002_0000), Err(fetch_fault(0x8002_0000)), "{:x}", bad);
        assert_eq!(mmu.bus.read8(0x8002_0000), Ok(0));
    }
    // An invalid entry at the root or in the middle faults too.
    let mut mmu = mmu64();
    sv39_identity(&mut mmu, V | R | W | X | A | D);
    mmu.bus.write64(0x8001_1000, (0x80012 << 10) | V | W).unwrap();
    assert_eq!(mmu.read8(0x8002_0000), Err(load_fault(0x8002_0000)));
    mmu.bus.write64(0x8001_1000, (0x80012 << 10) | V).unwrap();
    assert_eq!(mmu.read8(0x8002_0000), Ok(0));
    mmu.bus.write64(0x8001_0000 + 16, (0x80011 << 10) | R).unwrap();
    assert_eq!(mmu.fetch32(0x8002_0000), Err(fetch_fault(0x8002_0000)));
}

#[test]
fn a_pointer_at_the_last_level_faults() {
    let mut mmu = mmu64();
    sv39_identity(&mut mmu, V);
    assert_eq!(mmu.read8(0x8002_0000), Err(load_fault(0x8002_0000)));
    assert_eq!(mmu.page_waking(0x8002_0000, 0, 0x80012, &MemoryAccessType::Read), Err(()));
}

#[test]
fn permissions_are_checked_by_the_kind_of_access() {
    let mut mmu = mmu64();
    sv39_identity(&mut mmu, V | R | A | D);
    assert_eq!(mmu.read8(0x8002_0000), Ok(0));
    assert_eq!(mmu.write8(0x8002_0000, 1), Err(store_fault(0x8002_0000)));
    assert_eq!(mmu.fetch32(0x8002_0000), Err(fetch_fault(0x8002_0000)));
    let mut mmu = mmu64();
    sv39_identity(&mut mmu, V | X | A | D);
    assert_eq!(mmu.read8(0x8002_0000), Err(load_fault(0x8002_0000)));
    assert_eq!(mmu.write8(0x8002_0000, 1), Err(store_fault(0x8002_0000)));
    assert_eq!(mmu.fetch32(0x8002_0000), Ok(0));
    let mut mmu = mmu64();
    sv39_identity(&mut mmu, V | R | W | A | D);
    assert_eq!(mmu.write8(0x8002_0000, 1), Ok(()));
    assert_eq!(mmu.read8(0x8002_0000), Ok(1));
    assert_eq!(mmu.fetch8(0x8002_0000), Err(fetch_fault(0x8002_0000)));
}

#[test]
fn accessed_and_dirty_bits_are_set_by_the_walk() {
    let entry = 0x8001_2000 + 8 * 0x20;
    let mut mmu = mmu64();
    sv39_identity(&mut mmu, V | R | W | X);
    assert_eq!(mmu.read8(0x8002_0000), Ok(0));
    assert_eq!(mmu.bus.read64(entry), Ok((0x80020 << 10) | V | R | W | X | A));
    assert_eq!(mmu.fetch32(0x8002_0000), Ok(0));
    assert_eq!(mmu.bus.read64(entry), Ok((0x80020 << 10) | V | R | W | X | A));
    assert_eq!(mmu.write8(0x8002_0000, 1), Ok(()));
    assert_eq!(mmu.bus.read64(entry), Ok((0x80020 << 10) | V | R | W | X | A | D));
    // A refused access leaves the entry as it is.
    let mut mmu = mmu64();
    sv39_identity(&mut mmu, V | R);
    assert_eq!(mmu.write8(0x8002_0000, 1), Err(store_fault(0x8002_0000)));
    assert_eq!(mmu.bus.read64(entry), Ok((0x80020 << 10) | V | R));
    // The pointers on the way are not touched.
    assert_eq!(mmu.bus.read64(0x8001_1000), Ok((0x80012 << 10) | V));
}

#[test]
fn superpages_must_be_aligned() {
    let mut mmu = mmu64();
    // A 1 GiB page at the root: 0x80000000 onto itself.
    mmu.bus.write64(0x8001_0000 + 16, (0x80000 << 10) | V | R | W | X | A | D).unwrap();
    mmu.update_addressing_mode((8 << 60) | 0x80010);
    mmu.set_privilege(&Privilege::Supervisor);
    mmu.bus.write32(0x8123_4560, 0x0bad_f00d).unwrap();
    assert_eq!(mmu.read32(0x8123_4560), Ok(0x0bad_f00d));
    assert_eq!(mmu.to_physical_address(0x8fff_ffff, MemoryAccessType::Fetch), Ok(0x8fff_ffff));
    // The same entry with a low page number part set is misaligned.
    mmu.bus.write64(0x8001_0000 + 16, (0x80001 << 10) | V | R | W | X | A | D).unwrap();
    assert_eq!(mmu.read32(0x8123_4560), Err(load_fault(0x8123_4560)));
    mmu.bus.write64(0x8001_0000 + 16, (0x80200 << 10) | V | R | W | X | A | D).unwrap();
    assert_eq!(mmu.read32(0x8123_4560), Err(load_fault(0x8123_4560)));
    // A 2 MiB page at the second level.
    mmu.bus.write64(0x8001_0000 + 16, (0x80011 << 10) | V).unwrap();
    mmu.bus.write64(0x8001_1000 + 8 * 9, (0x80200 << 10) | V | R | A).unwrap();
    mmu.bus.write8(0x8021_2345, 0x99).unwrap();
    assert_eq!(mmu.read8(0x8121_2345), Ok(0x99));
}

#[test]
fn sv32_walks_two_levels_of_four_byte_entries() {
    let mut mmu = Mmu::new(Xlen::X32, Machine::QemuVirt, Box::new(TtyDummy::new()));
    // The tables at 0x80010000 and 0x80011000 map 0x00400000 to 0x80020000.
    mmu.bus.write32(0x8001_0000 + 4, (0x80011 << 10) | 1).unwrap();
    mmu.bus.write32(0x8001_1000, (0x80020u32 << 10) | 0xcf).unwrap();
    mmu.bus.write32(0x8002_0ffc, 0x5a5a_a5a5).unwrap();
    mmu.update_addressing_mode(0x8000_0000 | 0x80010);
    assert_eq!(mmu.addressing_mode, AddressingMode::Sv32);
    mmu.set_privilege(&Privilege::User);
    assert_eq!(mmu.read32(0x0040_0ffc), Ok(0x5a5a_a5a5));
    assert_eq!(mmu.read32(0xffff_ffff_0040_0ffc), Ok(0x5a5a_a5a5));
    assert_eq!(mmu.read8(0x0040_1000), Err(load_fault(0x0040_1000)));
    assert_eq!(mmu.read8(0xffff_ffff_0080_0000), Err(load_fault(0x0080_0000)));
    // A 4 MiB page.
    mmu.bus.write32(0x8001_0000 + 8, (0x80000u32 << 10) | 0xcf).unwrap();
    assert_eq!(mmu.read32(0x0082_0ffc), Ok(0x5a5a_a5a5));
    mmu.bus.write32(0x8001_0000 + 8, (0x80001u32 << 10) | 0xcf).unwrap();
    assert_eq!(mmu.read32(0x0082_0ffc), Err(load_fault(0x0082_0ffc)));
}

#[test]
fn an_entry_outside_memory_is_a_fault() {
    let mut mmu = mmu64();
    mmu.update_addressing_mode((8 << 60) | 0x123);
    mmu.set_privilege(&Privilege::Supervisor);
    assert_eq!(mmu.read8(0x8000_0000), Err(load_fault(0x8000_0000)));
    assert_eq!(mmu.to_physical_address(0, MemoryAccessType::Read), Err(()));
    assert_eq!(mmu.pte_read64(0x123_000), Err(()));
    assert_eq!(mmu.pte_read32(0x8000_0000), Ok(0));
    assert_eq!(mmu.pte_write32(0x123_000, 1), Err(()));
    assert_eq!(mmu.pte_write64(0x8000_0000, 0x0102_0304_0506_0708), Ok(()));
    assert_eq!(mmu.pte_read64(0x8000_0000), Ok(0x0102_0304_0506_0708));
}

#[test]
fn reservations_are_a_set_of_addresses() {
    let mut mmu = mmu64();
    assert!(!mmu.is_address_reserved(0x8000_0000));
    mmu.set_address_reserve(0x8000_0000, true);
    mmu.set_address_reserve(0x8000_0008, true);
    mmu.set_address_reserve(0x8000_0000, true);
    assert!(mmu.is_address_reserved(0x8000_0000));
    assert!(mmu.is_address_reserved(0x8000_0008));
    assert!(!mmu.is_address_reserved(0x8000_0004));
    mmu.set_address_reserve(0x8000_0000, false);
    assert!(!mmu.is_address_reserved(0x8000_0000));
    assert!(mmu.is_address_reserved(0x8000_0008));
    mmu.set_address_reserve(0x8000_0004, false);
    assert_eq!(mmu.reserved_address.len(), 1);
    // Reserving through a virtual address reserves what it translates to.
    let mut mmu = mmu64();
    sv39_identity(&mut mmu, V | R | A);
    mmu.bus.write64(0x8001_2000 + 8 * 0x21, (0x80020 << 10) | V | R | A).unwrap();
    mmu.reserve(0x8002_1008);
    assert!(mmu.is_address_reserved(0x8002_0008));
    assert!(!mmu.is_address_reserved(0x8002_1008));
    mmu.reserve(0x8003_0000);
    assert_eq!(mmu.reserved_address.len(), 1);
}

#[test]
fn the_effective_address_has_xlen_bits() {
    let mut mmu = Mmu::new(Xlen::X32, Machine::QemuVirt, Box::new(TtyDummy::new()));
    assert_eq!(mmu.to_effective_address(0xffff_ffff_8000_0000), 0x8000_0000);
    assert_eq!(mmu.write32(0xffff_ffff_8000_0000, 0x1234_5678), Ok(()));
    assert_eq!(mmu.read32(0x8000_0000), Ok(0x1234_5678));
    assert_eq!(mmu.read8(0xffff_ffff_0000_0010), Err(load_fault(0x10)));
    mmu.set_xlen(&Xlen::X64);
    assert_eq!(mmu.to_effective_address(0xffff_ffff_8000_0000), 0xffff_ffff_8000_0000);
    assert_eq!(
        mmu.read32(0xffff_ffff_8000_0000),
        Err(load_fault(0xffff_ffff_8000_0000))
    );
}
